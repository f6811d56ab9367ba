use vstd::prelude::*;
use vstd::string::*;

verus! {

/// The pieces of `s` between occurrences of `sep`, from left to right. There
/// is always at least one piece; an empty string gives one empty piece.
pub open spec fn split_spec(s: Seq<char>, sep: char) -> Seq<Seq<char>>
    decreases s.len(),
{
    if s.len() == 0 {
        seq![Seq::<char>::empty()]
    } else {
        let rest = split_spec(s.drop_last(), sep);
        if s.last() == sep {
            rest.push(Seq::<char>::empty())
        } else {
            rest.update(rest.len() - 1, rest.last().push(s.last()))
        }
    }
}

/// The views of a vector of strings.
pub open spec fn views(v: Seq<String>) -> Seq<Seq<char>> {
    v.map_values(|p: String| p@)
}

/// Splits `s` at every `sep`.
pub fn split_by(s: &str, sep: char) -> (r: Vec<String>)
    ensures
        views(r@) == split_spec(s@, sep),
{
    let n = s.unicode_len();
    let mut parts: Vec<String> = Vec::new();
    let mut start: usize = 0;
    let mut j: usize = 0;
    proof {
        assert(s@.subrange(0, 0) =~= Seq::<char>::empty());
        assert(views(parts@).push(s@.subrange(0, 0)) =~= seq![Seq::<char>::empty()]);
    }
    while j < n
        invariant
            n == s@.len(),
            start <= j <= n,
            split_spec(s@.subrange(0, j as int), sep) == views(parts@).push(
                s@.subrange(start as int, j as int),
            ),
        decreases n - j,
    {
        let c = s.get_char(j);
        let ghost prev = views(parts@);
        proof {
            assert(s@.subrange(0, j + 1).drop_last() =~= s@.subrange(0, j as int));
            assert(s@.subrange(0, j + 1).last() == c);
        }
        if c == sep {
            let ghost old_start = start;
            let piece = String::from_str(s.substring_char(start, j));
            parts.push(piece);
            start = j + 1;
            proof {
                assert(views(parts@) =~= prev.push(s@.subrange(old_start as int, j as int)));
                assert(s@.subrange(start as int, j + 1) =~= Seq::<char>::empty());
                assert(split_spec(s@.subrange(0, j + 1), sep) =~= views(parts@).push(
                    s@.subrange(start as int, j + 1),
                ));
            }
        } else {
            proof {
                assert(s@.subrange(start as int, j + 1) =~= s@.subrange(start as int, j as int).push(c));
                assert(split_spec(s@.subrange(0, j + 1), sep) =~= views(parts@).push(
                    s@.subrange(start as int, j + 1),
                ));
            }
        }
        j = j + 1;
    }
    let piece = String::from_str(s.substring_char(start, n));
    let ghost prev = views(parts@);
    parts.push(piece);
    proof {
        assert(s@.subrange(0, n as int) =~= s@);
        assert(views(parts@) =~= prev.push(s@.subrange(start as int, n as int)));
    }
    parts
}

/// Whether `item` is one of the strings of `v`.
pub fn contains_str(v: &Vec<String>, item: &str) -> (r: bool)
    ensures
        r == views(v@).contains(item@),
{
    let mut i: usize = 0;
    while i < v.len()
        invariant
            i <= v.len(),
            forall|k: int| 0 <= k < i ==> v@[k]@ != item@,
        decreases v.len() - i,
    {
        if str_eq(v[i].as_str(), item) {
            proof {
                assert(views(v@)[i as int] == item@);
            }
            return true;
        }
        i = i + 1;
    }
    proof {
        if views(v@).contains(item@) {
            let k = choose|k: int| 0 <= k < views(v@).len() && views(v@)[k] == item@;
            assert(v@[k]@ == item@);
        }
    }
    false
}

/// Character-by-character equality of two strings.
pub fn str_eq(a: &str, b: &str) -> (r: bool)
    ensures
        r == (a@ == b@),
{
    let n = a.unicode_len();
    let m = b.unicode_len();
    if n != m {
        return false;
    }
    let mut i: usize = 0;
    while i < n
        invariant
            n == a@.len(),
            m == b@.len(),
            n == m,
            i <= n,
            forall|k: int| 0 <= k < i ==> a@[k] == b@[k],
        decreases n - i,
    {
        if a.get_char(i) != b.get_char(i) {
            return false;
        }
        i = i + 1;
    }
    proof {
        assert(a@ =~= b@);
    }
    true
}

} // verus!
