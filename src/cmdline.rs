use vstd::prelude::*;
use vstd::string::*;

verus! {

/// Why a fragment could not be added to a kernel command line.
#[derive(Clone, Copy, Debug, PartialEq, Eq, Structural)]
pub enum CmdlineError {
    /// The fragment holds a character outside printable ASCII.
    InvalidAscii,
    /// The line would not fit its capacity, with room for the final NUL.
    TooLarge,
}

/// Printable ASCII, the space included.
pub open spec fn valid_char(c: char) -> bool {
    ' ' <= c && c <= '~'
}

pub open spec fn valid_str(s: Seq<char>) -> bool {
    forall|i: int| 0 <= i < s.len() ==> valid_char(#[trigger] s[i])
}

/// The line after appending `s` to `line`, separated by a space where
/// `line` is not empty.
pub open spec fn appended(line: Seq<char>, s: Seq<char>) -> Seq<char> {
    if line.len() == 0 {
        s
    } else {
        line + seq![' '] + s
    }
}

/// The outcome of inserting `s` into `line`, a line of capacity `capacity`.
pub open spec fn insert_spec(line: Seq<char>, capacity: nat, s: Seq<char>) -> Result<
    Seq<char>,
    CmdlineError,
> {
    if !valid_str(s) {
        Err(CmdlineError::InvalidAscii)
    } else if appended(line, s).len() >= capacity {
        Err(CmdlineError::TooLarge)
    } else {
        Ok(appended(line, s))
    }
}

pub fn is_valid_str(s: &str) -> (r: bool)
    ensures
        r == valid_str(s@),
{
    let n = s.unicode_len();
    let mut i: usize = 0;
    while i < n
        invariant
            n == s@.len(),
            i <= n,
            forall|k: int| 0 <= k < i ==> valid_char(s@[k]),
        decreases n - i,
    {
        let c = s.get_char(i);
        if !(' ' <= c && c <= '~') {
            return false;
        }
        i = i + 1;
    }
    true
}

/// A kernel command line of bounded length, made of printable ASCII.
pub struct Cmdline {
    line: String,
    capacity: usize,
}

impl Cmdline {
    pub closed spec fn line_view(&self) -> Seq<char> {
        self.line@
    }

    pub closed spec fn capacity_view(&self) -> nat {
        self.capacity as nat
    }

    pub closed spec fn wf(&self) -> bool {
        &&& valid_str(self.line@)
        &&& self.line@.len() < self.capacity
    }

    /// An empty line that can hold up to `capacity - 1` characters.
    pub fn new(capacity: usize) -> (r: Cmdline)
        requires
            capacity > 0,
        ensures
            r.wf(),
            r.line_view() == Seq::<char>::empty(),
            r.capacity_view() == capacity,
    {
        Cmdline { line: String::new(), capacity }
    }

    /// Appends `slug`, after a space where the line is not empty.
    pub fn insert_str(&mut self, slug: &str) -> (r: Result<(), CmdlineError>)
        requires
            old(self).wf(),
        ensures
            final(self).wf(),
            final(self).capacity_view() == old(self).capacity_view(),
            match insert_spec(old(self).line_view(), old(self).capacity_view(), slug@) {
                Ok(l) => r is Ok && final(self).line_view() == l,
                Err(e) => r == Err::<(), CmdlineError>(e) && final(self).line_view()
                    == old(self).line_view(),
            },
    {
        if !is_valid_str(slug) {
            return Err(CmdlineError::InvalidAscii);
        }
        let n = slug.unicode_len();
        let len = self.line.as_str().unicode_len();
        let needs_space: usize = if len == 0 {
            0
        } else {
            1
        };
        if n >= self.capacity || self.capacity - n <= len + needs_space {
            return Err(CmdlineError::TooLarge);
        }
        if len > 0 {
            self.line.append(" ");
            proof {
                reveal_strlit(" ");
            }
        }
        self.line.append(slug);
        proof {
            assert(self.line@ =~= appended(old(self).line@, slug@));
        }
        Ok(())
    }

    /// The line.
    pub fn as_str(&self) -> (r: &str)
        ensures
            r@ == self.line_view(),
    {
        self.line.as_str()
    }
}

} // verus!
