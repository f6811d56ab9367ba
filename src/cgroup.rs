use vstd::prelude::*;
use vstd::string::*;

use crate::text::{contains_str, split_by, split_spec, str_eq, views};

verus! {

#[verifier::external_type_specification]
#[verifier::external_body]
pub struct ExRegexError(regex::Error);

pub const PROC_MOUNTS: &'static str = "/proc/mounts";

/// A cgroup v1 line of the mount table: `cgroup <dir> cgroup <options> 0 0`.
pub const MOUNT_LINE_PATTERN: &'static str =
    r"^cgroup[[:space:]](?P<dir>.*)[[:space:]]cgroup[[:space:]](?P<options>.*)[[:space:]]0[[:space:]]0$";

pub const CONTROLLER_CPU: &'static str = "cpu";
pub const CONTROLLER_CPUSET: &'static str = "cpuset";
pub const CONTROLLER_PIDS: &'static str = "pids";
pub const CPUSET_CPUS: &'static str = "cpuset.cpus";
pub const CPUSET_MEMS: &'static str = "cpuset.mems";
pub const TASKS_FILE: &'static str = "tasks";

/// The number of controllers the jail is set up under.
pub const CONTROLLER_COUNT: usize = 3;

/// The controllers, in the order they are looked for and set up.
pub open spec fn controller_spec(k: int) -> Seq<char> {
    if k == 0 {
        CONTROLLER_CPU@
    } else if k == 1 {
        CONTROLLER_CPUSET@
    } else {
        CONTROLLER_PIDS@
    }
}

pub fn controller(k: usize) -> (r: &'static str)
    requires
        k < CONTROLLER_COUNT,
    ensures
        r@ == controller_spec(k as int),
{
    if k == 0 {
        CONTROLLER_CPU
    } else if k == 1 {
        CONTROLLER_CPUSET
    } else {
        CONTROLLER_PIDS
    }
}

/// Why the jail's cgroups could not be planned or set up.
#[derive(Debug)]
pub enum JailerError {
    /// The parent's copy of the file stayed empty, also after one try at the
    /// level above: (leaf directory, file name).
    CgroupInheritFromParent(Vec<String>, String),
    /// No line of the mount table mounts this controller.
    CgroupLineNotFound(&'static str, &'static str),
    /// Two lines of the mount table mount this controller.
    CgroupLineNotUnique(&'static str, &'static str),
    /// The file could not be read.
    ReadToString(Vec<String>),
    /// The mount-table pattern did not compile.
    RegEx(regex::Error),
    /// The file could not be written.
    Write(Vec<String>),
}

/// The first two capture groups of the first match of `pattern` in `line`, as
/// the `regex` crate finds them; `None` where the line does not match.
pub uninterp spec fn regex_two_groups(pattern: Seq<char>, line: Seq<char>) -> Option<
    (Option<Seq<char>>, Option<Seq<char>>),
>;

pub open spec fn opt_view(o: Option<String>) -> Option<Seq<char>> {
    match o {
        Some(s) => Some(s@),
        None => None,
    }
}

pub open spec fn groups_view(g: Option<(Option<String>, Option<String>)>) -> Option<
    (Option<Seq<char>>, Option<Seq<char>>),
> {
    match g {
        Some((a, b)) => Some((opt_view(a), opt_view(b))),
        None => None,
    }
}

/// Relies on `regex::Regex::new`, which compiles `pattern`, and on
/// `Regex::captures`, which gives the groups of its first match in `line`.
/// `Regex::new` fails only on a pattern that is invalid or over the size
/// limit, which the mount-line pattern is not.
#[verifier::external_body]
fn regex_groups(pattern: &str, line: &str) -> (r: Result<
    Option<(Option<String>, Option<String>)>,
    regex::Error,
>)
    ensures
        r matches Ok(g) ==> groups_view(g) == regex_two_groups(pattern@, line@),
        pattern@ == MOUNT_LINE_PATTERN@ ==> r is Ok,
{
    let re = regex::Regex::new(pattern)?;
    Ok(
        re.captures(line).map(
            |c| (c.get(1).map(|m| m.as_str().to_string()), c.get(2).map(|m| m.as_str().to_string())),
        ),
    )
}

/// The mount directory and the option list of a cgroup line; `None` for any
/// other line.
pub open spec fn mount_groups(line: Seq<char>) -> Option<(Seq<char>, Seq<char>)> {
    match regex_two_groups(MOUNT_LINE_PATTERN@, line) {
        Some((Some(dir), Some(options))) => Some((dir, options)),
        _ => None,
    }
}

pub open spec fn found_view(v: Seq<Option<String>>) -> Seq<Option<Seq<char>>> {
    v.map_values(|o: Option<String>| opt_view(o))
}

/// Records `dir` for each controller, from the `k`-th on, that the option
/// list `opts` names; `Err(c)` where controller `c` was already recorded.
pub open spec fn record_from(
    found: Seq<Option<Seq<char>>>,
    dir: Seq<char>,
    opts: Seq<Seq<char>>,
    k: int,
) -> Result<Seq<Option<Seq<char>>>, int>
    decreases 3 - k,
{
    if k >= 3 {
        Ok(found)
    } else if opts.contains(controller_spec(k)) {
        if found[k] is Some {
            Err(k)
        } else {
            record_from(found.update(k, Some(dir)), dir, opts, k + 1)
        }
    } else {
        record_from(found, dir, opts, k + 1)
    }
}

/// The directories found by reading the mount table `lines` in order, one
/// entry per controller; `Err(c)` when controller `c` is mounted twice.
pub open spec fn scan_mounts(lines: Seq<Seq<char>>) -> Result<Seq<Option<Seq<char>>>, int>
    decreases lines.len(),
{
    if lines.len() == 0 {
        Ok(seq![None, None, None])
    } else {
        match scan_mounts(lines.drop_last()) {
            Err(c) => Err(c),
            Ok(found) => match mount_groups(lines.last()) {
                None => Ok(found),
                Some((dir, options)) => record_from(found, dir, split_spec(options, ','), 0),
            },
        }
    }
}

/// Once reading a prefix of the mount table has failed, reading all of it
/// fails in the same way.
pub proof fn lemma_scan_error_stays(lines: Seq<Seq<char>>, i: int)
    requires
        0 <= i <= lines.len(),
        scan_mounts(lines.subrange(0, i)) is Err,
    ensures
        scan_mounts(lines) == scan_mounts(lines.subrange(0, i)),
    decreases lines.len() - i,
{
    if i == lines.len() {
        assert(lines.subrange(0, i) =~= lines);
    } else {
        assert(lines.subrange(0, i + 1).drop_last() =~= lines.subrange(0, i));
        lemma_scan_error_stays(lines, i + 1);
    }
}

/// The mount directory of each controller, as far as the mount table has
/// been read.
pub struct ControllerMounts {
    pub dirs: Vec<Option<String>>,
}

impl ControllerMounts {
    pub fn new() -> (r: ControllerMounts)
        ensures
            r.dirs@.len() == CONTROLLER_COUNT,
            found_view(r.dirs@) == seq![None::<Seq<char>>, None, None],
    {
        let dirs: Vec<Option<String>> = vec![None, None, None];
        proof {
            assert(found_view(dirs@) =~= seq![None::<Seq<char>>, None, None]);
        }
        ControllerMounts { dirs }
    }

    /// Takes one cgroup mount line, already split into its directory and its
    /// comma-separated option list.
    pub fn record(&mut self, dir: &str, options: &str) -> (r: Result<(), JailerError>)
        requires
            old(self).dirs@.len() == CONTROLLER_COUNT,
        ensures
            final(self).dirs@.len() == CONTROLLER_COUNT,
            match record_from(found_view(old(self).dirs@), dir@, split_spec(options@, ','), 0) {
                Ok(found) => r is Ok && found_view(final(self).dirs@) == found,
                Err(c) => r matches Err(JailerError::CgroupLineNotUnique(f, name)) && f@ == PROC_MOUNTS@
                    && name@ == controller_spec(c),
            },
    {
        let opts = split_by(options, ',');
        let mut k: usize = 0;
        while k < CONTROLLER_COUNT
            invariant
                k <= CONTROLLER_COUNT,
                self.dirs@.len() == CONTROLLER_COUNT,
                views(opts@) == split_spec(options@, ','),
                record_from(found_view(old(self).dirs@), dir@, views(opts@), 0) == record_from(
                    found_view(self.dirs@),
                    dir@,
                    views(opts@),
                    k as int,
                ),
            decreases CONTROLLER_COUNT - k,
        {
            let name = controller(k);
            if contains_str(&opts, name) {
                if self.dirs[k].is_some() {
                    return Err(JailerError::CgroupLineNotUnique(PROC_MOUNTS, name));
                }
                let ghost before = found_view(self.dirs@);
                self.dirs.set(k, Some(String::from_str(dir)));
                proof {
                    assert(found_view(self.dirs@) =~= before.update(k as int, Some(dir@)));
                }
            }
            k = k + 1;
        }
        Ok(())
    }
}

/// The pieces of a path that are not empty, in order.
pub open spec fn nonempty_pieces(ps: Seq<Seq<char>>) -> Seq<Seq<char>>
    decreases ps.len(),
{
    if ps.len() == 0 {
        ps
    } else if ps.last().len() == 0 {
        nonempty_pieces(ps.drop_last())
    } else {
        nonempty_pieces(ps.drop_last()).push(ps.last())
    }
}

/// The components of the slash-separated path `s`.
pub open spec fn path_components(s: Seq<char>) -> Seq<Seq<char>> {
    nonempty_pieces(split_spec(s, '/'))
}

pub fn components_of(s: &str) -> (r: Vec<String>)
    ensures
        views(r@) == path_components(s@),
{
    let pieces = split_by(s, '/');
    let mut out: Vec<String> = Vec::new();
    let mut i: usize = 0;
    while i < pieces.len()
        invariant
            i <= pieces.len(),
            views(out@) == nonempty_pieces(views(pieces@).subrange(0, i as int)),
        decreases pieces.len() - i,
    {
        proof {
            assert(views(pieces@).subrange(0, i + 1).drop_last() =~= views(pieces@).subrange(
                0,
                i as int,
            ));
        }
        if pieces[i].unicode_len() > 0 {
            let ghost before = views(out@);
            out.push(pieces[i].clone());
            proof {
                assert(views(out@) =~= before.push(pieces@[i as int]@));
            }
        }
        i = i + 1;
    }
    proof {
        assert(views(pieces@).subrange(0, pieces@.len() as int) =~= views(pieces@));
    }
    out
}

pub fn copy_path(p: &Vec<String>) -> (r: Vec<String>)
    ensures
        views(r@) == views(p@),
{
    let mut out: Vec<String> = Vec::new();
    let mut i: usize = 0;
    while i < p.len()
        invariant
            i <= p.len(),
            views(out@) == views(p@).subrange(0, i as int),
        decreases p.len() - i,
    {
        let ghost before = views(out@);
        out.push(p[i].clone());
        proof {
            assert(views(out@) =~= before.push(p@[i as int]@));
            assert(views(out@) =~= views(p@).subrange(0, i + 1));
        }
        i = i + 1;
    }
    proof {
        assert(views(p@).subrange(0, p@.len() as int) =~= views(p@));
    }
    out
}

pub fn push_component(p: &Vec<String>, c: &str) -> (r: Vec<String>)
    ensures
        views(r@) == views(p@).push(c@),
{
    let mut out = copy_path(p);
    let ghost before = views(out@);
    out.push(String::from_str(c));
    proof {
        assert(views(out@) =~= before.push(c@));
    }
    out
}

pub fn paths_equal(a: &Vec<String>, b: &Vec<String>) -> (r: bool)
    ensures
        r == (views(a@) == views(b@)),
{
    if a.len() != b.len() {
        proof {
            assert(views(a@).len() != views(b@).len());
        }
        return false;
    }
    let mut i: usize = 0;
    while i < a.len()
        invariant
            a.len() == b.len(),
            i <= a.len(),
            forall|k: int| 0 <= k < i ==> a@[k]@ == b@[k]@,
        decreases a.len() - i,
    {
        if !str_eq(a[i].as_str(), b[i].as_str()) {
            proof {
                assert(views(a@)[i as int] != views(b@)[i as int]);
            }
            return false;
        }
        i = i + 1;
    }
    proof {
        assert(views(a@) =~= views(b@));
    }
    true
}


pub open spec fn paths_view(v: Seq<Vec<String>>) -> Seq<Seq<Seq<char>>> {
    v.map_values(|p: Vec<String>| views(p@))
}

pub fn contains_path(ps: &Vec<Vec<String>>, p: &Vec<String>) -> (r: bool)
    ensures
        r == paths_view(ps@).contains(views(p@)),
{
    let mut i: usize = 0;
    while i < ps.len()
        invariant
            i <= ps.len(),
            forall|k: int| 0 <= k < i ==> views(ps@[k]@) != views(p@),
        decreases ps.len() - i,
    {
        if paths_equal(&ps[i], p) {
            proof {
                assert(paths_view(ps@)[i as int] == views(p@));
            }
            return true;
        }
        i = i + 1;
    }
    proof {
        if paths_view(ps@).contains(views(p@)) {
            let k = choose|k: int|
                0 <= k < paths_view(ps@).len() && paths_view(ps@)[k] == views(p@);
            assert(views(ps@[k]@) == views(p@));
        }
    }
    false
}

/// One piece of file-system work of the jail set-up.
pub enum SetupStep {
    /// Create this directory and its missing ancestors.
    CreateDir(Vec<String>),
    /// Give the named file of this directory the value of the parent
    /// directory's file of that name (see `inherit_from_parent`).
    Inherit(Vec<String>, &'static str),
    /// Write this number, and a line break, into the file.
    WriteValue(Vec<String>, u32),
}

pub enum StepView {
    CreateDir(Seq<Seq<char>>),
    Inherit(Seq<Seq<char>>, Seq<char>),
    WriteValue(Seq<Seq<char>>, u32),
}

pub open spec fn step_view(s: SetupStep) -> StepView {
    match s {
        SetupStep::CreateDir(p) => StepView::CreateDir(views(p@)),
        SetupStep::Inherit(p, f) => StepView::Inherit(views(p@), f@),
        SetupStep::WriteValue(p, v) => StepView::WriteValue(views(p@), v),
    }
}

pub open spec fn steps_view(v: Seq<SetupStep>) -> Seq<StepView> {
    v.map_values(|s: SetupStep| step_view(s))
}

/// The directory the jail gets under the mount directory `dir`.
pub open spec fn leaf_dir(dir: Seq<char>, exec_file_name: Seq<char>, id: Seq<char>) -> Seq<
    Seq<char>,
> {
    path_components(dir).push(exec_file_name).push(id)
}

/// The work for controller `k` with jail directory `leaf`: the directory is
/// created; under `cpuset` the CPU and memory-node lists are taken over from
/// the parent and the memory node list is then set to `numa_node`.
pub open spec fn controller_steps(k: int, leaf: Seq<Seq<char>>, numa_node: u32) -> Seq<StepView> {
    if k == 1 {
        seq![
            StepView::CreateDir(leaf),
            StepView::Inherit(leaf, CPUSET_CPUS@),
            StepView::Inherit(leaf, CPUSET_MEMS@),
            StepView::WriteValue(leaf.push(CPUSET_MEMS@), numa_node),
        ]
    } else {
        seq![StepView::CreateDir(leaf)]
    }
}

/// The work for the first `k` controllers, in controller order.
pub open spec fn setup_steps(
    found: Seq<Option<Seq<char>>>,
    exec_file_name: Seq<char>,
    id: Seq<char>,
    numa_node: u32,
    k: int,
) -> Seq<StepView>
    decreases k,
{
    if k <= 0 {
        Seq::empty()
    } else {
        setup_steps(found, exec_file_name, id, numa_node, k - 1) + controller_steps(
            k - 1,
            leaf_dir(found[k - 1]->0, exec_file_name, id),
            numa_node,
        )
    }
}

/// The `tasks` files of the first `k` controllers, each once, in controller
/// order.
pub open spec fn tasks_files_spec(
    found: Seq<Option<Seq<char>>>,
    exec_file_name: Seq<char>,
    id: Seq<char>,
    k: int,
) -> Seq<Seq<Seq<char>>>
    decreases k,
{
    if k <= 0 {
        Seq::empty()
    } else {
        let before = tasks_files_spec(found, exec_file_name, id, k - 1);
        let t = leaf_dir(found[k - 1]->0, exec_file_name, id).push(TASKS_FILE@);
        if before.contains(t) {
            before
        } else {
            before.push(t)
        }
    }
}

/// The first controller that the mount table does not mount.
pub open spec fn first_missing(found: Seq<Option<Seq<char>>>) -> int {
    if found[0] is None {
        0
    } else if found[1] is None {
        1
    } else if found[2] is None {
        2
    } else {
        3
    }
}

/// The `tasks` files of the jail's cgroups: writing a process id into each
/// moves that process into the jail.
pub struct Cgroup {
    tasks_files: Vec<Vec<String>>,
}

/// The jail's cgroups and the file-system work that creates them.
pub struct CgroupSetup {
    pub cgroup: Cgroup,
    pub steps: Vec<SetupStep>,
}

impl Cgroup {
    pub closed spec fn tasks_view(&self) -> Seq<Seq<Seq<char>>> {
        paths_view(self.tasks_files@)
    }

    /// The `tasks` files, as path components below the root.
    pub fn tasks_files(&self) -> (r: &Vec<Vec<String>>)
        ensures
            paths_view(r@) == self.tasks_view(),
    {
        &self.tasks_files
    }

    /// Plans the jail of instance `id` from the lines of the mount table:
    /// each of the `cpu`, `cpuset` and `pids` controllers must be mounted by
    /// exactly one cgroup line, and gets the directory
    /// `<mount>/<exec_file_name>/<id>`.
    pub fn new(mount_lines: &Vec<String>, id: &str, numa_node: u32, exec_file_name: &str) -> (r:
        Result<CgroupSetup, JailerError>)
        ensures
            r matches Ok(setup) ==> {
                &&& scan_mounts(views(mount_lines@)) matches Ok(found)
                &&& first_missing(found) == 3
                &&& steps_view(setup.steps@) == setup_steps(
                    found,
                    exec_file_name@,
                    id@,
                    numa_node,
                    3,
                )
                &&& setup.cgroup.tasks_view() == tasks_files_spec(found, exec_file_name@, id@, 3)
            },
            r matches Err(JailerError::CgroupLineNotUnique(f, c)) ==> {
                &&& scan_mounts(views(mount_lines@)) matches Err(k)
                &&& f@ == PROC_MOUNTS@
                &&& c@ == controller_spec(k)
            },
            r matches Err(JailerError::CgroupLineNotFound(f, c)) ==> {
                &&& scan_mounts(views(mount_lines@)) matches Ok(found)
                &&& first_missing(found) < 3
                &&& f@ == PROC_MOUNTS@
                &&& c@ == controller_spec(first_missing(found))
            },
            r is Err ==> r matches Err(JailerError::CgroupLineNotUnique(_, _)) || r matches Err(
                JailerError::CgroupLineNotFound(_, _),
            ),
            r is Ok <==> (scan_mounts(views(mount_lines@)) matches Ok(found) && first_missing(found)
                == 3),
            scan_mounts(views(mount_lines@)) is Err ==> r matches Err(
                JailerError::CgroupLineNotUnique(_, _),
            ),
            (scan_mounts(views(mount_lines@)) matches Ok(found) && first_missing(found) < 3) ==> r
                matches Err(JailerError::CgroupLineNotFound(_, _)),
    {
        let mut mounts = ControllerMounts::new();
        let mut i: usize = 0;
        proof {
            assert(views(mount_lines@).subrange(0, 0) =~= Seq::<Seq<char>>::empty());
        }
        while i < mount_lines.len()
            invariant
                i <= mount_lines.len(),
                mounts.dirs@.len() == CONTROLLER_COUNT,
                scan_mounts(views(mount_lines@).subrange(0, i as int)) == Ok::<
                    Seq<Option<Seq<char>>>,
                    int,
                >(found_view(mounts.dirs@)),
            decreases mount_lines.len() - i,
        {
            let ghost pre = views(mount_lines@).subrange(0, i + 1);
            proof {
                assert(pre.drop_last() =~= views(mount_lines@).subrange(0, i as int));
                assert(pre.last() == mount_lines@[i as int]@);
            }
            match regex_groups(MOUNT_LINE_PATTERN, mount_lines[i].as_str()) {
                Err(e) => {
                    return Err(JailerError::RegEx(e));
                },
                Ok(Some((Some(dir), Some(options)))) => {
                    let res = mounts.record(dir.as_str(), options.as_str());
                    if let Err(e) = res {
                        proof {
                            lemma_scan_error_stays(views(mount_lines@), i + 1);
                        }
                        return Err(e);
                    }
                },
                Ok(_) => {},
            }
            i = i + 1;
        }
        proof {
            assert(views(mount_lines@).subrange(0, mount_lines@.len() as int) =~= views(
                mount_lines@,
            ));
        }
        let ghost found = found_view(mounts.dirs@);
        let mut k: usize = 0;
        while k < CONTROLLER_COUNT
            invariant
                k <= CONTROLLER_COUNT,
                mounts.dirs@.len() == CONTROLLER_COUNT,
                found == found_view(mounts.dirs@),
                scan_mounts(views(mount_lines@)) == Ok::<Seq<Option<Seq<char>>>, int>(found),
                forall|j: int| 0 <= j < k ==> found[j] is Some,
            decreases CONTROLLER_COUNT - k,
        {
            if mounts.dirs[k].is_none() {
                assert(found[k as int] is None);
                return Err(JailerError::CgroupLineNotFound(PROC_MOUNTS, controller(k)));
            }
            k = k + 1;
        }
        let mut steps: Vec<SetupStep> = Vec::new();
        let mut tasks_files: Vec<Vec<String>> = Vec::new();
        let mut k: usize = 0;
        while k < CONTROLLER_COUNT
            invariant
                k <= CONTROLLER_COUNT,
                mounts.dirs@.len() == CONTROLLER_COUNT,
                found == found_view(mounts.dirs@),
                scan_mounts(views(mount_lines@)) == Ok::<Seq<Option<Seq<char>>>, int>(found),
                forall|j: int| 0 <= j < 3 ==> found[j] is Some,
                steps_view(steps@) == setup_steps(found, exec_file_name@, id@, numa_node, k as int),
                paths_view(tasks_files@) == tasks_files_spec(found, exec_file_name@, id@, k as int),
            decreases CONTROLLER_COUNT - k,
        {
            assert(found[k as int] == opt_view(mounts.dirs@[k as int]));
            let dir = match &mounts.dirs[k] {
                Some(d) => d,
                None => {
                    return Err(JailerError::CgroupLineNotFound(PROC_MOUNTS, controller(k)));
                },
            };
            let base = components_of(dir.as_str());
            let with_exec = push_component(&base, exec_file_name);
            let leaf = push_component(&with_exec, id);
            let ghost lv = views(leaf@);
            assert(lv == leaf_dir(found[k as int]->0, exec_file_name@, id@));
            let ghost before = steps_view(steps@);
            steps.push(SetupStep::CreateDir(copy_path(&leaf)));
            if k == 1 {
                steps.push(SetupStep::Inherit(copy_path(&leaf), CPUSET_CPUS));
                steps.push(SetupStep::Inherit(copy_path(&leaf), CPUSET_MEMS));
                steps.push(SetupStep::WriteValue(push_component(&leaf, CPUSET_MEMS), numa_node));
            }
            proof {
                assert(steps_view(steps@) =~= before + controller_steps(k as int, lv, numa_node));
            }
            let tasks = push_component(&leaf, TASKS_FILE);
            let ghost tbefore = paths_view(tasks_files@);
            if !contains_path(&tasks_files, &tasks) {
                tasks_files.push(tasks);
                proof {
                    assert(paths_view(tasks_files@) =~= tbefore.push(lv.push(TASKS_FILE@)));
                }
            }
            k = k + 1;
        }
        Ok(CgroupSetup { cgroup: Cgroup { tasks_files }, steps })
    }
}

} // verus!
