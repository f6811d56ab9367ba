use vstd::prelude::*;
use vstd::string::*;

use crate::cgroup::{copy_path, push_component, JailerError};
use crate::text::views;

verus! {

/// The path of the file `f` beside the last component of `p`.
pub open spec fn with_file_name(p: Seq<Seq<char>>, f: Seq<char>) -> Seq<Seq<char>> {
    if p.len() == 0 {
        seq![f]
    } else {
        p.drop_last().push(f)
    }
}

/// The directory that holds `p`; the root is its own parent.
pub open spec fn parent_dir(p: Seq<Seq<char>>) -> Seq<Seq<char>> {
    if p.len() == 0 {
        p
    } else {
        p.drop_last()
    }
}

/// The content of a one-line file without its final character, the line
/// break.
pub open spec fn first_line(content: Seq<char>) -> Seq<char> {
    if content.len() == 0 {
        content
    } else {
        content.drop_last()
    }
}

/// Where a copy of a cgroup file from the parent directory stands.
#[derive(Clone, Copy, Debug, PartialEq, Eq, Structural)]
pub enum InheritPhase {
    Start,
    ReadingParent,
    ReadingGrandparent,
    WritingParent,
    RereadingParent,
    WritingLeaf,
    Finished,
}

/// What came of the last file operation that the job asked for.
#[derive(Debug)]
pub enum IoOutcome {
    /// No operation was asked for yet.
    Ready,
    /// The file was read and held this text.
    Read(String),
    ReadFailed,
    Written,
    WriteFailed,
}

/// The next file operation, or the job's result.
#[derive(Debug)]
pub enum CgroupIo {
    /// Read this file whole.
    Read(Vec<String>),
    /// Write this line, and a line break, into this file.
    Write(Vec<String>, String),
    Done(Result<(), JailerError>),
}

/// What a step of the job does, over the job's own paths.
pub enum InheritAction {
    ReadParent,
    ReadGrandparent,
    WriteParent(Seq<char>),
    WriteLeaf(Seq<char>),
    Succeeded,
    ParentEmpty,
    ReadFailed,
    WriteFailed,
}

pub open spec fn read_line(o: IoOutcome) -> Option<Seq<char>> {
    match o {
        IoOutcome::Read(c) => Some(first_line(c@)),
        _ => None,
    }
}

/// The protocol: the parent's file is read; a non-empty line is written into
/// the leaf. An empty one, where a retry is allowed, first has the
/// grandparent's line copied into the parent (a failure there is of no
/// account: another writer may have filled the parent meanwhile), and the
/// parent is read once more. A parent still empty is an error.
pub open spec fn inherit_transition(phase: InheritPhase, retry: bool, o: IoOutcome) -> (
    InheritPhase,
    InheritAction,
) {
    match phase {
        InheritPhase::Start => (InheritPhase::ReadingParent, InheritAction::ReadParent),
        InheritPhase::ReadingParent => match read_line(o) {
            None => (InheritPhase::Finished, InheritAction::ReadFailed),
            Some(l) => if l.len() > 0 {
                (InheritPhase::WritingLeaf, InheritAction::WriteLeaf(l))
            } else if retry {
                (InheritPhase::ReadingGrandparent, InheritAction::ReadGrandparent)
            } else {
                (InheritPhase::Finished, InheritAction::ParentEmpty)
            },
        },
        InheritPhase::ReadingGrandparent => match read_line(o) {
            Some(l) => if l.len() > 0 {
                (InheritPhase::WritingParent, InheritAction::WriteParent(l))
            } else {
                (InheritPhase::RereadingParent, InheritAction::ReadParent)
            },
            None => (InheritPhase::RereadingParent, InheritAction::ReadParent),
        },
        InheritPhase::WritingParent => (InheritPhase::RereadingParent, InheritAction::ReadParent),
        InheritPhase::RereadingParent => match read_line(o) {
            None => (InheritPhase::Finished, InheritAction::ReadFailed),
            Some(l) => if l.len() > 0 {
                (InheritPhase::WritingLeaf, InheritAction::WriteLeaf(l))
            } else {
                (InheritPhase::Finished, InheritAction::ParentEmpty)
            },
        },
        InheritPhase::WritingLeaf => if o is Written {
            (InheritPhase::Finished, InheritAction::Succeeded)
        } else {
            (InheritPhase::Finished, InheritAction::WriteFailed)
        },
        InheritPhase::Finished => (InheritPhase::Finished, InheritAction::Succeeded),
    }
}

/// Copies the file `file_name` from the parent of the directory `path` into
/// `path`, one file operation at a time.
pub struct InheritJob {
    pub path: Vec<String>,
    pub file_name: String,
    pub retry_one_level_up: bool,
    pub phase: InheritPhase,
}

/// `io` is the operation or result that `a` describes for `job`.
pub open spec fn action_matches(job: InheritJob, a: InheritAction, io: CgroupIo) -> bool {
    let p = views(job.path@);
    let f = job.file_name@;
    match a {
        InheritAction::ReadParent => io matches CgroupIo::Read(q) && views(q@) == with_file_name(
            p,
            f,
        ),
        InheritAction::ReadGrandparent => io matches CgroupIo::Read(q) && views(q@)
            == with_file_name(parent_dir(p), f),
        InheritAction::WriteParent(l) => io matches CgroupIo::Write(q, v) && views(q@)
            == with_file_name(p, f) && v@ == l,
        InheritAction::WriteLeaf(l) => io matches CgroupIo::Write(q, v) && views(q@) == p.push(f)
            && v@ == l,
        InheritAction::Succeeded => io matches CgroupIo::Done(Ok(())),
        InheritAction::ParentEmpty => io matches CgroupIo::Done(
            Err(JailerError::CgroupInheritFromParent(q, g)),
        ) && views(q@) == p && g@ == f,
        InheritAction::ReadFailed => io matches CgroupIo::Done(Err(JailerError::ReadToString(q)))
            && views(q@) == with_file_name(p, f),
        InheritAction::WriteFailed => io matches CgroupIo::Done(Err(JailerError::Write(q)))
            && views(q@) == p.push(f),
    }
}

/// Starts copying `file_name` of the parent of `path` into `path`; where the
/// parent's copy is empty and `retry_one_level_up` holds, the parent is
/// first filled from its own parent.
pub fn inherit_from_parent_aux(path: &Vec<String>, file_name: &str, retry_one_level_up: bool) -> (job:
    InheritJob)
    ensures
        views(job.path@) == views(path@),
        job.file_name@ == file_name@,
        job.retry_one_level_up == retry_one_level_up,
        job.phase == InheritPhase::Start,
{
    InheritJob {
        path: copy_path(path),
        file_name: String::from_str(file_name),
        retry_one_level_up,
        phase: InheritPhase::Start,
    }
}

/// Starts copying `file_name` of the parent of `path` into `path`, going
/// one level further up once where the parent's copy is empty.
pub fn inherit_from_parent(path: &Vec<String>, file_name: &str) -> (job: InheritJob)
    ensures
        views(job.path@) == views(path@),
        job.file_name@ == file_name@,
        job.retry_one_level_up,
        job.phase == InheritPhase::Start,
{
    inherit_from_parent_aux(path, file_name, true)
}

fn line_of(content: &String) -> (r: String)
    ensures
        r@ == first_line(content@),
{
    let n = content.as_str().unicode_len();
    if n == 0 {
        String::from_str(content.as_str())
    } else {
        String::from_str(content.as_str().substring_char(0, n - 1))
    }
}

impl InheritJob {
    pub open spec fn is_finished_spec(&self) -> bool {
        self.phase == InheritPhase::Finished
    }

    pub fn is_finished(&self) -> (r: bool)
        ensures
            r == self.is_finished_spec(),
    {
        self.phase == InheritPhase::Finished
    }

    fn parent_file(&self) -> (r: Vec<String>)
        ensures
            views(r@) == with_file_name(views(self.path@), self.file_name@),
    {
        let mut p = copy_path(&self.path);
        if p.len() > 0 {
            p.pop();
            proof {
                assert(views(p@) =~= views(self.path@).drop_last());
            }
        }
        push_component(&p, self.file_name.as_str())
    }

    fn grandparent_file(&self) -> (r: Vec<String>)
        ensures
            views(r@) == with_file_name(parent_dir(views(self.path@)), self.file_name@),
    {
        let mut p = copy_path(&self.path);
        if p.len() > 0 {
            p.pop();
            proof {
                assert(views(p@) =~= views(self.path@).drop_last());
            }
        }
        if p.len() > 0 {
            let ghost q = views(p@);
            p.pop();
            proof {
                assert(views(p@) =~= q.drop_last());
            }
        }
        push_component(&p, self.file_name.as_str())
    }

    fn leaf_file(&self) -> (r: Vec<String>)
        ensures
            views(r@) == views(self.path@).push(self.file_name@),
    {
        push_component(&self.path, self.file_name.as_str())
    }

    fn write_parent(&self, line: String) -> (io: CgroupIo)
        ensures
            action_matches(*self, InheritAction::WriteParent(line@), io),
    {
        CgroupIo::Write(self.parent_file(), line)
    }

    fn write_leaf(&self, line: String) -> (io: CgroupIo)
        ensures
            action_matches(*self, InheritAction::WriteLeaf(line@), io),
    {
        CgroupIo::Write(self.leaf_file(), line)
    }

    fn read_parent(&self) -> (io: CgroupIo)
        ensures
            action_matches(*self, InheritAction::ReadParent, io),
    {
        CgroupIo::Read(self.parent_file())
    }

    fn parent_empty(&self) -> (io: CgroupIo)
        ensures
            action_matches(*self, InheritAction::ParentEmpty, io),
    {
        CgroupIo::Done(
            Err(
                JailerError::CgroupInheritFromParent(
                    copy_path(&self.path),
                    String::from_str(self.file_name.as_str()),
                ),
            ),
        )
    }

    fn read_failed(&self) -> (io: CgroupIo)
        ensures
            action_matches(*self, InheritAction::ReadFailed, io),
    {
        CgroupIo::Done(Err(JailerError::ReadToString(self.parent_file())))
    }

    /// Takes the outcome of the operation asked for last and gives the next
    /// operation, or the job's result.
    pub fn step(&mut self, outcome: IoOutcome) -> (io: CgroupIo)
        requires
            !old(self).is_finished_spec(),
        ensures
            ({
                let t = inherit_transition(
                    old(self).phase,
                    old(self).retry_one_level_up,
                    outcome,
                );
                &&& final(self).phase == t.0
                &&& action_matches(*old(self), t.1, io)
            }),
            views(final(self).path@) == views(old(self).path@),
            final(self).file_name@ == old(self).file_name@,
            final(self).retry_one_level_up == old(self).retry_one_level_up,
    {
        let line = match &outcome {
            IoOutcome::Read(c) => Some(line_of(c)),
            _ => None,
        };
        let written = match &outcome {
            IoOutcome::Written => true,
            _ => false,
        };
        match self.phase {
            InheritPhase::Start => {
                self.phase = InheritPhase::ReadingParent;
                self.read_parent()
            },
            InheritPhase::ReadingParent => match line {
                None => {
                    self.phase = InheritPhase::Finished;
                    self.read_failed()
                },
                Some(l) => {
                    if l.as_str().unicode_len() > 0 {
                        self.phase = InheritPhase::WritingLeaf;
                        self.write_leaf(l)
                    } else if self.retry_one_level_up {
                        self.phase = InheritPhase::ReadingGrandparent;
                        CgroupIo::Read(self.grandparent_file())
                    } else {
                        self.phase = InheritPhase::Finished;
                        self.parent_empty()
                    }
                },
            },
            InheritPhase::ReadingGrandparent => match line {
                Some(l) => {
                    if l.as_str().unicode_len() > 0 {
                        self.phase = InheritPhase::WritingParent;
                        self.write_parent(l)
                    } else {
                        self.phase = InheritPhase::RereadingParent;
                        self.read_parent()
                    }
                },
                None => {
                    self.phase = InheritPhase::RereadingParent;
                    self.read_parent()
                },
            },
            InheritPhase::WritingParent => {
                self.phase = InheritPhase::RereadingParent;
                self.read_parent()
            },
            InheritPhase::RereadingParent => match line {
                None => {
                    self.phase = InheritPhase::Finished;
                    self.read_failed()
                },
                Some(l) => {
                    if l.as_str().unicode_len() > 0 {
                        self.phase = InheritPhase::WritingLeaf;
                        self.write_leaf(l)
                    } else {
                        self.phase = InheritPhase::Finished;
                        self.parent_empty()
                    }
                },
            },
            InheritPhase::WritingLeaf => {
                self.phase = InheritPhase::Finished;
                if written {
                    CgroupIo::Done(Ok(()))
                } else {
                    CgroupIo::Done(Err(JailerError::Write(self.leaf_file())))
                }
            },
            InheritPhase::Finished => CgroupIo::Done(Ok(())),
        }
    }
}

} // verus!
