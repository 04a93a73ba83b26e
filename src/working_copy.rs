//! Working-copy manager: the path of the hidden copy, and what to do with it
//! when a session starts and when it ends.

use vstd::prelude::*;

verus! {

/// Separator between the components of a path.
pub const SEPARATOR: u8 = 0x2f;

/// Byte that starts the working copy's name, hiding it.
pub const HIDDEN_PREFIX: u8 = 0x2e;

/// Index just after the last separator of `p` (0 if there is none): where the
/// final component, the file name, begins.
pub open spec fn name_start(p: Seq<u8>) -> int
    decreases p.len(),
{
    if p.len() == 0 {
        0
    } else if p.last() == SEPARATOR {
        p.len() as int
    } else {
        name_start(p.drop_last())
    }
}

/// The directory part of `p`, with its trailing separator (empty for a bare name).
pub open spec fn dir_part(p: Seq<u8>) -> Seq<u8> {
    p.subrange(0, name_start(p))
}

/// The file name of `p`: what follows its last separator.
pub open spec fn base_part(p: Seq<u8>) -> Seq<u8> {
    p.subrange(name_start(p), p.len() as int)
}

/// The suffix appended to the working copy's name: ".visafe".
pub open spec fn suffix() -> Seq<u8> {
    seq![0x2eu8, 0x76u8, 0x69u8, 0x73u8, 0x61u8, 0x66u8, 0x65u8]
}

/// A file name that designates a file: not empty, not "." and not "..".
pub open spec fn is_file_name(b: Seq<u8>) -> bool {
    &&& b.len() > 0
    &&& b != seq![HIDDEN_PREFIX]
    &&& b != seq![HIDDEN_PREFIX, HIDDEN_PREFIX]
}

/// The working copy of target `p`: in the same directory, named by the target's
/// file name with a hiding prefix and a fixed suffix.
pub open spec fn working_copy_of(p: Seq<u8>) -> Seq<u8> {
    dir_part(p) + seq![HIDDEN_PREFIX] + base_part(p) + suffix()
}

proof fn lemma_name_start_bounds(p: Seq<u8>)
    ensures
        0 <= name_start(p) <= p.len(),
        name_start(p) > 0 ==> p[name_start(p) - 1] == SEPARATOR,
        forall|i: int| name_start(p) <= i < p.len() ==> p[i] != SEPARATOR,
    decreases p.len(),
{
    if p.len() > 0 && p.last() != SEPARATOR {
        let q = p.drop_last();
        lemma_name_start_bounds(q);
        assert forall|i: int| name_start(p) <= i < p.len() implies p[i] != SEPARATOR by {
            if i < q.len() {
                assert(p[i] == q[i]);
            }
        }
    }
}

/// The working copy of a target lies in the target's own directory, and the part
/// of its path that follows that directory holds no separator: its name cannot
/// reach into another directory, so a rename onto the target stays in one place.
pub proof fn lemma_working_copy_colocated(p: Seq<u8>)
    ensures
        working_copy_of(p).subrange(0, dir_part(p).len() as int) == dir_part(p),
        forall|i: int|
            dir_part(p).len() <= i < working_copy_of(p).len() ==> working_copy_of(p)[i]
                != SEPARATOR,
        dir_part(p) + base_part(p) == p,
{
    lemma_name_start_bounds(p);
    let w = working_copy_of(p);
    let d = dir_part(p);
    assert(w.subrange(0, d.len() as int) =~= d);
    assert(d + base_part(p) =~= p);
    assert forall|i: int| d.len() <= i < w.len() implies w[i] != SEPARATOR by {
        let j = i - d.len() - 1;
        if i == d.len() {
        } else if j < base_part(p).len() {
            assert(w[i] == p[name_start(p) + j]);
        } else {
            assert(w[i] == suffix()[j - base_part(p).len()]);
        }
    }
}

/// Index just after the last separator of `p`.
fn find_name_start(p: &Vec<u8>) -> (r: usize)
    ensures
        r == name_start(p@),
{
    let mut i: usize = p.len();
    assert(p@.subrange(0, i as int) =~= p@);
    while i > 0
        invariant
            i <= p@.len(),
            name_start(p@) == name_start(p@.subrange(0, i as int)),
        decreases i,
    {
        if p[i - 1] == SEPARATOR {
            return i;
        }
        assert(p@.subrange(0, i as int).drop_last() =~= p@.subrange(0, i - 1));
        i = i - 1;
    }
    0
}

/// The working-copy path of `target`, or `None` where `target` names no file
/// (its final component is empty, "." or "..").
pub fn working_copy_path(target: &Vec<u8>) -> (r: Option<Vec<u8>>)
    requires
        target@.len() + 8 <= usize::MAX,
    ensures
        r is None <==> !is_file_name(base_part(target@)),
        r matches Some(w) ==> w@ == working_copy_of(target@),
{
    proof {
        lemma_name_start_bounds(target@);
    }
    let k = find_name_start(target);
    let n = target.len();
    let name_len = n - k;
    if name_len == 0 || (name_len == 1 && target[k] == HIDDEN_PREFIX) || (name_len == 2
        && target[k] == HIDDEN_PREFIX && target[k + 1] == HIDDEN_PREFIX) {
        proof {
            let b = base_part(target@);
            if name_len == 1 {
                assert(b =~= seq![HIDDEN_PREFIX]);
            } else if name_len == 2 {
                assert(b =~= seq![HIDDEN_PREFIX, HIDDEN_PREFIX]);
            }
        }
        return None;
    }
    proof {
        let b = base_part(target@);
        if name_len == 1 {
            assert(b[0] != HIDDEN_PREFIX);
            assert(b != seq![HIDDEN_PREFIX, HIDDEN_PREFIX]);
        } else if name_len == 2 {
            assert(b[0] != HIDDEN_PREFIX || b[1] != HIDDEN_PREFIX);
            assert(b != seq![HIDDEN_PREFIX]);
        }
    }
    let mut w: Vec<u8> = Vec::new();
    let mut i: usize = 0;
    while i < k
        invariant
            k <= n == target@.len(),
            i <= k,
            w@ == target@.subrange(0, i as int),
        decreases k - i,
    {
        w.push(target[i]);
        i = i + 1;
        assert(w@ =~= target@.subrange(0, i as int));
    }
    w.push(HIDDEN_PREFIX);
    while i < n
        invariant
            k <= i <= n == target@.len(),
            k == name_start(target@),
            w@ == dir_part(target@) + seq![HIDDEN_PREFIX] + target@.subrange(k as int, i as int),
        decreases n - i,
    {
        w.push(target[i]);
        i = i + 1;
        assert(w@ =~= dir_part(target@) + seq![HIDDEN_PREFIX] + target@.subrange(
            k as int,
            i as int,
        ));
    }
    w.push(0x2e);
    w.push(0x76);
    w.push(0x69);
    w.push(0x73);
    w.push(0x61);
    w.push(0x66);
    w.push(0x65);
    assert(w@ =~= working_copy_of(target@));
    Some(w)
}

/// What the target path refers to when a session starts.
#[derive(Clone, Copy, Debug, PartialEq, Eq, Structural)]
pub enum TargetKind {
    Absent,
    RegularFile,
    Directory,
}

/// How a session ends: promote the working copy, or discard it.
#[derive(Clone, Copy, Debug, PartialEq, Eq, Structural)]
pub enum SessionOutcome {
    Commit,
    Abandon,
}

/// Errors of a safe-edit session.
#[derive(Clone, Copy, Debug, PartialEq, Eq, Structural)]
pub enum SafeEditError {
    /// The target is a directory, or its path names no file.
    InvalidTarget,
    /// A copy, rename or delete of a file failed.
    IoError,
    /// The editor or the checker could not be started.
    ProcessLaunchError,
    /// The checker ended without an exit code (killed by a signal).
    CheckerStatusUnavailable,
}

/// The file action that starts a session.
#[derive(Clone, Copy, Debug, PartialEq, Eq, Structural)]
pub enum PrepareStep {
    /// Copy the target's bytes to the working copy.
    CopyTarget,
    /// Leave the working copy absent: the editor creates it.
    StartAbsent,
}

/// The file action that ends a session.
#[derive(Clone, Copy, Debug, PartialEq, Eq, Structural)]
pub enum FinishStep {
    /// Rename the working copy over the target.
    Promote,
    /// Delete the working copy.
    Discard,
    /// Nothing to do: there is no working copy.
    LeaveAlone,
}

/// What `prepare_step` decides for a target of kind `k`.
pub open spec fn prepare_of(k: TargetKind) -> Result<PrepareStep, SafeEditError> {
    match k {
        TargetKind::Absent => Ok(PrepareStep::StartAbsent),
        TargetKind::RegularFile => Ok(PrepareStep::CopyTarget),
        TargetKind::Directory => Err(SafeEditError::InvalidTarget),
    }
}

/// What `finish_step` decides for outcome `o`, with or without a working copy.
pub open spec fn finish_of(o: SessionOutcome, working_copy_exists: bool) -> FinishStep {
    if !working_copy_exists {
        FinishStep::LeaveAlone
    } else {
        match o {
            SessionOutcome::Commit => FinishStep::Promote,
            SessionOutcome::Abandon => FinishStep::Discard,
        }
    }
}

/// The first file action of a session: a directory is refused, a regular file is
/// copied to the working copy, and an absent target leaves the copy absent.
pub fn prepare_step(kind: TargetKind) -> (r: Result<PrepareStep, SafeEditError>)
    ensures
        r == prepare_of(kind),
{
    match kind {
        TargetKind::Absent => Ok(PrepareStep::StartAbsent),
        TargetKind::RegularFile => Ok(PrepareStep::CopyTarget),
        TargetKind::Directory => Err(SafeEditError::InvalidTarget),
    }
}

/// The last file action of a session: an existing working copy is promoted on
/// commit and deleted on abandon; without one there is nothing to do.
pub fn finish_step(outcome: SessionOutcome, working_copy_exists: bool) -> (r: FinishStep)
    ensures
        r == finish_of(outcome, working_copy_exists),
{
    if !working_copy_exists {
        FinishStep::LeaveAlone
    } else {
        match outcome {
            SessionOutcome::Commit => FinishStep::Promote,
            SessionOutcome::Abandon => FinishStep::Discard,
        }
    }
}

/// The two files a session deals with, as byte contents (`None`: absent).
pub ghost struct Disk {
    pub target: Option<Seq<u8>>,
    pub work: Option<Seq<u8>>,
}

/// The disk after the prepare action `s`.
pub open spec fn after_prepare(s: PrepareStep, d: Disk) -> Disk {
    match s {
        PrepareStep::CopyTarget => Disk { work: d.target, ..d },
        PrepareStep::StartAbsent => d,
    }
}

/// The disk after the finish action `s`: a rename moves the working copy onto the
/// target in one step; a delete removes the working copy alone.
pub open spec fn after_finish(s: FinishStep, d: Disk) -> Disk {
    match s {
        FinishStep::Promote => Disk { target: d.work, work: None },
        FinishStep::Discard => Disk { work: None, ..d },
        FinishStep::LeaveAlone => d,
    }
}

/// After preparing an existing regular file, the working copy holds exactly the
/// target's bytes, and the target itself is untouched.
pub proof fn lemma_prepare_copies_target(d: Disk)
    requires
        d.target is Some,
    ensures
        prepare_of(TargetKind::RegularFile) matches Ok(s) && after_prepare(s, d).work == d.target
            && after_prepare(s, d).target == d.target,
{
}

/// Preparing a regular file again, on a disk without a working copy, yields a
/// working copy with the same content as the target; and preparing twice yields
/// the same disk as preparing once.
pub proof fn lemma_prepare_idempotent(d: Disk)
    requires
        d.target is Some,
        d.work is None,
    ensures
        prepare_of(TargetKind::RegularFile) matches Ok(s) && after_prepare(s, after_prepare(s, d))
            == after_prepare(s, d) && after_prepare(s, d).work == d.target,
{
}

/// Ending a session never loses an existing working copy on commit: the target
/// then holds its bytes; on abandon the target keeps its content. Either way no
/// working copy is left behind.
pub proof fn lemma_finish_effect(o: SessionOutcome, d: Disk)
    ensures
        ({
            let e = after_finish(finish_of(o, d.work is Some), d);
            &&& e.work is None
            &&& o == SessionOutcome::Commit && d.work is Some ==> e.target == d.work
            &&& o == SessionOutcome::Abandon || d.work is None ==> e.target == d.target
        }),
{
}

} // verus!
