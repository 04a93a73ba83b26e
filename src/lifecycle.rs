//! Whole sessions on the disk model: the prepare action, then the loop's events
//! with what the editor left behind each time, then the finish action that the
//! loop's terminal action calls for. The laws here hold for every such session.

use vstd::prelude::*;
use crate::session::{transition, Action, Event, State};
use crate::working_copy::{
    after_finish, after_prepare, finish_of, prepare_of, Disk, TargetKind,
};

verus! {

/// A session in progress: the loop's state, the two files, and the working
/// copy's content when the checker last ran on it (`None` before any check, or
/// where there was no working copy then).
pub ghost struct World {
    pub state: State,
    pub disk: Disk,
    pub checked: Option<Seq<u8>>,
}

/// Whether `t0` is a possible content of a target of kind `k`.
pub open spec fn content_fits(k: TargetKind, t0: Option<Seq<u8>>) -> bool {
    match k {
        TargetKind::Absent => t0 is None,
        TargetKind::RegularFile => t0 is Some,
        TargetKind::Directory => false,
    }
}

/// The world at the start of the loop, for a target of kind `k` with content
/// `t0` and no working copy yet.
pub open spec fn start_world(k: TargetKind, t0: Option<Seq<u8>>) -> World {
    let d = Disk { target: t0, work: None };
    World {
        state: State::Editing,
        disk: match prepare_of(k) {
            Ok(s) => after_prepare(s, d),
            Err(_) => d,
        },
        checked: None,
    }
}

/// The world after event `ev`; `edit` is what the editor left in the working
/// copy, used where `ev` reports that the editor ended.
pub open spec fn world_step(w: World, success: i32, ev: Event, edit: Option<Seq<u8>>) -> World {
    let next = transition(w.state, success, ev);
    let edited = if w.state == State::Editing && ev is EditorExited {
        Disk { work: edit, ..w.disk }
    } else {
        w.disk
    };
    let checked = if w.state == State::Checking && ev is CheckerExited {
        edited.work
    } else {
        w.checked
    };
    let disk = match next.1 {
        Action::Finish(o) => after_finish(finish_of(o, edited.work is Some), edited),
        _ => edited,
    };
    World { state: next.0, disk, checked }
}

/// The world after the events `evs`, the editor leaving `edits[i]` where
/// `evs[i]` reports its end.
pub open spec fn run(
    w: World,
    success: i32,
    evs: Seq<Event>,
    edits: Seq<Option<Seq<u8>>>,
) -> World
    decreases evs.len(),
{
    if evs.len() == 0 || edits.len() == 0 {
        w
    } else {
        run(
            world_step(w, success, evs[0], edits[0]),
            success,
            evs.drop_first(),
            edits.drop_first(),
        )
    }
}

/// What holds in every world reached from a target whose content was `t0`.
pub open spec fn session_inv(w: World, t0: Option<Seq<u8>>) -> bool {
    &&& w.state != State::Committed ==> w.disk.target == t0
    &&& w.state == State::PromptingUser ==> w.checked == w.disk.work
    &&& w.state == State::Committed ==> {
        &&& w.disk.work is None
        &&& w.checked is Some ==> w.disk.target == w.checked
        &&& w.checked is None ==> w.disk.target == t0
    }
    &&& w.state == State::Abandoned ==> w.disk.work is None
}

proof fn lemma_step_keeps_inv(
    w: World,
    t0: Option<Seq<u8>>,
    success: i32,
    ev: Event,
    edit: Option<Seq<u8>>,
)
    requires
        session_inv(w, t0),
    ensures
        session_inv(world_step(w, success, ev, edit), t0),
{
}

proof fn lemma_run_keeps_inv(
    w: World,
    t0: Option<Seq<u8>>,
    success: i32,
    evs: Seq<Event>,
    edits: Seq<Option<Seq<u8>>>,
)
    requires
        session_inv(w, t0),
    ensures
        session_inv(run(w, success, evs, edits), t0),
    decreases evs.len(),
{
    if evs.len() > 0 && edits.len() > 0 {
        lemma_step_keeps_inv(w, t0, success, evs[0], edits[0]);
        lemma_run_keeps_inv(
            world_step(w, success, evs[0], edits[0]),
            t0,
            success,
            evs.drop_first(),
            edits.drop_first(),
        );
    }
}

/// A session that ends committed leaves the target holding exactly what the
/// working copy held when the checker last ran (nothing is edited between that
/// check and the commit), and leaves no working copy behind. Where there was no
/// working copy at that check, the target keeps its content.
pub proof fn lemma_commit_installs_last_checked(
    kind: TargetKind,
    t0: Option<Seq<u8>>,
    success: i32,
    evs: Seq<Event>,
    edits: Seq<Option<Seq<u8>>>,
)
    requires
        content_fits(kind, t0),
    ensures
        ({
            let w = run(start_world(kind, t0), success, evs, edits);
            w.state == State::Committed ==> {
                &&& w.disk.work is None
                &&& w.checked is Some ==> w.disk.target == w.checked
                &&& w.checked is None ==> w.disk.target == t0
            }
        }),
{
    lemma_run_keeps_inv(start_world(kind, t0), t0, success, evs, edits);
}

/// A session that ends abandoned leaves the target exactly as it was before the
/// session (still absent if it was absent), and deletes the working copy. Until a
/// session commits, the target is never touched.
pub proof fn lemma_abandon_keeps_target(
    kind: TargetKind,
    t0: Option<Seq<u8>>,
    success: i32,
    evs: Seq<Event>,
    edits: Seq<Option<Seq<u8>>>,
)
    requires
        content_fits(kind, t0),
    ensures
        ({
            let w = run(start_world(kind, t0), success, evs, edits);
            &&& w.state != State::Committed ==> w.disk.target == t0
            &&& w.state == State::Abandoned ==> w.disk.work is None
        }),
{
    lemma_run_keeps_inv(start_world(kind, t0), t0, success, evs, edits);
}

} // verus!
