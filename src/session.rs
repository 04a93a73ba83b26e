//! The edit/validate loop: a state machine driven by what the editor, the checker
//! and the user did, answering each event with the next action to perform.

use vstd::prelude::*;
use crate::working_copy::{SafeEditError, SessionOutcome};

verus! {

/// Byte of the reply that asks to edit again.
pub const KEY_EDIT: u8 = 0x65;

/// Byte of the reply that asks to leave without saving.
pub const KEY_EXIT: u8 = 0x78;

/// Byte of the reply that asks to save despite the failing check.
pub const KEY_QUIT_SAVING: u8 = 0x51;

/// End of a line typed by the user.
pub const NEWLINE: u8 = 0x0a;

/// A recognised answer to the prompt shown after a failed check.
#[derive(Clone, Copy, Debug, PartialEq, Eq, Structural)]
pub enum EditorChoice {
    EditAgain,
    ExitWithoutSaving,
    QuitWithSaving,
}

/// The command typed on a line: the line without its final newline.
pub open spec fn command_of(line: Seq<u8>) -> Seq<u8> {
    if line.len() > 0 && line.last() == NEWLINE {
        line.drop_last()
    } else {
        line
    }
}

/// The choice a reply line stands for: "e", "x" or "Q", or none.
pub open spec fn choice_of(line: Seq<u8>) -> Option<EditorChoice> {
    let c = command_of(line);
    if c == seq![KEY_EDIT] {
        Some(EditorChoice::EditAgain)
    } else if c == seq![KEY_EXIT] {
        Some(EditorChoice::ExitWithoutSaving)
    } else if c == seq![KEY_QUIT_SAVING] {
        Some(EditorChoice::QuitWithSaving)
    } else {
        None
    }
}

/// Reads the user's reply line (its newline included, if any) as a choice.
pub fn parse_choice(line: &Vec<u8>) -> (r: Option<EditorChoice>)
    ensures
        r == choice_of(line@),
{
    let n = line.len();
    let len: usize = if n > 0 && line[n - 1] == NEWLINE {
        n - 1
    } else {
        n
    };
    proof {
        assert(command_of(line@) =~= line@.subrange(0, len as int));
    }
    if len != 1 {
        proof {
            assert(seq![KEY_EDIT].len() == 1);
            assert(seq![KEY_EXIT].len() == 1);
            assert(seq![KEY_QUIT_SAVING].len() == 1);
        }
        return None;
    }
    let b = line[0];
    proof {
        assert(command_of(line@) =~= seq![b]);
        assert(seq![b][0] == b);
        assert(seq![KEY_EDIT][0] == KEY_EDIT);
        assert(seq![KEY_EXIT][0] == KEY_EXIT);
        assert(seq![KEY_QUIT_SAVING][0] == KEY_QUIT_SAVING);
    }
    if b == KEY_EDIT {
        Some(EditorChoice::EditAgain)
    } else if b == KEY_EXIT {
        Some(EditorChoice::ExitWithoutSaving)
    } else if b == KEY_QUIT_SAVING {
        Some(EditorChoice::QuitWithSaving)
    } else {
        None
    }
}

/// States of the edit/validate loop.
#[derive(Clone, Copy, Debug, PartialEq, Eq, Structural)]
pub enum State {
    /// The editor is to run, or is running, on the working copy.
    Editing,
    /// The checker is to run, or is running, on the working copy.
    Checking,
    /// The check failed; the user is asked what to do.
    PromptingUser,
    /// Terminal: the working copy is to be promoted.
    Committed,
    /// Terminal: the working copy is to be discarded.
    Abandoned,
    /// Terminal: a fatal error; the working copy is left in place.
    Aborted,
}

/// What happened since the last action.
#[derive(Clone, Debug)]
pub enum Event {
    /// The editor process ended (its exit code is not looked at).
    EditorExited,
    /// The checker process ended, with its exit code (none if it was killed)
    /// and what it wrote to standard output.
    CheckerExited { code: Option<i32>, output: Vec<u8> },
    /// The user typed a line in answer to the prompt.
    UserReply(Vec<u8>),
    /// The editor or the checker could not be started.
    LaunchFailed,
}

/// What the host is to do next.
#[derive(Clone, Debug)]
pub enum Action {
    /// Run the editor on the working copy and wait for it.
    RunEditor,
    /// Run the checker on the working copy, capture its output and wait for it.
    RunChecker,
    /// Show the checker's output and ask the user for a choice.
    Prompt(Vec<u8>),
    /// Show the menu of choices and ask again.
    ShowMenu,
    /// The session is over: perform the final file action for this outcome.
    Finish(SessionOutcome),
    /// The session failed: report the error and leave the working copy alone.
    Abort(SafeEditError),
    /// The event does not belong to the current state: nothing to do.
    Ignore,
}

/// Whether `s` ends the loop.
pub open spec fn is_terminal(s: State) -> bool {
    s == State::Committed || s == State::Abandoned || s == State::Aborted
}

/// The transition table: the next state and action for event `ev` in state `s`,
/// where `success` is the checker's exit code that means "valid".
pub open spec fn transition(s: State, success: i32, ev: Event) -> (State, Action) {
    match (s, ev) {
        (State::Editing, Event::EditorExited) => (State::Checking, Action::RunChecker),
        (State::Editing, Event::LaunchFailed) => (
            State::Aborted,
            Action::Abort(SafeEditError::ProcessLaunchError),
        ),
        (State::Checking, Event::CheckerExited { code, output }) => match code {
            None => (State::Aborted, Action::Abort(SafeEditError::CheckerStatusUnavailable)),
            Some(c) => if c == success {
                (State::Committed, Action::Finish(SessionOutcome::Commit))
            } else {
                (State::PromptingUser, Action::Prompt(output))
            },
        },
        (State::Checking, Event::LaunchFailed) => (
            State::Aborted,
            Action::Abort(SafeEditError::ProcessLaunchError),
        ),
        (State::PromptingUser, Event::UserReply(line)) => match choice_of(line@) {
            Some(EditorChoice::EditAgain) => (State::Editing, Action::RunEditor),
            Some(EditorChoice::ExitWithoutSaving) => (
                State::Abandoned,
                Action::Finish(SessionOutcome::Abandon),
            ),
            Some(EditorChoice::QuitWithSaving) => (
                State::Committed,
                Action::Finish(SessionOutcome::Commit),
            ),
            None => (State::PromptingUser, Action::ShowMenu),
        },
        (st, _) => (st, Action::Ignore),
    }
}

/// One safe-edit session: the loop's state and the checker's success code.
pub struct Session {
    pub state: State,
    pub success_code: i32,
}

impl Session {
    /// A session that starts by editing; its first action is to run the editor.
    pub fn new(success_code: i32) -> (r: Session)
        ensures
            r.state == State::Editing,
            r.success_code == success_code,
    {
        Session { state: State::Editing, success_code }
    }

    /// Whether the session has reached a terminal state.
    pub fn is_done(&self) -> (r: bool)
        ensures
            r == is_terminal(self.state),
    {
        match self.state {
            State::Committed | State::Abandoned | State::Aborted => true,
            _ => false,
        }
    }

    /// Takes one event, moves to the next state and returns the action to perform.
    pub fn step(&mut self, ev: Event) -> (r: Action)
        ensures
            final(self).success_code == old(self).success_code,
            (final(self).state, r) == transition(old(self).state, old(self).success_code, ev),
    {
        let (next, action) = match (self.state, ev) {
            (State::Editing, Event::EditorExited) => (State::Checking, Action::RunChecker),
            (State::Editing, Event::LaunchFailed) => (
                State::Aborted,
                Action::Abort(SafeEditError::ProcessLaunchError),
            ),
            (State::Checking, Event::CheckerExited { code, output }) => match code {
                None => (State::Aborted, Action::Abort(SafeEditError::CheckerStatusUnavailable)),
                Some(c) => if c == self.success_code {
                    (State::Committed, Action::Finish(SessionOutcome::Commit))
                } else {
                    (State::PromptingUser, Action::Prompt(output))
                },
            },
            (State::Checking, Event::LaunchFailed) => (
                State::Aborted,
                Action::Abort(SafeEditError::ProcessLaunchError),
            ),
            (State::PromptingUser, Event::UserReply(line)) => match parse_choice(&line) {
                Some(EditorChoice::EditAgain) => (State::Editing, Action::RunEditor),
                Some(EditorChoice::ExitWithoutSaving) => (
                    State::Abandoned,
                    Action::Finish(SessionOutcome::Abandon),
                ),
                Some(EditorChoice::QuitWithSaving) => (
                    State::Committed,
                    Action::Finish(SessionOutcome::Commit),
                ),
                None => (State::PromptingUser, Action::ShowMenu),
            },
            (st, _) => (st, Action::Ignore),
        };
        self.state = next;
        action
    }
}

} // verus!
