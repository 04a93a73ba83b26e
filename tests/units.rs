use visafe::options::Options;
use visafe::session::{parse_choice, Action, EditorChoice, Event, Session, State};
use visafe::working_copy::{
    finish_step, prepare_step, working_copy_path, FinishStep, PrepareStep, SafeEditError,
    SessionOutcome, TargetKind,
};

fn wc(p: &str) -> Option<String> {
    working_copy_path(&p.as_bytes().to_vec()).map(|v| String::from_utf8(v).unwrap())
}

#[test]
fn working_copy_in_same_directory() {
    assert_eq!(wc("/etc/sudoers"), Some("/etc/.sudoers.visafe".to_string()));
    assert_eq!(wc("a/b/c.conf"), Some("a/b/.c.conf.visafe".to_string()));
}

#[test]
fn working_copy_of_bare_name() {
    assert_eq!(wc("hosts"), Some(".hosts.visafe".to_string()));
    assert_eq!(wc("/x"), Some("/.x.visafe".to_string()));
}

#[test]
fn working_copy_refuses_non_file_names() {
    assert_eq!(wc(""), None);
    assert_eq!(wc("dir/"), None);
    assert_eq!(wc("a/.."), None);
    assert_eq!(wc("."), None);
    assert_eq!(wc("a/..b"), Some("a/...b.visafe".to_string()));
}

#[test]
fn prepare_decisions() {
    assert_eq!(prepare_step(TargetKind::RegularFile), Ok(PrepareStep::CopyTarget));
    assert_eq!(prepare_step(TargetKind::Absent), Ok(PrepareStep::StartAbsent));
    assert_eq!(prepare_step(TargetKind::Directory), Err(SafeEditError::InvalidTarget));
}

#[test]
fn finish_decisions() {
    assert_eq!(finish_step(SessionOutcome::Commit, true), FinishStep::Promote);
    assert_eq!(finish_step(SessionOutcome::Abandon, true), FinishStep::Discard);
    assert_eq!(finish_step(SessionOutcome::Commit, false), FinishStep::LeaveAlone);
    assert_eq!(finish_step(SessionOutcome::Abandon, false), FinishStep::LeaveAlone);
}

#[test]
fn reply_parsing() {
    assert_eq!(parse_choice(&b"e\n".to_vec()), Some(EditorChoice::EditAgain));
    assert_eq!(parse_choice(&b"x\n".to_vec()), Some(EditorChoice::ExitWithoutSaving));
    assert_eq!(parse_choice(&b"Q\n".to_vec()), Some(EditorChoice::QuitWithSaving));
    assert_eq!(parse_choice(&b"Q".to_vec()), Some(EditorChoice::QuitWithSaving));
    assert_eq!(parse_choice(&b"q\n".to_vec()), None);
    assert_eq!(parse_choice(&b"ee\n".to_vec()), None);
    assert_eq!(parse_choice(&b"\n".to_vec()), None);
    assert_eq!(parse_choice(&Vec::new()), None);
}

#[test]
fn failed_check_prompts_with_output() {
    let mut s = Session::new(0);
    assert!(matches!(s.step(Event::EditorExited), Action::RunChecker));
    let a = s.step(Event::CheckerExited { code: Some(1), output: b"line 3".to_vec() });
    match a {
        Action::Prompt(out) => assert_eq!(out, b"line 3".to_vec()),
        _ => panic!("expected a prompt"),
    }
    assert_eq!(s.state, State::PromptingUser);
    assert!(matches!(s.step(Event::UserReply(b"?\n".to_vec())), Action::ShowMenu));
    assert_eq!(s.state, State::PromptingUser);
    assert!(matches!(s.step(Event::UserReply(b"e\n".to_vec())), Action::RunEditor));
    assert_eq!(s.state, State::Editing);
}

#[test]
fn launch_failure_aborts() {
    let mut s = Session::new(0);
    let a = s.step(Event::LaunchFailed);
    assert!(matches!(a, Action::Abort(SafeEditError::ProcessLaunchError)));
    assert_eq!(s.state, State::Aborted);
    assert!(s.is_done());
}

#[test]
fn events_out_of_place_are_ignored() {
    let mut s = Session::new(0);
    assert!(matches!(s.step(Event::UserReply(b"x\n".to_vec())), Action::Ignore));
    assert_eq!(s.state, State::Editing);
    assert!(!s.is_done());
    s.state = State::Committed;
    assert!(matches!(s.step(Event::EditorExited), Action::Ignore));
    assert_eq!(s.state, State::Committed);
}

#[test]
fn default_options() {
    let o = Options::default();
    assert_eq!(o.editor, "vim");
    assert_eq!(o.checker, "");
    assert_eq!(o.filename, "");
    assert_eq!(o.exit_success, 0);
}
