use shellchat::interaction::{
    Action, Choice, Event, Interaction, Phase, EMPTY_REQUEST_MESSAGE, UNEXPECTED_EVENT_MESSAGE,
};

fn awaiting_choice(request: &str, candidate: &str) -> Interaction {
    let (mut it, first) = Interaction::start(request, false);
    match first {
        Action::Request { prompt, explain } => {
            assert_eq!(prompt, request);
            assert!(!explain);
        }
        _ => panic!("a request comes first"),
    }
    match it.step(Event::Answer(Ok(candidate.to_string()))) {
        Action::AskChoice { command } => assert_eq!(command, candidate.trim()),
        _ => panic!("the user chooses next"),
    }
    assert!(it.phase == Phase::AwaitingChoice);
    it
}

#[test]
fn scenario_execute_failure_exits_with_code() {
    let mut it = awaiting_choice("remove the tmp dir", "rm -rf /tmp/x");
    match it.step(Event::Chose(Choice::Execute)) {
        Action::Run { command } => assert_eq!(command, "rm -rf /tmp/x"),
        _ => panic!("execute runs the command"),
    }
    match it.step(Event::Ran(Ok(2))) {
        Action::Exit { code } => assert_eq!(code, 2),
        _ => panic!("a failing command ends the process with its code"),
    }
    assert!(it.is_done());
}

#[test]
fn execute_success_finishes() {
    let mut it = awaiting_choice("say hi", "echo hi");
    it.step(Event::Chose(Choice::Execute));
    assert!(matches!(it.step(Event::Ran(Ok(0))), Action::Finish));
    assert!(it.is_done());
}

#[test]
fn execute_start_failure_is_reported() {
    let mut it = awaiting_choice("say hi", "echo hi");
    it.step(Event::Chose(Choice::Execute));
    match it.step(Event::Ran(Err("no such shell".to_string()))) {
        Action::Fail { message } => assert_eq!(message, "no such shell"),
        _ => panic!("a start failure is reported"),
    }
}

#[test]
fn scenario_revise_appends_revision() {
    let mut it = awaiting_choice("apt install foo", "apt install foo");
    assert!(matches!(it.step(Event::Chose(Choice::Revise)), Action::AskRevision));
    match it.step(Event::Revision("use sudo".to_string())) {
        Action::Request { prompt, explain } => {
            assert_eq!(prompt, "apt install foo\nuse sudo");
            assert!(!explain);
        }
        _ => panic!("a revision sends a new request"),
    }
    match it.step(Event::Answer(Ok("sudo apt install foo".to_string()))) {
        Action::AskChoice { command } => assert_eq!(command, "sudo apt install foo"),
        _ => panic!("the new command is offered"),
    }
    assert_eq!(it.candidate, "sudo apt install foo");
    it.step(Event::Chose(Choice::Revise));
    match it.step(Event::Revision("and -y".to_string())) {
        Action::Request { prompt, .. } => assert_eq!(prompt, "apt install foo\nuse sudo\nand -y"),
        _ => panic!("revisions accumulate"),
    }
}

#[test]
fn explain_then_choose_again() {
    let mut it = awaiting_choice("list", "  ls -la \n");
    match it.step(Event::Chose(Choice::Explain)) {
        Action::Request { prompt, explain } => {
            assert_eq!(prompt, "  ls -la \n");
            assert!(explain);
        }
        _ => panic!("explain asks the server"),
    }
    match it.step(Event::Answer(Ok("Lists files.".to_string()))) {
        Action::Show { text } => assert_eq!(text, "Lists files."),
        _ => panic!("the explanation is shown"),
    }
    match it.step(Event::Shown) {
        Action::AskChoice { command } => assert_eq!(command, "ls -la"),
        _ => panic!("the user chooses again"),
    }
    assert_eq!(it.candidate, "  ls -la \n");
}

#[test]
fn cancel_finishes_without_effects() {
    let mut it = awaiting_choice("list", "ls");
    assert!(matches!(it.step(Event::Chose(Choice::Cancel)), Action::Finish));
    assert!(it.is_done());
}

#[test]
fn failures_end_the_interaction() {
    let (mut it, _) = Interaction::start("list", false);
    match it.step(Event::Answer(Err("Server not available.".to_string()))) {
        Action::Fail { message } => assert_eq!(message, "Server not available."),
        _ => panic!("a failed request is reported"),
    }
    assert!(it.is_done());
    let mut it = awaiting_choice("list", "ls");
    assert!(matches!(it.step(Event::InputFailed("closed".to_string())), Action::Fail { .. }));
    assert!(it.is_done());
}

#[test]
fn unexpected_event_fails() {
    let mut it = awaiting_choice("list", "ls");
    match it.step(Event::Shown) {
        Action::Fail { message } => assert_eq!(message, UNEXPECTED_EVENT_MESSAGE),
        _ => panic!("an event out of place is an error"),
    }
}

#[test]
fn empty_request_advises() {
    let (it, first) = Interaction::start("", false);
    match first {
        Action::Advise { message } => assert_eq!(message, EMPTY_REQUEST_MESSAGE),
        _ => panic!("nothing to ask"),
    }
    assert!(it.is_done());
}

#[test]
fn explain_mode_shows_answer_and_ends() {
    let (mut it, first) = Interaction::start("what is ls", true);
    match first {
        Action::Request { prompt, explain } => {
            assert_eq!(prompt, "what is ls");
            assert!(explain);
        }
        _ => panic!("explain mode asks first"),
    }
    assert!(matches!(it.step(Event::Answer(Ok("It lists.".to_string()))), Action::Show { .. }));
    assert!(matches!(it.step(Event::Shown), Action::Finish));
    assert!(it.is_done());
}
