//! The client's interaction with one answer: the user executes, explains,
//! revises or cancels the proposed command. Each step takes what just
//! happened and returns the next thing the caller must do; the caller
//! performs it (a request, a prompt, running the command) and reports back.
use vstd::prelude::*;
use crate::text::{trim, trimmed};

verus! {

/// The message given when there is nothing to translate.
pub const EMPTY_REQUEST_MESSAGE: &'static str = "How can I assist you in your shell?";

/// The message given when an event does not fit the current phase.
pub const UNEXPECTED_EVENT_MESSAGE: &'static str = "unexpected event in the interaction";

/// Where the interaction stands.
#[derive(PartialEq, Eq, Structural, Clone, Copy)]
pub enum Phase {
    /// Waiting for the server to translate the request into a command.
    Translating,
    /// Waiting for the user to choose what to do with the command.
    AwaitingChoice,
    /// Waiting for the command to run.
    Executing,
    /// Waiting for the server to explain the command.
    Explaining,
    /// Showing an explanation; the user chooses again afterwards.
    Presenting,
    /// Waiting for the user's revision text.
    Revising,
    /// Waiting for the server to answer a request made in explain mode.
    Answering,
    /// Showing that answer; the interaction ends afterwards.
    Closing,
    /// Finished.
    Done,
}

/// What the user may do with a command.
#[derive(PartialEq, Eq, Structural, Clone, Copy)]
pub enum Choice {
    Execute,
    Explain,
    Revise,
    Cancel,
}

/// What happened since the last step.
pub enum Event {
    /// The server answered a request: the text, or why there is none.
    Answer(Result<String, String>),
    /// The user chose.
    Chose(Choice),
    /// The command ran with this exit code, or could not be started.
    Ran(Result<i32, String>),
    /// The text to show has been shown.
    Shown,
    /// The user typed this revision.
    Revision(String),
    /// Reading the user's input failed.
    InputFailed(String),
}

/// What the caller must do next.
pub enum Action {
    /// Send the server a request with this prompt.
    Request { prompt: String, explain: bool },
    /// Show the command and let the user choose.
    AskChoice { command: String },
    /// Run the command in the local shell.
    Run { command: String },
    /// Show this text.
    Show { text: String },
    /// Ask the user for revision text.
    AskRevision,
    /// End the process with this exit code.
    Exit { code: i32 },
    /// The interaction is over.
    Finish,
    /// Report this error; the interaction is over.
    Fail { message: String },
    /// Tell the user this; the interaction is over.
    Advise { message: String },
}

/// The current command and the accumulated request text.
pub struct Interaction {
    pub phase: Phase,
    pub candidate: String,
    pub history: String,
}

pub struct InteractionView {
    pub phase: Phase,
    pub candidate: Seq<char>,
    pub history: Seq<char>,
}

pub enum EventView {
    Answer(Result<Seq<char>, Seq<char>>),
    Chose(Choice),
    Ran(Result<i32, Seq<char>>),
    Shown,
    Revision(Seq<char>),
    InputFailed(Seq<char>),
}

pub enum ActionView {
    Request { prompt: Seq<char>, explain: bool },
    AskChoice { command: Seq<char> },
    Run { command: Seq<char> },
    Show { text: Seq<char> },
    AskRevision,
    Exit { code: i32 },
    Finish,
    Fail { message: Seq<char> },
    Advise { message: Seq<char> },
}

impl View for Interaction {
    type V = InteractionView;

    open spec fn view(&self) -> InteractionView {
        InteractionView { phase: self.phase, candidate: self.candidate@, history: self.history@ }
    }
}

impl View for Event {
    type V = EventView;

    open spec fn view(&self) -> EventView {
        match self {
            Event::Answer(Ok(t)) => EventView::Answer(Ok(t@)),
            Event::Answer(Err(m)) => EventView::Answer(Err(m@)),
            Event::Chose(c) => EventView::Chose(*c),
            Event::Ran(Ok(code)) => EventView::Ran(Ok(*code)),
            Event::Ran(Err(m)) => EventView::Ran(Err(m@)),
            Event::Shown => EventView::Shown,
            Event::Revision(t) => EventView::Revision(t@),
            Event::InputFailed(m) => EventView::InputFailed(m@),
        }
    }
}

impl View for Action {
    type V = ActionView;

    open spec fn view(&self) -> ActionView {
        match self {
            Action::Request { prompt, explain } => ActionView::Request {
                prompt: prompt@,
                explain: *explain,
            },
            Action::AskChoice { command } => ActionView::AskChoice { command: command@ },
            Action::Run { command } => ActionView::Run { command: command@ },
            Action::Show { text } => ActionView::Show { text: text@ },
            Action::AskRevision => ActionView::AskRevision,
            Action::Exit { code } => ActionView::Exit { code: *code },
            Action::Finish => ActionView::Finish,
            Action::Fail { message } => ActionView::Fail { message: message@ },
            Action::Advise { message } => ActionView::Advise { message: message@ },
        }
    }
}

/// `s` moved to `phase`, with the same command and history.
pub open spec fn in_phase(s: InteractionView, phase: Phase) -> InteractionView {
    InteractionView { phase, candidate: s.candidate, history: s.history }
}

/// The request text after a revision: the history, a newline, the revision.
pub open spec fn revised(history: Seq<char>, revision: Seq<char>) -> Seq<char> {
    history + "\n"@ + revision
}

/// The first state and action for the user's request `text`.
pub open spec fn opening(text: Seq<char>, explain: bool) -> (InteractionView, ActionView) {
    let s = InteractionView { phase: Phase::Done, candidate: Seq::empty(), history: text };
    if text.len() == 0 {
        (s, ActionView::Advise { message: EMPTY_REQUEST_MESSAGE@ })
    } else if explain {
        (in_phase(s, Phase::Answering), ActionView::Request { prompt: text, explain: true })
    } else {
        (in_phase(s, Phase::Translating), ActionView::Request { prompt: text, explain: false })
    }
}

/// The end of an interaction that received an event it was not waiting for.
pub open spec fn unexpected(s: InteractionView) -> (InteractionView, ActionView) {
    (in_phase(s, Phase::Done), ActionView::Fail { message: UNEXPECTED_EVENT_MESSAGE@ })
}

/// The transition table: the next state and action after event `e` in `s`.
pub open spec fn transition(s: InteractionView, e: EventView) -> (InteractionView, ActionView) {
    match e {
        EventView::InputFailed(m) => (in_phase(s, Phase::Done), ActionView::Fail { message: m }),
        EventView::Answer(Ok(t)) => if s.phase == Phase::Translating {
            (
                InteractionView { phase: Phase::AwaitingChoice, candidate: t, history: s.history },
                ActionView::AskChoice { command: trim(t) },
            )
        } else if s.phase == Phase::Explaining {
            (in_phase(s, Phase::Presenting), ActionView::Show { text: t })
        } else if s.phase == Phase::Answering {
            (in_phase(s, Phase::Closing), ActionView::Show { text: t })
        } else {
            unexpected(s)
        },
        EventView::Answer(Err(m)) => if s.phase == Phase::Translating || s.phase
            == Phase::Explaining || s.phase == Phase::Answering {
            (in_phase(s, Phase::Done), ActionView::Fail { message: m })
        } else {
            unexpected(s)
        },
        EventView::Chose(c) => if s.phase == Phase::AwaitingChoice {
            match c {
                Choice::Execute => (
                    in_phase(s, Phase::Executing),
                    ActionView::Run { command: s.candidate },
                ),
                Choice::Explain => (
                    in_phase(s, Phase::Explaining),
                    ActionView::Request { prompt: s.candidate, explain: true },
                ),
                Choice::Revise => (in_phase(s, Phase::Revising), ActionView::AskRevision),
                Choice::Cancel => (in_phase(s, Phase::Done), ActionView::Finish),
            }
        } else {
            unexpected(s)
        },
        EventView::Ran(Ok(code)) => if s.phase == Phase::Executing {
            (
                in_phase(s, Phase::Done),
                if code != 0 {
                    ActionView::Exit { code }
                } else {
                    ActionView::Finish
                },
            )
        } else {
            unexpected(s)
        },
        EventView::Ran(Err(m)) => if s.phase == Phase::Executing {
            (in_phase(s, Phase::Done), ActionView::Fail { message: m })
        } else {
            unexpected(s)
        },
        EventView::Shown => if s.phase == Phase::Presenting {
            (in_phase(s, Phase::AwaitingChoice), ActionView::AskChoice { command: trim(s.candidate) })
        } else if s.phase == Phase::Closing {
            (in_phase(s, Phase::Done), ActionView::Finish)
        } else {
            unexpected(s)
        },
        EventView::Revision(t) => if s.phase == Phase::Revising {
            let h = revised(s.history, t);
            (
                InteractionView { phase: Phase::Translating, candidate: s.candidate, history: h },
                ActionView::Request { prompt: h, explain: false },
            )
        } else {
            unexpected(s)
        },
    }
}

impl Interaction {
    /// Opens the interaction for the user's request.
    pub fn start(text: &str, explain: bool) -> (r: (Interaction, Action))
        ensures
            (r.0@, r.1@) == opening(text@, explain),
    {
        let s = Interaction {
            phase: Phase::Done,
            candidate: String::new(),
            history: String::from_str(text),
        };
        if text.is_empty() {
            (s, Action::Advise { message: String::from_str(EMPTY_REQUEST_MESSAGE) })
        } else if explain {
            (
                Interaction { phase: Phase::Answering, ..s },
                Action::Request { prompt: String::from_str(text), explain: true },
            )
        } else {
            (
                Interaction { phase: Phase::Translating, ..s },
                Action::Request { prompt: String::from_str(text), explain: false },
            )
        }
    }

    /// Whether the interaction is over.
    pub fn is_done(&self) -> (r: bool)
        ensures
            r == (self.phase == Phase::Done),
    {
        self.phase == Phase::Done
    }

    fn finish_with(&mut self, message: &str) -> (a: Action)
        ensures
            final(self)@ == in_phase(old(self)@, Phase::Done),
            a@ == (ActionView::Fail { message: message@ }),
    {
        self.phase = Phase::Done;
        Action::Fail { message: String::from_str(message) }
    }

    /// Takes one event and returns the next action.
    pub fn step(&mut self, event: Event) -> (a: Action)
        ensures
            (final(self)@, a@) == transition(old(self)@, event@),
    {
        match event {
            Event::InputFailed(m) => {
                self.phase = Phase::Done;
                Action::Fail { message: m }
            },
            Event::Answer(Ok(t)) => {
                if self.phase == Phase::Translating {
                    let command = trimmed(t.as_str());
                    self.phase = Phase::AwaitingChoice;
                    self.candidate = t;
                    Action::AskChoice { command }
                } else if self.phase == Phase::Explaining {
                    self.phase = Phase::Presenting;
                    Action::Show { text: t }
                } else if self.phase == Phase::Answering {
                    self.phase = Phase::Closing;
                    Action::Show { text: t }
                } else {
                    self.finish_with(UNEXPECTED_EVENT_MESSAGE)
                }
            },
            Event::Answer(Err(m)) => {
                if self.phase == Phase::Translating || self.phase == Phase::Explaining
                    || self.phase == Phase::Answering {
                    self.phase = Phase::Done;
                    Action::Fail { message: m }
                } else {
                    self.finish_with(UNEXPECTED_EVENT_MESSAGE)
                }
            },
            Event::Chose(c) => {
                if self.phase == Phase::AwaitingChoice {
                    match c {
                        Choice::Execute => {
                            self.phase = Phase::Executing;
                            Action::Run { command: self.candidate.clone() }
                        },
                        Choice::Explain => {
                            self.phase = Phase::Explaining;
                            Action::Request { prompt: self.candidate.clone(), explain: true }
                        },
                        Choice::Revise => {
                            self.phase = Phase::Revising;
                            Action::AskRevision
                        },
                        Choice::Cancel => {
                            self.phase = Phase::Done;
                            Action::Finish
                        },
                    }
                } else {
                    self.finish_with(UNEXPECTED_EVENT_MESSAGE)
                }
            },
            Event::Ran(Ok(code)) => {
                if self.phase == Phase::Executing {
                    self.phase = Phase::Done;
                    if code != 0 {
                        Action::Exit { code }
                    } else {
                        Action::Finish
                    }
                } else {
                    self.finish_with(UNEXPECTED_EVENT_MESSAGE)
                }
            },
            Event::Ran(Err(m)) => {
                if self.phase == Phase::Executing {
                    self.phase = Phase::Done;
                    Action::Fail { message: m }
                } else {
                    self.finish_with(UNEXPECTED_EVENT_MESSAGE)
                }
            },
            Event::Shown => {
                if self.phase == Phase::Presenting {
                    self.phase = Phase::AwaitingChoice;
                    Action::AskChoice { command: trimmed(self.candidate.as_str()) }
                } else if self.phase == Phase::Closing {
                    self.phase = Phase::Done;
                    Action::Finish
                } else {
                    self.finish_with(UNEXPECTED_EVENT_MESSAGE)
                }
            },
            Event::Revision(t) => {
                if self.phase == Phase::Revising {
                    self.history.append("\n");
                    self.history.append(t.as_str());
                    self.phase = Phase::Translating;
                    Action::Request { prompt: self.history.clone(), explain: false }
                } else {
                    self.finish_with(UNEXPECTED_EVENT_MESSAGE)
                }
            },
        }
    }
}

/// Choosing to execute runs the command as it stands, and a non-zero exit
/// code ends the process with that same code.
pub proof fn lemma_execute_failure_exits(s: InteractionView, code: i32)
    requires
        s.phase == Phase::AwaitingChoice,
        code != 0,
    ensures
        transition(s, EventView::Chose(Choice::Execute)).1 == (ActionView::Run {
            command: s.candidate,
        }),
        transition(transition(s, EventView::Chose(Choice::Execute)).0, EventView::Ran(Ok(code)))
            == (in_phase(s, Phase::Done), ActionView::Exit { code }),
{
}

/// Revising asks for the revision, then requests a new command for the
/// history, a newline and the revision.
pub proof fn lemma_revision_request(s: InteractionView, revision: Seq<char>)
    requires
        s.phase == Phase::AwaitingChoice,
    ensures
        transition(s, EventView::Chose(Choice::Revise)).1 == ActionView::AskRevision,
        transition(
            transition(s, EventView::Chose(Choice::Revise)).0,
            EventView::Revision(revision),
        ).1 == (ActionView::Request { prompt: s.history + "\n"@ + revision, explain: false }),
{
}

} // verus!
