use vstd::prelude::*;
use crate::state::{State, StateV};
use crate::events::{Command, Event, EventV};

verus! {

/// The handler an inbound event is routed to. Exactly one handler applies
/// to every (state, event) pair; the selection rules are ordered, and the
/// order is part of the design: cancellation and commands pre-empt the
/// free-text and button routing.
#[derive(Clone, Copy, PartialEq, Eq, Structural, Debug)]
pub enum Handler {
    /// Show the command list.
    Help,
    /// Begin a new submission.
    StartSubmission,
    /// Abort whatever is in progress; always available.
    Cancel,
    /// Capture the author name.
    CaptureAuthor,
    /// Capture the quote body.
    CaptureText,
    /// The submitter's confirm-or-redo choice.
    SubmitterApproval,
    /// The admin group's accept-or-reject choice.
    AdminDecision,
    /// Nothing else applied: tell the sender the event could not be
    /// processed and leave the state unchanged.
    Fallback,
}

/// Routing rules, in priority order:
/// cancellation always wins among commands; the other two commands apply
/// only when the conversation is idle; free text is captured only in the
/// two capture states, and only when a text body is present; a button
/// click belongs to the submitter while the conversation awaits their
/// approval, and otherwise to the admin group when it came from there.
/// Anything else falls back.
pub open spec fn spec_classify(s: StateV, e: EventV) -> Handler {
    match e {
        EventV::Command(c) => match c {
            Command::Cancella => Handler::Cancel,
            Command::Help => match s {
                StateV::Start => Handler::Help,
                _ => Handler::Fallback,
            },
            Command::Citazione => match s {
                StateV::Start => Handler::StartSubmission,
                _ => Handler::Fallback,
            },
        },
        EventV::Text { body } => match body {
            Option::Some(_) => match s {
                StateV::ReceiveCiteAuthor => Handler::CaptureAuthor,
                StateV::ReceiveCiteText { .. } => Handler::CaptureText,
                _ => Handler::Fallback,
            },
            Option::None => Handler::Fallback,
        },
        EventV::ButtonClick { from_admin, .. } => match s {
            StateV::WaitUserApproval { .. } => Handler::SubmitterApproval,
            _ => if from_admin {
                Handler::AdminDecision
            } else {
                Handler::Fallback
            },
        },
    }
}

/// Selects the one handler that applies to `event` in state `state`.
pub fn classify(state: &State, event: &Event) -> (h: Handler)
    ensures
        h == spec_classify(state@, event@),
{
    match event {
        Event::Command(c) => match c {
            Command::Cancella => Handler::Cancel,
            Command::Help => match state {
                State::Start => Handler::Help,
                _ => Handler::Fallback,
            },
            Command::Citazione => match state {
                State::Start => Handler::StartSubmission,
                _ => Handler::Fallback,
            },
        },
        Event::Text { body } => match body {
            Option::Some(_) => match state {
                State::ReceiveCiteAuthor => Handler::CaptureAuthor,
                State::ReceiveCiteText { .. } => Handler::CaptureText,
                _ => Handler::Fallback,
            },
            Option::None => Handler::Fallback,
        },
        Event::ButtonClick { from_admin, .. } => match state {
            State::WaitUserApproval { .. } => Handler::SubmitterApproval,
            _ => if *from_admin {
                Handler::AdminDecision
            } else {
                Handler::Fallback
            },
        },
    }
}

} // verus!
