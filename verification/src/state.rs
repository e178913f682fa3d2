use vstd::prelude::*;

verus! {

/// The step of the submission workflow a conversation is in.
///
/// A conversation starts idle, is prompted for the quote's author, then for
/// its text, and finally waits for the submitter to confirm or redo the
/// rendered quote before it is handed to the admin group.
pub enum State {
    /// Idle, awaiting a command. Initial state of every conversation.
    Start,
    /// Awaiting the free-text author name.
    ReceiveCiteAuthor,
    /// Awaiting the free-text quote body; carries the author captured before.
    ReceiveCiteText { author: String },
    /// Awaiting the submitter's choice between confirming and redoing.
    WaitUserApproval { author: String, citation: String },
}

/// Mathematical model of a [`State`]: the same four variants over
/// sequences of characters instead of heap strings.
pub enum StateV {
    Start,
    ReceiveCiteAuthor,
    ReceiveCiteText { author: Seq<char> },
    WaitUserApproval { author: Seq<char>, citation: Seq<char> },
}

impl View for State {
    type V = StateV;

    open spec fn view(&self) -> StateV {
        match self {
            State::Start => StateV::Start,
            State::ReceiveCiteAuthor => StateV::ReceiveCiteAuthor,
            State::ReceiveCiteText { author } => StateV::ReceiveCiteText { author: author@ },
            State::WaitUserApproval { author, citation } => StateV::WaitUserApproval {
                author: author@,
                citation: citation@,
            },
        }
    }
}

impl Clone for State {
    /// A clone carries the same step and the same captured strings.
    fn clone(&self) -> (r: Self)
        ensures
            r@ == self@,
    {
        match self {
            State::Start => State::Start,
            State::ReceiveCiteAuthor => State::ReceiveCiteAuthor,
            State::ReceiveCiteText { author } => State::ReceiveCiteText {
                author: author.clone(),
            },
            State::WaitUserApproval { author, citation } => State::WaitUserApproval {
                author: author.clone(),
                citation: citation.clone(),
            },
        }
    }
}

impl Default for State {
    /// A conversation that was never touched is idle.
    fn default() -> (r: State)
        ensures
            r@ == StateV::Start,
    {
        State::Start
    }
}

} // verus!
