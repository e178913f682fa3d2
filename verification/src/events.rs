use vstd::prelude::*;

verus! {

/// The commands a submitter can issue.
#[derive(Clone, Copy, PartialEq, Eq, Structural, Debug)]
pub enum Command {
    /// Show the list of available commands.
    Help,
    /// Begin the submission of a new quote.
    Citazione,
    /// Abort the submission in progress.
    Cancella,
}

/// The message a button click originated from, as far as the workflow reads
/// it: the chat it stands in, its identity there, and its text, which for an
/// admin decision message already carries the fully rendered quote.
pub struct MsgRef {
    pub chat: i64,
    pub id: i64,
    pub text: Option<String>,
}

/// Mathematical model of a [`MsgRef`].
pub struct MsgRefV {
    pub chat: i64,
    pub id: i64,
    pub text: Option<Seq<char>>,
}

/// The view of an optional string: the character sequence, if one is there.
pub open spec fn opt_str_view(o: Option<String>) -> Option<Seq<char>> {
    match o {
        Option::Some(s) => Option::Some(s@),
        Option::None => Option::None,
    }
}

impl View for MsgRef {
    type V = MsgRefV;

    open spec fn view(&self) -> MsgRefV {
        MsgRefV { chat: self.chat, id: self.id, text: opt_str_view(self.text) }
    }
}

/// One inbound event of a conversation, already stripped to what the
/// workflow decides on. The transport parses command names and button
/// payloads before handing an event in.
pub enum Event {
    /// A recognized command.
    Command(Command),
    /// A free-text message; `body` is absent when the message carries no
    /// text at all (a photo, a sticker).
    Text { body: Option<String> },
    /// A button click. `choice` is the label attached to the button,
    /// `message` the message the buttons hang on, as far as both are still
    /// known; `from_admin` says whether the click came from the fixed
    /// admin-group identity.
    ButtonClick {
        click_id: String,
        choice: Option<String>,
        message: Option<MsgRef>,
        from_admin: bool,
    },
}

/// Mathematical model of an [`Event`].
pub enum EventV {
    Command(Command),
    Text { body: Option<Seq<char>> },
    ButtonClick {
        click_id: Seq<char>,
        choice: Option<Seq<char>>,
        message: Option<MsgRefV>,
        from_admin: bool,
    },
}

impl View for Event {
    type V = EventV;

    open spec fn view(&self) -> EventV {
        match self {
            Event::Command(c) => EventV::Command(*c),
            Event::Text { body } => EventV::Text { body: opt_str_view(*body) },
            Event::ButtonClick { click_id, choice, message, from_admin } => EventV::ButtonClick {
                click_id: click_id@,
                choice: opt_str_view(*choice),
                message: match message {
                    Option::Some(m) => Option::Some(m@),
                    Option::None => Option::None,
                },
                from_admin: *from_admin,
            },
        }
    }
}

} // verus!
