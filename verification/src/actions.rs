use vstd::prelude::*;
use vstd::string::StringExecFns;

verus! {

/// An addressable target of an outbound action: the chat a submitter writes
/// from, the fixed admin group, or the fixed public channel. The two fixed
/// destinations are resolved to concrete chat identities by the transport.
#[derive(Clone, Copy, PartialEq, Eq, Structural, Debug)]
pub enum Dest {
    Chat(i64),
    AdminGroup,
    PublicChannel,
}

/// One outbound effect the workflow asks the transport to perform.
pub enum Action {
    /// Send a plain text message.
    SendText { dest: Dest, body: String },
    /// Send a text message together with an ordered row of labelled choices.
    SendChoice { dest: Dest, body: String, options: Vec<String> },
    /// Delete a previously sent message.
    DeleteMessage { dest: Dest, message_id: i64 },
    /// Acknowledge a button click so the client stops showing it as pending.
    AcknowledgeClick { click_id: String },
}

/// Mathematical model of an [`Action`].
pub enum ActionV {
    SendText { dest: Dest, body: Seq<char> },
    SendChoice { dest: Dest, body: Seq<char>, options: Seq<Seq<char>> },
    DeleteMessage { dest: Dest, message_id: i64 },
    AcknowledgeClick { click_id: Seq<char> },
}

impl View for Action {
    type V = ActionV;

    open spec fn view(&self) -> ActionV {
        match self {
            Action::SendText { dest, body } => ActionV::SendText { dest: *dest, body: body@ },
            Action::SendChoice { dest, body, options } => ActionV::SendChoice {
                dest: *dest,
                body: body@,
                options: options.deep_view(),
            },
            Action::DeleteMessage { dest, message_id } => ActionV::DeleteMessage {
                dest: *dest,
                message_id: *message_id,
            },
            Action::AcknowledgeClick { click_id } => ActionV::AcknowledgeClick {
                click_id: click_id@,
            },
        }
    }
}

impl DeepView for Action {
    type V = ActionV;

    open spec fn deep_view(&self) -> ActionV {
        self.view()
    }
}

/// The rendered form of a quote, as the admin group and the public channel
/// see it: the text, a blank line, then a dash, the author and the year.
pub open spec fn spec_render(citation: Seq<char>, author: Seq<char>) -> Seq<char> {
    citation + "\n\n- "@ + author + ", 2022"@
}

/// Renders a quote for display.
pub fn render_quote(citation: &str, author: &str) -> (r: String)
    ensures
        r@ == spec_render(citation@, author@),
{
    let mut s: String = citation.to_owned();
    s.append("\n\n- ");
    s.append(author);
    s.append(", 2022");
    s
}

/// The preview shown to the submitter: the rendered quote followed by the
/// question whether it is fine as it stands.
pub open spec fn spec_preview(citation: Seq<char>, author: Seq<char>) -> Seq<char> {
    spec_render(citation, author) + "\nLa citazione va bene così?"@
}

/// Renders the preview the submitter is asked to confirm.
pub fn render_preview(citation: &str, author: &str) -> (r: String)
    ensures
        r@ == spec_preview(citation@, author@),
{
    let mut s: String = render_quote(citation, author);
    s.append("\nLa citazione va bene così?");
    s
}

} // verus!
