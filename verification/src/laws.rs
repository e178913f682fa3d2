use vstd::prelude::*;
use crate::state::StateV;
use crate::events::{Command, EventV, MsgRefV};
use crate::actions::{ActionV, Dest, spec_render};
use crate::classify::{Handler, spec_classify};
use crate::handlers::{spec_step, spec_admin_actions};
use crate::dispatch::{spec_dispatch_store, spec_dispatch_actions};

verus! {

/// Whether an action sends a message (with or without choices) to `d`.
pub open spec fn is_send_to(a: ActionV, d: Dest) -> bool {
    match a {
        ActionV::SendText { dest, .. } => dest == d,
        ActionV::SendChoice { dest, .. } => dest == d,
        _ => false,
    }
}

/// How many of the actions send a message to `d`.
pub open spec fn count_sends_to(acts: Seq<ActionV>, d: Dest) -> int
    decreases acts.len(),
{
    if acts.len() == 0 {
        0
    } else {
        (if is_send_to(acts[0], d) {
            1int
        } else {
            0int
        }) + count_sends_to(acts.drop_first(), d)
    }
}

/// Whether an action acknowledges a button click.
pub open spec fn is_ack(a: ActionV) -> bool {
    match a {
        ActionV::AcknowledgeClick { .. } => true,
        _ => false,
    }
}

/// How many of the actions acknowledge a button click.
pub open spec fn count_acks(acts: Seq<ActionV>) -> int
    decreases acts.len(),
{
    if acts.len() == 0 {
        0
    } else {
        (if is_ack(acts[0]) {
            1int
        } else {
            0int
        }) + count_acks(acts.drop_first())
    }
}

/// Cancellation is always available: from every state, the cancel command
/// brings the conversation back to idle — the state every conversation
/// starts in (see [`crate::store::ConversationStore::new`]).
pub proof fn lemma_cancel_reaches_start(conv: i64, s: StateV)
    ensures
        spec_step(conv, s, EventV::Command(Command::Cancella)).0 == StateV::Start,
{
}

/// Starting a submission from idle always moves to awaiting the author;
/// from any other state the command is unmatched, falls back, and leaves
/// the state alone.
pub proof fn lemma_start_submission(conv: i64, s: StateV)
    ensures
        s == StateV::Start ==> spec_step(conv, s, EventV::Command(Command::Citazione)).0
            == StateV::ReceiveCiteAuthor,
        s != StateV::Start ==> spec_classify(s, EventV::Command(Command::Citazione))
            == Handler::Fallback,
        s != StateV::Start ==> spec_step(conv, s, EventV::Command(Command::Citazione)).0 == s,
{
}

/// Redoing from the submitter-approval state always restarts the capture
/// at the author prompt — never at idle — and discards the captured
/// author and text.
pub proof fn lemma_redo_restarts_capture(
    conv: i64,
    author: Seq<char>,
    citation: Seq<char>,
    click: Seq<char>,
    message: Option<MsgRefV>,
    from_admin: bool,
)
    ensures
        ({
            let s = StateV::WaitUserApproval { author, citation };
            let e = EventV::ButtonClick {
                click_id: click,
                choice: Option::Some("Ricrea"@),
                message,
                from_admin,
            };
            spec_step(conv, s, e).0 == StateV::ReceiveCiteAuthor && spec_step(conv, s, e).0
                != StateV::Start
        }),
{
    reveal_strlit("Ricrea");
    reveal_strlit("Ok");
    assert("Ricrea"@.len() == 6);
    assert("Ok"@.len() == 2);
}

/// Confirming from the submitter-approval state always returns the
/// conversation to idle and emits exactly one choice message to the admin
/// group, exactly one acknowledgment text to the submitter, and exactly
/// one click acknowledgment; the admin message carries the rendered quote.
pub proof fn lemma_confirm_hands_to_admins(
    conv: i64,
    author: Seq<char>,
    citation: Seq<char>,
    click: Seq<char>,
    message: Option<MsgRefV>,
    from_admin: bool,
)
    ensures
        ({
            let s = StateV::WaitUserApproval { author, citation };
            let e = EventV::ButtonClick {
                click_id: click,
                choice: Option::Some("Ok"@),
                message,
                from_admin,
            };
            let (ns, acts) = spec_step(conv, s, e);
            ns == StateV::Start && acts == seq![
                ActionV::SendChoice {
                    dest: Dest::AdminGroup,
                    body: spec_render(citation, author),
                    options: seq!["Accetta"@, "Rifiuta"@],
                },
                ActionV::SendText {
                    dest: Dest::Chat(conv),
                    body: "Citazione inviata agli admin, se verrà approvata potrai vederla nel canale."@,
                },
                ActionV::AcknowledgeClick { click_id: click },
            ] && count_sends_to(acts, Dest::AdminGroup) == 1 && count_sends_to(
                acts,
                Dest::Chat(conv),
            ) == 1 && count_acks(acts) == 1
        }),
{
    reveal_with_fuel(count_sends_to, 5);
    reveal_with_fuel(count_acks, 5);
}

/// An admin acceptance forwards the decision message's text verbatim to
/// the public channel, deletes the decision message, and acknowledges the
/// click exactly once.
pub proof fn lemma_admin_accept_publishes_verbatim(
    chat: i64,
    id: i64,
    text: Seq<char>,
    click: Seq<char>,
)
    ensures
        ({
            let m = MsgRefV { chat, id, text: Option::Some(text) };
            let acts = spec_admin_actions(Option::Some("Accetta"@), Option::Some(m), click);
            acts == seq![
                ActionV::SendText { dest: Dest::PublicChannel, body: text },
                ActionV::DeleteMessage { dest: Dest::Chat(chat), message_id: id },
                ActionV::AcknowledgeClick { click_id: click },
            ] && count_acks(acts) == 1
        }),
{
    let m = MsgRefV { chat, id, text: Option::Some(text) };
    let acts = spec_admin_actions(Option::Some("Accetta"@), Option::Some(m), click);
    assert(acts =~= seq![
        ActionV::SendText { dest: Dest::PublicChannel, body: text },
        ActionV::DeleteMessage { dest: Dest::Chat(chat), message_id: id },
        ActionV::AcknowledgeClick { click_id: click },
    ]);
    reveal_with_fuel(count_acks, 5);
}

/// Any admin decision other than an acceptance — a rejection in
/// particular — deletes the decision message and acknowledges the click,
/// and publishes nothing.
pub proof fn lemma_admin_non_accept_publishes_nothing(
    chat: i64,
    id: i64,
    text: Option<Seq<char>>,
    choice: Seq<char>,
    click: Seq<char>,
)
    requires
        choice != "Accetta"@,
    ensures
        ({
            let m = MsgRefV { chat, id, text };
            spec_admin_actions(Option::Some(choice), Option::Some(m), click) == seq![
                ActionV::DeleteMessage { dest: Dest::Chat(chat), message_id: id },
                ActionV::AcknowledgeClick { click_id: click },
            ]
        }),
{
}

/// The rejection choice is not the acceptance choice, so rejecting
/// deletes the decision message and acknowledges the click without
/// publishing anything.
pub proof fn lemma_admin_reject_publishes_nothing(
    chat: i64,
    id: i64,
    text: Option<Seq<char>>,
    click: Seq<char>,
)
    ensures
        ({
            let m = MsgRefV { chat, id, text };
            spec_admin_actions(Option::Some("Rifiuta"@), Option::Some(m), click) == seq![
                ActionV::DeleteMessage { dest: Dest::Chat(chat), message_id: id },
                ActionV::AcknowledgeClick { click_id: click },
            ]
        }),
{
    reveal_strlit("Rifiuta");
    reveal_strlit("Accetta");
    assert("Rifiuta"@[0] == 'R');
    assert("Accetta"@[0] == 'A');
    lemma_admin_non_accept_publishes_nothing(chat, id, text, "Rifiuta"@, click);
}

/// A decision click whose message is already gone — a second click on an
/// already-decided message — only acknowledges the click: nothing is
/// published and nothing is deleted, whatever the choice was.
pub proof fn lemma_stale_click_only_acknowledges(choice: Option<Seq<char>>, click: Seq<char>)
    ensures
        spec_admin_actions(choice, Option::None, click) == seq![
            ActionV::AcknowledgeClick { click_id: click },
        ],
{
}

/// Independent conversations never observe each other: an event of one
/// conversation leaves every other conversation's state as it was, the
/// actions of an event do not depend on what another conversation did in
/// between, and the events of two distinct conversations can be processed
/// in either order with the same outcome.
pub proof fn lemma_conversations_independent(
    m: Map<i64, StateV>,
    a: i64,
    ea: EventV,
    b: i64,
    eb: EventV,
)
    requires
        a != b,
    ensures
        spec_dispatch_store(m, a, ea)[b] == m[b],
        spec_dispatch_actions(spec_dispatch_store(m, a, ea), b, eb) == spec_dispatch_actions(
            m,
            b,
            eb,
        ),
        spec_dispatch_store(spec_dispatch_store(m, a, ea), b, eb) == spec_dispatch_store(
            spec_dispatch_store(m, b, eb),
            a,
            ea,
        ),
{
    assert(spec_dispatch_store(spec_dispatch_store(m, a, ea), b, eb) =~= spec_dispatch_store(
        spec_dispatch_store(m, b, eb),
        a,
        ea,
    ));
}

} // verus!
