use vstd::prelude::*;
use vstd::pervasive::unreached;
use vstd::string::StringExecFns;
use crate::state::{State, StateV};
use crate::events::{Event, EventV, MsgRef, MsgRefV, opt_str_view};
use crate::actions::{Action, ActionV, Dest, spec_render, spec_preview, render_quote, render_preview};
use crate::classify::{Handler, spec_classify, classify};

verus! {

/// The text body of a free-text event; empty for any other event.
pub open spec fn text_body(e: EventV) -> Seq<char> {
    match e {
        EventV::Text { body: Option::Some(b) } => b,
        _ => Seq::empty(),
    }
}

/// The author a state carries; empty when it carries none.
pub open spec fn state_author(s: StateV) -> Seq<char> {
    match s {
        StateV::ReceiveCiteText { author } => author,
        StateV::WaitUserApproval { author, .. } => author,
        _ => Seq::empty(),
    }
}

/// The quote body a state carries; empty when it carries none.
pub open spec fn state_citation(s: StateV) -> Seq<char> {
    match s {
        StateV::WaitUserApproval { citation, .. } => citation,
        _ => Seq::empty(),
    }
}

/// The choice label of a button click; absent for any other event.
pub open spec fn click_choice(e: EventV) -> Option<Seq<char>> {
    match e {
        EventV::ButtonClick { choice, .. } => choice,
        _ => Option::None,
    }
}

/// The message a button click hangs on; absent for any other event.
pub open spec fn click_message(e: EventV) -> Option<MsgRefV> {
    match e {
        EventV::ButtonClick { message, .. } => message,
        _ => Option::None,
    }
}

/// The click identity of a button click; empty for any other event.
pub open spec fn click_id_of(e: EventV) -> Seq<char> {
    match e {
        EventV::ButtonClick { click_id, .. } => click_id,
        _ => Seq::empty(),
    }
}

/// Whether an event is a button click.
pub open spec fn is_click(e: EventV) -> bool {
    match e {
        EventV::ButtonClick { .. } => true,
        _ => false,
    }
}

/// Actions of the help handler: the command list, to the requesting chat.
pub open spec fn spec_help_actions(conv: i64) -> Seq<ActionV> {
    seq![
        ActionV::SendText {
            dest: Dest::Chat(conv),
            body: "Comandi supportati\n/help — Mostra tutti i comandi disponibili\n/citazione — Invia una nuova citazione\n/cancella — Interrompi la creazione di una nuova citazione"@,
        },
    ]
}

/// Result of starting a submission: prompt for the author, await it.
pub open spec fn spec_start_submission(conv: i64) -> (StateV, Seq<ActionV>) {
    (
        StateV::ReceiveCiteAuthor,
        seq![
            ActionV::SendText {
                dest: Dest::Chat(conv),
                body: "Di chi è questa citazione?\nInvia il nome del professore nella forma Nome Cognome (es. Andrea Rossi):\n"@,
            },
        ],
    )
}

/// Result of a cancellation: confirm it and return to idle.
pub open spec fn spec_cancel(conv: i64) -> (StateV, Seq<ActionV>) {
    (
        StateV::Start,
        seq![
            ActionV::SendText { dest: Dest::Chat(conv), body: "Cancello l'invio della citazione"@ },
        ],
    )
}

/// Result of capturing the author: prompt for the quote body, carry the
/// author along.
pub open spec fn spec_capture_author(conv: i64, body: Seq<char>) -> (StateV, Seq<ActionV>) {
    (
        StateV::ReceiveCiteText { author: body },
        seq![
            ActionV::SendText { dest: Dest::Chat(conv), body: "Cosa ha detto?\n"@ },
        ],
    )
}

/// Result of capturing the quote body: show the rendered preview with the
/// confirm-or-redo choices, and await the submitter's approval.
pub open spec fn spec_capture_text(conv: i64, author: Seq<char>, body: Seq<char>) -> (
    StateV,
    Seq<ActionV>,
) {
    (
        StateV::WaitUserApproval { author, citation: body },
        seq![
            ActionV::SendChoice {
                dest: Dest::Chat(conv),
                body: spec_preview(body, author),
                options: seq!["Ok"@, "Ricrea"@],
            },
        ],
    )
}

/// Result of the submitter's choice. Confirming hands the rendered quote
/// with the accept-or-reject choices to the admin group, tells the
/// submitter it is pending, and returns the conversation to idle. Redoing
/// restarts the capture from the author prompt. Any other choice, or a
/// click without one, only resets to idle. The click is acknowledged
/// exactly once on every path, as the last action.
pub open spec fn spec_user_approval(
    conv: i64,
    author: Seq<char>,
    citation: Seq<char>,
    choice: Option<Seq<char>>,
    click: Seq<char>,
) -> (StateV, Seq<ActionV>) {
    if choice == Option::Some("Ok"@) {
        (
            StateV::Start,
            seq![
                ActionV::SendChoice {
                    dest: Dest::AdminGroup,
                    body: spec_render(citation, author),
                    options: seq!["Accetta"@, "Rifiuta"@],
                },
                ActionV::SendText {
                    dest: Dest::Chat(conv),
                    body: "Citazione inviata agli admin, se verrà approvata potrai vederla nel canale."@,
                },
                ActionV::AcknowledgeClick { click_id: click },
            ],
        )
    } else if choice == Option::Some("Ricrea"@) {
        (
            StateV::ReceiveCiteAuthor,
            seq![
                ActionV::SendText { dest: Dest::Chat(conv), body: "Ok, ricreiamo la citazione. Autore?"@ },
                ActionV::AcknowledgeClick { click_id: click },
            ],
        )
    } else {
        (StateV::Start, seq![ActionV::AcknowledgeClick { click_id: click }])
    }
}

/// Actions of an admin decision. Accepting forwards the decision message's
/// text verbatim to the public channel; rejecting forwards nothing. Both
/// delete the decision message, so a choice can be taken at most once.
/// A click whose message is already gone, or that carries no choice, only
/// acknowledges: a second decision on a deleted message has no further
/// effect. A decision message without text publishes nothing but is still
/// deleted. The click is acknowledged exactly once, as the last action.
pub open spec fn spec_admin_actions(
    choice: Option<Seq<char>>,
    message: Option<MsgRefV>,
    click: Seq<char>,
) -> Seq<ActionV> {
    match (choice, message) {
        (Option::Some(ch), Option::Some(m)) => {
            let tail = seq![
                ActionV::DeleteMessage { dest: Dest::Chat(m.chat), message_id: m.id },
                ActionV::AcknowledgeClick { click_id: click },
            ];
            if ch == "Accetta"@ {
                match m.text {
                    Option::Some(t) => seq![
                        ActionV::SendText { dest: Dest::PublicChannel, body: t },
                    ] + tail,
                    Option::None => tail,
                }
            } else {
                tail
            }
        },
        _ => seq![ActionV::AcknowledgeClick { click_id: click }],
    }
}

/// Actions of the fallback: a generic notice to the sender; a button click
/// is still acknowledged so it never stays pending.
pub open spec fn spec_fallback_actions(conv: i64, e: EventV) -> Seq<ActionV> {
    let notice = seq![
        ActionV::SendText {
            dest: Dest::Chat(conv),
            body: "Non riesco a processare il tuo messaggio.\nScrivi /help per vedere i comandi disponibili.\n"@,
        },
    ];
    if is_click(e) {
        notice + seq![ActionV::AcknowledgeClick { click_id: click_id_of(e) }]
    } else {
        notice
    }
}

/// One step of the workflow: the state after the event, and the outbound
/// actions it causes, in order. The event is routed by [`spec_classify`];
/// handlers that do not change the state return it unchanged.
pub open spec fn spec_step(conv: i64, s: StateV, e: EventV) -> (StateV, Seq<ActionV>) {
    match spec_classify(s, e) {
        Handler::Help => (s, spec_help_actions(conv)),
        Handler::StartSubmission => spec_start_submission(conv),
        Handler::Cancel => spec_cancel(conv),
        Handler::CaptureAuthor => spec_capture_author(conv, text_body(e)),
        Handler::CaptureText => spec_capture_text(conv, state_author(s), text_body(e)),
        Handler::SubmitterApproval => spec_user_approval(
            conv,
            state_author(s),
            state_citation(s),
            click_choice(e),
            click_id_of(e),
        ),
        Handler::AdminDecision => (s, spec_admin_actions(click_choice(e), click_message(e), click_id_of(e))),
        Handler::Fallback => (s, spec_fallback_actions(conv, e)),
    }
}

/// Whether a string equals a given literal.
fn str_eq(a: &String, lit: &str) -> (r: bool)
    ensures
        r == (a@ == lit@),
{
    let l: String = lit.to_owned();
    *a == l
}

/// Handles the help command: sends the command list.
pub fn handler_help(conv: i64) -> (r: Vec<Action>)
    ensures
        r.deep_view() == spec_help_actions(conv),
{
    let mut acts: Vec<Action> = Vec::new();
    acts.push(
        Action::SendText {
            dest: Dest::Chat(conv),
            body: "Comandi supportati\n/help — Mostra tutti i comandi disponibili\n/citazione — Invia una nuova citazione\n/cancella — Interrompi la creazione di una nuova citazione".to_owned(),
        },
    );
    proof {
        assert(acts.deep_view() =~= spec_help_actions(conv));
    }
    acts
}

/// Handles the command that starts a submission: prompts for the author.
pub fn handler_citazione(conv: i64) -> (r: (State, Vec<Action>))
    ensures
        r.0@ == spec_start_submission(conv).0,
        r.1.deep_view() == spec_start_submission(conv).1,
{
    let mut acts: Vec<Action> = Vec::new();
    acts.push(
        Action::SendText {
            dest: Dest::Chat(conv),
            body: "Di chi è questa citazione?\nInvia il nome del professore nella forma Nome Cognome (es. Andrea Rossi):\n".to_owned(),
        },
    );
    proof {
        assert(acts.deep_view() =~= spec_start_submission(conv).1);
    }
    (State::ReceiveCiteAuthor, acts)
}

/// Handles the cancel command: confirms and resets the conversation.
pub fn handler_cancella(conv: i64) -> (r: (State, Vec<Action>))
    ensures
        r.0@ == spec_cancel(conv).0,
        r.1.deep_view() == spec_cancel(conv).1,
{
    let mut acts: Vec<Action> = Vec::new();
    acts.push(
        Action::SendText {
            dest: Dest::Chat(conv),
            body: "Cancello l'invio della citazione".to_owned(),
        },
    );
    proof {
        assert(acts.deep_view() =~= spec_cancel(conv).1);
    }
    (State::Start, acts)
}

/// Handles an event nothing else matched: sends a generic notice.
pub fn handler_error(conv: i64) -> (r: Vec<Action>)
    ensures
        r.deep_view() == seq![
            ActionV::SendText {
                dest: Dest::Chat(conv),
                body: "Non riesco a processare il tuo messaggio.\nScrivi /help per vedere i comandi disponibili.\n"@,
            },
        ],
{
    let mut acts: Vec<Action> = Vec::new();
    acts.push(
        Action::SendText {
            dest: Dest::Chat(conv),
            body: "Non riesco a processare il tuo messaggio.\nScrivi /help per vedere i comandi disponibili.\n".to_owned(),
        },
    );
    proof {
        assert(acts.deep_view() =~= seq![
            ActionV::SendText {
                dest: Dest::Chat(conv),
                body: "Non riesco a processare il tuo messaggio.\nScrivi /help per vedere i comandi disponibili.\n"@,
            },
        ]);
    }
    acts
}

/// Handles the author name: prompts for the quote body.
pub fn handler_citazione_autore(conv: i64, body: String) -> (r: (State, Vec<Action>))
    ensures
        r.0@ == spec_capture_author(conv, body@).0,
        r.1.deep_view() == spec_capture_author(conv, body@).1,
{
    let mut acts: Vec<Action> = Vec::new();
    acts.push(
        Action::SendText { dest: Dest::Chat(conv), body: "Cosa ha detto?\n".to_owned() },
    );
    proof {
        assert(acts.deep_view() =~= spec_capture_author(conv, body@).1);
    }
    (State::ReceiveCiteText { author: body }, acts)
}

/// Handles the quote body: shows the preview with the confirm-or-redo
/// choices and awaits the submitter's approval.
pub fn handler_citazione_text(conv: i64, author: String, body: String) -> (r: (
    State,
    Vec<Action>,
))
    ensures
        r.0@ == spec_capture_text(conv, author@, body@).0,
        r.1.deep_view() == spec_capture_text(conv, author@, body@).1,
{
    let preview = render_preview(body.as_str(), author.as_str());
    let mut options: Vec<String> = Vec::new();
    options.push("Ok".to_owned());
    options.push("Ricrea".to_owned());
    proof {
        assert(options.deep_view() =~= seq!["Ok"@, "Ricrea"@]);
    }
    let mut acts: Vec<Action> = Vec::new();
    acts.push(Action::SendChoice { dest: Dest::Chat(conv), body: preview, options });
    proof {
        assert(acts.deep_view() =~~= spec_capture_text(conv, author@, body@).1);
    }
    (State::WaitUserApproval { author, citation: body }, acts)
}

/// Handles the submitter's confirm-or-redo choice on the preview.
pub fn handler_user_approval(
    conv: i64,
    author: String,
    citation: String,
    choice: Option<String>,
    click_id: String,
) -> (r: (State, Vec<Action>))
    ensures
        r.0@ == spec_user_approval(conv, author@, citation@, opt_str_view(choice), click_id@).0,
        r.1.deep_view() == spec_user_approval(
            conv,
            author@,
            citation@,
            opt_str_view(choice),
            click_id@,
        ).1,
{
    let ghost choice_v = opt_str_view(choice);
    let ghost click_v = click_id@;
    match choice {
        Option::Some(c) => {
            if str_eq(&c, "Ok") {
                let rendered = render_quote(citation.as_str(), author.as_str());
                let mut options: Vec<String> = Vec::new();
                options.push("Accetta".to_owned());
                options.push("Rifiuta".to_owned());
                proof {
                    assert(options.deep_view() =~= seq!["Accetta"@, "Rifiuta"@]);
                }
                let mut acts: Vec<Action> = Vec::new();
                acts.push(Action::SendChoice { dest: Dest::AdminGroup, body: rendered, options });
                acts.push(
                    Action::SendText {
                        dest: Dest::Chat(conv),
                        body: "Citazione inviata agli admin, se verrà approvata potrai vederla nel canale.".to_owned(),
                    },
                );
                acts.push(Action::AcknowledgeClick { click_id });
                proof {
                    assert(acts.deep_view() =~~= spec_user_approval(
                        conv,
                        author@,
                        citation@,
                        choice_v,
                        click_v,
                    ).1);
                }
                (State::Start, acts)
            } else if str_eq(&c, "Ricrea") {
                let mut acts: Vec<Action> = Vec::new();
                acts.push(
                    Action::SendText {
                        dest: Dest::Chat(conv),
                        body: "Ok, ricreiamo la citazione. Autore?".to_owned(),
                    },
                );
                acts.push(Action::AcknowledgeClick { click_id });
                proof {
                    assert(acts.deep_view() =~~= spec_user_approval(
                        conv,
                        author@,
                        citation@,
                        choice_v,
                        click_v,
                    ).1);
                }
                (State::ReceiveCiteAuthor, acts)
            } else {
                let mut acts: Vec<Action> = Vec::new();
                acts.push(Action::AcknowledgeClick { click_id });
                proof {
                    assert(acts.deep_view() =~~= spec_user_approval(
                        conv,
                        author@,
                        citation@,
                        choice_v,
                        click_v,
                    ).1);
                }
                (State::Start, acts)
            }
        },
        Option::None => {
            let mut acts: Vec<Action> = Vec::new();
            acts.push(Action::AcknowledgeClick { click_id });
            proof {
                assert(acts.deep_view() =~~= spec_user_approval(
                    conv,
                    author@,
                    citation@,
                    choice_v,
                    click_v,
                ).1);
            }
            (State::Start, acts)
        },
    }
}

/// Handles the admin group's accept-or-reject choice on a decision message.
pub fn handler_admin_approval(
    choice: Option<String>,
    message: Option<MsgRef>,
    click_id: String,
) -> (r: Vec<Action>)
    ensures
        r.deep_view() == spec_admin_actions(
            opt_str_view(choice),
            match message {
                Option::Some(m) => Option::Some(m@),
                Option::None => Option::None,
            },
            click_id@,
        ),
{
    let ghost choice_v = opt_str_view(choice);
    let ghost click_v = click_id@;
    let ghost message_v: Option<MsgRefV> = (match &message {
        Option::Some(m) => Option::Some(m@),
        Option::None => Option::None,
    });
    match (choice, message) {
        (Option::Some(ch), Option::Some(m)) => {
            let mut acts: Vec<Action> = Vec::new();
            let accepted = str_eq(&ch, "Accetta");
            let MsgRef { chat, id, text } = m;
            match text {
                Option::Some(t) => {
                    if accepted {
                        acts.push(Action::SendText { dest: Dest::PublicChannel, body: t });
                    }
                },
                Option::None => {},
            }
            acts.push(Action::DeleteMessage { dest: Dest::Chat(chat), message_id: id });
            acts.push(Action::AcknowledgeClick { click_id });
            proof {
                assert(acts.deep_view() =~~= spec_admin_actions(choice_v, message_v, click_v));
            }
            acts
        },
        (_, _) => {
            let mut acts: Vec<Action> = Vec::new();
            acts.push(Action::AcknowledgeClick { click_id });
            proof {
                assert(acts.deep_view() =~~= spec_admin_actions(choice_v, message_v, click_v));
            }
            acts
        },
    }
}

/// Runs one inbound event against a conversation's current state: routes
/// it to the one applicable handler and returns the state after it and the
/// outbound actions it caused, in order.
pub fn step(conv: i64, state: State, event: Event) -> (r: (State, Vec<Action>))
    ensures
        r.0@ == spec_step(conv, state@, event@).0,
        r.1.deep_view() == spec_step(conv, state@, event@).1,
{
    let ghost st_v = state@;
    let ghost ev_v = event@;
    let h = classify(&state, &event);
    match h {
        Handler::Help => (state, handler_help(conv)),
        Handler::StartSubmission => handler_citazione(conv),
        Handler::Cancel => handler_cancella(conv),
        Handler::CaptureAuthor => match event {
            Event::Text { body: Option::Some(b) } => handler_citazione_autore(conv, b),
            _ => unreached(),
        },
        Handler::CaptureText => match (state, event) {
            (State::ReceiveCiteText { author }, Event::Text { body: Option::Some(b) }) => {
                handler_citazione_text(conv, author, b)
            },
            _ => unreached(),
        },
        Handler::SubmitterApproval => match (state, event) {
            (
                State::WaitUserApproval { author, citation },
                Event::ButtonClick { click_id, choice, .. },
            ) => handler_user_approval(conv, author, citation, choice, click_id),
            _ => unreached(),
        },
        Handler::AdminDecision => match event {
            Event::ButtonClick { click_id, choice, message, .. } => {
                (state, handler_admin_approval(choice, message, click_id))
            },
            _ => unreached(),
        },
        Handler::Fallback => {
            let mut acts = handler_error(conv);
            match event {
                Event::ButtonClick { click_id, .. } => {
                    acts.push(Action::AcknowledgeClick { click_id });
                },
                _ => {},
            }
            proof {
                assert(acts.deep_view() =~~= spec_step(conv, st_v, ev_v).1);
            }
            (state, acts)
        },
    }
}

} // verus!
