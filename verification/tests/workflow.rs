use citebot::actions::{Action, Dest};
use citebot::events::{Command, Event, MsgRef};
use citebot::handlers::step;
use citebot::state::State;

#[test]
fn default_state_is_idle() {
    assert!(matches!(State::default(), State::Start));
}

#[test]
fn help_in_start_lists_commands() {
    let (state, acts) = step(7, State::Start, Event::Command(Command::Help));
    assert!(matches!(state, State::Start));
    assert_eq!(acts.len(), 1);
    match &acts[0] {
        Action::SendText { dest, body } => {
            assert_eq!(*dest, Dest::Chat(7));
            assert_eq!(
                body,
                "Comandi supportati\n/help — Mostra tutti i comandi disponibili\n/citazione — Invia una nuova citazione\n/cancella — Interrompi la creazione di una nuova citazione"
            );
        }
        _ => panic!("expected a text message"),
    }
}

#[test]
fn start_submission_prompts_author() {
    let (state, acts) = step(7, State::Start, Event::Command(Command::Citazione));
    assert!(matches!(state, State::ReceiveCiteAuthor));
    assert_eq!(acts.len(), 1);
    match &acts[0] {
        Action::SendText { dest, body } => {
            assert_eq!(*dest, Dest::Chat(7));
            assert_eq!(
                body,
                "Di chi è questa citazione?\nInvia il nome del professore nella forma Nome Cognome (es. Andrea Rossi):\n"
            );
        }
        _ => panic!("expected a text message"),
    }
}

#[test]
fn start_submission_elsewhere_falls_back() {
    let (state, acts) = step(7, State::ReceiveCiteAuthor, Event::Command(Command::Citazione));
    assert!(matches!(state, State::ReceiveCiteAuthor));
    assert_eq!(acts.len(), 1);
    match &acts[0] {
        Action::SendText { dest, body } => {
            assert_eq!(*dest, Dest::Chat(7));
            assert_eq!(
                body,
                "Non riesco a processare il tuo messaggio.\nScrivi /help per vedere i comandi disponibili.\n"
            );
        }
        _ => panic!("expected a text message"),
    }
}

#[test]
fn cancel_returns_to_idle_from_every_state() {
    let states = vec![
        State::Start,
        State::ReceiveCiteAuthor,
        State::ReceiveCiteText { author: "Andrea Rossi".to_string() },
        State::WaitUserApproval {
            author: "Andrea Rossi".to_string(),
            citation: "La matematica è bella".to_string(),
        },
    ];
    for s in states {
        let (state, acts) = step(7, s, Event::Command(Command::Cancella));
        assert!(matches!(state, State::Start));
        assert_eq!(acts.len(), 1);
        match &acts[0] {
            Action::SendText { dest, body } => {
                assert_eq!(*dest, Dest::Chat(7));
                assert_eq!(body, "Cancello l'invio della citazione");
            }
            _ => panic!("expected a text message"),
        }
    }
}

#[test]
fn round_trip_author_then_text_reaches_approval() {
    let (state, _) = step(7, State::Start, Event::Command(Command::Citazione));
    let (state, acts) = step(
        7,
        state,
        Event::Text { body: Some("Andrea Rossi".to_string()) },
    );
    match &acts[0] {
        Action::SendText { body, .. } => assert_eq!(body, "Cosa ha detto?\n"),
        _ => panic!("expected a text message"),
    }
    let (state, acts) = step(
        7,
        state,
        Event::Text { body: Some("La matematica è bella".to_string()) },
    );
    match &state {
        State::WaitUserApproval { author, citation } => {
            assert_eq!(author, "Andrea Rossi");
            assert_eq!(citation, "La matematica è bella");
        }
        _ => panic!("expected the approval state"),
    }
    assert_eq!(acts.len(), 1);
    match &acts[0] {
        Action::SendChoice { dest, body, options } => {
            assert_eq!(*dest, Dest::Chat(7));
            assert_eq!(
                body,
                "La matematica è bella\n\n- Andrea Rossi, 2022\nLa citazione va bene così?"
            );
            assert_eq!(options.len(), 2);
            assert_eq!(options[0], "Ok");
            assert_eq!(options[1], "Ricrea");
        }
        _ => panic!("expected a choice message"),
    }
}

#[test]
fn redo_restarts_capture_not_idle() {
    let start = State::WaitUserApproval {
        author: "Andrea Rossi".to_string(),
        citation: "La matematica è bella".to_string(),
    };
    let (state, acts) = step(
        7,
        start,
        Event::ButtonClick {
            click_id: "c1".to_string(),
            choice: Some("Ricrea".to_string()),
            message: None,
            from_admin: false,
        },
    );
    assert!(matches!(state, State::ReceiveCiteAuthor));
    assert_eq!(acts.len(), 2);
    match &acts[0] {
        Action::SendText { dest, body } => {
            assert_eq!(*dest, Dest::Chat(7));
            assert_eq!(body, "Ok, ricreiamo la citazione. Autore?");
        }
        _ => panic!("expected a text message"),
    }
    match &acts[1] {
        Action::AcknowledgeClick { click_id } => assert_eq!(click_id, "c1"),
        _ => panic!("expected an acknowledgment"),
    }
}

#[test]
fn confirm_hands_quote_to_admins() {
    let start = State::WaitUserApproval {
        author: "Andrea Rossi".to_string(),
        citation: "La matematica è bella".to_string(),
    };
    let (state, acts) = step(
        7,
        start,
        Event::ButtonClick {
            click_id: "c2".to_string(),
            choice: Some("Ok".to_string()),
            message: None,
            from_admin: false,
        },
    );
    assert!(matches!(state, State::Start));
    assert_eq!(acts.len(), 3);
    match &acts[0] {
        Action::SendChoice { dest, body, options } => {
            assert_eq!(*dest, Dest::AdminGroup);
            assert_eq!(body, "La matematica è bella\n\n- Andrea Rossi, 2022");
            assert_eq!(options.len(), 2);
            assert_eq!(options[0], "Accetta");
            assert_eq!(options[1], "Rifiuta");
        }
        _ => panic!("expected a choice message"),
    }
    match &acts[1] {
        Action::SendText { dest, body } => {
            assert_eq!(*dest, Dest::Chat(7));
            assert_eq!(
                body,
                "Citazione inviata agli admin, se verrà approvata potrai vederla nel canale."
            );
        }
        _ => panic!("expected a text message"),
    }
    match &acts[2] {
        Action::AcknowledgeClick { click_id } => assert_eq!(click_id, "c2"),
        _ => panic!("expected an acknowledgment"),
    }
}

#[test]
fn unknown_choice_resets_to_idle() {
    let start = State::WaitUserApproval {
        author: "Andrea Rossi".to_string(),
        citation: "La matematica è bella".to_string(),
    };
    let (state, acts) = step(
        7,
        start,
        Event::ButtonClick {
            click_id: "c3".to_string(),
            choice: Some("Boh".to_string()),
            message: None,
            from_admin: false,
        },
    );
    assert!(matches!(state, State::Start));
    assert_eq!(acts.len(), 1);
    assert!(matches!(&acts[0], Action::AcknowledgeClick { .. }));
}

#[test]
fn click_without_choice_resets_to_idle() {
    let start = State::WaitUserApproval {
        author: "Andrea Rossi".to_string(),
        citation: "La matematica è bella".to_string(),
    };
    let (state, acts) = step(
        7,
        start,
        Event::ButtonClick {
            click_id: "c4".to_string(),
            choice: None,
            message: None,
            from_admin: false,
        },
    );
    assert!(matches!(state, State::Start));
    assert_eq!(acts.len(), 1);
    assert!(matches!(&acts[0], Action::AcknowledgeClick { .. }));
}

#[test]
fn admin_accept_publishes_verbatim_and_deletes() {
    let (state, acts) = step(
        99,
        State::Start,
        Event::ButtonClick {
            click_id: "c5".to_string(),
            choice: Some("Accetta".to_string()),
            message: Some(MsgRef {
                chat: -100,
                id: 555,
                text: Some("La matematica è bella\n\n- Andrea Rossi, 2022".to_string()),
            }),
            from_admin: true,
        },
    );
    assert!(matches!(state, State::Start));
    assert_eq!(acts.len(), 3);
    match &acts[0] {
        Action::SendText { dest, body } => {
            assert_eq!(*dest, Dest::PublicChannel);
            assert_eq!(body, "La matematica è bella\n\n- Andrea Rossi, 2022");
        }
        _ => panic!("expected the published text"),
    }
    match &acts[1] {
        Action::DeleteMessage { dest, message_id } => {
            assert_eq!(*dest, Dest::Chat(-100));
            assert_eq!(*message_id, 555);
        }
        _ => panic!("expected a deletion"),
    }
    match &acts[2] {
        Action::AcknowledgeClick { click_id } => assert_eq!(click_id, "c5"),
        _ => panic!("expected an acknowledgment"),
    }
}

#[test]
fn admin_reject_deletes_without_publishing() {
    let (state, acts) = step(
        99,
        State::Start,
        Event::ButtonClick {
            click_id: "c6".to_string(),
            choice: Some("Rifiuta".to_string()),
            message: Some(MsgRef {
                chat: -100,
                id: 556,
                text: Some("La matematica è bella\n\n- Andrea Rossi, 2022".to_string()),
            }),
            from_admin: true,
        },
    );
    assert!(matches!(state, State::Start));
    assert_eq!(acts.len(), 2);
    match &acts[0] {
        Action::DeleteMessage { dest, message_id } => {
            assert_eq!(*dest, Dest::Chat(-100));
            assert_eq!(*message_id, 556);
        }
        _ => panic!("expected a deletion"),
    }
    assert!(matches!(&acts[1], Action::AcknowledgeClick { .. }));
}

#[test]
fn stale_decision_click_only_acknowledges() {
    let (state, acts) = step(
        99,
        State::Start,
        Event::ButtonClick {
            click_id: "c7".to_string(),
            choice: Some("Accetta".to_string()),
            message: None,
            from_admin: true,
        },
    );
    assert!(matches!(state, State::Start));
    assert_eq!(acts.len(), 1);
    match &acts[0] {
        Action::AcknowledgeClick { click_id } => assert_eq!(click_id, "c7"),
        _ => panic!("expected only an acknowledgment"),
    }
}

#[test]
fn admin_message_without_text_deletes_without_publishing() {
    let (_, acts) = step(
        99,
        State::Start,
        Event::ButtonClick {
            click_id: "c8".to_string(),
            choice: Some("Accetta".to_string()),
            message: Some(MsgRef { chat: -100, id: 557, text: None }),
            from_admin: true,
        },
    );
    assert_eq!(acts.len(), 2);
    assert!(matches!(&acts[0], Action::DeleteMessage { .. }));
    assert!(matches!(&acts[1], Action::AcknowledgeClick { .. }));
}

#[test]
fn message_without_text_falls_back() {
    let (state, acts) = step(7, State::ReceiveCiteAuthor, Event::Text { body: None });
    assert!(matches!(state, State::ReceiveCiteAuthor));
    assert_eq!(acts.len(), 1);
    match &acts[0] {
        Action::SendText { body, .. } => {
            assert_eq!(
                body,
                "Non riesco a processare il tuo messaggio.\nScrivi /help per vedere i comandi disponibili.\n"
            );
        }
        _ => panic!("expected a text message"),
    }
}

#[test]
fn non_admin_stray_click_falls_back_and_acknowledges() {
    let (state, acts) = step(
        7,
        State::Start,
        Event::ButtonClick {
            click_id: "c9".to_string(),
            choice: Some("Ok".to_string()),
            message: None,
            from_admin: false,
        },
    );
    assert!(matches!(state, State::Start));
    assert_eq!(acts.len(), 2);
    match &acts[0] {
        Action::SendText { body, .. } => {
            assert_eq!(
                body,
                "Non riesco a processare il tuo messaggio.\nScrivi /help per vedere i comandi disponibili.\n"
            );
        }
        _ => panic!("expected a text message"),
    }
    assert!(matches!(&acts[1], Action::AcknowledgeClick { .. }));
}
