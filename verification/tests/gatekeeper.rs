use gatekeeper::bot::{
    default_message, gate_unlocked_message, handle_user_request, light_already_on_response,
    light_turned_on_response, parse_user_request, prepare_open_message, RequestedAction,
    UserRequest, CONFIRMATION_WINDOW_MS, SPOTLIGHT_ON_MS,
};
use gatekeeper::database::DbUser;
use gatekeeper::hardware::{GateHardwareInner, GateOpenNoiseFilter, MockHardware, NewGateState};
use gatekeeper::ledger::ConfirmationLedger;
use gatekeeper::telegram::{Content, TelegramResponse, TelegramUpdate};

fn mock_gateway() -> GateHardwareInner<MockHardware> {
    GateHardwareInner::new(MockHardware::new())
}

fn user(name: &str) -> DbUser {
    DbUser {
        name: name.to_string(),
    }
}

fn button_request(id: u64, text: &str, token: &str) -> UserRequest {
    parse_user_request(TelegramUpdate {
        user_id: id,
        content: Content::Button {
            text: text.to_string(),
            callback_query_id: token.to_string(),
        },
    })
}

#[test]
fn classification_of_known_buttons() {
    match RequestedAction::from_button_text("Luz 3min", "t1".to_string()) {
        RequestedAction::TurnOnLight { callback_id } => assert_eq!(callback_id, "t1"),
        other => panic!("wrong action: {:?}", other),
    }
    match RequestedAction::from_button_text("Abrir", "t2".to_string()) {
        RequestedAction::PrepareOpen { callback_id } => assert_eq!(callback_id, "t2"),
        other => panic!("wrong action: {:?}", other),
    }
    match RequestedAction::from_button_text("Confirmar Abrir", "t3".to_string()) {
        RequestedAction::ConfirmOpen { callback_id } => assert_eq!(callback_id, "t3"),
        other => panic!("wrong action: {:?}", other),
    }
}

#[test]
fn classification_of_abrir_is_deterministic_and_idempotent() {
    for _ in 0..3 {
        match RequestedAction::from_button_text("Abrir", "tok".to_string()) {
            RequestedAction::PrepareOpen { callback_id } => assert_eq!(callback_id, "tok"),
            other => panic!("wrong action: {:?}", other),
        }
    }
    for text in ["abrir", "Abrir ", "", "Luz", "Fechar", "???"] {
        for _ in 0..2 {
            assert!(matches!(
                RequestedAction::from_button_text(text, "tok".to_string()),
                RequestedAction::Unclassified
            ));
        }
    }
}

#[test]
fn free_text_is_always_unclassified() {
    let req = parse_user_request(TelegramUpdate {
        user_id: 5,
        content: Content::Message("Abrir".to_string()),
    });
    assert_eq!(req.user_id, 5);
    assert!(matches!(req.action, RequestedAction::Unclassified));
}

#[test]
fn spotlight_off_before_any_request_then_on_until_deadline() {
    let mut hw = mock_gateway();
    assert!(!hw.is_spotlight_on());

    let check_at = hw.turn_on_spotlight(1_000, 3_000);
    assert_eq!(check_at, 4_000);
    assert!(hw.is_spotlight_on());

    assert!(!hw.check_spotlight_should_be_turned_off(3_999));
    assert!(hw.is_spotlight_on());

    assert!(hw.check_spotlight_should_be_turned_off(4_000));
    assert!(!hw.is_spotlight_on());
    assert_eq!(hw.hardware.spotlight_off_calls, 1);
}

#[test]
fn overlapping_longer_request_keeps_light_until_second_deadline() {
    let mut hw = mock_gateway();
    let first_check = hw.turn_on_spotlight(0, 100);
    assert_eq!(first_check, 100);
    let second_check = hw.turn_on_spotlight(50, 200);
    assert_eq!(second_check, 250);

    // The first call's deferred check fires at 100 and must not act: the
    // shared deadline is now 250.
    assert!(!hw.check_spotlight_should_be_turned_off(first_check));
    assert!(hw.is_spotlight_on());
    assert_eq!(hw.hardware.spotlight_off_calls, 0);

    assert!(!hw.check_spotlight_should_be_turned_off(249));
    assert!(hw.check_spotlight_should_be_turned_off(250));
    assert!(!hw.is_spotlight_on());
    assert_eq!(hw.hardware.spotlight_off_calls, 1);
}

#[test]
fn newest_shorter_request_overwrites_deadline() {
    // The newest request's deadline always wins, even
    // when it is earlier than the one it replaces.
    let mut hw = mock_gateway();
    hw.turn_on_spotlight(0, 300);
    hw.turn_on_spotlight(10, 100);
    assert!(hw.check_spotlight_should_be_turned_off(110));
    assert!(!hw.is_spotlight_on());
}

#[test]
fn turn_off_happens_exactly_once() {
    let mut hw = mock_gateway();
    hw.turn_on_spotlight(0, 100);
    assert!(hw.check_spotlight_should_be_turned_off(100));
    // A stale check firing later finds no deadline and does nothing.
    assert!(!hw.check_spotlight_should_be_turned_off(200));
    assert_eq!(hw.hardware.spotlight_off_calls, 1);
}

#[test]
fn confirmation_window_boundaries() {
    let mut ledger = ConfirmationLedger::new();
    ledger.record_pending(1, 0);
    assert!(ledger.is_confirmed_within(1, 5_000, 4_900));
    assert!(ledger.is_confirmed_within(1, 5_000, 5_000));
    assert!(!ledger.is_confirmed_within(1, 5_000, 5_100));
    assert!(!ledger.is_confirmed_within(2, 5_000, 0));
}

#[test]
fn last_prepare_wins_for_one_identity() {
    let mut ledger = ConfirmationLedger::new();
    ledger.record_pending(1, 0);
    ledger.record_pending(1, 10_000);
    assert!(!ledger.is_confirmed_within(1, 5_000, 6_000));
    assert!(ledger.is_confirmed_within(1, 5_000, 12_000));
}

#[test]
fn identities_do_not_interfere() {
    let mut ledger = ConfirmationLedger::new();
    ledger.record_pending(1, 0);
    assert!(!ledger.is_confirmed_within(2, 5_000, 100));
    ledger.record_pending(2, 50_000);
    assert!(ledger.is_confirmed_within(2, 5_000, 52_000));
    // Identity 1's entry is untouched by identity 2's recording.
    assert!(ledger.is_confirmed_within(1, 5_000, 3_000));
    assert!(!ledger.is_confirmed_within(1, 5_000, 50_001));
}

#[test]
fn end_to_end_prepare_then_confirm_unlocks() {
    let mut hw = mock_gateway();
    let mut ledger = ConfirmationLedger::new();

    let prepare = button_request(7, "Abrir", "prep-token");
    let handled = handle_user_request(&mut hw, &mut ledger, prepare, user("u"), 1_000);
    assert!(handled.spotlight_off_check_at.is_none());
    match handled.response {
        TelegramResponse::DeletableOutgoingMessage(d) => {
            assert_eq!(d.outgoing_msg.user_id, 7);
            assert_eq!(
                d.outgoing_msg.message,
                "Você realmente quer abrir? Essa messagem vai desaparecer em 5s"
            );
            assert_eq!(d.outgoing_msg.buttons, Some(vec!["Confirmar Abrir".to_string()]));
            assert_eq!(d.delete_after, Some(5_000));
            let ba = d.button_answer.expect("prepare prompt acknowledges the press");
            assert_eq!(ba.callback_query_id, "prep-token");
        }
        other => panic!("wrong response: {:?}", other),
    }

    // Two seconds later the same identity confirms, and the lock is pulsed open.
    let confirm = button_request(7, "Confirmar Abrir", "confirm-token");
    let handled = handle_user_request(&mut hw, &mut ledger, confirm, user("u"), 3_000);
    assert_eq!(hw.hardware.unlock_calls, 1);
    match handled.response {
        TelegramResponse::ButtonAnswer(ba) => {
            assert_eq!(ba.callback_query_id, "confirm-token");
            assert_eq!(ba.message, "Aberto!");
        }
        other => panic!("wrong response: {:?}", other),
    }

    // An identity that never prepared gets the default prompt and no unlock.
    let stranger_confirm = button_request(8, "Confirmar Abrir", "other-token");
    let handled = handle_user_request(&mut hw, &mut ledger, stranger_confirm, user("v"), 3_500);
    assert_eq!(hw.hardware.unlock_calls, 1);
    match handled.response {
        TelegramResponse::DeletableOutgoingMessage(d) => {
            assert_eq!(d.outgoing_msg.user_id, 8);
            assert_eq!(d.outgoing_msg.message, "Veja quem está na porta antes de abrir!");
            assert_eq!(
                d.outgoing_msg.buttons,
                Some(vec!["Abrir".to_string(), "Luz 3min".to_string()])
            );
            assert_eq!(d.delete_after, None);
            assert!(d.button_answer.is_none());
        }
        other => panic!("wrong response: {:?}", other),
    }
}

#[test]
fn stale_confirmation_is_silently_ignored() {
    let mut hw = mock_gateway();
    let mut ledger = ConfirmationLedger::new();
    let prepare = button_request(7, "Abrir", "prep-token");
    handle_user_request(&mut hw, &mut ledger, prepare, user("u"), 0);

    // 5.1 seconds later the window has elapsed.
    let confirm = button_request(7, "Confirmar Abrir", "confirm-token");
    let handled = handle_user_request(&mut hw, &mut ledger, confirm, user("u"), 5_100);
    assert_eq!(hw.hardware.unlock_calls, 0);
    assert!(matches!(
        handled.response,
        TelegramResponse::DeletableOutgoingMessage(_)
    ));
}

#[test]
fn end_to_end_light_request_twice_pulses_device_once() {
    let mut hw = mock_gateway();
    let mut ledger = ConfirmationLedger::new();

    let first = button_request(9, "Luz 3min", "light-token-a");
    let handled = handle_user_request(&mut hw, &mut ledger, first, user("u"), 500);
    assert_eq!(handled.spotlight_off_check_at, Some(500 + SPOTLIGHT_ON_MS));
    assert_eq!(hw.instant_to_turn_off, Some(500 + SPOTLIGHT_ON_MS));
    assert_eq!(hw.hardware.spotlight_on_calls, 1);
    match handled.response {
        TelegramResponse::ButtonAnswer(ba) => {
            assert_eq!(ba.callback_query_id, "light-token-a");
            assert_eq!(ba.message, "Luz Ligada");
        }
        other => panic!("wrong response: {:?}", other),
    }

    let second = button_request(9, "Luz 3min", "light-token-b");
    let handled = handle_user_request(&mut hw, &mut ledger, second, user("u"), 600);
    assert!(handled.spotlight_off_check_at.is_none());
    assert_eq!(hw.hardware.spotlight_on_calls, 1);
    match handled.response {
        TelegramResponse::ButtonAnswer(ba) => {
            assert_eq!(ba.callback_query_id, "light-token-b");
            assert_eq!(ba.message, "Já está ligada");
        }
        other => panic!("wrong response: {:?}", other),
    }
}

#[test]
fn unclassified_request_gets_default_prompt_and_touches_nothing() {
    let mut hw = mock_gateway();
    let mut ledger = ConfirmationLedger::new();
    let req = UserRequest {
        user_id: 4,
        action: RequestedAction::Unclassified,
    };
    let handled = handle_user_request(&mut hw, &mut ledger, req, user("u"), 42);
    assert_eq!(hw.hardware.unlock_calls, 0);
    assert_eq!(hw.hardware.spotlight_on_calls, 0);
    assert!(!ledger.is_confirmed_within(4, CONFIRMATION_WINDOW_MS, 42));
    match handled.response {
        TelegramResponse::DeletableOutgoingMessage(d) => {
            assert_eq!(d.outgoing_msg.user_id, 4);
            assert_eq!(d.outgoing_msg.message, "Veja quem está na porta antes de abrir!");
        }
        other => panic!("wrong response: {:?}", other),
    }
}

#[test]
fn message_builders_produce_exact_values() {
    match default_message(3) {
        TelegramResponse::DeletableOutgoingMessage(d) => {
            assert_eq!(d.outgoing_msg.user_id, 3);
            assert_eq!(
                d.outgoing_msg.buttons,
                Some(vec!["Abrir".to_string(), "Luz 3min".to_string()])
            );
            assert_eq!(d.delete_after, None);
            assert!(d.button_answer.is_none());
        }
        other => panic!("wrong response: {:?}", other),
    }
    match prepare_open_message(3, "tok".to_string()) {
        TelegramResponse::DeletableOutgoingMessage(d) => {
            assert_eq!(d.delete_after, Some(5_000));
            assert_eq!(d.outgoing_msg.buttons, Some(vec!["Confirmar Abrir".to_string()]));
            assert_eq!(
                d.button_answer.unwrap().message,
                "Veja quem está na porta antes de abrir!"
            );
        }
        other => panic!("wrong response: {:?}", other),
    }
    match gate_unlocked_message("a".to_string()) {
        TelegramResponse::ButtonAnswer(ba) => assert_eq!(ba.message, "Aberto!"),
        other => panic!("wrong response: {:?}", other),
    }
    match light_turned_on_response("b".to_string()) {
        TelegramResponse::ButtonAnswer(ba) => assert_eq!(ba.message, "Luz Ligada"),
        other => panic!("wrong response: {:?}", other),
    }
    match light_already_on_response("c".to_string()) {
        TelegramResponse::ButtonAnswer(ba) => assert_eq!(ba.message, "Já está ligada"),
        other => panic!("wrong response: {:?}", other),
    }
}

#[test]
fn pin_values_map_to_gate_states() {
    assert_eq!(GateOpenNoiseFilter::map_u8_to_state(1), NewGateState::OPEN);
    assert_eq!(GateOpenNoiseFilter::map_u8_to_state(0), NewGateState::CLOSED);
    assert_eq!(GateOpenNoiseFilter::map_u8_to_state(2), NewGateState::CLOSED);
    assert_eq!(
        GateOpenNoiseFilter::map_polled_value(Some(1)),
        Some(NewGateState::OPEN)
    );
    assert_eq!(GateOpenNoiseFilter::map_polled_value(None), None);
}

#[test]
fn noise_filter_reports_only_real_changes() {
    let mut filter = GateOpenNoiseFilter::new(NewGateState::CLOSED);
    assert_eq!(filter.accept_stable_state(NewGateState::CLOSED), None);
    assert_eq!(filter.last_stable_state, NewGateState::CLOSED);
    assert_eq!(
        filter.accept_stable_state(NewGateState::OPEN),
        Some(NewGateState::OPEN)
    );
    assert_eq!(filter.last_stable_state, NewGateState::OPEN);
    assert_eq!(filter.accept_stable_state(NewGateState::OPEN), None);
}
