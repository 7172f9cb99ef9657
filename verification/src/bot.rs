//! The request router: a total mapping from an authorized request to exactly
//! one response, driving the actuator gateway and the confirmation ledger.
//!
//! Classification of raw input into an action is a pure, total function of
//! the text: unrecognized text degrades to `Unclassified`, never an error.
//! The router holds no state of its own; `now` is the instant at which the
//! request is handled, in milliseconds on the caller's monotonic clock.

use vstd::prelude::*;

use crate::database::DbUser;
use crate::hardware::{
    GateHardwareInner, HwOp, RawHardware, spec_deadline_after_turn_on, spec_spotlight_on,
};
use crate::ledger::{ConfirmationLedger, confirmed_within};
use crate::telegram::{
    ButtonAnswer, Content, DeletableOutgoingMessage, OutgoingMessage, TelegramResponse,
    TelegramUpdate,
};

verus! {

/// How long one light request keeps the spotlight on: three minutes.
pub const SPOTLIGHT_ON_MS: u64 = 3 * 60 * 1000;

/// How long a confirmation stays valid after the prepare step: five seconds.
pub const CONFIRMATION_WINDOW_MS: u64 = 5 * 1000;

/// How long the transport leaves the confirmation prompt standing.
pub const PREPARE_PROMPT_DELETE_AFTER_MS: u64 = 5 * 1000;

/// An inbound request reduced to its sender and the action it asks for.
#[derive(Debug)]
pub struct UserRequest {
    pub user_id: u64,
    pub action: RequestedAction,
}

/// The closed set of actions a request can ask for. Each recognized action
/// carries the correlation token that acknowledges the originating request;
/// the core passes it through without interpreting it.
#[derive(Debug)]
pub enum RequestedAction {
    TurnOnLight { callback_id: String },
    PrepareOpen { callback_id: String },
    ConfirmOpen { callback_id: String },
    Unclassified,
}

/// What a button text classifies as: the single source of truth for
/// classification, a total function of the text alone.
pub open spec fn classified_action(button: Seq<char>, callback_query_id: String) -> RequestedAction {
    if button == "Luz 3min"@ {
        RequestedAction::TurnOnLight { callback_id: callback_query_id }
    } else if button == "Abrir"@ {
        RequestedAction::PrepareOpen { callback_id: callback_query_id }
    } else if button == "Confirmar Abrir"@ {
        RequestedAction::ConfirmOpen { callback_id: callback_query_id }
    } else {
        RequestedAction::Unclassified
    }
}

impl RequestedAction {
    /// The two buttons offered by the default prompt.
    pub fn default_buttons() -> (r: Vec<String>)
        ensures
            r@.len() == 2,
            r@[0]@ == "Abrir"@,
            r@[1]@ == "Luz 3min"@,
    {
        let mut buttons: Vec<String> = Vec::new();
        buttons.push("Abrir".to_owned());
        buttons.push("Luz 3min".to_owned());
        buttons
    }

    /// The single button offered by the confirmation prompt.
    pub fn confirm_open_button() -> (r: Vec<String>)
        ensures
            r@.len() == 1,
            r@[0]@ == "Confirmar Abrir"@,
    {
        let mut buttons: Vec<String> = Vec::new();
        buttons.push("Confirmar Abrir".to_owned());
        buttons
    }

    /// Classify a pressed button's text. Unrecognized text yields
    /// `Unclassified`, never an error.
    pub fn from_button_text(button: &str, callback_query_id: String) -> (r: RequestedAction)
        ensures
            r == classified_action(button@, callback_query_id),
    {
        let b = button.to_owned();
        if b == "Luz 3min".to_owned() {
            RequestedAction::TurnOnLight { callback_id: callback_query_id }
        } else if b == "Abrir".to_owned() {
            RequestedAction::PrepareOpen { callback_id: callback_query_id }
        } else if b == "Confirmar Abrir".to_owned() {
            RequestedAction::ConfirmOpen { callback_id: callback_query_id }
        } else {
            RequestedAction::Unclassified
        }
    }
}

/// Law: the exact button text "Abrir" always classifies as the prepare-open
/// action carrying the given token, and as nothing else; classification is
/// a function of the text alone, so repeated calls agree.
pub proof fn lemma_abrir_classifies_as_prepare_open(callback_query_id: String)
    ensures
        classified_action("Abrir"@, callback_query_id) == (RequestedAction::PrepareOpen {
            callback_id: callback_query_id,
        }),
{
    reveal_strlit("Abrir");
    reveal_strlit("Luz 3min");
    assert("Abrir"@.len() == 5);
    assert("Luz 3min"@.len() == 8);
    assert("Abrir"@ != "Luz 3min"@);
}

/// Reduce an inbound update to the action it asks for: free text is always
/// `Unclassified`; a button press classifies by its text.
pub fn parse_user_request(update: TelegramUpdate) -> (r: UserRequest)
    ensures
        r.user_id == update.user_id,
        update.content is Message ==> r.action is Unclassified,
        update.content matches Content::Button { text, callback_query_id } ==> r.action
            == classified_action(text@, callback_query_id),
{
    let action = match update.content {
        Content::Message(_msg) => RequestedAction::Unclassified,
        Content::Button { text, callback_query_id } => RequestedAction::from_button_text(
            text.as_str(),
            callback_query_id,
        ),
    };
    UserRequest { user_id: update.user_id, action }
}

/// True of the acknowledgment that answers the button press carrying
/// `token` with the text `message`.
pub open spec fn is_button_answer(r: TelegramResponse, token: String, message: Seq<char>) -> bool {
    &&& r matches TelegramResponse::ButtonAnswer(b)
    &&& b.callback_query_id == token
    &&& b.message@ == message
}

/// True of the default prompt: the standing message offering both action
/// buttons, acknowledging nothing and never deleted.
pub open spec fn is_default_message(r: TelegramResponse, user_id: i64) -> bool {
    &&& r matches TelegramResponse::DeletableOutgoingMessage(d)
    &&& d.outgoing_msg.user_id == user_id
    &&& d.outgoing_msg.message@ == "Veja quem está na porta antes de abrir!"@
    &&& d.outgoing_msg.buttons matches Some(bs)
    &&& bs@.len() == 2
    &&& bs@[0]@ == "Abrir"@
    &&& bs@[1]@ == "Luz 3min"@
    &&& d.button_answer is None
    &&& d.delete_after is None
}

/// True of the ephemeral confirmation prompt: a single confirm button, an
/// acknowledgment of the prepare press, deleted again after the
/// confirmation window.
pub open spec fn is_prepare_open_message(r: TelegramResponse, user_id: i64, token: String) -> bool {
    &&& r matches TelegramResponse::DeletableOutgoingMessage(d)
    &&& d.outgoing_msg.user_id == user_id
    &&& d.outgoing_msg.message@ == "Você realmente quer abrir? Essa messagem vai desaparecer em 5s"@
    &&& d.outgoing_msg.buttons matches Some(bs)
    &&& bs@.len() == 1
    &&& bs@[0]@ == "Confirmar Abrir"@
    &&& d.button_answer matches Some(ba)
    &&& ba.callback_query_id == token
    &&& ba.message@ == "Veja quem está na porta antes de abrir!"@
    &&& d.delete_after == Some(PREPARE_PROMPT_DELETE_AFTER_MS)
}

/// The confirmation prompt sent after a prepare step.
pub fn prepare_open_message(user_id: i64, callback_query_id: String) -> (r: TelegramResponse)
    ensures
        is_prepare_open_message(r, user_id, callback_query_id),
{
    TelegramResponse::DeletableOutgoingMessage(DeletableOutgoingMessage {
        outgoing_msg: OutgoingMessage {
            user_id,
            message: "Você realmente quer abrir? Essa messagem vai desaparecer em 5s".to_owned(),
            buttons: Some(RequestedAction::confirm_open_button()),
        },
        button_answer: Some(ButtonAnswer {
            callback_query_id,
            message: "Veja quem está na porta antes de abrir!".to_owned(),
        }),
        delete_after: Some(PREPARE_PROMPT_DELETE_AFTER_MS),
    })
}

/// The acknowledgment sent once the entrance gate was unlocked.
pub fn gate_unlocked_message(callback_query: String) -> (r: TelegramResponse)
    ensures
        is_button_answer(r, callback_query, "Aberto!"@),
{
    TelegramResponse::ButtonAnswer(ButtonAnswer {
        callback_query_id: callback_query,
        message: "Aberto!".to_owned(),
    })
}

/// The acknowledgment sent when this request turned the light on.
pub fn light_turned_on_response(callback_query: String) -> (r: TelegramResponse)
    ensures
        is_button_answer(r, callback_query, "Luz Ligada"@),
{
    TelegramResponse::ButtonAnswer(ButtonAnswer {
        callback_query_id: callback_query,
        message: "Luz Ligada".to_owned(),
    })
}

/// The acknowledgment sent when the light was already on.
pub fn light_already_on_response(callback_query: String) -> (r: TelegramResponse)
    ensures
        is_button_answer(r, callback_query, "Já está ligada"@),
{
    TelegramResponse::ButtonAnswer(ButtonAnswer {
        callback_query_id: callback_query,
        message: "Já está ligada".to_owned(),
    })
}

/// The default prompt offering both action buttons.
pub fn default_message(user_id: i64) -> (r: TelegramResponse)
    ensures
        is_default_message(r, user_id),
{
    TelegramResponse::DeletableOutgoingMessage(DeletableOutgoingMessage {
        outgoing_msg: OutgoingMessage {
            user_id,
            message: "Veja quem está na porta antes de abrir!".to_owned(),
            buttons: Some(RequestedAction::default_buttons()),
        },
        delete_after: None,
        button_answer: None,
    })
}

/// What handling one request produced: the response to deliver, and, when a
/// light request installed a new deadline, the instant at which the caller
/// must fire the gateway's deferred spotlight check.
pub struct HandledRequest {
    pub response: TelegramResponse,
    pub spotlight_off_check_at: Option<u64>,
}

/// Map one authorized request to exactly one response, driving the gateway
/// and the ledger. The contract pins down, per action: which response comes
/// back, how the spotlight deadline and the ledger change, and — through the
/// gateway's ghost log — exactly which device primitives were pulsed (none,
/// when the light is already on or a confirmation is stale or missing).
pub fn handle_user_request<T: RawHardware>(
    hw: &mut GateHardwareInner<T>,
    ledger: &mut ConfirmationLedger,
    user_request: UserRequest,
    authorized_user: DbUser,
    now: u64,
) -> (r: HandledRequest)
    requires
        user_request.user_id <= i64::MAX as u64,
        now + SPOTLIGHT_ON_MS <= u64::MAX,
    ensures
        user_request.action is Unclassified ==> ({
            &&& final(hw).instant_to_turn_off == old(hw).instant_to_turn_off
            &&& final(hw).ops@ == old(hw).ops@
            &&& final(ledger)@ == old(ledger)@
            &&& is_default_message(r.response, user_request.user_id as i64)
            &&& r.spotlight_off_check_at is None
        }),
        user_request.action matches RequestedAction::TurnOnLight { callback_id } ==> ({
            &&& final(ledger)@ == old(ledger)@
            &&& if spec_spotlight_on(old(hw).instant_to_turn_off) {
                &&& final(hw).instant_to_turn_off == old(hw).instant_to_turn_off
                &&& final(hw).ops@ == old(hw).ops@
                &&& is_button_answer(r.response, callback_id, "Já está ligada"@)
                &&& r.spotlight_off_check_at is None
            } else {
                &&& final(hw).instant_to_turn_off == spec_deadline_after_turn_on(
                    now,
                    SPOTLIGHT_ON_MS,
                )
                &&& final(hw).ops@ == old(hw).ops@.push(HwOp::SpotlightOn)
                &&& is_button_answer(r.response, callback_id, "Luz Ligada"@)
                &&& r.spotlight_off_check_at == Some((now + SPOTLIGHT_ON_MS) as u64)
            }
        }),
        user_request.action matches RequestedAction::PrepareOpen { callback_id } ==> ({
            &&& final(hw).instant_to_turn_off == old(hw).instant_to_turn_off
            &&& final(hw).ops@ == old(hw).ops@
            &&& final(ledger)@ == old(ledger)@.insert(user_request.user_id, now)
            &&& is_prepare_open_message(r.response, user_request.user_id as i64, callback_id)
            &&& r.spotlight_off_check_at is None
        }),
        user_request.action matches RequestedAction::ConfirmOpen { callback_id } ==> ({
            &&& final(ledger)@ == old(ledger)@
            &&& final(hw).instant_to_turn_off == old(hw).instant_to_turn_off
            &&& if confirmed_within(old(ledger)@, user_request.user_id, CONFIRMATION_WINDOW_MS, now) {
                &&& final(hw).ops@ == old(hw).ops@.push(HwOp::PulseUnlock)
                &&& is_button_answer(r.response, callback_id, "Aberto!"@)
            } else {
                &&& final(hw).ops@ == old(hw).ops@
                &&& is_default_message(r.response, user_request.user_id as i64)
            }
            &&& r.spotlight_off_check_at is None
        }),
{
    let user_id = user_request.user_id as i64;
    match user_request.action {
        RequestedAction::Unclassified => HandledRequest {
            response: default_message(user_id),
            spotlight_off_check_at: None,
        },
        RequestedAction::TurnOnLight { callback_id } => {
            if hw.is_spotlight_on() {
                HandledRequest {
                    response: light_already_on_response(callback_id),
                    spotlight_off_check_at: None,
                }
            } else {
                let check_at = hw.turn_on_spotlight(now, SPOTLIGHT_ON_MS);
                HandledRequest {
                    response: light_turned_on_response(callback_id),
                    spotlight_off_check_at: Some(check_at),
                }
            }
        },
        RequestedAction::PrepareOpen { callback_id } => {
            ledger.record_pending(user_request.user_id, now);
            HandledRequest {
                response: prepare_open_message(user_id, callback_id),
                spotlight_off_check_at: None,
            }
        },
        RequestedAction::ConfirmOpen { callback_id } => {
            if ledger.is_confirmed_within(user_request.user_id, CONFIRMATION_WINDOW_MS, now) {
                hw.unlock_gate();
                HandledRequest {
                    response: gate_unlocked_message(callback_id),
                    spotlight_off_check_at: None,
                }
            } else {
                HandledRequest {
                    response: default_message(user_id),
                    spotlight_off_check_at: None,
                }
            }
        },
    }
}

} // verus!
