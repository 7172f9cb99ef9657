//! Abstract request and response values exchanged with the chat transport.
//!
//! The transport delivers a `TelegramUpdate` (identity plus raw content) and
//! consumes a `TelegramResponse`. Correlation tokens (`callback_query_id`)
//! are opaque pass-through values: the core never interprets them. Delays are
//! absolute counts of milliseconds.

use vstd::prelude::*;

verus! {

/// An inbound request: the sender's identity and what they sent.
#[derive(Debug, Clone)]
pub struct TelegramUpdate {
    pub user_id: u64,
    pub content: Content,
}

/// Raw content of an update: free text, or a pressed button together with
/// the correlation token that acknowledges it.
#[derive(Debug, Clone)]
pub enum Content {
    Message(String),
    Button { text: String, callback_query_id: String },
}

/// An outbound response for the transport to deliver.
#[derive(Debug, Clone)]
pub enum TelegramResponse {
    DeletableOutgoingMessage(DeletableOutgoingMessage),
    ButtonAnswer(ButtonAnswer),
}

/// A plain message to a chat, optionally with action buttons.
#[derive(Debug, Clone)]
pub struct OutgoingMessage {
    pub user_id: i64,
    pub message: String,
    pub buttons: Option<Vec<String>>,
}

/// An acknowledgment of a pressed button, routed by its correlation token.
#[derive(Debug, Clone)]
pub struct ButtonAnswer {
    pub callback_query_id: String,
    pub message: String,
}

/// A message that the transport should delete again after `delete_after`
/// milliseconds, optionally acknowledging a button press as well.
#[derive(Debug, Clone)]
pub struct DeletableOutgoingMessage {
    pub outgoing_msg: OutgoingMessage,
    pub button_answer: Option<ButtonAnswer>,
    pub delete_after: Option<u64>,
}

} // verus!
