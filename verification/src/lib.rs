//! Core logic of a chat-bot that guards a gate lock and a spotlight.
//!
//! The crate holds the three components that decide what the actuators do:
//! the actuator gateway (`hardware`), which owns the spotlight deadline and
//! turns requests into device operations; the confirmation ledger (`ledger`),
//! which tracks time-boxed two-step confirmations per identity; and the
//! request router (`bot`), which classifies an inbound request and drives the
//! other two. Transport, database lookups and the raw GPIO driver live with
//! the caller, which hands the router plain values (an identity, a button
//! text, the current instant in milliseconds) and delivers the returned
//! response.

pub mod bot;
pub mod database;
pub mod hardware;
pub mod ledger;
pub mod telegram;
