//! Core of a quote-submission workflow bot: a submitter proposes a quote,
//! an admin group accepts or rejects it, and accepted quotes are published
//! to a public channel. This crate holds the verified per-conversation
//! state machine, event classifier, outbound-action builder and
//! conversation store; the transport around them lives outside.

pub mod actions;
pub mod classify;
pub mod dispatch;
pub mod events;
pub mod handlers;
pub mod laws;
pub mod state;
pub mod store;

pub use state::State;
