//! Transport-agnostic command interpretation and state-transition engine for a
//! chat-driven cryptocurrency wallet front end: normalizing inbound chat
//! notifications, authenticating the sender, tokenizing and validating user
//! commands into typed actions, and applying a pure state machine that decides
//! the next screen and reply message.

pub mod action;
pub mod amount;
pub mod destination;
pub mod dispatch;
pub mod keybase;
pub mod markup;
pub mod reducer;
pub mod state;
pub mod strutil;
pub mod telegram;
pub mod templates;
pub mod wallet;
