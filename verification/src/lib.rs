//! Tiered conversation memory and orchestration for a desktop companion.
//!
//! The crate keeps the log of conversation turns, assembles the message
//! sequence sent to a chat-completion service under one of three interaction
//! levels, interprets the service's replies, throttles the deep-analysis path
//! with a cooldown, and sequences a whole turn as a state machine whose
//! effects (reading files, calling the service, writing the log) are carried
//! out by the embedding application.

pub mod clock;
pub mod completion;
pub mod context;
pub mod cooldown;
pub mod encoding;
pub mod failure;
pub mod instruction;
pub mod json;
pub mod message;
pub mod numeral;
pub mod request;
pub mod session;
pub mod shell;
pub mod store;
pub mod text;
