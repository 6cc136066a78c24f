//! A mock chat-completion service: the rules behind its two endpoints.
//!
//! The crate holds what the service decides and computes: who may ask for a
//! completion, what a completion and a streamed completion consist of, and
//! how each is written on the wire. Listening, routing and pausing between
//! events are left to the program that embeds it.

pub mod error;
pub mod decimal;
pub mod json;
pub mod model;
pub mod ident;
pub mod clock;
pub mod stream;
pub mod completion;
pub mod auth;
pub mod sse;
pub mod handlers;
