//! Decisions of a small health-suggestion service: the prompt sent to a
//! chat-completion provider, the reading of its reply, and the response
//! handed back to the caller. Network and JSON work stay with the caller.

pub mod reading;
pub mod prompt;
pub mod reply;
pub mod handler;
