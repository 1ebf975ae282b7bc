//! Telegram webhook adapter core: decides what to ask of the bot API for one
//! incoming update and what to answer the webhook caller.

pub mod config;
pub mod dispatch;
pub mod error;
pub mod handlers;
pub mod invocation;
pub mod laws;
pub mod lift;
pub mod model;
pub mod normalize;
pub mod outbound;
pub mod protocol;
pub mod response;
