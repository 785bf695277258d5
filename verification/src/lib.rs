//! Client-side core of a multi-user chat: the wire frames exchanged with the
//! relay, and the state machine of the chat view.

pub mod chat;
pub mod codec;
pub mod json;
pub mod laws;
pub mod text;
