//! A chat relay: a wire codec for chat messages, a registry of connections,
//! and the decision of what each inbound frame makes the server send.

pub mod codec;
pub mod json;
pub mod message;
pub mod registry;
pub mod relay;
pub mod timestamp;
pub mod validator;
