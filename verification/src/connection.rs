//! The connection to the server: the messages, what the wire can carry, and
//! the rules of the conversation.

pub mod codec;
pub mod enums;
pub mod message_types;
pub mod protocol;
pub mod session;
