//! The socket protocol, leaves first: messages, their text form, frames on a
//! byte buffer, the two codecs, then the registry and the two connection ends.

pub mod buffer;
pub mod client;
pub mod json;
pub mod codec;
pub mod frame;
pub mod message;
pub mod server;
pub mod session;
pub mod wire;
