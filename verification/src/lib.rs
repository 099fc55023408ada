//! The private link between the bot process and the backend process: a
//! length-prefixed frame codec, the two message vocabularies, the registry of
//! live sessions, and the heartbeat rules of both ends of a connection.
//!
//! Everything here is plain data and decisions. Sockets, timers and actors
//! live outside this crate and hand it bytes, timestamps and events.
//!
//! Beside the link stand the records that the processes share: a member of
//! the school, as the registration service and as the backend's table hold
//! them, and a teacher's office.

pub mod models;
pub mod room;
pub mod socket;
pub mod user;
