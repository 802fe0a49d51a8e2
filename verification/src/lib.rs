//! Protocol engine for commanding and confirming railway light-signal
//! aspects and brightness between an interlocking (initiator) and a
//! light-signal object controller (responder).
//!
//! The crate covers the byte-level telegram codec, the version handshake
//! with its digest verification, the status exchange, the per-session
//! connection state machines of both roles, the command dispatcher of the
//! responder and the command scheduler of the initiator.  Transport,
//! timers and physical pin access live outside the crate; they hand plain
//! byte vectors and events in and take telegrams and actions back.

pub mod codec;
pub mod initiator;
pub mod pins;
pub mod queue;
pub mod responder;
pub mod session;
pub mod types;
pub mod version;
