//! Codec for the reason field of the RLPx `Disconnect` message.
//!
//! A node that closes a session tells its peer why, with a one-byte reason
//! code. This crate holds the table of reasons and their codes, writes a
//! reason in one fixed four-byte form, and reads it back from each of the
//! forms that clients are known to send.

pub mod codec;
pub mod reason;
pub mod rlp;

pub use codec::DecodeError;
pub use reason::{DisconnectReason, UnknownDisconnectReason};
