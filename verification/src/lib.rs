//! Client library for the BouyomiChan text-to-speech application's
//! "application collaboration" TCP protocol.
//!
//! The protocol is a fixed little-endian binary framing: every request
//! starts with a two-byte opcode, a speech request carries the voice
//! parameters and the UTF-8 message bytes behind it, and the three query
//! commands expect a small binary response. The [`codec`] module defines
//! that framing and proves the encoders and decoders against it; the
//! [`client`] module owns the endpoint and offers one operation per
//! logical command. Opening the TCP connection and moving the bytes is
//! I/O and is left to an unverified transport wrapper around this crate.

pub mod client;
pub mod codec;

pub use client::BouyomichanClient;
pub use codec::BouyomichanError;
pub use codec::TalkConfig;
