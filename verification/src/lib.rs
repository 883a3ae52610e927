//! Host-side engine for the remote protocol of a hardware debug probe.
//!
//! A debug probe bridges a host to the debug transport of a target chip.
//! The host drives it over a serial link with a text protocol of delimited
//! frames, which exists in four generations that do not understand each
//! other. This crate is the host's half of that protocol: it turns
//! operations into request frames and the frames a probe answers with into
//! typed results.
//!
//! The engine performs no input or output. Every function maps plain values
//! to plain values; the caller writes the bytes that the engine hands out
//! and brings back the bytes that arrive. The parts, leaves first:
//!
//! - [`hex`]: binary data as hexadecimal text, and back.
//! - [`frame`]: the frame and its form on the wire.
//! - [`receiver`]: frames out of a byte stream, with resynchronization.
//! - [`version`] and [`negotiate`]: the protocol generations, and how a
//!   session settles on one.
//! - [`command`], [`encode`] and [`response`]: the operations, and how each
//!   generation writes a request and reads a response.
//! - [`exchange`]: one request and its response, with bounded retries.
//! - [`probe`]: the session and the operations it offers.
//! - [`error`], [`text`] and [`wire`]: errors, text from bytes, and the
//!   identifiers of the protocol.

pub mod command;
pub mod encode;
pub mod error;
pub mod exchange;
pub mod frame;
pub mod hex;
pub mod negotiate;
pub mod probe;
pub mod receiver;
pub mod response;
pub mod text;
pub mod version;
pub mod wire;
