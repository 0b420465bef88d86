//! Host-side client for a hardware security module.
//!
//! The client sends typed commands to the device over an authenticated,
//! encrypted session and reads typed responses. The library holds what all
//! operations share:
//!
//! - [`capability`]: the 64-bit capability field and its named bits;
//! - [`object`]: identifiers, object types, labels, domains and algorithms;
//! - [`wire`]: big-endian fields and the envelope of a message;
//! - [`commands`]: commands and responses with their byte forms;
//! - [`channel`]: the frames of session traffic and the comparison of tags;
//! - [`session`]: the session itself, with its keys, counter and states;
//! - [`error`]: the errors.
//!
//! The transport and the cryptographic primitives are supplied by the
//! caller, through the traits of [`session`].

pub mod capability;
pub mod channel;
pub mod commands;
pub mod error;
pub mod object;
pub mod session;
pub mod wire;
