//! A secure-channel handshake between two network peers, with an optional
//! mutual-authentication policy layer.
//!
//! The library drives the two fixed-message handshake sequences (initiator
//! and responder) over a structural channel primitive, and enforces the
//! security policy around them: a trusted-peer allow-list and an anti-replay
//! timestamp cache in `Mutual` mode, or no peer-identity checks in
//! `ServerOnly` mode.
//!
//! Socket I/O is left to the caller: the handshake functions consume and
//! produce complete fixed-length messages as byte vectors.

pub mod auth;
pub mod engine;
pub mod handshake;
pub mod key;
pub mod replay;
