//! Guest-side client for a single host-provided capability: looking up a
//! named configuration value across the guest/host boundary.
//!
//! The guest hands the host a key, the host allocates a buffer holding an
//! encoded result, and the guest takes that buffer over and decodes it.
//! This crate holds the decisions the guest makes around that exchange:
//! how the key is measured for the call, how the call's return code is
//! interpreted, and how the returned bytes become a typed result. The
//! foreign call itself, and the raw-pointer buffer takeover, live with the
//! embedder; they hand this crate plain values and take plain values back.

pub mod boundary;
pub mod codec;
