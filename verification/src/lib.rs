//! Client-side wire codec and event dispatch for the Wayland protocol.
//!
//! Everything in this crate is pure: it turns typed values into bytes and
//! bytes into typed values, and decides what a client does next. Reading
//! from and writing to the compositor's socket is left to the caller.

pub mod protocol;
