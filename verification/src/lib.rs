//! Proximity-triggered session locking: the decision core.
//!
//! The crate models the distance of paired wireless devices from their
//! signal strength, evaluates per-device threshold rules, and drives a
//! session between locked and unlocked states.  Lock transitions are
//! debounced through a cancellable single-shot timer so that a momentary
//! signal drop does not immediately lock the session; a fallback path
//! locks after a period of user inactivity.
//!
//! Everything here is pure decision logic over plain values.  Reading the
//! radio, querying the session manager and executing commands are the
//! caller's business: it feeds events in and carries the returned
//! directives out.

pub mod commands;
pub mod config;
pub mod delayed;
pub mod distance;
pub mod engine;
pub mod idle;
