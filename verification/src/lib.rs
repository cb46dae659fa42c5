//! Supervision of a single externally launched child program.
//!
//! The library holds the decision logic of a small process supervisor: a
//! mutually exclusive process slot with `start`/`stop` rules, line-by-line
//! relaying of the child's output as events, the single terminal event per
//! process lifetime, and the message formatting the host sees. The host
//! process performs the actual spawning, killing, waiting and event delivery,
//! and consults this library for every decision and every message.

pub mod decimal;
pub mod errors;
pub mod events;
pub mod lifecycle;
pub mod slot;
