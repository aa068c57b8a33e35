//! Per-conversation message synchronisation: an ordered mirror of one
//! conversation's messages, the decisions of the task that keeps it current
//! against a live event feed, and the short-lived "is typing" presence of the
//! remote participants.
//!
//! Everything here is a function from plain values to plain values. The
//! caller owns the clock, the timers and the network: it performs what a
//! [`consumer::Directive`] asks for and hands the outcome back.

pub mod ids;
pub mod message;
pub mod mirror;
pub mod presence;
pub mod coordinator;
pub mod consumer;
