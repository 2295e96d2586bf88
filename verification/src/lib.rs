//! Database lifecycle orchestration core.
//!
//! A small state machine that drives a target database through
//! existence-dependent operations — create, drop, reset, setup — atop an
//! abstract, driver-agnostic connection. Determining existence is a
//! safely-retriable probe; creation and destruction are one-shot,
//! non-retried side effects; destructive operations are gated behind an
//! interactive confirmation that fails closed.
//!
//! The surrounding program performs the actual network calls and the
//! interactive reads, and feeds their outcomes back as events; every
//! decision — what to do next, when to retry, when to stop — is made here.

pub mod gate;
pub mod lifecycle;
pub mod probe;
