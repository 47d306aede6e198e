//! Stall-safe diagnostic capture for a cooperative task scheduler.
//!
//! The heart of this crate is the capture protocol: a watchdog session that
//! attempts a bounded snapshot of a possibly wedged scheduler, hands the
//! result to the caller over a single-shot channel, and treats a missing
//! acknowledgement within a grace window as proof that the host process is
//! unrecoverable, in which case the diagnostic text is dumped and the process
//! is terminated with a reserved exit status.
//!
//! This library contains the verified decision logic of the protocol: the
//! session state machine, the caller-side acknowledgement discipline, and the
//! rendering of snapshots into diagnostic text. The surrounding runtime work
//! (spawning the watchdog thread, the channels themselves, timers, HTTP) is
//! ordinary unverified plumbing that drives these functions.

pub mod caller;
pub mod elfnote;
pub mod laws;
pub mod model;
pub mod render;
pub mod session;
pub mod trace;
