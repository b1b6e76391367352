//! Waiting on a remote workflow: interpretation of its status snapshots,
//! the per-cycle decisions of the poll loop, and the status request's shape.
//!
//! Network calls, JSON decoding and sleeping are done by the caller, which
//! feeds their outcomes to [`session::PollSession::step`] and carries out the
//! [`session::Action`] it returns.

pub mod status;
pub mod session;
pub mod client;
