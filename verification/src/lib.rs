//! A timelock-gated command queue. A single owner schedules external calls
//! no earlier than a minimum and no later than a maximum delay ahead of the
//! clock, and each may be executed only within a bounded grace window after
//! its scheduled timestamp. Operations are addressed by a content-derived
//! 32-byte identity, so a later execute or cancel names an operation by
//! resupplying its exact parameters. The authority checks, the timing
//! windows, and the pending-flag lifecycle are verified; the host around the
//! queue supplies the caller identity and the clock, performs dispatches,
//! and forwards the emitted notifications.

pub mod identity;
pub mod queue;
