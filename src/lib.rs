//! The event reactor of a user-space network interface: a control handle
//! shared by socket users, and the decision core of the driver loop that
//! flushes, waits for the first wake condition and advances the protocol
//! engine once per iteration.

pub mod cycle;
pub mod laws;
pub mod handle;
