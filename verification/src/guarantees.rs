//! What every call answers, from what it was given and what it gave back alone.
//!
//! Each law speaks of any result that a call may give for its arguments.

pub mod client;
pub mod curve;
pub mod market;
pub mod rehearsal;
