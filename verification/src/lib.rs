//! Packet parsing, filtering and browsing state for a terminal packet inspector.
use vstd::prelude::*;

pub mod bytes;
pub mod text;
pub mod ethernet;
pub mod app;
pub mod cli;
pub mod device;

verus! {
} // verus!
