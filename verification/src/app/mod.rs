//! Application logic: packet summaries, filtering and browsing state.
use vstd::prelude::*;

pub mod events;
pub mod filter;
pub mod filter_laws;
pub mod input;
pub mod key_config;
pub mod packet_info;
pub mod state;
pub mod ui;

verus! {
} // verus!
