//! The actions that keys are bound to.
use vstd::prelude::*;

verus! {

/// Click events in app
#[derive(Debug, Clone, Copy, PartialEq, Eq)]
pub enum KeyEvent {
    /// Apply a packet filter
    ApplyFilter,
    /// Clear packet filter
    ClearFilter,
    /// Close app
    Quit,
    /// Packet window up
    PktUp,
    /// Packet window down
    PktDown,
    /// Packet window page up
    PktPageUp,
    /// Packet window page down
    PktPageDown,
    /// Packet window page jump to head
    PktHome,
    /// Packet window page jump to end
    PktEnd,
    /// Details window up
    DtlUp,
    /// Details window down
    DtlDown,
    /// Hex window up
    HexUp,
    /// Hex window down
    HexDown,
}

} // verus!
