//! Command line interface model.
use vstd::prelude::*;

verus! {

/// WireShark in the terminal.
#[derive(Debug, Clone, PartialEq, Eq)]
pub struct Cli {
    /// the subcommand to run
    pub subcommand: SubCommands,
    /// the key binding config
    pub key_config: Option<String>,
}

/// The available subcommands.
#[derive(Debug, Clone, PartialEq, Eq)]
pub enum SubCommands {
    /// Capture and inspect packets from a device.
    Capture(Capture),
    /// List available devices.
    List(List),
    /// Load and inspect packets from a file.
    Load(Load),
    /// Show key config example
    Config(Config),
}

/// Capture and inspect packets from a device.
#[derive(Debug, Clone, PartialEq, Eq)]
pub struct Capture {
    /// the device to capture from, by address or name; the default device when absent
    pub device: Option<String>,
    /// the file to save captured packets to
    pub save_file: Option<String>,
}

/// List available devices.
#[derive(Debug, Clone, PartialEq, Eq)]
pub struct List {}

/// Load and inspect packets from a file.
#[derive(Debug, Clone, PartialEq, Eq)]
pub struct Load {
    /// the file to load from
    pub file: String,
}

/// Show or save key config example
#[derive(Debug, Clone, PartialEq, Eq)]
pub struct Config {
    /// the file to save config example
    pub path: Option<String>,
}

} // verus!
