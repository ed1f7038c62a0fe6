//! The commands of the tool.
use vstd::prelude::*;

verus! {

/// The arguments of one invocation: the settings file and the command.
#[derive(Clone, Debug)]
pub struct Cli {
    pub config: String,
    pub subcmd: Command,
}

/// What one invocation does.
#[derive(Clone, Copy, Debug, PartialEq, Eq, Structural)]
pub enum Command {
    /// Bind a VNI and bring its segment up.
    Enable { vni: u32 },
    /// Release a VNI and take its segment down.
    Disable { vni: u32 },
    /// Show every binding.
    List,
    /// Show the binding of one VNI.
    Status { vni: u32 },
}

} // verus!
