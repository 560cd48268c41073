//! Commands of the system interface.

use crate::command::Subsystem;
use vstd::prelude::*;

mod nv;
mod ping;

pub use nv::{ExNvIds, NVLength, NVRead, NvSysIds, NVID};
pub use ping::{spec_capabilities, Capability, CapabilitySet, Ping, ALL_CAPABILITIES};

verus! {

/// The subsystem that the commands of this module are addressed to.
pub const SUBSYS: Subsystem = Subsystem::IFaceSYS;

} // verus!
