//! Commands of the utility interface.

use crate::command::Subsystem;
use vstd::prelude::*;

mod assoc_find_device;

pub use assoc_find_device::AssocFindDevice;

verus! {

/// The subsystem that the commands of this module are addressed to.
pub const SUBSYS: Subsystem = Subsystem::IFaceUTIL;

} // verus!
