//! Physical disk drive identity as the system management layer
//! reports it. Querying the system is the surrounding program's
//! work.
use vstd::prelude::*;

verus! {

/// Identity of one physical disk drive.
#[derive(Clone, Debug)]
pub struct DiskInfo {
    /// Manufacturer model string.
    pub model: String,
    /// Device name.
    pub name: String,
    /// Plug-and-play device identifier.
    pub pnp_device_id: String,
}

} // verus!
