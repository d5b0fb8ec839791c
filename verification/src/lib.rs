//! Hardware-qualification bench core: a feedback load controller, the
//! per-core busy-work decisions it drives, a sampling test-run state
//! machine with pass/fail verdicts, and parsers for device-manager
//! driver listings.
use vstd::prelude::*;

pub mod aida64;
pub mod desktop;
pub mod disk;
pub mod drive;
pub mod load;
pub mod local;
pub mod opts;
pub mod run;
pub mod sensor;
pub mod stats;
pub mod text;
pub mod worker;

verus! {

/// Both load levels the controller handles are percentages of the
/// whole machine's CPU time, so they never exceed this value.
pub const LOAD_FULL: u64 = 100;

/// Clamps a requested load percentage into `0..=LOAD_FULL`.
pub fn clamp_load(load: u64) -> (r: u64)
    ensures
        r == if load > LOAD_FULL { LOAD_FULL as u64 } else { load },
        r <= LOAD_FULL,
{
    if load > LOAD_FULL {
        LOAD_FULL
    } else {
        load
    }
}

} // verus!
