//! The readings that one refresh of the system information produces.

use vstd::prelude::*;
use crate::mem_info::MemInfo;

verus! {

pub struct Readings {
    pub mem_info: MemInfo,
}

impl Readings {
    /// Readings before anything has been read.
    pub fn new() -> (r: Self)
        ensures
            r.mem_info == MemInfo::zeroed(),
    {
        Readings { mem_info: MemInfo::default() }
    }
}

} // verus!
