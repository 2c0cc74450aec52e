//! The two collectors: one sample per running container, and one aggregate
//! for the processes of the SSH daemon.
//!
//! Both work on what was read for one scrape. A collector fails as a whole
//! only where its source could not be queried at all; [`CollectorError`]
//! says which source that was.

use vstd::prelude::*;

pub mod container;
pub mod ssh;

verus! {

/// Why a collector has nothing to report for a scrape.
#[derive(Clone, Copy, Debug, PartialEq, Eq)]
pub enum CollectorError {
    /// The container runtime could not be reached or did not list its
    /// containers.
    RuntimeUnavailable,
    /// The container runtime did not hand out the inspection record of a
    /// container.
    InspectionFailed,
    /// The processes of the host could not be enumerated.
    ProcessTableUnavailable,
}

} // verus!
