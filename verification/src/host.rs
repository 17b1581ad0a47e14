//! Host queries used by default construction.

use vstd::prelude::*;

verus! {

/// Relies on num_cpus::get_physical: the number of physical (non-SMT) CPU
/// cores of the current system, documented to always be at least 1 (falling
/// back to the logical count where the physical count is unavailable).
#[verifier::external_body]
pub(crate) fn physical_core_count() -> (n: usize)
    ensures
        n >= 1,
{
    num_cpus::get_physical()
}

} // verus!
