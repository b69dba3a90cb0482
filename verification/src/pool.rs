//! Trusted declarations for the shared worker-pool handle and the
//! machine's core count, which the parameter set's defaults rely on.

use vstd::prelude::*;

verus! {

/// Declares `futures_cpupool::CpuPool` so a parameter set can hold a handle
/// to a shared worker pool. The handle is opaque: nothing inside it is read.
#[verifier::external_type_specification]
#[verifier::external_body]
pub struct ExCpuPool(futures_cpupool::CpuPool);

/// Relies on `futures_cpupool::CpuPool::clone`: cloning only creates a new
/// reference to the same underlying thread pool.
pub assume_specification[ <futures_cpupool::CpuPool as Clone>::clone ](
    pool: &futures_cpupool::CpuPool,
) -> futures_cpupool::CpuPool;

/// Relies on `num_cpus::get`, which is documented to always return at
/// least 1.
#[verifier::external_body]
pub fn logical_core_count() -> (r: usize)
    ensures
        r >= 1,
{
    num_cpus::get()
}

} // verus!
