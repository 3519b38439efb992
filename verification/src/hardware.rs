//! The one machine-dependent input the engine needs: how many CPUs it may use.

use vstd::prelude::*;

verus! {

/// Relies on num_cpus::get: the number of logical CPUs available to this
/// process, documented to be at least 1.
#[verifier::external_body]
fn cpu_count_raw() -> (r: usize)
    ensures
        r >= 1,
{
    num_cpus::get()
}

/// Logical CPU count, clamped so that the small multiples the engine takes of
/// it cannot overflow a `usize`.
pub fn cpu_count() -> (r: usize)
    ensures
        1 <= r <= usize::MAX / 4,
{
    let raw = cpu_count_raw();
    if raw > usize::MAX / 4 {
        usize::MAX / 4
    } else {
        raw
    }
}

} // verus!
