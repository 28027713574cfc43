use vstd::prelude::*;
use core::time::Duration;

verus! {

/// The duration of `nanos` nanoseconds.
pub uninterp spec fn duration_of_nanos(nanos: u64) -> Duration;

/// Relies on core::time::Duration::from_nanos, which never fails on a `u64`.
#[verifier::external_body]
fn nanos_to_duration(nanos: u64) -> (r: Duration)
    ensures
        r == duration_of_nanos(nanos),
{
    Duration::from_nanos(nanos)
}

/// What a sandboxed run consumed: peak accounted memory in bytes and
/// accounted processor time.
#[derive(Debug)]
pub struct SandboxUsage {
    pub memory: u64,
    pub time: Duration,
}

impl SandboxUsage {
    /// Usage from the two counters as the resource groups report them: the
    /// peak memory in bytes and the processor time in nanoseconds.
    pub fn from_counters(memory: u64, cpu_nanos: u64) -> (r: SandboxUsage)
        ensures
            r.memory == memory,
            r.time == duration_of_nanos(cpu_nanos),
    {
        SandboxUsage { memory, time: nanos_to_duration(cpu_nanos) }
    }
}

} // verus!
