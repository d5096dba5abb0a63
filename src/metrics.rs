use vstd::prelude::*;

verus! {

pub const NANOS_PER_SEC: u64 = 1_000_000_000;

/// Soft resource limit of a process: a number, or no limit at all.
#[derive(Clone, Copy, Debug, PartialEq, Eq, Structural)]
pub enum SoftLimit {
    Unlimited,
    Value(u64),
}

/// One point-in-time record of a process's resource usage.
///
/// Durations and points in time are whole nanoseconds; every field is absent
/// independently of the others when the lookup behind it failed.
#[derive(Clone, Debug)]
pub struct Metrics {
    /// Wall-clock time of the sample, since the Unix epoch.
    pub time_nanos: Option<u128>,
    /// Total user and system CPU time.
    pub cpu_nanos_total: Option<u128>,
    /// Number of open file descriptors.
    pub open_fds: Option<u64>,
    /// Maximum number of open file descriptors; 0 means unlimited.
    pub max_fds: Option<u64>,
    /// Virtual memory size in bytes.
    pub virtual_memory_bytes: Option<u64>,
    /// Maximum virtual memory in bytes; 0 means unlimited.
    pub virtual_memory_max_bytes: Option<u64>,
    /// Resident memory size in bytes.
    pub resident_memory_bytes: Option<u64>,
    /// Start time of the process, since the Unix epoch.
    pub start_time_nanos: Option<u128>,
    /// Number of OS threads in the process.
    pub num_threads: Option<u64>,
    /// Total CPU time of each thread, by thread id, in enumeration order.
    pub thread_cpu_nanos_total: Option<Vec<(i32, u128)>>,
}

/// Duration of `ticks` clock ticks at `per_second` ticks a second, rounded down
/// to whole nanoseconds.
pub open spec fn ticks_to_nanos_spec(ticks: int, per_second: int) -> int {
    ticks * NANOS_PER_SEC / per_second
}

/// A number of seconds plus a fraction, as nanoseconds.
pub open spec fn secs_to_nanos_spec(secs: int, subsec_nanos: int) -> int {
    secs * NANOS_PER_SEC + subsec_nanos
}

/// The value reported for a soft limit: unlimited is reported as 0.
pub open spec fn limit_value_spec(l: SoftLimit) -> u64 {
    match l {
        SoftLimit::Unlimited => 0,
        SoftLimit::Value(v) => v,
    }
}

impl Metrics {
    /// A snapshot in which every lookup failed.
    pub open spec fn is_empty(&self) -> bool {
        &&& self.time_nanos is None
        &&& self.cpu_nanos_total is None
        &&& self.open_fds is None
        &&& self.max_fds is None
        &&& self.virtual_memory_bytes is None
        &&& self.virtual_memory_max_bytes is None
        &&& self.resident_memory_bytes is None
        &&& self.start_time_nanos is None
        &&& self.num_threads is None
        &&& self.thread_cpu_nanos_total is None
    }

    /// Every thread row present has a non-negative thread id.
    pub open spec fn thread_ids_nonnegative(&self) -> bool {
        self.thread_cpu_nanos_total matches Some(rows) ==> forall|i: int|
            0 <= i < rows@.len() ==> #[trigger] rows@[i].0 >= 0
    }

    pub fn empty() -> (r: Metrics)
        ensures
            r.is_empty(),
            r.thread_ids_nonnegative(),
    {
        Metrics {
            time_nanos: None,
            cpu_nanos_total: None,
            open_fds: None,
            max_fds: None,
            virtual_memory_bytes: None,
            virtual_memory_max_bytes: None,
            resident_memory_bytes: None,
            start_time_nanos: None,
            num_threads: None,
            thread_cpu_nanos_total: None,
        }
    }
}

/// Converts a tick count, given as two parts that are added, to nanoseconds.
pub fn ticks_to_nanos(a: u64, b: u64, per_second: u64) -> (r: u128)
    requires
        per_second > 0,
    ensures
        r == ticks_to_nanos_spec(a + b, per_second as int),
{
    let ticks: u128 = a as u128 + b as u128;
    assert(ticks * 1_000_000_000 <= 0x2_0000_0000_0000_0000u128 * 1_000_000_000) by (nonlinear_arith)
        requires ticks <= 0x2_0000_0000_0000_0000u128;
    let scaled: u128 = ticks * 1_000_000_000;
    scaled / (per_second as u128)
}

/// Converts whole seconds plus a nanosecond fraction to nanoseconds.
pub fn secs_to_nanos(secs: u64, subsec_nanos: u32) -> (r: u128)
    ensures
        r == secs_to_nanos_spec(secs as int, subsec_nanos as int),
{
    assert(secs * 1_000_000_000 <= 0xffff_ffff_ffff_ffffu128 * 1_000_000_000) by (nonlinear_arith)
        requires secs <= 0xffff_ffff_ffff_ffffu128;
    secs as u128 * 1_000_000_000 + subsec_nanos as u128
}

/// The reported value of a soft limit.
pub fn limit_value(l: SoftLimit) -> (r: u64)
    ensures
        r == limit_value_spec(l),
{
    match l {
        SoftLimit::Unlimited => 0,
        SoftLimit::Value(v) => v,
    }
}

} // verus!
