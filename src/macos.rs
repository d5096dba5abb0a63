use vstd::prelude::*;
use crate::metrics::{limit_value, limit_value_spec, Metrics, SoftLimit, NANOS_PER_SEC};
use crate::timeunits::timebase_to_nanos;

verus! {

/// Ratio that converts monotonic hardware ticks to nanoseconds.
#[derive(Clone, Copy, Debug)]
pub struct Timebase {
    pub numer: u32,
    pub denom: u32,
}

/// Task information of a process.
#[derive(Clone, Copy, Debug)]
pub struct TaskInfo {
    /// Start time: seconds and microseconds since the Unix epoch.
    pub start_sec: u64,
    pub start_usec: u64,
    pub virtual_size: u64,
    pub resident_size: u64,
    pub thread_count: i32,
}

/// Everything read from the system for one sample; `None` marks a lookup
/// that failed.
#[derive(Debug)]
pub struct MacReadings {
    /// Wall-clock time: seconds and microseconds since the Unix epoch.
    pub now: (u64, u64),
    /// User and system time, in hardware ticks.
    pub rusage: Option<(u64, u64)>,
    pub task: Option<TaskInfo>,
    /// Each listed thread's id, with its user and system time in hardware
    /// ticks, or `None` where that thread could not be read.
    pub threads: Option<Vec<(u64, Option<(u64, u64)>)>>,
    pub fd_count: Option<usize>,
    /// Soft limits on open files and on address space.
    pub open_files_limit: Option<SoftLimit>,
    pub address_space_limit: Option<SoftLimit>,
}

pub open spec fn micros_to_nanos_spec(secs: int, usecs: int) -> int {
    secs * NANOS_PER_SEC + usecs * 1000
}

pub open spec fn ticks_nanos(ticks: int, tb: Timebase) -> Option<u128> {
    if tb.denom > 0 {
        Some((ticks * tb.numer / (tb.denom as int)) as u128)
    } else {
        None
    }
}

/// A thread id as reported: its low 31 bits.
pub open spec fn thread_id_spec(tid: u64) -> i32 {
    (tid % 0x8000_0000) as i32
}

/// The rows of the threads that could be read, in order, skipping the others.
pub open spec fn mac_thread_rows(ts: Seq<(u64, Option<(u64, u64)>)>, tb: Timebase) -> Seq<(i32, u128)>
    decreases ts.len(),
{
    if ts.len() == 0 {
        Seq::empty()
    } else {
        let rest = mac_thread_rows(ts.drop_last(), tb);
        match ts.last().1 {
            Some(times) => rest.push(
                (thread_id_spec(ts.last().0), ((times.0 + times.1) * tb.numer / (tb.denom as int)) as u128),
            ),
            None => rest,
        }
    }
}

pub open spec fn limit_field(l: Option<SoftLimit>) -> Option<u64> {
    match l {
        Some(v) => Some(limit_value_spec(v)),
        None => None,
    }
}

/// The snapshot that the readings give. Task fields need both the task
/// information and the thread list.
pub open spec fn mac_metrics_match(m: Metrics, rd: MacReadings, tb: Timebase) -> bool {
    &&& m.time_nanos == Some(micros_to_nanos_spec(rd.now.0 as int, rd.now.1 as int) as u128)
    &&& m.cpu_nanos_total == match rd.rusage {
        Some(t) => ticks_nanos(t.0 + t.1, tb),
        None => None,
    }
    &&& m.max_fds == limit_field(rd.open_files_limit)
    &&& m.virtual_memory_max_bytes == limit_field(rd.address_space_limit)
    &&& match (rd.task, rd.threads) {
        (Some(info), Some(ts)) => {
            &&& m.start_time_nanos == Some(
                micros_to_nanos_spec(info.start_sec as int, info.start_usec as int) as u128,
            )
            &&& m.virtual_memory_bytes == Some(info.virtual_size)
            &&& m.resident_memory_bytes == Some(info.resident_size)
            &&& m.num_threads == if info.thread_count >= 0 {
                Some(info.thread_count as u64)
            } else {
                None
            }
            &&& m.open_fds == match rd.fd_count {
                Some(n) => Some(n as u64),
                None => None,
            }
            &&& if tb.denom > 0 {
                m.thread_cpu_nanos_total is Some && m.thread_cpu_nanos_total.unwrap()@
                    == mac_thread_rows(ts@, tb)
            } else {
                m.thread_cpu_nanos_total is None
            }
        },
        _ => {
            &&& m.start_time_nanos is None
            &&& m.virtual_memory_bytes is None
            &&& m.resident_memory_bytes is None
            &&& m.num_threads is None
            &&& m.open_fds is None
            &&& m.thread_cpu_nanos_total is None
        },
    }
}

/// Seconds and microseconds, in nanoseconds.
pub fn micros_to_nanos(secs: u64, usecs: u64) -> (r: u128)
    ensures
        r == micros_to_nanos_spec(secs as int, usecs as int),
{
    assert(secs * 1_000_000_000 <= 0xffff_ffff_ffff_ffffu128 * 1_000_000_000) by (nonlinear_arith)
        requires secs <= 0xffff_ffff_ffff_ffffu128;
    assert(usecs * 1000 <= 0xffff_ffff_ffff_ffffu128 * 1000) by (nonlinear_arith)
        requires usecs <= 0xffff_ffff_ffff_ffffu128;
    secs as u128 * 1_000_000_000 + usecs as u128 * 1000
}

/// The low 31 bits of a thread id.
pub fn thread_id(tid: u64) -> (r: i32)
    ensures
        r == thread_id_spec(tid),
{
    let low: u64 = tid & 0x7fff_ffff;
    assert(low == tid % 0x8000_0000) by (bit_vector)
        requires low == tid & 0x7fff_ffff;
    low as i32
}

/// CPU time rows of the threads that could be read, skipping the others;
/// `None` when the timebase is unusable.
pub fn mac_thread_cpu_rows(ts: &Vec<(u64, Option<(u64, u64)>)>, tb: Timebase) -> (r: Option<Vec<(i32, u128)>>)
    ensures
        tb.denom == 0 ==> r is None,
        tb.denom > 0 ==> r is Some && r.unwrap()@ == mac_thread_rows(ts@, tb),
        r matches Some(rows) ==> forall|i: int| 0 <= i < rows@.len() ==> #[trigger] rows@[i].0 >= 0,
{
    if tb.denom == 0 {
        return None;
    }
    let mut rows: Vec<(i32, u128)> = Vec::new();
    let mut i: usize = 0;
    while i < ts.len()
        invariant
            tb.denom > 0,
            i <= ts@.len(),
            forall|j: int| 0 <= j < rows@.len() ==> #[trigger] rows@[j].0 >= 0,
            mac_thread_rows(ts@.subrange(0, i as int), tb) == rows@,
        decreases ts@.len() - i,
    {
        proof {
            assert(ts@.subrange(0, i + 1).drop_last() =~= ts@.subrange(0, i as int));
        }
        let (tid, times) = ts[i];
        match times {
            Some((user, system)) => {
                let nanos = timebase_to_nanos(user, system, tb.numer, tb.denom);
                rows.push((thread_id(tid), nanos.unwrap()));
            },
            None => {},
        }
        i = i + 1;
    }
    assert(ts@.subrange(0, ts@.len() as int) =~= ts@);
    Some(rows)
}

fn limit_option(l: Option<SoftLimit>) -> (r: Option<u64>)
    ensures
        r == limit_field(l),
{
    match l {
        Some(v) => Some(limit_value(v)),
        None => None,
    }
}

/// Builds a snapshot from what was read through the macOS accounting calls.
pub fn mac_metrics_from(rd: &MacReadings, tb: Timebase) -> (m: Metrics)
    ensures
        mac_metrics_match(m, *rd, tb),
        m.thread_ids_nonnegative(),
{
    let mut m = Metrics::empty();
    m.time_nanos = Some(micros_to_nanos(rd.now.0, rd.now.1));
    m.cpu_nanos_total = match rd.rusage {
        Some((user, system)) => timebase_to_nanos(user, system, tb.numer, tb.denom),
        None => None,
    };
    match (&rd.task, &rd.threads) {
        (Some(info), Some(ts)) => {
            m.start_time_nanos = Some(micros_to_nanos(info.start_sec, info.start_usec));
            m.virtual_memory_bytes = Some(info.virtual_size);
            m.resident_memory_bytes = Some(info.resident_size);
            m.num_threads = if info.thread_count >= 0 {
                Some(info.thread_count as u64)
            } else {
                None
            };
            m.open_fds = match rd.fd_count {
                Some(n) => Some(n as u64),
                None => None,
            };
            m.thread_cpu_nanos_total = mac_thread_cpu_rows(ts, tb);
        },
        _ => {},
    }
    m.virtual_memory_max_bytes = limit_option(rd.address_space_limit);
    m.max_fds = limit_option(rd.open_files_limit);
    m
}

} // verus!
