use vstd::prelude::*;
use crate::metrics::{
    limit_value, limit_value_spec, secs_to_nanos, secs_to_nanos_spec, ticks_to_nanos,
    ticks_to_nanos_spec, Metrics, SoftLimit,
};

verus! {

/// Conversion constants read once per process and reused for every sample.
#[derive(Clone, Copy, Debug)]
pub struct TimeBase {
    /// Clock ticks per second; 0 when the system did not report it.
    pub ticks_per_second: u64,
    /// Boot time of the system, in seconds since the Unix epoch.
    pub boot_time_secs: Option<u64>,
}

/// The fields of a process's (or thread's) status record that samples use.
#[derive(Clone, Copy, Debug)]
pub struct StatFields {
    pub pid: i32,
    pub ppid: i32,
    /// User time, in clock ticks.
    pub utime: u64,
    /// System time, in clock ticks.
    pub stime: u64,
    /// Start time after boot, in clock ticks.
    pub starttime: u64,
    /// Virtual memory size in bytes.
    pub vsize: u64,
    /// Resident set size, in pages.
    pub rss: u64,
    pub num_threads: i64,
}

/// CPU times of one thread.
#[derive(Clone, Copy, Debug)]
pub struct TaskTimes {
    pub tid: i32,
    pub utime: u64,
    pub stime: u64,
}

/// Everything read from the system for one sample of an existing process;
/// `None` marks a lookup that failed.
#[derive(Clone, Debug)]
pub struct Readings {
    /// System uptime as whole seconds and a nanosecond fraction.
    pub uptime: Option<(u64, u32)>,
    pub stat: Option<StatFields>,
    /// Memory page size in bytes.
    pub page_size: u64,
    pub fd_count: Option<usize>,
    /// Soft limits on open files and on address space.
    pub limits: Option<(SoftLimit, SoftLimit)>,
    /// The threads found; `None` for a thread that vanished or could not be read.
    pub tasks: Option<Vec<Option<TaskTimes>>>,
}

pub open spec fn ticks_field(ticks: int, base: TimeBase) -> Option<u128> {
    if base.ticks_per_second > 0 {
        Some(ticks_to_nanos_spec(ticks, base.ticks_per_second as int) as u128)
    } else {
        None
    }
}

pub open spec fn time_field(uptime: Option<(u64, u32)>, base: TimeBase) -> Option<u128> {
    match (uptime, base.boot_time_secs) {
        (Some(up), Some(boot)) => Some(
            (secs_to_nanos_spec(boot as int, 0) + secs_to_nanos_spec(up.0 as int, up.1 as int)) as u128,
        ),
        _ => None,
    }
}

pub open spec fn start_field(stat: StatFields, base: TimeBase) -> Option<u128> {
    match (base.boot_time_secs, ticks_field(stat.starttime as int, base)) {
        (Some(boot), Some(after)) => Some((secs_to_nanos_spec(boot as int, 0) + after) as u128),
        _ => None,
    }
}

pub open spec fn resident_field(stat: StatFields, page_size: u64) -> Option<u64> {
    if stat.rss * page_size <= u64::MAX {
        Some((stat.rss * page_size) as u64)
    } else {
        None
    }
}

pub open spec fn threads_field(n: i64) -> Option<u64> {
    if n >= 0 {
        Some(n as u64)
    } else {
        None
    }
}

/// The (thread id, CPU time) rows of the threads that could be read and have
/// a non-negative id, in order.
pub open spec fn thread_rows(tasks: Seq<Option<TaskTimes>>, per_second: int) -> Seq<(i32, u128)>
    decreases tasks.len(),
{
    if tasks.len() == 0 {
        Seq::empty()
    } else {
        let rest = thread_rows(tasks.drop_last(), per_second);
        match tasks.last() {
            Some(t) if t.tid >= 0 => rest.push(
                (t.tid, ticks_to_nanos_spec(t.utime + t.stime, per_second) as u128),
            ),
            _ => rest,
        }
    }
}

/// Every thread row has a non-negative id.
pub proof fn lemma_thread_rows_nonnegative(tasks: Seq<Option<TaskTimes>>, per_second: int)
    ensures
        forall|i: int| 0 <= i < thread_rows(tasks, per_second).len()
            ==> #[trigger] thread_rows(tasks, per_second)[i].0 >= 0,
    decreases tasks.len(),
{
    if tasks.len() > 0 {
        let rest = thread_rows(tasks.drop_last(), per_second);
        lemma_thread_rows_nonnegative(tasks.drop_last(), per_second);
        let all = thread_rows(tasks, per_second);
        assert forall|i: int| 0 <= i < all.len() implies #[trigger] all[i].0 >= 0 by {
            if i < rest.len() {
                assert(all[i] == rest[i]);
            }
        }
    }
}

/// The snapshot that the readings of an existing process give.
pub open spec fn metrics_match(m: Metrics, rd: Readings, base: TimeBase) -> bool {
    &&& m.time_nanos == time_field(rd.uptime, base)
    &&& m.open_fds == match rd.fd_count {
        Some(n) => Some(n as u64),
        None => None::<u64>,
    }
    &&& match rd.limits {
        Some((files, space)) => {
            &&& m.max_fds == Some(limit_value_spec(files))
            &&& m.virtual_memory_max_bytes == Some(limit_value_spec(space))
        },
        None => m.max_fds is None && m.virtual_memory_max_bytes is None,
    }
    &&& match rd.stat {
        Some(st) => {
            &&& m.cpu_nanos_total == ticks_field(st.utime + st.stime, base)
            &&& m.start_time_nanos == start_field(st, base)
            &&& m.virtual_memory_bytes == Some(st.vsize)
            &&& m.resident_memory_bytes == resident_field(st, rd.page_size)
            &&& m.num_threads == threads_field(st.num_threads)
        },
        None => {
            &&& m.cpu_nanos_total is None
            &&& m.start_time_nanos is None
            &&& m.virtual_memory_bytes is None
            &&& m.resident_memory_bytes is None
            &&& m.num_threads is None
        },
    }
    &&& match rd.tasks {
        Some(ts) if base.ticks_per_second > 0 => m.thread_cpu_nanos_total is Some
            && m.thread_cpu_nanos_total.unwrap()@ == thread_rows(
            ts@,
            base.ticks_per_second as int,
        ),
        _ => m.thread_cpu_nanos_total is None,
    }
}

/// CPU time rows of the threads that could be read, skipping the others and
/// any with a negative id.
pub fn thread_cpu_rows(tasks: &Vec<Option<TaskTimes>>, per_second: u64) -> (r: Vec<(i32, u128)>)
    requires
        per_second > 0,
    ensures
        r@ == thread_rows(tasks@, per_second as int),
        forall|i: int| 0 <= i < r@.len() ==> #[trigger] r@[i].0 >= 0,
{
    let mut rows: Vec<(i32, u128)> = Vec::new();
    let mut i: usize = 0;
    while i < tasks.len()
        invariant
            per_second > 0,
            i <= tasks@.len(),
            rows@ == thread_rows(tasks@.subrange(0, i as int), per_second as int),
        decreases tasks@.len() - i,
    {
        proof {
            assert(tasks@.subrange(0, i + 1).drop_last() =~= tasks@.subrange(0, i as int));
        }
        match tasks[i] {
            Some(t) if t.tid >= 0 => {
                let nanos = ticks_to_nanos(t.utime, t.stime, per_second);
                rows.push((t.tid, nanos));
            },
            _ => {},
        }
        i = i + 1;
    }
    assert(tasks@.subrange(0, tasks@.len() as int) =~= tasks@);
    proof {
        lemma_thread_rows_nonnegative(tasks@, per_second as int);
    }
    rows
}

fn ticks_value(ticks_a: u64, ticks_b: u64, base: &TimeBase) -> (r: Option<u128>)
    ensures
        r == ticks_field(ticks_a + ticks_b, *base),
{
    if base.ticks_per_second > 0 {
        Some(ticks_to_nanos(ticks_a, ticks_b, base.ticks_per_second))
    } else {
        None
    }
}

/// Builds the snapshot of an existing process from what was read of it.
/// Each field depends only on the readings it needs, so one failed lookup
/// leaves the other fields in place.
pub fn metrics_from(rd: &Readings, base: &TimeBase) -> (m: Metrics)
    ensures
        metrics_match(m, *rd, *base),
        m.thread_ids_nonnegative(),
{
    let mut m = Metrics::empty();
    match (rd.uptime, base.boot_time_secs) {
        (Some(up), Some(boot)) => {
            m.time_nanos = Some(secs_to_nanos(boot, 0) + secs_to_nanos(up.0, up.1));
        },
        _ => {},
    }
    match rd.stat {
        Some(st) => {
            m.cpu_nanos_total = ticks_value(st.utime, st.stime, base);
            match (base.boot_time_secs, ticks_value(st.starttime, 0, base)) {
                (Some(boot), Some(after)) => {
                    assert(after <= 0x2_0000_0000_0000_0000u128 * 1_000_000_000) by (nonlinear_arith)
                        requires
                            after == ticks_to_nanos_spec(st.starttime + 0, base.ticks_per_second as int),
                            base.ticks_per_second > 0,
                    {
                        assert(st.starttime * 1_000_000_000 <= 0x2_0000_0000_0000_0000u128 * 1_000_000_000);
                    }
                    m.start_time_nanos = Some(secs_to_nanos(boot, 0) + after);
                },
                _ => {},
            }
            m.virtual_memory_bytes = Some(st.vsize);
            m.resident_memory_bytes = st.rss.checked_mul(rd.page_size);
            m.num_threads = if st.num_threads >= 0 {
                Some(st.num_threads as u64)
            } else {
                None
            };
        },
        None => {},
    }
    m.open_fds = match rd.fd_count {
        Some(n) => Some(n as u64),
        None => None,
    };
    match rd.limits {
        Some((files, space)) => {
            m.max_fds = Some(limit_value(files));
            m.virtual_memory_max_bytes = Some(limit_value(space));
        },
        None => {},
    }
    match &rd.tasks {
        Some(ts) => {
            if base.ticks_per_second > 0 {
                m.thread_cpu_nanos_total = Some(thread_cpu_rows(ts, base.ticks_per_second));
            }
        },
        None => {},
    }
    m
}

/// Every number present in a snapshot built from readings is non-negative:
/// the thread count and the thread ids, the readings of a signed type, are
/// kept only when the system reported them as non-negative, and every other
/// quantity is unsigned.
pub proof fn lemma_snapshot_nonnegative(m: Metrics, rd: Readings, base: TimeBase)
    requires
        metrics_match(m, rd, base),
    ensures
        m.num_threads matches Some(n) ==> rd.stat matches Some(st) && st.num_threads >= 0
            && n == st.num_threads,
        m.time_nanos matches Some(t) ==> t >= 0,
        m.cpu_nanos_total matches Some(t) ==> t >= 0,
        m.start_time_nanos matches Some(t) ==> t >= 0,
        m.open_fds matches Some(n) ==> n >= 0,
        m.max_fds matches Some(n) ==> n >= 0,
        m.virtual_memory_bytes matches Some(n) ==> n >= 0,
        m.virtual_memory_max_bytes matches Some(n) ==> n >= 0,
        m.resident_memory_bytes matches Some(n) ==> n >= 0,
        m.thread_ids_nonnegative(),
        m.thread_cpu_nanos_total matches Some(rows) ==> forall|i: int|
            0 <= i < rows@.len() ==> rows@[i].1 >= 0,
{
    if let Some(ts) = rd.tasks {
        lemma_thread_rows_nonnegative(ts@, base.ticks_per_second as int);
    }
}

} // verus!
