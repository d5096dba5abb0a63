use vstd::prelude::*;
use crate::metrics::Metrics;
use crate::timeunits::{
    filetime_intervals, filetime_to_unix_epoch_nanos, filetimes_cpu_nanos, FileTime,
    FILETIME_UNIX_EPOCH,
};

verus! {

/// Open handles a process may hold: a fixed system-wide ceiling.
pub const MAX_HANDLES: u64 = 16_777_216;

/// What became of one thread entry while reading its times.
#[derive(Clone, Copy, Debug)]
pub enum ThreadProbe {
    /// The thread could not be opened (it has vanished): it is skipped.
    NotOpened,
    /// The thread was opened; its kernel and user times, if they could be
    /// read.
    Opened { times: Option<(FileTime, FileTime)> },
}

/// One entry of the system's thread list.
#[derive(Clone, Copy, Debug)]
pub struct ThreadEntry {
    pub owner: u32,
    pub tid: u32,
    pub probe: ThreadProbe,
}

/// Everything read from the system for one sample; `None` marks a lookup
/// that failed.
#[derive(Debug)]
pub struct WinReadings {
    /// Current system time.
    pub now: FileTime,
    /// Whether the process could be opened; nothing else is read otherwise.
    pub opened: bool,
    /// Creation, kernel and user times of the process.
    pub times: Option<(FileTime, FileTime, FileTime)>,
    /// Private usage and working set size, in bytes.
    pub memory: Option<(u64, u64)>,
    pub handle_count: Option<u32>,
    /// Whether the process handle closed; the threads are not read otherwise.
    pub handle_closed: bool,
    /// The system's thread list, or `None` when it could not be walked.
    pub threads: Option<Vec<ThreadEntry>>,
}

pub open spec fn epoch_nanos(ft: FileTime) -> Option<u128> {
    if filetime_intervals(ft) >= FILETIME_UNIX_EPOCH {
        Some(((filetime_intervals(ft) - FILETIME_UNIX_EPOCH) * 100) as u128)
    } else {
        None
    }
}

pub open spec fn cpu_nanos(kernel: FileTime, user: FileTime) -> u128 {
    ((filetime_intervals(kernel) + filetime_intervals(user)) * 100) as u128
}

/// A thread id as reported: its low 31 bits.
pub open spec fn thread_id_spec(tid: u32) -> i32 {
    (tid % 0x8000_0000) as i32
}

/// The rows of the threads of process `pid` whose times could be read, in
/// order, skipping the others.
pub open spec fn win_thread_rows(ts: Seq<ThreadEntry>, pid: u32) -> Seq<(i32, u128)>
    decreases ts.len(),
{
    if ts.len() == 0 {
        Seq::empty()
    } else {
        let e = ts.last();
        let rest = win_thread_rows(ts.drop_last(), pid);
        match e.probe {
            ThreadProbe::Opened { times: Some((kernel, user)) } if e.owner == pid => rest.push(
                (thread_id_spec(e.tid), cpu_nanos(kernel, user)),
            ),
            _ => rest,
        }
    }
}

/// The snapshot that the readings of process `pid` give.
pub open spec fn win_metrics_match(m: Metrics, rd: WinReadings, pid: u32) -> bool {
    &&& m.time_nanos == epoch_nanos(rd.now)
    &&& m.virtual_memory_max_bytes is None
    &&& if !rd.opened {
        &&& m.cpu_nanos_total is None
        &&& m.start_time_nanos is None
        &&& m.virtual_memory_bytes is None
        &&& m.resident_memory_bytes is None
        &&& m.open_fds is None
        &&& m.max_fds is None
        &&& m.num_threads is None
        &&& m.thread_cpu_nanos_total is None
    } else {
        &&& match rd.times {
            Some((creation, kernel, user)) => m.start_time_nanos == epoch_nanos(creation)
                && m.cpu_nanos_total == Some(cpu_nanos(kernel, user)),
            None => m.start_time_nanos is None && m.cpu_nanos_total is None,
        }
        &&& match rd.memory {
            Some((private, working)) => m.virtual_memory_bytes == Some(private)
                && m.resident_memory_bytes == Some(working),
            None => m.virtual_memory_bytes is None && m.resident_memory_bytes is None,
        }
        &&& m.open_fds == match rd.handle_count {
            Some(n) => Some(n as u64),
            None => None,
        }
        &&& m.max_fds == Some(MAX_HANDLES)
        &&& m.num_threads is None
        &&& match rd.threads {
            Some(ts) if rd.handle_closed => m.thread_cpu_nanos_total is Some
                && m.thread_cpu_nanos_total.unwrap()@ == win_thread_rows(ts@, pid),
            _ => m.thread_cpu_nanos_total is None,
        }
    }
}

/// The low 31 bits of a thread id.
pub fn thread_id(tid: u32) -> (r: i32)
    ensures
        r == thread_id_spec(tid),
{
    let low: u32 = tid & 0x7fff_ffff;
    assert(low == tid % 0x8000_0000) by (bit_vector)
        requires low == tid & 0x7fff_ffff;
    low as i32
}

/// CPU time rows of the threads of process `pid` whose times could be read.
pub fn win_thread_cpu_rows(ts: &Vec<ThreadEntry>, pid: u32) -> (r: Vec<(i32, u128)>)
    ensures
        r@ == win_thread_rows(ts@, pid),
        forall|i: int| 0 <= i < r@.len() ==> #[trigger] r@[i].0 >= 0,
{
    let mut rows: Vec<(i32, u128)> = Vec::new();
    let mut i: usize = 0;
    while i < ts.len()
        invariant
            i <= ts@.len(),
            forall|j: int| 0 <= j < rows@.len() ==> #[trigger] rows@[j].0 >= 0,
            win_thread_rows(ts@.subrange(0, i as int), pid) == rows@,
        decreases ts@.len() - i,
    {
        proof {
            assert(ts@.subrange(0, i + 1).drop_last() =~= ts@.subrange(0, i as int));
        }
        let e = ts[i];
        match e.probe {
            ThreadProbe::Opened { times: Some((kernel, user)) } if e.owner == pid => {
                rows.push((thread_id(e.tid), filetimes_cpu_nanos(kernel, user)));
            },
            _ => {},
        }
        i = i + 1;
    }
    assert(ts@.subrange(0, ts@.len() as int) =~= ts@);
    rows
}

/// Builds a snapshot of process `pid` from what was read through the Windows
/// accounting calls.
pub fn win_metrics_from(rd: &WinReadings, pid: u32) -> (m: Metrics)
    ensures
        win_metrics_match(m, *rd, pid),
        m.thread_ids_nonnegative(),
{
    let mut m = Metrics::empty();
    m.time_nanos = filetime_to_unix_epoch_nanos(rd.now);
    if !rd.opened {
        return m;
    }
    match rd.times {
        Some((creation, kernel, user)) => {
            m.start_time_nanos = filetime_to_unix_epoch_nanos(creation);
            m.cpu_nanos_total = Some(filetimes_cpu_nanos(kernel, user));
        },
        None => {},
    }
    match rd.memory {
        Some((private, working)) => {
            m.virtual_memory_bytes = Some(private);
            m.resident_memory_bytes = Some(working);
        },
        None => {},
    }
    m.open_fds = match rd.handle_count {
        Some(n) => Some(n as u64),
        None => None,
    };
    m.max_fds = Some(MAX_HANDLES);
    if rd.handle_closed {
        match &rd.threads {
            Some(ts) => {
                m.thread_cpu_nanos_total = Some(win_thread_cpu_rows(ts, pid));
            },
            None => {},
        }
    }
    m
}

} // verus!
