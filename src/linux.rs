use vstd::prelude::*;
use procfs::Current;
use procfs::process::{LimitValue, Process, Task};
use crate::metrics::{Metrics, SoftLimit};
use crate::readings::{metrics_from, metrics_match, Readings, StatFields, TaskTimes, TimeBase};

verus! {

/// procfs's handle on a process's /proc entry, carried opaquely.
#[verifier::external_type_specification]
#[verifier::external_body]
pub struct ExProcess(procfs::process::Process);

/// procfs's handle on one thread of a process, carried opaquely.
#[verifier::external_type_specification]
#[verifier::external_body]
pub struct ExTask(procfs::process::Task);

/// Relies on procfs::ticks_per_second: the system's clock ticks per second.
#[verifier::external_body]
fn clock_ticks_per_second() -> (r: u64) {
    procfs::ticks_per_second()
}

/// Relies on procfs::boot_time_secs: the boot time in seconds since the epoch.
#[verifier::external_body]
fn boot_time_secs() -> (r: Option<u64>) {
    procfs::boot_time_secs().ok()
}

/// Relies on procfs::page_size: the memory page size in bytes.
#[verifier::external_body]
fn page_size() -> (r: u64) {
    procfs::page_size()
}

/// Relies on procfs::Uptime::current, read through `uptime_duration`: the
/// system uptime as whole seconds and a nanosecond fraction.
#[verifier::external_body]
fn uptime_now() -> (r: Option<(u64, u32)>) {
    procfs::Uptime::current().ok().map(|u| {
        let d = u.uptime_duration();
        (d.as_secs(), d.subsec_nanos())
    })
}

/// Relies on procfs::process::Process::new: opens the process's /proc entry.
#[verifier::external_body]
fn open_process(pid: i32) -> (r: Option<Process>) {
    Process::new(pid).ok()
}

/// Relies on procfs::process::Process::stat: the process's status record.
#[verifier::external_body]
fn process_stat(p: &Process) -> (r: Option<StatFields>) {
    p.stat().ok().map(|s| StatFields {
        pid: s.pid,
        ppid: s.ppid,
        utime: s.utime,
        stime: s.stime,
        starttime: s.starttime,
        vsize: s.vsize,
        rss: s.rss,
        num_threads: s.num_threads,
    })
}

/// Relies on procfs::process::Process::fd_count: the number of open descriptors.
#[verifier::external_body]
fn process_fd_count(p: &Process) -> (r: Option<usize>) {
    p.fd_count().ok()
}

/// Relies on procfs::process::Process::limits: the soft limits on open files
/// and on address space.
#[verifier::external_body]
fn process_limits(p: &Process) -> (r: Option<(SoftLimit, SoftLimit)>) {
    p.limits().ok().map(|l| {
        let files = match l.max_open_files.soft_limit {
            LimitValue::Unlimited => SoftLimit::Unlimited,
            LimitValue::Value(v) => SoftLimit::Value(v),
        };
        let space = match l.max_address_space.soft_limit {
            LimitValue::Unlimited => SoftLimit::Unlimited,
            LimitValue::Value(v) => SoftLimit::Value(v),
        };
        (files, space)
    })
}

/// Relies on procfs::process::Process::tasks: the ids of the process's
/// threads, each `None` where its entry could not be read. Each thread's
/// handle is closed as soon as its id is taken.
#[verifier::external_body]
fn process_task_ids(p: &Process) -> (r: Option<Vec<Option<i32>>>) {
    p.tasks().ok().map(|it| it.map(|t| t.ok().map(|t| t.tid)).collect())
}

/// Relies on procfs::process::Process::task_from_tid: opens one thread of the
/// process.
#[verifier::external_body]
fn open_task(p: &Process, tid: i32) -> (r: Option<Task>) {
    p.task_from_tid(tid).ok()
}

/// Relies on procfs::process::Task::stat: the CPU times of one thread.
#[verifier::external_body]
fn task_times(t: &Task) -> (r: Option<TaskTimes>) {
    t.stat().ok().map(|s| TaskTimes { tid: t.tid, utime: s.utime, stime: s.stime })
}

/// Relies on procfs::process::all_processes: the ids of every process of the
/// system, each `None` where its entry could not be opened. Each process's
/// handle is closed as soon as its id is taken.
#[verifier::external_body]
fn process_ids() -> (r: Option<Vec<Option<i32>>>) {
    procfs::process::all_processes().ok().map(|it| it.map(|p| p.ok().map(|p| p.pid)).collect())
}

/// Reads the conversion constants of this system.
pub fn time_base() -> (r: TimeBase) {
    TimeBase { ticks_per_second: clock_ticks_per_second(), boot_time_secs: boot_time_secs() }
}

/// CPU times of each thread of the process, opening one thread at a time; a
/// thread that vanished while the threads were listed is marked `None`.
fn read_tasks(p: &Process) -> (r: Option<Vec<Option<TaskTimes>>>) {
    match process_task_ids(p) {
        None => None,
        Some(ids) => {
            let mut out: Vec<Option<TaskTimes>> = Vec::new();
            let mut i: usize = 0;
            while i < ids.len()
                invariant
                    i <= ids@.len(),
                    out@.len() == i,
                decreases ids@.len() - i,
            {
                let t = match ids[i] {
                    Some(tid) => match open_task(p, tid) {
                        Some(task) => task_times(&task),
                        None => None,
                    },
                    None => None,
                };
                out.push(t);
                i = i + 1;
            }
            Some(out)
        },
    }
}

/// Collects one snapshot of process `pid`, best effort: each lookup that fails
/// leaves its own fields absent, and a process that cannot be opened gives an
/// empty snapshot.
pub fn collect(pid: i32, base: &TimeBase) -> (m: Metrics)
    ensures
        exists|rd: Readings| metrics_match(m, rd, *base),
        m.thread_ids_nonnegative(),
{
    match open_process(pid) {
        None => {
            let m = Metrics::empty();
            proof {
                let rd = Readings {
                    uptime: None,
                    stat: None,
                    page_size: 0,
                    fd_count: None,
                    limits: None,
                    tasks: None,
                };
                assert(metrics_match(m, rd, *base));
            }
            m
        },
        Some(p) => {
            let rd = Readings {
                uptime: uptime_now(),
                stat: process_stat(&p),
                page_size: page_size(),
                fd_count: process_fd_count(&p),
                limits: process_limits(&p),
                tasks: read_tasks(&p),
            };
            metrics_from(&rd, base)
        },
    }
}

/// `c` is the first process of `rows` (pairs of process id and parent id)
/// whose parent is `pid`, or `None` when no process there has that parent.
pub open spec fn is_first_child(rows: Seq<(i32, i32)>, pid: i32, c: Option<i32>) -> bool {
    match c {
        Some(child) => exists|i: int|
            0 <= i < rows.len() && rows[i].1 == pid && rows[i].0 == child && forall|j: int|
                0 <= j < i ==> rows[j].1 != pid,
        None => forall|i: int| 0 <= i < rows.len() ==> rows[i].1 != pid,
    }
}

/// The first process in `rows` whose parent is `pid`.
pub fn first_child_among(rows: &Vec<(i32, i32)>, pid: i32) -> (r: Option<i32>)
    ensures
        is_first_child(rows@, pid, r),
{
    let mut i: usize = 0;
    while i < rows.len()
        invariant
            i <= rows@.len(),
            forall|j: int| 0 <= j < i ==> rows@[j].1 != pid,
        decreases rows@.len() - i,
    {
        if rows[i].1 == pid {
            return Some(rows[i].0);
        }
        i = i + 1;
    }
    None
}

/// The (process id, parent id) pairs of a listing whose entries could be
/// read, in order.
pub open spec fn readable_rows(listing: Seq<Option<(i32, i32)>>) -> Seq<(i32, i32)>
    decreases listing.len(),
{
    if listing.len() == 0 {
        Seq::empty()
    } else {
        let rest = readable_rows(listing.drop_last());
        match listing.last() {
            Some(row) => rest.push(row),
            None => rest,
        }
    }
}

/// The first child of `pid` in a process listing, skipping the entries that
/// could not be read.
pub fn first_child_in(listing: &Vec<Option<(i32, i32)>>, pid: i32) -> (r: Option<i32>)
    ensures
        is_first_child(readable_rows(listing@), pid, r),
{
    let mut rows: Vec<(i32, i32)> = Vec::new();
    let mut i: usize = 0;
    while i < listing.len()
        invariant
            i <= listing@.len(),
            rows@ == readable_rows(listing@.subrange(0, i as int)),
        decreases listing@.len() - i,
    {
        proof {
            assert(listing@.subrange(0, i + 1).drop_last() =~= listing@.subrange(0, i as int));
        }
        match listing[i] {
            Some(row) => rows.push(row),
            None => {},
        }
        i = i + 1;
    }
    assert(listing@.subrange(0, listing@.len() as int) =~= listing@);
    first_child_among(&rows, pid)
}

/// Reads the (process id, parent id) pair of every listed process, opening
/// one process at a time.
fn read_listing(ids: &Vec<Option<i32>>) -> (r: Vec<Option<(i32, i32)>>)
    ensures
        r@.len() == ids@.len(),
        forall|i: int| 0 <= i < ids@.len() && ids@[i] is None ==> #[trigger] r@[i] is None,
{
    let mut listing: Vec<Option<(i32, i32)>> = Vec::new();
    let mut i: usize = 0;
    while i < ids.len()
        invariant
            i <= ids@.len(),
            listing@.len() == i,
            forall|j: int| 0 <= j < i && ids@[j] is None ==> #[trigger] listing@[j] is None,
        decreases ids@.len() - i,
    {
        let row = match ids[i] {
            Some(id) => match open_process(id) {
                Some(p) => match process_stat(&p) {
                    Some(st) => Some((st.pid, st.ppid)),
                    None => None,
                },
                None => None,
            },
            None => None,
        };
        listing.push(row);
        i = i + 1;
    }
    listing
}

/// `r` is what a child lookup gives on `table`, the process listing if it
/// could be read: an error exactly when it could not, and otherwise the first
/// readable entry whose parent is `pid`, or `None` when there is none.
pub open spec fn child_lookup_matches(
    table: Option<Seq<Option<(i32, i32)>>>,
    pid: i32,
    r: Result<Option<i32>, ()>,
) -> bool {
    &&& (table is None <==> r is Err)
    &&& table matches Some(l) ==> (r matches Ok(c) && is_first_child(readable_rows(l), pid, c))
}

pub open spec fn listing_view(table: Option<Vec<Option<(i32, i32)>>>) -> Option<Seq<Option<(i32, i32)>>> {
    match table {
        Some(l) => Some(l@),
        None => None,
    }
}

/// The child lookup on a process listing, `None` when the processes could not
/// be listed.
pub fn first_child_from(table: Option<Vec<Option<(i32, i32)>>>, pid: i32) -> (r: Result<Option<i32>, ()>)
    ensures
        child_lookup_matches(listing_view(table), pid, r),
{
    match table {
        None => Err(()),
        Some(listing) => Ok(first_child_in(&listing, pid)),
    }
}

/// The first child process of `pid`, in the order the system lists processes;
/// `Ok(None)` when it has none, and an error only when the processes cannot
/// be listed.
pub fn first_child(pid: i32) -> (r: Result<Option<i32>, ()>)
    ensures
        exists|table: Option<Seq<Option<(i32, i32)>>>| child_lookup_matches(table, pid, r),
{
    let table = match process_ids() {
        None => None,
        Some(ids) => Some(read_listing(&ids)),
    };
    let ghost seen = listing_view(table);
    let r = first_child_from(table, pid);
    assert(child_lookup_matches(seen, pid, r));
    r
}

} // verus!
