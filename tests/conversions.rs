use proccorder::metrics::{limit_value, secs_to_nanos, ticks_to_nanos, Metrics, SoftLimit};
use proccorder::readings::{metrics_from, thread_cpu_rows, Readings, StatFields, TaskTimes, TimeBase};

fn stat() -> StatFields {
    StatFields {
        pid: 42,
        ppid: 1,
        utime: 150,
        stime: 50,
        starttime: 1000,
        vsize: 8_192_000,
        rss: 100,
        num_threads: 3,
    }
}

fn base() -> TimeBase {
    TimeBase { ticks_per_second: 100, boot_time_secs: Some(1_700_000_000) }
}

fn full_readings() -> Readings {
    Readings {
        uptime: Some((12, 340_000_000)),
        stat: Some(stat()),
        page_size: 4096,
        fd_count: Some(7),
        limits: Some((SoftLimit::Value(1024), SoftLimit::Unlimited)),
        tasks: Some(vec![
            Some(TaskTimes { tid: 42, utime: 100, stime: 25 }),
            None,
            Some(TaskTimes { tid: 44, utime: 1, stime: 0 }),
        ]),
    }
}

#[test]
fn ticks_convert_to_nanoseconds() {
    assert_eq!(ticks_to_nanos(150, 100, 100), 2_500_000_000);
    assert_eq!(ticks_to_nanos(1, 0, 3), 333_333_333);
    assert_eq!(ticks_to_nanos(u64::MAX, u64::MAX, 1), (u64::MAX as u128) * 2 * 1_000_000_000);
}

#[test]
fn seconds_convert_to_nanoseconds() {
    assert_eq!(secs_to_nanos(2, 5), 2_000_000_005);
    assert_eq!(secs_to_nanos(0, 0), 0);
}

#[test]
fn unlimited_soft_limit_reads_as_zero() {
    assert_eq!(limit_value(SoftLimit::Unlimited), 0);
    assert_eq!(limit_value(SoftLimit::Value(65536)), 65536);
}

#[test]
fn empty_snapshot_has_no_field() {
    let m = Metrics::empty();
    assert!(m.time_nanos.is_none() && m.cpu_nanos_total.is_none() && m.thread_cpu_nanos_total.is_none());
}

#[test]
fn full_readings_give_every_field() {
    let m = metrics_from(&full_readings(), &base());
    assert_eq!(m.time_nanos, Some(1_700_000_012_340_000_000));
    assert_eq!(m.cpu_nanos_total, Some(2_000_000_000));
    assert_eq!(m.start_time_nanos, Some(1_700_000_010_000_000_000));
    assert_eq!(m.open_fds, Some(7));
    assert_eq!(m.max_fds, Some(1024));
    assert_eq!(m.virtual_memory_max_bytes, Some(0));
    assert_eq!(m.virtual_memory_bytes, Some(8_192_000));
    assert_eq!(m.resident_memory_bytes, Some(409_600));
    assert_eq!(m.num_threads, Some(3));
    assert_eq!(m.thread_cpu_nanos_total, Some(vec![(42, 1_250_000_000), (44, 10_000_000)]));
}

#[test]
fn failed_lookups_leave_only_their_fields_absent() {
    let mut rd = full_readings();
    rd.stat = None;
    rd.limits = None;
    let m = metrics_from(&rd, &base());
    assert_eq!(m.cpu_nanos_total, None);
    assert_eq!(m.start_time_nanos, None);
    assert_eq!(m.virtual_memory_bytes, None);
    assert_eq!(m.resident_memory_bytes, None);
    assert_eq!(m.num_threads, None);
    assert_eq!(m.max_fds, None);
    assert_eq!(m.virtual_memory_max_bytes, None);
    assert_eq!(m.open_fds, Some(7));
    assert_eq!(m.time_nanos, Some(1_700_000_012_340_000_000));
    assert!(m.thread_cpu_nanos_total.is_some());
}

#[test]
fn unknown_boot_time_drops_clock_fields() {
    let b = TimeBase { ticks_per_second: 100, boot_time_secs: None };
    let m = metrics_from(&full_readings(), &b);
    assert_eq!(m.time_nanos, None);
    assert_eq!(m.start_time_nanos, None);
    assert_eq!(m.cpu_nanos_total, Some(2_000_000_000));
}

#[test]
fn zero_tick_rate_drops_tick_fields() {
    let b = TimeBase { ticks_per_second: 0, boot_time_secs: Some(5) };
    let m = metrics_from(&full_readings(), &b);
    assert_eq!(m.cpu_nanos_total, None);
    assert_eq!(m.start_time_nanos, None);
    assert_eq!(m.thread_cpu_nanos_total, None);
    assert_eq!(m.time_nanos, Some(17_340_000_000));
}

#[test]
fn resident_size_that_overflows_is_absent() {
    let mut rd = full_readings();
    let mut st = stat();
    st.rss = u64::MAX;
    rd.stat = Some(st);
    let m = metrics_from(&rd, &base());
    assert_eq!(m.resident_memory_bytes, None);
    assert_eq!(m.virtual_memory_bytes, Some(8_192_000));
}

#[test]
fn negative_thread_count_is_absent() {
    let mut rd = full_readings();
    let mut st = stat();
    st.num_threads = -1;
    rd.stat = Some(st);
    let m = metrics_from(&rd, &base());
    assert_eq!(m.num_threads, None);
}

#[test]
fn vanished_threads_are_skipped() {
    let tasks = vec![None, Some(TaskTimes { tid: 9, utime: 3, stime: 4 }), None];
    assert_eq!(thread_cpu_rows(&tasks, 100), vec![(9, 70_000_000)]);
    assert_eq!(thread_cpu_rows(&vec![], 100), vec![]);
}

#[test]
fn negative_thread_ids_are_skipped() {
    let tasks = vec![
        Some(TaskTimes { tid: -3, utime: 1, stime: 1 }),
        Some(TaskTimes { tid: 0, utime: 1, stime: 0 }),
    ];
    assert_eq!(thread_cpu_rows(&tasks, 100), vec![(0, 10_000_000)]);
}

#[test]
fn present_fields_are_nonnegative() {
    let m = metrics_from(&full_readings(), &base());
    for (tid, t) in m.thread_cpu_nanos_total.unwrap() {
        assert!(tid >= 0);
        assert!(t as i128 >= 0);
    }
    assert!(m.num_threads.unwrap() as i128 >= 0);
}
