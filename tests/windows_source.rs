use proccorder::timeunits::FileTime;
use proccorder::windows::{
    thread_id, win_metrics_from, win_thread_cpu_rows, ThreadEntry, ThreadProbe, WinReadings,
    MAX_HANDLES,
};

const NOW: FileTime = FileTime { low: 1_761_935_365, high: 30_785_590 };

fn ft(n: u32) -> FileTime {
    FileTime { low: n, high: 0 }
}

fn read(times: Option<(FileTime, FileTime)>) -> ThreadProbe {
    ThreadProbe::Opened { times }
}

fn readings() -> WinReadings {
    WinReadings {
        now: NOW,
        opened: true,
        times: Some((NOW, ft(10), ft(20))),
        memory: Some((5_000, 3_000)),
        handle_count: Some(12),
        handle_closed: true,
        threads: Some(vec![
            ThreadEntry { owner: 9, tid: 1, probe: read(Some((ft(1), ft(1)))) },
            ThreadEntry { owner: 8, tid: 2, probe: read(None) },
            ThreadEntry { owner: 9, tid: 3, probe: ThreadProbe::NotOpened },
            ThreadEntry { owner: 9, tid: 0xffff_ffff, probe: read(Some((ft(0), ft(4)))) },
        ]),
    }
}

#[test]
fn win_readings_give_every_field() {
    let m = win_metrics_from(&readings(), 9);
    assert_eq!(m.time_nanos, Some(1_577_836_800_000_000_500));
    assert_eq!(m.start_time_nanos, Some(1_577_836_800_000_000_500));
    assert_eq!(m.cpu_nanos_total, Some(3_000));
    assert_eq!(m.virtual_memory_bytes, Some(5_000));
    assert_eq!(m.resident_memory_bytes, Some(3_000));
    assert_eq!(m.open_fds, Some(12));
    assert_eq!(m.max_fds, Some(MAX_HANDLES));
    assert_eq!(m.num_threads, None);
    assert_eq!(m.virtual_memory_max_bytes, None);
    assert_eq!(m.thread_cpu_nanos_total, Some(vec![(1, 200), (0x7fff_ffff, 400)]));
}

#[test]
fn win_unopened_process_has_only_the_time() {
    let mut rd = readings();
    rd.opened = false;
    let m = win_metrics_from(&rd, 9);
    assert_eq!(m.time_nanos, Some(1_577_836_800_000_000_500));
    assert_eq!(m.cpu_nanos_total, None);
    assert_eq!(m.max_fds, None);
    assert_eq!(m.thread_cpu_nanos_total, None);
}

#[test]
fn win_unclosed_handle_skips_threads() {
    let mut rd = readings();
    rd.handle_closed = false;
    let m = win_metrics_from(&rd, 9);
    assert_eq!(m.thread_cpu_nanos_total, None);
    assert_eq!(m.open_fds, Some(12));
}

#[test]
fn win_unreadable_own_thread_is_skipped() {
    let ts = vec![
        ThreadEntry { owner: 9, tid: 1, probe: read(Some((ft(1), ft(1)))) },
        ThreadEntry { owner: 9, tid: 2, probe: read(None) },
        ThreadEntry { owner: 9, tid: 3, probe: ThreadProbe::NotOpened },
        ThreadEntry { owner: 9, tid: 4, probe: read(Some((ft(2), ft(0)))) },
    ];
    assert_eq!(win_thread_cpu_rows(&ts, 9), vec![(1, 200), (4, 200)]);
    assert_eq!(win_thread_cpu_rows(&ts, 8), vec![]);
}

#[test]
fn win_thread_id_keeps_low_bits() {
    assert_eq!(thread_id(5), 5);
    assert_eq!(thread_id(0x8000_0000), 0);
    assert_eq!(thread_id(0xffff_ffff), 0x7fff_ffff);
}
