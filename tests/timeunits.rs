use proccorder::timeunits::{
    filetime_to_nanos, filetime_to_unix_epoch_nanos, filetimes_cpu_nanos, timebase_to_nanos, FileTime,
};

#[test]
fn filetime_duration_in_nanoseconds() {
    assert_eq!(filetime_to_nanos(FileTime { low: 15, high: 0 }), 1_500);
    assert_eq!(filetime_to_nanos(FileTime { low: 0, high: 1 }), 429_496_729_600);
    assert_eq!(
        filetime_to_nanos(FileTime { low: u32::MAX, high: u32::MAX }),
        (u64::MAX as u128) * 100
    );
}

#[test]
fn filetime_point_since_unix_epoch() {
    let t = FileTime { low: 1_761_935_365, high: 30_785_590 };
    assert_eq!(filetime_to_unix_epoch_nanos(t), Some(1_577_836_800_000_000_500));
}

#[test]
fn filetime_before_unix_epoch_is_absent() {
    assert_eq!(filetime_to_unix_epoch_nanos(FileTime { low: 0, high: 0 }), None);
}

#[test]
fn timebase_ratio_scales_ticks() {
    assert_eq!(timebase_to_nanos(100, 20, 125, 3), Some(5_000));
    assert_eq!(timebase_to_nanos(7, 0, 1, 1), Some(7));
    assert_eq!(timebase_to_nanos(7, 0, 1, 0), None);
}

#[test]
fn kernel_and_user_filetimes_add_up() {
    let kernel = FileTime { low: 10, high: 0 };
    let user = FileTime { low: 5, high: 1 };
    assert_eq!(filetimes_cpu_nanos(kernel, user), 1_500 + 429_496_729_600);
}
