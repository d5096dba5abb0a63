use vstd::prelude::*;

verus! {

/// 100-nanosecond intervals from 1601-01-01 (UTC) to the Unix epoch.
pub const FILETIME_UNIX_EPOCH: u64 = 116_444_736_000_000_000;

/// A count of 100-nanosecond intervals split in two 32-bit halves, as the
/// Windows accounting calls report times and durations.
#[derive(Clone, Copy, Debug, PartialEq, Eq, Structural)]
pub struct FileTime {
    pub low: u32,
    pub high: u32,
}

pub open spec fn filetime_intervals(ft: FileTime) -> int {
    ft.high * 0x1_0000_0000 + ft.low
}

fn intervals(ft: FileTime) -> (r: u64)
    ensures
        r == filetime_intervals(ft),
{
    assert(ft.high * 0x1_0000_0000u64 <= 0xffff_ffffu64 * 0x1_0000_0000u64) by (nonlinear_arith)
        requires ft.high <= 0xffff_ffffu32;
    (ft.high as u64) * 0x1_0000_0000 + ft.low as u64
}

/// A duration given as a `FileTime`, in nanoseconds.
pub fn filetime_to_nanos(ft: FileTime) -> (r: u128)
    ensures
        r == filetime_intervals(ft) * 100,
{
    intervals(ft) as u128 * 100
}

/// A point in time given as a `FileTime` (counted from 1601), in nanoseconds
/// since the Unix epoch; `None` for a time before the epoch.
pub fn filetime_to_unix_epoch_nanos(ft: FileTime) -> (r: Option<u128>)
    ensures
        filetime_intervals(ft) >= FILETIME_UNIX_EPOCH ==> r == Some(
            ((filetime_intervals(ft) - FILETIME_UNIX_EPOCH) * 100) as u128,
        ),
        filetime_intervals(ft) < FILETIME_UNIX_EPOCH ==> r is None,
{
    let n = intervals(ft);
    if n >= FILETIME_UNIX_EPOCH {
        Some((n - FILETIME_UNIX_EPOCH) as u128 * 100)
    } else {
        None
    }
}

/// CPU time of a process or thread from its kernel and user times, in
/// nanoseconds.
pub fn filetimes_cpu_nanos(kernel: FileTime, user: FileTime) -> (r: u128)
    ensures
        r == (filetime_intervals(kernel) + filetime_intervals(user)) * 100,
{
    filetime_to_nanos(kernel) + filetime_to_nanos(user)
}

/// Monotonic hardware ticks, given as two parts that are added, in
/// nanoseconds by the timebase ratio `numer / denom`, rounded down; `None`
/// when the ratio has a zero denominator.
pub fn timebase_to_nanos(a: u64, b: u64, numer: u32, denom: u32) -> (r: Option<u128>)
    ensures
        denom == 0 ==> r is None,
        denom > 0 ==> r == Some(((a + b) * numer / (denom as int)) as u128),
{
    if denom == 0 {
        None
    } else {
        let ticks: u128 = a as u128 + b as u128;
        assert(ticks * numer <= 0x2_0000_0000_0000_0000u128 * 0xffff_ffffu128) by (nonlinear_arith)
            requires ticks <= 0x2_0000_0000_0000_0000u128, numer <= 0xffff_ffffu32;
        Some(ticks * numer as u128 / denom as u128)
    }
}

} // verus!
