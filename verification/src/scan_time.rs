//! Time stamp of a published laser scan.
use vstd::prelude::*;

verus! {

/// Nanoseconds in a second.
pub const NANOS_PER_SEC: i64 = 1_000_000_000;

/// The stamp, in nanoseconds, of the first point of a scan received at
/// `now_ns` whose `data_count` points were taken `time_inc_ns` apart, shifted
/// by `offset_ns`.
pub open spec fn first_point_ns(now_ns: i64, data_count: i64, time_inc_ns: i64, offset_ns: i64) -> int {
    now_ns - data_count * time_inc_ns + offset_ns
}

/// The arithmetic of `scan_stamp` stays within `i64`.
pub open spec fn stamp_in_range(now_ns: i64, data_count: i64, time_inc_ns: i64, offset_ns: i64) -> bool {
    &&& i64::MIN <= data_count * time_inc_ns <= i64::MAX
    &&& i64::MIN <= now_ns - data_count * time_inc_ns <= i64::MAX
    &&& i64::MIN <= first_point_ns(now_ns, data_count, time_inc_ns, offset_ns) <= i64::MAX
}

/// Whole seconds of a stamp, rounded toward zero.
pub open spec fn whole_secs(total: int) -> int {
    if total >= 0 {
        total / NANOS_PER_SEC as int
    } else {
        -((-total) / NANOS_PER_SEC as int)
    }
}

/// Splits the first-point stamp into `(sec, nanosec)` as the scan header
/// carries it: seconds rounded toward zero and cut to `i32`, with a negative
/// second count shown as 0; nanoseconds are the remainder (of the sign of the
/// stamp) cut to `u32`.
pub fn scan_stamp(now_ns: i64, data_count: i64, time_inc_ns: i64, offset_ns: i64) -> (r: (i32, u32))
    requires
        stamp_in_range(now_ns, data_count, time_inc_ns, offset_ns),
    ensures
        ({
            let total = first_point_ns(now_ns, data_count, time_inc_ns, offset_ns);
            let sec = whole_secs(total) as i32;
            &&& r.0 == if sec < 0 { 0 } else { sec }
            &&& r.1 == (total - whole_secs(total) * NANOS_PER_SEC) as u32
        }),
{
    let span: i64 = data_count * time_inc_ns;
    let stamp_nanos: i64 = now_ns - span;
    let total_ns: i64 = stamp_nanos + offset_ns;
    let secs: i64 = total_ns / NANOS_PER_SEC;
    let rem: i64 = total_ns % NANOS_PER_SEC;
    let sec: i32 = secs as i32;
    let nanosec: u32 = rem as u32;
    (if sec < 0 {
        0
    } else {
        sec
    }, nanosec)
}

} // verus!
