use expressone::odometry::{position_delta, OdomTracker};

#[test]
fn test_posdelta_wraparound() {
    let prev: i32 = i32::MAX - 10;
    let now: i32 = prev.wrapping_add(100); // crosses MAX → negative
    let delta = position_delta(now, prev);
    assert_eq!(delta, 100, "wrapping_sub must give +100 across boundary");
}

#[test]
fn deltas_between_healthy_readings() {
    let mut t = OdomTracker::new();
    assert_eq!(t.record_reading(1000, -2000), None);
    assert_eq!(t.record_reading(900, -1800), Some((-100, 200)));
    assert_eq!(t.record_reading(i32::MIN + 5, i32::MAX), Some(((i32::MIN + 5).wrapping_sub(900), i32::MAX.wrapping_sub(-1800))));
    assert_eq!(t.can_errors, 0);
}

#[test]
fn fault_drops_baseline_and_counts() {
    let mut t = OdomTracker::new();
    t.record_reading(10, 10);
    t.record_fault();
    assert_eq!(t.can_errors, 1);
    assert_eq!(t.last_counts, None);
    // first reading after a fault starts a new baseline
    assert_eq!(t.record_reading(50_000, 50_000), None);
    assert_eq!(t.can_errors, 0);
}

#[test]
fn ten_errors_ask_for_reconnect() {
    let mut t = OdomTracker::new();
    for _ in 0..9 {
        t.record_command_error();
    }
    assert!(!t.needs_reconnect());
    t.record_fault();
    assert!(t.needs_reconnect());
    t.reset_errors();
    assert!(!t.needs_reconnect());
}
