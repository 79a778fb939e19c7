use expressone::scan_time::scan_stamp;
use expressone::session::{classify_command, next_backoff_secs, DriveSession, WsCommand};

#[test]
fn control_messages() {
    assert_eq!(classify_command(Some("disable")), WsCommand::Disable);
    assert_eq!(classify_command(Some("enable")), WsCommand::Enable);
    assert_eq!(classify_command(Some("Enable")), WsCommand::Velocity);
    assert_eq!(classify_command(None), WsCommand::Velocity);
}

#[test]
fn watchdog_disables_a_silent_session_once() {
    let mut s = DriveSession::new();
    assert!(!s.check_watchdog(1_000_000_000));
    assert!(s.check_watchdog(1_000_000_001));
    assert!(s.stopped);
    assert!(!s.check_watchdog(5_000_000_000));
    assert!(!s.must_disable_on_close());
    s.on_command(WsCommand::Velocity);
    assert!(!s.stopped);
    assert!(s.must_disable_on_close());
    s.on_command(WsCommand::Disable);
    assert!(s.stopped);
    s.on_reconnected();
    assert!(!s.stopped);
}

#[test]
fn backoff_doubles_up_to_thirty_seconds() {
    let mut b = 1;
    let mut seen = Vec::new();
    for _ in 0..6 {
        b = next_backoff_secs(b);
        seen.push(b);
    }
    assert_eq!(seen, vec![2, 4, 8, 16, 30, 30]);
}

#[test]
fn scan_stamps() {
    // 811 points 40 µs apart before 10.5 s, no offset
    assert_eq!(scan_stamp(10_500_000_000, 811, 40_000, 0), (10, 467_560_000));
    // offset moves the stamp forward
    assert_eq!(scan_stamp(10_000_000_000, 0, 0, 250_000_000), (10, 250_000_000));
    // a stamp before the epoch shows 0 seconds and a wrapped remainder
    assert_eq!(scan_stamp(0, 1, 500_000_000, 0), (0, (-500_000_000i32) as u32));
    assert_eq!(scan_stamp(0, 1, 1_500_000_000, 0), (0, (-500_000_000i32) as u32));
}
