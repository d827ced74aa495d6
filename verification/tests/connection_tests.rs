use scraen::connection::Connection;
use scraen::session::encode_session;

#[test]
fn write_before_any_open_stays_disconnected() {
    // No such device exists, so the lazy open fails: the write is skipped
    // without any panic, the connection stays closed, and the next write
    // simply retries the open.
    let mut c = Connection::new("/dev/nonexistent-eye-bus", 115200, false);
    assert!(!c.is_connected());
    let sent = c.write(&vec![255, 128, 254]);
    assert!(!sent);
    assert!(!c.is_connected());
    let sent_again = c.write(&vec![255, 254]);
    assert!(!sent_again);
    assert!(!c.is_connected());
}

#[test]
fn open_port_on_missing_device_fails_quietly() {
    let mut c = Connection::new("/dev/nonexistent-eye-bus", 115200, true);
    c.open_port();
    assert!(!c.is_connected());
}

#[test]
fn session_write_survives_missing_device() {
    let mut c = Connection::new("/dev/nonexistent-eye-bus", 115200, false);
    let session = encode_session(&vec![vec![1, 2, 3]]);
    assert_eq!(session, vec![255, 1, 2, 3, 254]);
    assert!(!c.write(&session));
}

#[test]
fn timer_fires_after_interval() {
    let mut t = scraen::timer::Timer::start_new(0, 100);
    assert!(!t.check(50));
    assert!(!t.check(100));
    assert!(t.check(101));
    // Firing restarts the interval.
    assert!(!t.check(200));
    assert!(t.check(302));
}
