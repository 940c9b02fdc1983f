use kicks::connection::{ConnectionManager, ConnectionState};
use std::time::Duration;

#[test]
fn test_initial_state_disconnected() {
    let mgr = ConnectionManager::new("127.0.0.1", 4040);
    assert_eq!(mgr.state(), ConnectionState::Disconnected);
}

#[test]
fn test_host_port() {
    let mgr = ConnectionManager::new("localhost", 8080);
    assert_eq!(mgr.host(), "localhost");
    assert_eq!(mgr.port(), 8080);
}

#[test]
fn test_backoff_delay_ramps_up() {
    let mgr = ConnectionManager::new("127.0.0.1", 4040);
    let d1 = mgr.backoff_delay(1);
    let d2 = mgr.backoff_delay(2);
    let d3 = mgr.backoff_delay(3);
    // attempt 1: base = 200ms
    // attempt 2: 200 * 2^1 = 400ms
    // attempt 3: 200 * 2^2 = 800ms
    assert_eq!(d1, Duration::from_millis(200));
    assert_eq!(d2, Duration::from_millis(400));
    assert_eq!(d3, Duration::from_millis(800));
}

#[test]
fn test_backoff_delay_capped() {
    let mut mgr = ConnectionManager::new("127.0.0.1", 4040);
    mgr.set_max_delay_ms(1000);
    // attempt 10: 200 * 2^9 = 102400ms, capped at 1000ms
    let d = mgr.backoff_delay(10);
    assert_eq!(d, Duration::from_millis(1000));
}

#[test]
fn test_set_host_port() {
    let mut mgr = ConnectionManager::new("old", 1);
    mgr.set_host_port("new", 9999);
    assert_eq!(mgr.host(), "new");
    assert_eq!(mgr.port(), 9999);
}

#[test]
fn backoff_attempt_zero_uses_base_delay() {
    let mgr = ConnectionManager::new("127.0.0.1", 4040);
    assert_eq!(mgr.backoff_delay(0), Duration::from_millis(200));
}

#[test]
fn backoff_default_cap_is_ten_seconds() {
    let mgr = ConnectionManager::new("127.0.0.1", 4040);
    // 200 * 2^6 = 12800 > 10000
    assert_eq!(mgr.backoff_delay(7), Duration::from_millis(10_000));
    assert_eq!(mgr.backoff_delay(6), Duration::from_millis(6400));
}

#[test]
fn retry_schedule_runs_eleven_attempts_then_fails() {
    let mut mgr = ConnectionManager::new("127.0.0.1", 4040);
    let mut attempts = 0u32;
    let mut delays = Vec::new();
    loop {
        mgr.connect_started();
        assert_eq!(mgr.state(), ConnectionState::Connecting);
        mgr.connect_finished(false);
        assert_eq!(mgr.state(), ConnectionState::Failed);
        match mgr.next_retry(attempts) {
            Some(d) => {
                assert_eq!(mgr.state(), ConnectionState::Reconnecting);
                delays.push(d);
                attempts += 1;
            }
            None => break,
        }
    }
    assert_eq!(attempts, mgr.max_retries());
    assert_eq!(attempts, 10);
    assert_eq!(mgr.state(), ConnectionState::Failed);
    assert_eq!(delays[0], Duration::from_millis(200));
    assert_eq!(delays[5], Duration::from_millis(6400));
    assert_eq!(delays[9], Duration::from_millis(10_000));
}

#[test]
fn successful_connect_marks_connected() {
    let mut mgr = ConnectionManager::new("127.0.0.1", 4040);
    mgr.connect_started();
    mgr.connect_finished(true);
    assert_eq!(mgr.state(), ConnectionState::Connected);
    mgr.reset_retries();
    assert_eq!(mgr.state(), ConnectionState::Connected);
}

#[test]
fn backoff_is_capped_for_every_attempt() {
    let mut mgr = ConnectionManager::new("127.0.0.1", 4040);
    assert_eq!(mgr.max_delay_ms(), 10_000);
    assert_eq!(mgr.backoff_delay(58), Duration::from_millis(10_000));
    assert_eq!(mgr.backoff_delay(u32::MAX), Duration::from_millis(10_000));
    mgr.set_max_delay_ms(u64::MAX);
    assert_eq!(mgr.backoff_delay(64), Duration::from_millis(u64::MAX));
    assert_eq!(mgr.backoff_delay(3), Duration::from_millis(800));
}
