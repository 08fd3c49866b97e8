use session_gateway::common::{ServerSession, MAX_INACTIVITY_SECS, SWEEP_INTERVAL_SECS};
use session_gateway::routes::heartbeat;

#[test]
fn design_defaults() {
    assert_eq!(SWEEP_INTERVAL_SECS, 300);
    assert_eq!(MAX_INACTIVITY_SECS, 600);
}

#[test]
fn idle_past_threshold_is_evicted() {
    let mut session = ServerSession::new();
    let t0 = 1_000;
    let token = session.register_server("srv1".to_string(), t0);

    let evicted = session.sweep_inactive(t0 + MAX_INACTIVITY_SECS + 1, MAX_INACTIVITY_SECS);

    assert_eq!(evicted, vec![("srv1".to_string(), MAX_INACTIVITY_SECS + 1)]);
    assert!(!session.contains_server("srv1"));
    assert!(session.lookup_by_token(&token).is_none());
}

#[test]
fn idle_exactly_at_threshold_survives() {
    let mut session = ServerSession::new();
    let t0 = 1_000;
    session.register_server("srv1".to_string(), t0);

    let evicted = session.sweep_inactive(t0 + MAX_INACTIVITY_SECS, MAX_INACTIVITY_SECS);

    assert!(evicted.is_empty());
    assert!(session.contains_server("srv1"));
}

#[test]
fn touched_record_survives_the_cycle() {
    let mut session = ServerSession::new();
    let t0 = 1_000;
    session.register_server("srv1".to_string(), t0);
    session.register_server("srv2".to_string(), t0);

    let beat = heartbeat(&mut session, "srv2", t0 + 500);
    assert!(beat.success);
    assert_eq!(beat.message, "Heartbeat recorded");

    let evicted = session.sweep_inactive(t0 + MAX_INACTIVITY_SECS + 1, MAX_INACTIVITY_SECS);

    assert_eq!(evicted, vec![("srv1".to_string(), MAX_INACTIVITY_SECS + 1)]);
    assert!(!session.contains_server("srv1"));
    assert!(session.contains_server("srv2"));
}

#[test]
fn heartbeat_of_unregistered_server_is_refused() {
    let mut session = ServerSession::new();
    let beat = heartbeat(&mut session, "srv1", 10);
    assert!(!beat.success);
    assert_eq!(beat.message, "Not registered");
}

#[test]
fn sweep_of_empty_registry_is_a_no_op() {
    let mut session = ServerSession::new();
    let evicted = session.sweep_inactive(1_000_000, MAX_INACTIVITY_SECS);
    assert!(evicted.is_empty());
}

#[test]
fn clock_behind_last_activity_evicts_nothing() {
    let mut session = ServerSession::new();
    session.register_server("srv1".to_string(), 5_000);

    let evicted = session.sweep_inactive(4_000, 600);

    assert!(evicted.is_empty());
    assert!(session.contains_server("srv1"));
}
