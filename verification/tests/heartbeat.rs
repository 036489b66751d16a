use rewire_extras::{BridgeState, HeartbeatTracker};
use std::time::Duration;

#[test]
fn empty_tracker_reports_disconnected() {
    let mut tracker = HeartbeatTracker::default();
    let (connected, count, state) = tracker.status();
    assert!(!connected);
    assert_eq!(count, 0);
    assert_eq!(state, BridgeState::Idle);
}

#[test]
fn single_beat_reports_connected() {
    let mut tracker = HeartbeatTracker::default();
    tracker.beat("abc123", BridgeState::Idle);
    let (connected, count, _) = tracker.status();
    assert!(connected);
    assert_eq!(count, 1);
}

#[test]
fn multiple_bridges_counted() {
    let mut tracker = HeartbeatTracker::default();
    tracker.beat("bridge-a", BridgeState::Idle);
    tracker.beat("bridge-b", BridgeState::Idle);
    tracker.beat("bridge-c", BridgeState::Idle);
    let (connected, count, _) = tracker.status();
    assert!(connected);
    assert_eq!(count, 3);
}

#[test]
fn duplicate_beats_do_not_increase_count() {
    let mut tracker = HeartbeatTracker::default();
    tracker.beat("bridge-a", BridgeState::Idle);
    tracker.beat("bridge-a", BridgeState::Idle);
    tracker.beat("bridge-a", BridgeState::Idle);
    let (_, count, _) = tracker.status();
    assert_eq!(count, 1);
}

#[test]
fn default_staleness_is_five_seconds() {
    let tracker = HeartbeatTracker::default();
    assert_eq!(tracker.staleness(), Duration::from_secs(5));
}

#[test]
fn single_active_bridge_reports_active() {
    let mut tracker = HeartbeatTracker::default();
    tracker.beat("bridge-a", BridgeState::Active);
    let (_, _, state) = tracker.status();
    assert_eq!(state, BridgeState::Active);
}

#[test]
fn mixed_bridges_reports_active() {
    let mut tracker = HeartbeatTracker::default();
    tracker.beat("bridge-a", BridgeState::Idle);
    tracker.beat("bridge-b", BridgeState::Active);
    let (_, _, state) = tracker.status();
    assert_eq!(state, BridgeState::Active);
}

#[test]
fn all_idle_reports_idle() {
    let mut tracker = HeartbeatTracker::default();
    tracker.beat("bridge-a", BridgeState::Idle);
    tracker.beat("bridge-b", BridgeState::Idle);
    let (_, _, state) = tracker.status();
    assert_eq!(state, BridgeState::Idle);
}

#[test]
fn unspecified_proto_state_treated_as_idle() {
    assert_eq!(BridgeState::from(0), BridgeState::Idle);
    assert_eq!(BridgeState::from(1), BridgeState::Idle);
    assert_eq!(BridgeState::from(2), BridgeState::Active);
    assert_eq!(BridgeState::from(99), BridgeState::Idle);
}

#[test]
fn negative_proto_state_treated_as_idle() {
    assert_eq!(BridgeState::from(-2), BridgeState::Idle);
    assert_eq!(BridgeState::from(i32::MAX), BridgeState::Idle);
    assert_eq!(BridgeState::from(i32::MIN), BridgeState::Idle);
}

#[test]
fn default_bridge_state_is_idle() {
    assert_eq!(BridgeState::default(), BridgeState::Idle);
}

#[test]
fn custom_staleness_is_kept() {
    let tracker = HeartbeatTracker::with_staleness(Duration::from_millis(50));
    assert_eq!(tracker.staleness(), Duration::from_millis(50));
}

const MS: u128 = 1_000_000;

#[test]
fn stale_bridge_pruned_on_tracker_clock() {
    let mut tracker = HeartbeatTracker::with_staleness(Duration::from_millis(50));
    tracker.beat_at("bridge-old", BridgeState::Active, 0);
    let (connected, count, state) = tracker.status_at(100 * MS);
    assert!(!connected);
    assert_eq!(count, 0);
    assert_eq!(state, BridgeState::Idle);
}

#[test]
fn stale_and_fresh_on_tracker_clock() {
    let mut tracker = HeartbeatTracker::with_staleness(Duration::from_millis(100));
    tracker.beat_at("bridge-old", BridgeState::Active, 0);
    tracker.beat_at("bridge-new", BridgeState::Idle, 150 * MS);
    let (connected, count, state) = tracker.status_at(150 * MS);
    assert!(connected);
    assert_eq!(count, 1);
    assert_eq!(state, BridgeState::Idle);
}

#[test]
fn rebeat_revives_on_tracker_clock() {
    let mut tracker = HeartbeatTracker::with_staleness(Duration::from_millis(50));
    tracker.beat_at("bridge-a", BridgeState::Idle, 0);
    assert_eq!(tracker.status_at(100 * MS).1, 0);
    tracker.beat_at("bridge-a", BridgeState::Idle, 100 * MS);
    assert_eq!(tracker.status_at(100 * MS).1, 1);
}

#[test]
fn threshold_is_exclusive() {
    let mut tracker = HeartbeatTracker::with_staleness(Duration::from_millis(50));
    tracker.beat_at("a", BridgeState::Active, 10 * MS);
    assert_eq!(tracker.status_at(60 * MS - 1), (true, 1, BridgeState::Active));
    assert_eq!(tracker.status_at(60 * MS), (false, 0, BridgeState::Idle));
}

#[test]
fn beat_after_query_time_counts_as_fresh() {
    let mut tracker = HeartbeatTracker::with_staleness(Duration::from_millis(50));
    tracker.beat_at("a", BridgeState::Idle, 500 * MS);
    assert_eq!(tracker.status_at(0), (true, 1, BridgeState::Idle));
}

#[test]
fn zero_staleness_keeps_nothing() {
    let mut tracker = HeartbeatTracker::with_staleness(Duration::ZERO);
    tracker.beat_at("a", BridgeState::Active, 7);
    assert_eq!(tracker.status_at(7), (false, 0, BridgeState::Idle));
}

#[test]
fn rebeat_replaces_state() {
    let mut tracker = HeartbeatTracker::default();
    tracker.beat_at("a", BridgeState::Active, 0);
    tracker.beat_at("a", BridgeState::Idle, 1);
    assert_eq!(tracker.status_at(2), (true, 1, BridgeState::Idle));
}

#[test]
fn status_twice_is_the_same() {
    let mut tracker = HeartbeatTracker::with_staleness(Duration::from_millis(10));
    tracker.beat_at("a", BridgeState::Active, 0);
    tracker.beat_at("b", BridgeState::Idle, 20 * MS);
    let first = tracker.status_at(25 * MS);
    let second = tracker.status_at(25 * MS);
    assert_eq!(first, (true, 1, BridgeState::Idle));
    assert_eq!(first, second);
}
