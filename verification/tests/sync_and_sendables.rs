use player_sync::sendables::{from_sendable, to_sendable, Sendables};
use player_sync::sync::needs_sync;

#[test]
fn unchanged_player_is_not_synced() {
    assert!(!needs_sync(false, false));
}

#[test]
fn any_change_is_synced() {
    assert!(needs_sync(true, false));
    assert!(needs_sync(false, true));
    assert!(needs_sync(true, true));
}

#[test]
fn sendable_round_trip() {
    let state: (f32, f32, f32) = (1.5, -2.0, 0.0);
    let s = to_sendable(state);
    assert_eq!(s, Sendables::PlayerSync((1.5, -2.0, 0.0)));
    assert_eq!(from_sendable(s), Some(state));
}
