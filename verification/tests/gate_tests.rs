use voxel_world::asset_tracker::{advance, AssetTracker};
use voxel_world::GameState;

#[test]
fn track_is_idempotent() {
    let mut tracker = AssetTracker::new();
    assert!(tracker.is_empty());
    tracker.track(42);
    tracker.track(42);
    assert_eq!(tracker.len(), 1);
    tracker.track(43);
    assert_eq!(tracker.len(), 2);
    assert!(!tracker.is_empty());
}

#[test]
fn default_tracker_is_empty_and_default_state_is_loading() {
    let tracker = AssetTracker::default();
    assert!(tracker.is_empty());
    assert_eq!(tracker.len(), 0);
    assert_eq!(GameState::default(), GameState::Loading);
}

#[test]
fn all_loaded_requires_every_tracked_handle() {
    let mut tracker = AssetTracker::new();
    assert!(tracker.all_loaded(&vec![]));
    tracker.track(7);
    tracker.track(9);
    assert!(!tracker.all_loaded(&vec![]));
    assert!(!tracker.all_loaded(&vec![7]));
    assert!(!tracker.all_loaded(&vec![9]));
    assert!(tracker.all_loaded(&vec![7, 9]));
    assert!(tracker.all_loaded(&vec![9, 7, 11]));
}

#[test]
fn partial_load_never_transitions() {
    // Track two handles and report only one as loaded: the readiness state stays in
    // Loading. Once both are reported loaded, the next poll transitions to
    // Running.
    let mut tracker = AssetTracker::new();
    tracker.track(1);
    tracker.track(2);

    let mut state = GameState::Loading;
    let loaded_so_far = vec![1u64];
    state = advance(state, tracker.all_loaded(&loaded_so_far));
    assert_eq!(state, GameState::Loading);

    let loaded_now = vec![1u64, 2u64];
    state = advance(state, tracker.all_loaded(&loaded_now));
    assert_eq!(state, GameState::Running);
}

#[test]
fn gate_is_monotonic_once_running() {
    // Once the aggregate status has reported all loaded, the state is Running
    // and stays Running for every later poll, whatever further track calls
    // and poll results arrive.
    let mut tracker = AssetTracker::new();
    tracker.track(5);

    let mut state = GameState::Loading;
    state = advance(state, false);
    assert_eq!(state, GameState::Loading);
    state = advance(state, tracker.all_loaded(&vec![5]));
    assert_eq!(state, GameState::Running);

    tracker.track(6);
    state = advance(state, tracker.all_loaded(&vec![5]));
    assert_eq!(state, GameState::Running);
    state = advance(state, false);
    assert_eq!(state, GameState::Running);
    state = advance(state, true);
    assert_eq!(state, GameState::Running);
}
