use syncplay_core::sync::{SyncAction, SyncEngine};

#[test]
fn test_sync_no_action_when_in_sync() {
    let mut engine = SyncEngine::new();
    let actions = engine.calculate_sync_actions(10000, false, 10000, false, 0);
    assert_eq!(actions, vec![SyncAction::NoAction]);
}

#[test]
fn test_sync_seek_when_behind() {
    let mut engine = SyncEngine::new();
    let actions = engine.calculate_sync_actions(5000, false, 10000, false, 0);
    assert_eq!(actions, vec![SyncAction::Slowdown]);
    let mut engine = SyncEngine::new();
    let actions = engine.calculate_sync_actions(4999, false, 10000, false, 0);
    assert!(matches!(actions[0], SyncAction::Seek(_)));
}

#[test]
fn test_sync_seek_when_ahead() {
    let mut engine = SyncEngine::new();
    let actions = engine.calculate_sync_actions(20000, false, 10000, false, 0);
    assert!(matches!(actions[0], SyncAction::Seek(_)));
}

#[test]
fn test_sync_pause_state() {
    let mut engine = SyncEngine::new();
    let actions = engine.calculate_sync_actions(10000, true, 10000, false, 0);
    assert!(matches!(actions[0], SyncAction::SetPaused(false)));
}

#[test]
fn test_sync_slowdown() {
    let mut engine = SyncEngine::new();
    let actions = engine.calculate_sync_actions(8000, false, 10000, false, 0);
    assert!(matches!(actions[0], SyncAction::Slowdown));
    assert!(engine.is_slowdown_active());
}

#[test]
fn test_sync_reset_speed() {
    let mut engine = SyncEngine::new();
    engine.calculate_sync_actions(8000, false, 10000, false, 0);
    assert!(engine.is_slowdown_active());

    let actions = engine.calculate_sync_actions(10000, false, 10000, false, 0);
    assert!(matches!(actions[0], SyncAction::ResetSpeed));
    assert!(!engine.is_slowdown_active());
}

#[test]
fn a_player_too_far_behind_lands_a_little_past_the_room() {
    let mut engine = SyncEngine::new();
    let actions = engine.calculate_sync_actions(5000, false, 10000, false, 200);
    assert_eq!(actions, vec![SyncAction::Seek(10450)]);
    let mut engine = SyncEngine::new();
    let actions = engine.calculate_sync_actions(4999, true, 10000, true, 200);
    assert_eq!(actions, vec![SyncAction::Seek(10250)]);
    let mut engine = SyncEngine::new();
    let actions = engine.calculate_sync_actions(5000, true, 10000, true, 200);
    assert_eq!(actions, vec![SyncAction::NoAction]);
}

#[test]
fn a_player_too_far_ahead_is_set_back_to_the_room() {
    let mut engine = SyncEngine::new();
    let actions = engine.calculate_sync_actions(14500, false, 10000, false, 0);
    assert_eq!(actions, vec![SyncAction::Seek(10000)]);
    let mut engine = SyncEngine::new();
    let actions = engine.calculate_sync_actions(14001, false, 10000, false, 0);
    assert_eq!(actions, vec![SyncAction::Seek(10000)]);
    let mut engine = SyncEngine::new();
    let actions = engine.calculate_sync_actions(14000, false, 10000, false, 0);
    assert_eq!(actions, vec![SyncAction::Slowdown]);
    let mut engine = SyncEngine::new();
    engine.set_slowdown_active(true);
    let actions = engine.calculate_sync_actions(14500, true, 10000, true, 0);
    assert_eq!(actions, vec![SyncAction::Seek(10000)]);
    assert!(!engine.is_slowdown_active());
}

#[test]
fn a_player_that_is_to_pause_goes_to_the_room_first() {
    let mut engine = SyncEngine::new();
    let actions = engine.calculate_sync_actions(10000, false, 10000, true, 0);
    assert_eq!(actions, vec![SyncAction::Seek(10000), SyncAction::SetPaused(true)]);
    let mut engine = SyncEngine::new();
    let actions = engine.calculate_sync_actions(5000, false, 10000, true, 200);
    assert_eq!(actions, vec![SyncAction::Seek(10000), SyncAction::SetPaused(true)]);
    let mut engine = SyncEngine::new();
    engine.set_slowdown_active(true);
    let actions = engine.calculate_sync_actions(5000, true, 10000, false, 200);
    assert_eq!(actions, vec![SyncAction::SetPaused(false)]);
    assert!(engine.is_slowdown_active());
}

#[test]
fn slowdown_happens_once_and_ends_near_the_room() {
    let mut engine = SyncEngine::new();
    assert_eq!(
        engine.calculate_sync_actions(8000, false, 10000, false, 0),
        vec![SyncAction::Slowdown]
    );
    assert_eq!(
        engine.calculate_sync_actions(8200, false, 10000, false, 0),
        vec![SyncAction::NoAction]
    );
    assert_eq!(
        engine.calculate_sync_actions(9500, false, 10000, false, 0),
        vec![SyncAction::NoAction]
    );
    assert_eq!(
        engine.calculate_sync_actions(9501, false, 10000, false, 0),
        vec![SyncAction::ResetSpeed]
    );
    assert!(!engine.is_slowdown_active());
    assert_eq!(
        engine.calculate_sync_actions(8000, true, 10000, true, 0),
        vec![SyncAction::NoAction]
    );
}

#[test]
fn in_sync_round_leaves_the_engine_unchanged() {
    let mut engine = SyncEngine::new();
    for position in [0i64, 10, 1000, 123456789] {
        for paused in [false, true] {
            let actions = engine.calculate_sync_actions(position, paused, position, paused, 0);
            assert_eq!(actions, vec![SyncAction::NoAction]);
            assert!(!engine.is_slowdown_active());
        }
    }
}

#[test]
fn reset_slowdown_clears_the_flag() {
    let mut engine = SyncEngine::new();
    engine.set_slowdown_active(true);
    assert!(engine.is_slowdown_active());
    engine.reset_slowdown();
    assert!(!engine.is_slowdown_active());
}

#[test]
fn behind_marker_round_trip() {
    let mut engine = SyncEngine::new();
    assert_eq!(engine.behind_first_detected(), None);
    engine.set_behind_first_detected(Some(42));
    assert_eq!(engine.behind_first_detected(), Some(42));
}
