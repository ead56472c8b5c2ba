use syncplay_core::config::{PlayerKind, UserPreferences};
use syncplay_core::messages::{
    ClientMessage, FeatureList, HelloMessage, IgnoringInfo, PlayState, PlaylistChange, PlaylistIndexUpdate, SetMessage,
    StateMessage,
};
use syncplay_core::player_loop::{
    advance_playlist_check, handle_end_of_file, load_next_file_in_playlist, Advance,
};
use syncplay_core::protocol::{handle_state_message, send_state_message};
use syncplay_core::reconcile::apply_global_state;
use syncplay_core::connection::{
    begin_connect, establish_connection, finalize_connection_setup, handle_connection_closed,
    handle_hello, reconnect_after_wait, reconnect_attempt, reset_reconnect_state,
    start_reconnect_loop, ReconnectStep,
};
use syncplay_core::session::{Effect, IgnoringCounters, Session};
use syncplay_core::set_message::handle_set_message;

fn names(list: &[&str]) -> Vec<String> {
    list.iter().map(|s| s.to_string()).collect()
}

fn session() -> Session {
    let mut s = Session::new(UserPreferences::default());
    s.client_state.set_username("me".to_string());
    s.client_state.set_room("room".to_string());
    s.client_state.set_global_state(0, false, None);
    s.player_kind = Some(PlayerKind::Mpv);
    s.connected = true;
    s.last_global_update = Some(0);
    s
}

fn play_state(position: i64, paused: bool, set_by: Option<&str>, do_seek: bool) -> PlayState {
    PlayState {
        position,
        paused,
        do_seek: if do_seek { Some(true) } else { None },
        set_by: set_by.map(|s| s.to_string()),
    }
}

fn shown(effects: &[Effect]) -> Vec<String> {
    effects.iter().map(|e| format!("{:?}", e)).collect()
}

fn empty_set() -> SetMessage {
    SetMessage {
        room: None,
        file: None,
        user: None,
        ready: None,
        playlist_index: None,
        playlist_change: None,
        controller_auth: None,
        new_controlled_room: None,
    }
}

#[test]
fn seek_by_another_user_moves_the_player_and_is_told() {
    let mut s = session();
    let mut effects = Vec::new();
    apply_global_state(
        &mut s,
        &play_state(100_000, false, Some("alice"), true),
        200,
        Some((10_000, false)),
        1_000,
        &mut effects,
    );
    let e = shown(&effects);
    assert_eq!(e[0], "SetPosition(100200)");
    assert_eq!(e[1], "SystemMessage(\"alice jumped from 10 to 01:40\")");
    assert_eq!(
        e[2],
        "ShowOsd { text: \"alice jumped from 10 to 01:40\", duration_ms: Some(3000) }"
    );
    assert_eq!(e[3], "PollPlayer");
    assert_eq!(e.len(), 4);
    let g = s.client_state.get_global_state();
    assert_eq!(g.position, 100_200);
    assert!(!g.paused);
    assert_eq!(g.set_by, Some("alice".to_string()));
    assert_eq!(s.last_global_update, Some(1_000));
}

#[test]
fn own_seek_is_told_but_does_not_move_the_player() {
    let mut s = session();
    s.last_seek_from_position = Some(3_000);
    let mut effects = Vec::new();
    apply_global_state(
        &mut s,
        &play_state(100_000, false, Some("me"), true),
        0,
        Some((100_000, false)),
        1_000,
        &mut effects,
    );
    let e = shown(&effects);
    assert_eq!(e[0], "SystemMessage(\"me jumped from 3 to 01:40\")");
    assert!(!e.iter().any(|x| x.starts_with("SetPosition")));
    assert_eq!(s.last_seek_from_position, None);
}

#[test]
fn slowdown_then_reset() {
    let mut s = session();
    s.client_state.set_global_state(10_000, false, None);
    let mut effects = Vec::new();
    apply_global_state(
        &mut s,
        &play_state(10_000, false, None, false),
        0,
        Some((8_000, false)),
        1_000,
        &mut effects,
    );
    let e = shown(&effects);
    assert_eq!(e[0], "SetSpeed(950)");
    assert_eq!(e[1], "SystemMessage(\"Slowing down due to time difference with Unknown\")");
    assert_eq!(*e.last().unwrap(), "PollPlayer");
    assert!(!e.iter().any(|x| x.starts_with("SetPosition")));
    assert!(s.sync_engine.is_slowdown_active());

    let mut effects = Vec::new();
    apply_global_state(
        &mut s,
        &play_state(10_000, false, None, false),
        0,
        Some((10_000, false)),
        2_000,
        &mut effects,
    );
    let e = shown(&effects);
    assert_eq!(e[0], "SetSpeed(1000)");
    assert_eq!(e[1], "SystemMessage(\"Reverting speed back to normal\")");
    assert!(!s.sync_engine.is_slowdown_active());
}

#[test]
fn pause_by_another_user_seeks_and_pauses() {
    let mut s = session();
    s.client_state.set_global_state(10_000, false, None);
    let mut effects = Vec::new();
    apply_global_state(
        &mut s,
        &play_state(10_000, true, Some("bob"), false),
        0,
        Some((10_000, false)),
        1_000,
        &mut effects,
    );
    let e = shown(&effects);
    assert_eq!(e[0], "SetPosition(10000)");
    assert_eq!(e[1], "SetPaused(true)");
    assert_eq!(e[2], "SystemMessage(\"bob paused at 00:10\")");
    assert_eq!(*e.last().unwrap(), "PollPlayer");
    assert!(s.client_state.get_global_state().paused);
}

#[test]
fn unpause_by_another_user_is_told() {
    let mut s = session();
    s.client_state.set_global_state(10_000, true, None);
    let mut effects = Vec::new();
    apply_global_state(
        &mut s,
        &play_state(10_000, false, Some("bob"), false),
        0,
        Some((10_000, true)),
        1_000,
        &mut effects,
    );
    let e = shown(&effects);
    assert_eq!(e[0], "SetPaused(false)");
    assert_eq!(e[1], "SystemMessage(\"bob unpaused\")");
}

#[test]
fn a_round_in_sync_asks_for_nothing() {
    for position in [0i64, 10_000, 3_600_000] {
        for paused in [false, true] {
            let mut s = session();
            s.client_state.set_global_state(position, paused, None);
            let mut effects = Vec::new();
            apply_global_state(
                &mut s,
                &play_state(position, paused, Some("alice"), false),
                0,
                Some((position, paused)),
                1_000,
                &mut effects,
            );
            assert!(effects.is_empty(), "{:?}", effects);
            assert!(!s.sync_engine.is_slowdown_active());
        }
    }
}

#[test]
fn without_a_player_the_state_is_only_noted() {
    let mut s = session();
    s.player_kind = None;
    let mut effects = Vec::new();
    apply_global_state(
        &mut s,
        &play_state(50_000, true, Some("alice"), true),
        0,
        Some((0, false)),
        1_000,
        &mut effects,
    );
    assert!(effects.is_empty());
    assert_eq!(s.client_state.get_global_state().position, 50_000);
}

#[test]
fn rewind_when_far_ahead_of_another_user() {
    let mut s = session();
    s.client_state.set_global_state(10_000, false, None);
    let mut effects = Vec::new();
    apply_global_state(
        &mut s,
        &play_state(10_000, false, Some("alice"), false),
        0,
        Some((15_000, false)),
        1_000,
        &mut effects,
    );
    let e = shown(&effects);
    assert_eq!(e[0], "SetPosition(10000)");
    assert_eq!(e[1], "SystemMessage(\"Rewinded due to time difference with alice\")");
}

#[test]
fn first_state_with_a_file_aligns_the_player() {
    let mut s = session();
    s.last_global_update = None;
    s.client_state.set_file(Some("a.mp4".to_string()));
    s.client_state.set_global_state(0, true, None);
    let mut effects = Vec::new();
    apply_global_state(
        &mut s,
        &play_state(30_000, true, Some("alice"), false),
        0,
        Some((0, true)),
        1_000,
        &mut effects,
    );
    let e = shown(&effects);
    assert_eq!(e[0], "SetPosition(30000)");
    assert_eq!(e[1], "SetPaused(true)");
}

#[test]
fn ignoring_on_the_fly() {
    let mut s = session();
    s.client_state.set_global_state(10_000, false, None);
    let mut effects = Vec::new();
    let sent = send_state_message(
        &mut s,
        Some(play_state(10_000, true, None, false)),
        None,
        true,
        &mut effects,
    );
    assert!(sent.is_ok());
    assert_eq!(s.ignoring_on_the_fly, IgnoringCounters { server: 0, client: 1 });
    match &effects[0] {
        Effect::Send(ClientMessage::State { playstate, ignoring_on_the_fly, .. }) => {
            assert!(playstate.is_some());
            assert_eq!(*ignoring_on_the_fly, Some(IgnoringInfo { server: None, client: Some(1) }));
        }
        other => panic!("unexpected effect {:?}", other),
    }

    let inbound = StateMessage {
        playstate: Some(play_state(50_000, false, Some("alice"), true)),
        ping: None,
        ignoring_on_the_fly: None,
    };
    let mut effects = Vec::new();
    handle_state_message(&mut s, &inbound, Some((10_000, true)), 0, 1_000, &mut effects);
    assert!(effects.is_empty(), "{:?}", effects);
    assert_eq!(s.client_state.get_global_state().position, 10_000);
    assert_eq!(s.ignoring_on_the_fly.client, 1);

    let echo = StateMessage {
        playstate: None,
        ping: None,
        ignoring_on_the_fly: Some(IgnoringInfo { server: None, client: Some(1) }),
    };
    let mut effects = Vec::new();
    handle_state_message(&mut s, &echo, Some((10_000, true)), 0, 1_100, &mut effects);
    assert_eq!(s.ignoring_on_the_fly.client, 0);

    let mut effects = Vec::new();
    handle_state_message(&mut s, &inbound, Some((10_000, true)), 0, 1_200, &mut effects);
    let e = shown(&effects);
    assert!(e.contains(&"SetPosition(50000)".to_string()), "{:?}", e);
    assert_eq!(s.client_state.get_global_state().position, 50_000);
}

#[test]
fn every_inbound_state_is_left_aside_until_the_echo() {
    let mut s = session();
    s.client_state.set_global_state(10_000, false, None);
    let mut effects = Vec::new();
    for _ in 0..3 {
        let _ = send_state_message(
            &mut s,
            Some(play_state(10_000, true, None, false)),
            None,
            true,
            &mut effects,
        );
    }
    assert_eq!(s.ignoring_on_the_fly.client, 3);
    let inbound = StateMessage {
        playstate: Some(play_state(50_000, false, Some("alice"), true)),
        ping: None,
        ignoring_on_the_fly: None,
    };
    for i in 0..5u64 {
        let mut effects = Vec::new();
        handle_state_message(&mut s, &inbound, Some((10_000, true)), 0, 1_000 + i, &mut effects);
        assert!(effects.is_empty());
        assert_eq!(s.client_state.get_global_state().position, 10_000);
    }
    let wrong_echo = StateMessage {
        playstate: Some(play_state(50_000, false, Some("alice"), true)),
        ping: None,
        ignoring_on_the_fly: Some(IgnoringInfo { server: None, client: Some(2) }),
    };
    let mut effects = Vec::new();
    handle_state_message(&mut s, &wrong_echo, Some((10_000, true)), 0, 2_000, &mut effects);
    assert!(effects.is_empty());
    assert_eq!(s.ignoring_on_the_fly.client, 3);
    let echo = StateMessage {
        playstate: Some(play_state(50_000, false, Some("alice"), true)),
        ping: None,
        ignoring_on_the_fly: Some(IgnoringInfo { server: None, client: Some(3) }),
    };
    let mut effects = Vec::new();
    handle_state_message(&mut s, &echo, Some((10_000, true)), 0, 3_000, &mut effects);
    assert_eq!(s.ignoring_on_the_fly.client, 0);
    assert_eq!(s.client_state.get_global_state().position, 50_000);
}

#[test]
fn a_counter_of_the_server_is_echoed_once() {
    let mut s = session();
    let inbound = StateMessage {
        playstate: None,
        ping: None,
        ignoring_on_the_fly: Some(IgnoringInfo { server: Some(4), client: None }),
    };
    let mut effects = Vec::new();
    handle_state_message(&mut s, &inbound, None, 0, 1_000, &mut effects);
    assert_eq!(s.ignoring_on_the_fly, IgnoringCounters { server: 4, client: 0 });
    let mut effects = Vec::new();
    let _ = send_state_message(&mut s, None, None, false, &mut effects);
    match &effects[0] {
        Effect::Send(ClientMessage::State { ignoring_on_the_fly, .. }) => {
            assert_eq!(*ignoring_on_the_fly, Some(IgnoringInfo { server: Some(4), client: None }));
        }
        other => panic!("unexpected effect {:?}", other),
    }
    assert_eq!(s.ignoring_on_the_fly, IgnoringCounters { server: 0, client: 0 });
}

fn playing_first_of_three() -> Session {
    let mut s = session();
    s.server_features.shared_playlists = true;
    s.playlist.set_items(names(&["A", "B", "C"]), 0);
    s.client_state.set_file(Some("A".to_string()));
    s.client_state.set_file_duration(Some(60_000));
    s
}

#[test]
fn playlist_advances_at_end_of_file() {
    let mut s = playing_first_of_three();
    let mut effects = Vec::new();
    handle_end_of_file(&mut s, Some(58_000), true, 10_000, &mut effects);
    let e = shown(&effects);
    assert!(
        e.contains(&"Send(SetPlaylistIndex { user: Some(\"me\"), index: 1 })".to_string()),
        "{:?}",
        e
    );
    assert!(
        e.contains(
            &"LoadMedia { name: \"B\", reset_position: true, suppress_update: false }".to_string()
        ),
        "{:?}",
        e
    );
    assert_eq!(s.playlist.get_current_index(), Some(1));
    assert_eq!(s.last_advance_time, Some(10_000));

    s.client_state.set_file(Some("B".to_string()));
    for now in [10_001u64, 14_000, 18_000] {
        let mut effects = Vec::new();
        handle_end_of_file(&mut s, Some(58_000), true, now, &mut effects);
        assert!(effects.is_empty(), "at {}: {:?}", now, effects);
        assert_eq!(s.playlist.get_current_index(), Some(1));
    }
    let mut effects = Vec::new();
    handle_end_of_file(&mut s, Some(58_000), true, 18_001, &mut effects);
    assert_eq!(s.playlist.get_current_index(), Some(2));
}

#[test]
fn playlist_advances_on_a_pause_near_the_end() {
    let mut s = playing_first_of_three();
    let mut effects = Vec::new();
    let moved = advance_playlist_check(&mut s, 58_000, true, 10_000, &mut effects);
    assert!(moved);
    assert_eq!(s.playlist.get_current_index(), Some(1));
    let e = shown(&effects);
    assert!(e.contains(&"Send(SetPlaylistIndex { user: Some(\"me\"), index: 1 })".to_string()));

    s.client_state.set_file(Some("B".to_string()));
    let mut effects = Vec::new();
    let moved = advance_playlist_check(&mut s, 58_000, true, 15_000, &mut effects);
    assert!(!moved);
    assert!(effects.is_empty());
    assert_eq!(s.playlist.get_current_index(), Some(1));
}

#[test]
fn playlist_stays_at_its_end_without_loop() {
    let mut s = playing_first_of_three();
    s.playlist.set_current_index(2, 0);
    s.client_state.set_file(Some("C".to_string()));
    let mut effects = Vec::new();
    assert_eq!(load_next_file_in_playlist(&mut s, true, 10_000, &mut effects), Advance::Stay);
    assert!(effects.is_empty());
    s.config.loop_at_end_of_playlist = true;
    assert_eq!(load_next_file_in_playlist(&mut s, true, 10_000, &mut effects), Advance::MoveTo(0));
    assert_eq!(s.playlist.get_current_index(), Some(0));
}

#[test]
fn playlist_does_not_advance_to_a_missing_file() {
    let mut s = playing_first_of_three();
    let mut effects = Vec::new();
    assert_eq!(load_next_file_in_playlist(&mut s, false, 10_000, &mut effects), Advance::Stay);
    assert!(effects.is_empty());
    assert_eq!(s.playlist.get_current_index(), Some(0));
}

#[test]
fn single_file_repeats_when_asked_to() {
    let mut s = session();
    s.server_features.shared_playlists = true;
    s.config.loop_single_files = true;
    s.playlist.set_items(names(&["A"]), 0);
    s.client_state.set_file(Some("A".to_string()));
    let mut effects = Vec::new();
    assert_eq!(load_next_file_in_playlist(&mut s, true, 10_000, &mut effects), Advance::Repeat);
    let e = shown(&effects);
    assert_eq!(e, vec!["RewindPlayer", "SetPaused(false)"]);
    assert_eq!(s.last_rewind_time, Some(10_000));
}

fn greeting() -> HelloMessage {
    HelloMessage {
        username: "me".to_string(),
        password: None,
        room: Some("room".to_string()),
        version: "1.2.255".to_string(),
        realversion: "1.7.0".to_string(),
        features: Some(FeatureList {
            feature_list: None,
            shared_playlists: Some(true),
            chat: Some(true),
            readiness: Some(true),
            managed_rooms: Some(true),
            persistent_rooms: None,
            set_others_readiness: None,
            max_chat_message_length: None,
            max_username_length: None,
            max_room_name_length: None,
            max_filename_length: None,
        }),
        motd: None,
    }
}

#[test]
fn playlist_is_restored_after_reconnect() {
    let mut s = session();
    s.server_features.shared_playlists = true;
    s.playlist.update_previous_playlist(&names(&["A", "B"]), "room");
    s.playlist.set_items(names(&["A", "B"]), 0);
    s.playlist.set_current_index(1, 0);
    s.has_reconnect_snapshot = true;
    s.reconnect_state.enabled = true;

    let mut effects = Vec::new();
    handle_connection_closed(&mut s, &mut effects);
    assert!(shown(&effects).contains(&"StartReconnect".to_string()));
    assert!(!s.connected);
    assert!(start_reconnect_loop(&mut s));
    let mut effects = Vec::new();
    assert_eq!(reconnect_attempt(&mut s, &mut effects), ReconnectStep::Wait(100));
    assert!(s.playlist_may_need_restoring);
    assert_eq!(s.last_global_update, None);
    assert!(reconnect_after_wait(&mut s));
    let mut effects = Vec::new();
    establish_connection(&mut s, "me", "room", None, false, None, &mut effects);
    finalize_connection_setup(&mut s, "me", "room", &mut effects);
    reset_reconnect_state(&mut s);
    assert!(s.connected);
    assert!(s.playlist_may_need_restoring);
    assert_eq!(s.reconnect_state.attempts, 0);
    handle_hello(&mut s, &greeting(), 15_000, &mut effects);
    assert_eq!(s.playlist.get_item_filenames(), names(&["A", "B"]));

    let mut set = empty_set();
    set.playlist_change = Some(PlaylistChange { user: None, files: Vec::new() });
    let mut effects = Vec::new();
    handle_set_message(&mut s, &set, 20_000, &mut effects);
    let e = shown(&effects);
    let files = e
        .iter()
        .position(|x| x == "Send(SetPlaylistChange { user: None, files: [\"A\", \"B\"] })")
        .unwrap_or_else(|| panic!("no playlist in {:?}", e));
    let index = e
        .iter()
        .position(|x| x == "Send(SetPlaylistIndex { user: None, index: 1 })")
        .unwrap_or_else(|| panic!("no index in {:?}", e));
    assert!(files < index);
    assert_eq!(s.playlist.get_item_filenames(), names(&["A", "B"]));
    assert_eq!(s.playlist.get_current_index(), Some(1));
    assert!(!s.playlist_may_need_restoring);

    let mut effects = Vec::new();
    handle_set_message(&mut s, &set, 21_000, &mut effects);
    let e = shown(&effects);
    assert!(!e.iter().any(|x| x.starts_with("Send(SetPlaylistChange")), "{:?}", e);
    assert!(s.playlist.is_empty());
}

#[test]
fn a_new_connection_restores_nothing() {
    let mut s = session();
    s.connected = false;
    s.playlist.update_previous_playlist(&names(&["A", "B"]), "room");
    s.playlist.set_items(names(&["A", "B"]), 0);
    s.playlist_may_need_restoring = true;
    let mut effects = Vec::new();
    let joined = begin_connect(&mut s, "example.com:8999", "me", "room", &mut effects);
    assert_eq!(joined, Ok(("me".to_string(), "room".to_string())));
    establish_connection(&mut s, "me", "room", None, false, None, &mut effects);
    finalize_connection_setup(&mut s, "me", "room", &mut effects);
    assert!(!s.playlist_may_need_restoring);
    assert!(shown(&effects).contains(&"EmitConnectionStatus { connected: true }".to_string()));
    let mut more = Vec::new();
    assert_eq!(
        begin_connect(&mut s, "example.com:8999", "me", "room", &mut more),
        Err("Already connected to a server".to_string())
    );
}

#[test]
fn playlist_emptied_by_a_user_is_not_restored() {
    let mut s = session();
    s.server_features.shared_playlists = true;
    s.playlist.update_previous_playlist(&names(&["A", "B"]), "room");
    s.playlist.set_items(names(&["A", "B"]), 0);
    s.playlist_may_need_restoring = true;
    let mut set = empty_set();
    set.playlist_change = Some(PlaylistChange { user: Some("bob".to_string()), files: Vec::new() });
    let mut effects = Vec::new();
    handle_set_message(&mut s, &set, 20_000, &mut effects);
    let e = shown(&effects);
    assert!(!e.iter().any(|x| x.starts_with("Send(SetPlaylistChange")), "{:?}", e);
    assert!(s.playlist.is_empty());
}

#[test]
fn playlist_index_from_the_server_opens_the_item() {
    let mut s = session();
    s.server_features.shared_playlists = true;
    s.playlist.set_items(names(&["A", "B", "C"]), 0);
    let mut set = empty_set();
    set.playlist_index = Some(PlaylistIndexUpdate { user: Some("bob".to_string()), index: Some(2) });
    let mut effects = Vec::new();
    handle_set_message(&mut s, &set, 20_000, &mut effects);
    assert_eq!(s.playlist.get_current_index(), Some(2));
    let e = shown(&effects);
    assert!(e.iter().any(|x| x.starts_with("LoadMedia { name: \"C\"")), "{:?}", e);
}

#[test]
fn playlist_stays_while_the_file_is_far_from_its_end() {
    let mut s = playing_first_of_three();
    let mut effects = Vec::new();
    let moved = advance_playlist_check(&mut s, 30_000, true, 10_000, &mut effects);
    assert!(!moved);
    assert!(effects.is_empty());
    assert_eq!(s.playlist.get_current_index(), Some(0));
    assert_eq!(s.client_state.get_file_duration(), Some(60_000));
    assert_eq!(s.last_advance_time, None);

    let moved = advance_playlist_check(&mut s, 55_000, true, 10_000, &mut effects);
    assert!(!moved);
    let moved = advance_playlist_check(&mut s, 55_001, true, 10_000, &mut effects);
    assert!(moved);
    assert_eq!(s.client_state.get_file_duration(), Some(60_000));
    assert_eq!(s.playlist.get_current_index(), Some(1));
}

#[test]
fn playlist_stays_for_a_short_file_or_one_of_unknown_length() {
    let mut s = playing_first_of_three();
    s.client_state.set_file_duration(Some(9_999));
    let mut effects = Vec::new();
    assert!(!advance_playlist_check(&mut s, 9_000, true, 10_000, &mut effects));
    s.client_state.set_file_duration(None);
    assert!(!advance_playlist_check(&mut s, 9_000, true, 10_000, &mut effects));
    assert_eq!(s.client_state.get_file_duration(), None);
    s.client_state.set_file_duration(Some(10_000));
    assert!(advance_playlist_check(&mut s, 9_000, true, 10_000, &mut effects));
    let mut t = playing_first_of_three();
    t.config.shared_playlist_enabled = false;
    let mut effects = Vec::new();
    assert!(!advance_playlist_check(&mut t, 58_000, true, 10_000, &mut effects));
    assert!(effects.is_empty());
}
