use syncplay_core::commands::{
    change_room, prepare_chat_message, send_chat_message_inner, set_ready, ChatCommand,
};
use syncplay_core::config::{PlayerKind, UserPreferences};
use syncplay_core::connection::send_ready_state;
use syncplay_core::control::{
    password_for, send_controller_auth, set_user_controller_status, store_control_password,
};
use syncplay_core::messages::{ClientMessage, IgnoringInfo, PlayState};
use syncplay_core::mpc::{handle_event, needs_toggle, now_playing_path, MpcEvent, MpcState};
use syncplay_core::player_loop::{
    playlist_item_available, resolve_media_target, send_playlist_index, check_protocol_timeout,
};
use syncplay_core::playlist::PlaylistItem;
use syncplay_core::playlist_commands::{next_index, previous_index, select_item};
use syncplay_core::properties::PlayerState;
use syncplay_core::protocol::{
    build_local_playstate, send_state_message, send_state_reply, update_ignoring_on_the_fly,
};
use syncplay_core::session::{Effect, IgnoringCounters, Session};
use syncplay_core::state::User;

fn names(list: &[&str]) -> Vec<String> {
    list.iter().map(|s| s.to_string()).collect()
}

fn shown(effects: &[Effect]) -> Vec<String> {
    effects.iter().map(|e| format!("{:?}", e)).collect()
}

fn session() -> Session {
    let mut s = Session::new(UserPreferences::default());
    s.client_state.set_username("me".to_string());
    s.client_state.set_room("room".to_string());
    s.player_kind = Some(PlayerKind::Mpv);
    s.connected = true;
    s.server_features.shared_playlists = true;
    s.server_features.readiness = true;
    s.server_features.chat = true;
    s
}

#[test]
fn chat_lines_that_are_refused() {
    let mut s = session();
    assert_eq!(prepare_chat_message(&s, "   "), Ok(None));
    assert_eq!(prepare_chat_message(&s, "  hi  "), Ok(Some("hi".to_string())));
    s.connected = false;
    assert_eq!(prepare_chat_message(&s, "hi"), Err("Not connected to server".to_string()));
    s.server_features.chat = false;
    assert_eq!(prepare_chat_message(&s, "hi"), Err("Chat is disabled by the server".to_string()));
    s.config.chat_input_enabled = false;
    assert_eq!(prepare_chat_message(&s, "hi"), Err("Chat input is disabled".to_string()));
    assert_eq!(prepare_chat_message(&s, ""), Ok(None));
}

#[test]
fn chat_lines_are_cut_to_what_the_server_takes() {
    let mut s = session();
    s.server_features.max_chat_message_length = Some(3);
    assert_eq!(prepare_chat_message(&s, "hello"), Ok(Some("hel".to_string())));
}

#[test]
fn a_line_of_chat_is_sent() {
    let mut s = session();
    let mut effects = Vec::new();
    assert_eq!(send_chat_message_inner(&mut s, "hi", None, "help", &mut effects), Ok(()));
    assert_eq!(shown(&effects), vec!["Send(Chat(\"hi\"))"]);
    s.connected = false;
    let mut effects = Vec::new();
    assert_eq!(
        send_chat_message_inner(&mut s, "hi", None, "help", &mut effects),
        Err("Not connected to server".to_string())
    );
    assert!(effects.is_empty());
}

#[test]
fn commands_in_the_chat() {
    let mut s = session();
    let mut effects = Vec::new();
    assert_eq!(
        send_chat_message_inner(&mut s, "/help", Some(&ChatCommand::Help), "the help", &mut effects),
        Ok(())
    );
    assert_eq!(shown(&effects), vec!["SystemMessage(\"the help\")"]);
    let mut effects = Vec::new();
    assert_eq!(
        send_chat_message_inner(
            &mut s,
            "/x",
            Some(&ChatCommand::Unknown("no such command".to_string())),
            "",
            &mut effects
        ),
        Err("no such command".to_string())
    );
    assert_eq!(shown(&effects), vec!["ErrorMessage(\"no such command\")"]);
    let mut effects = Vec::new();
    assert_eq!(
        send_chat_message_inner(
            &mut s,
            "/room other",
            Some(&ChatCommand::Room("other".to_string())),
            "",
            &mut effects
        ),
        Ok(())
    );
    assert_eq!(s.client_state.get_room(), "other");
    assert!(shown(&effects).contains(&"Send(SetRoom { name: \"other\" })".to_string()));
    let mut effects = Vec::new();
    assert_eq!(
        send_chat_message_inner(&mut s, "/ready", Some(&ChatCommand::Ready), "", &mut effects),
        Ok(())
    );
    assert!(s.client_state.is_ready());
    let mut effects = Vec::new();
    assert_eq!(
        send_chat_message_inner(
            &mut s,
            "/setready bob",
            Some(&ChatCommand::SetReady("bob".to_string())),
            "",
            &mut effects
        ),
        Err("Readiness override is not supported by the server".to_string())
    );
}

#[test]
fn room_changes() {
    let mut s = session();
    let mut effects = Vec::new();
    assert_eq!(change_room(&mut s, "other", &mut effects), Ok(()));
    assert_eq!(s.client_state.get_room(), "other");
    let e = shown(&effects);
    assert!(e.contains(&"Send(SetRoom { name: \"other\" })".to_string()), "{:?}", e);
    assert!(e.contains(&"SaveRoom { entry: \"other\" }".to_string()), "{:?}", e);
    s.connected = false;
    let mut effects = Vec::new();
    assert_eq!(change_room(&mut s, "x", &mut effects), Err("Not connected to server".to_string()));
    assert_eq!(s.client_state.get_room(), "other");
}

#[test]
fn readiness_is_told() {
    let mut s = session();
    let mut effects = Vec::new();
    assert_eq!(set_ready(&mut s, true, &mut effects), Ok(()));
    assert!(s.client_state.is_ready());
    assert!(shown(&effects).contains(
        &"Send(SetReady { username: \"me\", is_ready: true, manually_initiated: true })".to_string()
    ));
    let mut effects = Vec::new();
    assert_eq!(send_ready_state(&mut s, false, false, &mut effects), Ok(()));
    assert!(!s.client_state.is_ready());
    assert!(shown(&effects).contains(
        &"Send(SetReady { username: \"me\", is_ready: false, manually_initiated: false })"
            .to_string()
    ));
    s.server_features.readiness = false;
    let mut effects = Vec::new();
    assert_eq!(send_ready_state(&mut s, true, false, &mut effects), Ok(()));
    assert!(effects.is_empty());
    assert!(!s.client_state.is_ready());
    s.server_features.readiness = true;
    s.connected = false;
    let mut effects = Vec::new();
    assert_eq!(
        send_ready_state(&mut s, true, false, &mut effects),
        Err("Not connected to server".to_string())
    );
}

#[test]
fn control_passwords() {
    let mut s = session();
    assert_eq!(password_for(&s, "+r:abcdef123456"), None);
    let mut effects = Vec::new();
    store_control_password(&mut s, "+r:abcdef123456", "AB-12", true, &mut effects);
    assert_eq!(password_for(&s, "+r:abcdef123456"), Some("AB-12".to_string()));
    assert!(shown(&effects).iter().any(|x| x.starts_with("SaveRoom")), "{:?}", effects);
    let mut effects = Vec::new();
    store_control_password(&mut s, "+r:abcdef123456", "CD-34", false, &mut effects);
    assert_eq!(password_for(&s, "+r:abcdef123456"), Some("CD-34".to_string()));
    let mut effects = Vec::new();
    assert_eq!(send_controller_auth(&s, "+r:abcdef123456", "CD-34", &mut effects), Ok(()));
    assert_eq!(
        shown(&effects),
        vec!["Send(ControllerAuth { room: \"+r:abcdef123456\", password: \"CD-34\" })"]
    );
    s.connected = false;
    let mut effects = Vec::new();
    assert_eq!(
        send_controller_auth(&s, "+r:abcdef123456", "CD-34", &mut effects),
        Err("Not connected to server".to_string())
    );
}

#[test]
fn operator_status_of_users() {
    let mut s = session();
    s.client_state.add_user(User {
        username: "bob".to_string(),
        room: "room".to_string(),
        file: None,
        file_size: None,
        file_duration: None,
        is_ready: None,
        is_controller: false,
    });
    assert!(set_user_controller_status(&mut s, "bob", Some("room"), true));
    assert!(s.client_state.get_user("bob").unwrap().is_controller);
}

#[test]
fn counters_of_the_server_are_taken() {
    let mut s = session();
    s.ignoring_on_the_fly = IgnoringCounters { server: 0, client: 2 };
    update_ignoring_on_the_fly(&mut s, &IgnoringInfo { server: None, client: Some(1) });
    assert_eq!(s.ignoring_on_the_fly, IgnoringCounters { server: 0, client: 2 });
    update_ignoring_on_the_fly(&mut s, &IgnoringInfo { server: None, client: Some(2) });
    assert_eq!(s.ignoring_on_the_fly, IgnoringCounters { server: 0, client: 0 });
    s.ignoring_on_the_fly = IgnoringCounters { server: 0, client: 2 };
    update_ignoring_on_the_fly(&mut s, &IgnoringInfo { server: Some(7), client: None });
    assert_eq!(s.ignoring_on_the_fly, IgnoringCounters { server: 7, client: 0 });
    update_ignoring_on_the_fly(&mut s, &IgnoringInfo { server: None, client: None });
    assert_eq!(s.ignoring_on_the_fly, IgnoringCounters { server: 7, client: 0 });
}

#[test]
fn state_is_not_sent_without_a_connection() {
    let mut s = session();
    s.connected = false;
    let mut effects = Vec::new();
    let sent = send_state_message(
        &mut s,
        Some(PlayState { position: 0, paused: true, do_seek: None, set_by: None }),
        None,
        true,
        &mut effects,
    );
    assert_eq!(sent, Err("Not connected".to_string()));
    assert!(effects.is_empty());
}

#[test]
fn state_reply_echoes_the_time_stamp() {
    let mut s = session();
    s.last_global_update = Some(0);
    s.local_playback_state.position = Some(5_000);
    s.local_playback_state.paused = Some(false);
    let mut effects = Vec::new();
    send_state_reply(&mut s, Some(123_456), &mut effects);
    match &effects[0] {
        Effect::Send(ClientMessage::State { latency_calculation, playstate, .. }) => {
            assert_eq!(*latency_calculation, Some(123_456));
            let p = playstate.as_ref().unwrap();
            assert_eq!(p.position, 5_000);
            assert!(!p.paused);
        }
        other => panic!("unexpected {:?}", other),
    }
    let p = build_local_playstate(&s).unwrap();
    assert_eq!((p.position, p.paused), (5_000, false));
    s.last_global_update = None;
    assert!(build_local_playstate(&s).is_none());
    let mut unseen = session();
    unseen.last_global_update = Some(0);
    assert!(build_local_playstate(&unseen).is_none());
}

#[test]
fn a_silent_server_ends_the_connection() {
    let mut s = session();
    s.last_global_update = Some(1_000);
    let mut effects = Vec::new();
    assert!(!check_protocol_timeout(&mut s, 13_500, &mut effects));
    assert!(effects.is_empty());
    assert!(check_protocol_timeout(&mut s, 13_501, &mut effects));
    assert!(!effects.is_empty());
    let mut t = session();
    let mut effects = Vec::new();
    assert!(!check_protocol_timeout(&mut t, 1_000_000, &mut effects));
}

#[test]
fn what_is_opened_for_a_name() {
    let s = session();
    let trusted = names(&["example.com"]);
    assert_eq!(
        resolve_media_target(&s, "http://example.com/a.mp4", &trusted, None),
        Ok("http://example.com/a.mp4".to_string())
    );
    assert_eq!(
        resolve_media_target(&s, "http://evil.com/a.mp4", &trusted, Some("/m/a.mp4")),
        Err("URL is not trusted".to_string())
    );
    assert_eq!(
        resolve_media_target(&s, "a.mp4", &trusted, Some("/m/a.mp4")),
        Ok("/m/a.mp4".to_string())
    );
    assert_eq!(
        resolve_media_target(&s, "a.mp4", &trusted, None),
        Err("File not found in media directories: a.mp4".to_string())
    );
    assert!(playlist_item_available(&s, "http://example.com/a.mp4", &trusted, false));
    assert!(!playlist_item_available(&s, "http://evil.com/a.mp4", &trusted, true));
    assert!(playlist_item_available(&s, "a.mp4", &trusted, true));
    assert!(!playlist_item_available(&s, "a.mp4", &trusted, false));
    assert!(!playlist_item_available(&s, "**Hidden filename**", &trusted, true));
}

#[test]
fn selection_by_the_user() {
    let mut s = session();
    assert_eq!(next_index(&s), Err("Playlist is empty".to_string()));
    assert_eq!(previous_index(&s), Err("Playlist is empty".to_string()));
    s.playlist.set_items(names(&["a", "b"]), 0);
    assert_eq!(previous_index(&s), Err("Already at start of playlist".to_string()));
    assert_eq!(next_index(&s), Ok(1));
    let mut effects = Vec::new();
    assert_eq!(select_item(&mut s, 1, 1_000, &mut effects), Ok(()));
    assert_eq!(s.playlist.get_current_index(), Some(1));
    assert_eq!(next_index(&s), Err("Already at end of playlist".to_string()));
    assert_eq!(previous_index(&s), Ok(0));
    s.config.loop_at_end_of_playlist = true;
    assert_eq!(next_index(&s), Ok(0));
    s.connected = false;
    let mut effects = Vec::new();
    assert_eq!(
        send_playlist_index(&mut s, 0, false, 2_000, &mut effects),
        Err("Not connected to server".to_string())
    );
}

#[test]
fn playlist_items() {
    let a = PlaylistItem::new("a.mp4".to_string());
    assert_eq!(a.filename, "a.mp4");
    assert_eq!(a.duration, None);
    let b = PlaylistItem::with_duration("b.mp4".to_string(), 60_000);
    assert_eq!(b.filename, "b.mp4");
    assert_eq!(b.duration, Some(60_000));
}

fn mpc_state() -> MpcState {
    MpcState {
        player: PlayerState::default(),
        file_ready: false,
        switch_pause_calls: false,
        version: None,
    }
}

#[test]
fn mpc_events_update_the_state() {
    let mut s = mpc_state();
    handle_event(&mut s, &MpcEvent::Version("1.6.4".to_string()), None);
    assert_eq!(s.version, Some("1.6.4".to_string()));
    assert!(s.switch_pause_calls);
    handle_event(&mut s, &MpcEvent::PlayState(1), None);
    assert_eq!(s.player.paused, Some(true));
    handle_event(&mut s, &MpcEvent::PlayState(0), None);
    assert_eq!(s.player.paused, Some(false));
    handle_event(&mut s, &MpcEvent::Position(12_500), None);
    assert_eq!(s.player.position, Some(12_500));
    handle_event(&mut s, &MpcEvent::Seek(3_000), None);
    assert_eq!(s.player.position, Some(3_000));
    handle_event(
        &mut s,
        &MpcEvent::NowPlaying("t|a|d|C:\\\\m\\\\a.mp4|60.5".to_string()),
        Some("a.mp4"),
    );
    assert_eq!(s.player.path, Some("C:\\m\\a.mp4".to_string()));
    assert_eq!(s.player.filename, Some("a.mp4".to_string()));
    assert_eq!(s.player.duration, Some(60_500));
    s.file_ready = true;
    handle_event(&mut s, &MpcEvent::Disconnected, None);
    assert!(!s.file_ready);
}

#[test]
fn mpc_now_playing_path() {
    assert_eq!(now_playing_path("t|a|d|C:\\\\m\\\\a.mp4|60"), Some("C:\\m\\a.mp4".to_string()));
    assert_eq!(now_playing_path("t|a|d"), None);
    assert_eq!(now_playing_path(""), None);
}

#[test]
fn mpc_pause_is_toggled_when_it_did_not_take() {
    let mut s = mpc_state();
    assert!(!needs_toggle(&s, true));
    s.player.paused = Some(false);
    assert!(needs_toggle(&s, true));
    assert!(!needs_toggle(&s, false));
}
