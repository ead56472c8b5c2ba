use syncplay_core::config::{PlayerKind, UserPreferences};
use syncplay_core::connection::{handle_chat, handle_error, handle_hello, handle_list, send_hello};
use syncplay_core::dispatch::{handle_server_message, PlayerContext, ServerMessage};
use syncplay_core::messages::{
    FeatureList, FileInfo, FileSizeInfo, HelloMessage, ListedUser, PlayState, SetMessage,
    StateMessage, UserUpdate,
};
use syncplay_core::playlist_commands::{
    parse_index, playlist_item_info, read_action, read_playlist_file, shuffled, update_playlist,
    write_playlist_file, PlaylistAction,
};
use syncplay_core::readiness::{
    are_all_other_users_ready, are_all_users_in_room_ready, is_playing_music, ready_user_count,
    recently_advanced, recently_connected, shared_playlists_enabled, users_in_room_count,
};
use syncplay_core::reconcile::{
    current_user_can_control, player_supports_speed, should_ignore_seek_after_rewind,
    try_set_position,
};
use syncplay_core::session::{Effect, Session};
use syncplay_core::set_message::handle_set_message;
use syncplay_core::state::{ClientState, User};
use syncplay_core::users::{is_placeholder_username, listed_users};
use syncplay_core::warnings::{same_duration, tick_warning_timer, update_warning_timer_state};
use syncplay_core::session::WarningTimerState;

fn names(list: &[&str]) -> Vec<String> {
    list.iter().map(|s| s.to_string()).collect()
}

fn shown(effects: &[Effect]) -> Vec<String> {
    effects.iter().map(|e| format!("{:?}", e)).collect()
}

fn user(name: &str, room: &str, file: Option<&str>, ready: Option<bool>) -> User {
    User {
        username: name.to_string(),
        room: room.to_string(),
        file: file.map(|f| f.to_string()),
        file_size: None,
        file_duration: None,
        is_ready: ready,
        is_controller: false,
    }
}

fn session() -> Session {
    let mut s = Session::new(UserPreferences::default());
    s.client_state.set_username("me".to_string());
    s.client_state.set_room("room".to_string());
    s.player_kind = Some(PlayerKind::Mpv);
    s.connected = true;
    s.server_features.shared_playlists = true;
    s.server_features.readiness = true;
    s.server_features.chat = true;
    s
}

fn empty_set() -> SetMessage {
    SetMessage {
        room: None,
        file: None,
        user: None,
        ready: None,
        playlist_index: None,
        playlist_change: None,
        controller_auth: None,
        new_controlled_room: None,
    }
}

#[test]
fn client_state_keeps_users_by_name() {
    let mut c = ClientState::new();
    c.add_user(user("a", "r1", None, None));
    c.add_user(user("b", "r2", None, None));
    c.add_user(user("a", "r2", Some("f"), None));
    let all = c.get_users();
    assert_eq!(all.len(), 2);
    assert_eq!(c.get_user("a").unwrap().room, "r2");
    assert_eq!(c.get_user("a").unwrap().file, Some("f".to_string()));
    assert!(c.get_user("c").is_none());
    let in_r2: Vec<String> = c.get_users_in_room("r2").into_iter().map(|u| u.username).collect();
    assert_eq!(in_r2.len(), 2);
    assert!(in_r2.contains(&"a".to_string()) && in_r2.contains(&"b".to_string()));
    assert!(c.get_users_in_room("r1").is_empty());
    c.remove_user("a");
    assert!(c.get_user("a").is_none());
    c.remove_user("zz");
    assert_eq!(c.get_users().len(), 1);
    c.clear_users();
    assert!(c.get_users().is_empty());
}

#[test]
fn client_state_fields_round_trip() {
    let mut c = ClientState::new();
    c.set_username("me".to_string());
    c.set_room("room".to_string());
    c.set_file(Some("a.mp4".to_string()));
    c.set_file_size(Some(FileSizeInfo::Number(7)));
    c.set_file_duration(Some(60_000));
    c.set_ready(true);
    c.set_server_version("1.7.0".to_string());
    c.set_global_state(5, true, Some("x".to_string()));
    assert_eq!(c.get_username(), "me");
    assert_eq!(c.get_room(), "room");
    assert_eq!(c.get_file(), Some("a.mp4".to_string()));
    assert!(matches!(c.get_file_size(), Some(FileSizeInfo::Number(7))));
    assert_eq!(c.get_file_duration(), Some(60_000));
    assert!(c.is_ready());
    assert_eq!(c.get_server_version(), Some("1.7.0".to_string()));
    let g = c.get_global_state();
    assert_eq!((g.position, g.paused, g.set_by), (5, true, Some("x".to_string())));
}

#[test]
fn ready_with_file() {
    assert_eq!(user("a", "r", None, Some(true)).is_ready_with_file(), None);
    assert_eq!(user("a", "r", Some("f"), Some(true)).is_ready_with_file(), Some(true));
    assert_eq!(user("a", "r", Some("f"), Some(false)).is_ready_with_file(), Some(false));
}

#[test]
fn placeholder_names_are_not_listed() {
    assert!(is_placeholder_username(""));
    assert!(is_placeholder_username("  \t"));
    assert!(!is_placeholder_username(" a "));
    let users = vec![user("a", "r", None, None), user("  ", "r", None, None), user("b", "r", None, None)];
    let listed: Vec<String> = listed_users(&users).into_iter().map(|u| u.username).collect();
    assert_eq!(listed, names(&["a", "b"]));
}

#[test]
fn users_of_the_room_are_counted() {
    let mut s = session();
    s.client_state.set_file(Some("f".to_string()));
    s.client_state.set_ready(true);
    s.client_state.add_user(user("me", "room", Some("f"), Some(true)));
    s.client_state.add_user(user("a", "room", Some("f"), Some(true)));
    s.client_state.add_user(user("b", "room", Some("f"), Some(false)));
    s.client_state.add_user(user("c", "other", Some("f"), Some(false)));
    assert!(!are_all_other_users_ready(&s));
    assert!(!are_all_users_in_room_ready(&s, false));
    let mut t = session();
    t.client_state.set_file(Some("f".to_string()));
    t.client_state.set_ready(true);
    t.client_state.add_user(user("me", "room", Some("f"), Some(true)));
    t.client_state.add_user(user("a", "room", Some("f"), Some(true)));
    t.client_state.add_user(user("c", "other", Some("f"), Some(false)));
    assert!(are_all_other_users_ready(&t));
    assert!(are_all_users_in_room_ready(&t, false));
    assert!(users_in_room_count(&t) >= 1);
    assert!(ready_user_count(&t) >= 1);
}

#[test]
fn sharing_needs_both_sides() {
    let mut s = session();
    assert!(shared_playlists_enabled(&s));
    s.config.shared_playlist_enabled = false;
    assert!(!shared_playlists_enabled(&s));
    s.config.shared_playlist_enabled = true;
    s.server_features.shared_playlists = false;
    assert!(!shared_playlists_enabled(&s));
}

#[test]
fn recent_events() {
    let mut s = session();
    assert!(recently_connected(&s, 0));
    s.last_connect_time = Some(1_000);
    assert!(recently_connected(&s, 2_999));
    assert!(!recently_connected(&s, 3_000));
    assert!(!recently_advanced(&s, 1_000));
    s.last_advance_time = Some(1_000);
    assert!(recently_advanced(&s, 8_999));
    assert!(!recently_advanced(&s, 9_000));
}

#[test]
fn music_is_known_by_the_file() {
    let mut s = session();
    assert!(!is_playing_music(&s));
    s.client_state.set_file(Some("a.flac".to_string()));
    assert!(is_playing_music(&s));
    s.client_state.set_file(Some("a.mp4".to_string()));
    assert!(!is_playing_music(&s));
}

#[test]
fn speed_and_control() {
    assert!(player_supports_speed(PlayerKind::Mpv));
    assert!(player_supports_speed(PlayerKind::Vlc));
    assert!(!player_supports_speed(PlayerKind::MpcHc));
    assert!(!player_supports_speed(PlayerKind::MpcBe));
    let mut s = session();
    assert!(current_user_can_control(&s));
    s.client_state.set_room("+room:abcdef123456".to_string());
    assert!(!current_user_can_control(&s));
    let mut me = user("me", "+room:abcdef123456", None, None);
    me.is_controller = true;
    s.client_state.add_user(me);
    assert!(current_user_can_control(&s));
}

#[test]
fn seek_right_after_a_rewind_is_left_out() {
    let mut s = session();
    assert!(!should_ignore_seek_after_rewind(&s, 60_000, 1_000));
    s.last_rewind_time = Some(1_000);
    assert!(should_ignore_seek_after_rewind(&s, 60_000, 1_500));
    assert!(!should_ignore_seek_after_rewind(&s, 60_000, 2_000));
    assert!(!should_ignore_seek_after_rewind(&s, 5_000, 1_500));
    let mut effects = Vec::new();
    assert!(!try_set_position(&s, 60_000, 1_500, &mut effects));
    assert!(effects.is_empty());
    assert!(try_set_position(&s, 60_000, 2_500, &mut effects));
    assert_eq!(shown(&effects), vec!["SetPosition(60000)"]);
}

#[test]
fn durations_are_the_same_within_a_margin() {
    assert!(same_duration(Some(60_000), Some(60_000), true));
    assert!(same_duration(Some(60_000), Some(70_000), false));
    assert!(!same_duration(Some(60_000), Some(70_000), true));
}

#[test]
fn warning_timer_counts_while_active() {
    let mut t = WarningTimerState { active: false, displayed_for: 0 };
    assert!(!tick_warning_timer(&mut t));
    update_warning_timer_state(&mut t, true);
    assert!(t.active);
    assert_eq!(t.displayed_for, 0);
    update_warning_timer_state(&mut t, false);
    assert!(!t.active);
}

#[test]
fn playlist_file_round_trip() {
    assert_eq!(read_playlist_file("a.mp4\n  b.mkv \n\n\r\nc\n"), names(&["a.mp4", "b.mkv", "c"]));
    assert!(read_playlist_file("").is_empty());
    assert!(read_playlist_file(" \n\t\n").is_empty());
    assert_eq!(write_playlist_file(&names(&["a", "b"])), "a\nb");
    assert_eq!(write_playlist_file(&Vec::new()), "");
    let items = names(&["x y.mp4", "http://e.com/v.mp4"]);
    assert_eq!(read_playlist_file(&write_playlist_file(&items)), items);
}

#[test]
fn index_from_text() {
    assert_eq!(parse_index("0", 3), Some(0));
    assert_eq!(parse_index("2", 3), Some(2));
    assert_eq!(parse_index("+1", 3), Some(1));
    assert_eq!(parse_index("3", 3), None);
    assert_eq!(parse_index("-1", 3), None);
    assert_eq!(parse_index("", 3), None);
    assert_eq!(parse_index("x", 3), None);
    assert_eq!(parse_index("0", 0), None);
    assert_eq!(parse_index("99999999999999999999999999", 3), None);
    assert_eq!(parse_index("0000000000000000000000001", 3), Some(1));
}

#[test]
fn actions_by_name() {
    assert_eq!(read_action("add"), PlaylistAction::Add);
    assert_eq!(read_action("remove"), PlaylistAction::Remove);
    assert_eq!(read_action("clear"), PlaylistAction::Clear);
    assert_eq!(read_action("select"), PlaylistAction::Select);
    assert_eq!(read_action("next"), PlaylistAction::Next);
    assert_eq!(read_action("previous"), PlaylistAction::Previous);
    assert_eq!(read_action("undo"), PlaylistAction::Undo);
    assert_eq!(read_action("shuffle"), PlaylistAction::Shuffle);
    assert_eq!(read_action("shuffle_remaining"), PlaylistAction::ShuffleRemaining);
    assert_eq!(read_action("load"), PlaylistAction::Load);
    assert_eq!(read_action("save"), PlaylistAction::Save);
    assert_eq!(read_action("Add"), PlaylistAction::Unknown);
    assert_eq!(read_action(""), PlaylistAction::Unknown);
}

#[test]
fn shuffle_keeps_the_items() {
    let items: Vec<String> = (0..40).map(|i| format!("f{}", i)).collect();
    let out = shuffled(&items, 0);
    let mut a = items.clone();
    let mut b = out.clone();
    a.sort();
    b.sort();
    assert_eq!(a, b);
    let mut changed = false;
    for _ in 0..20 {
        if shuffled(&items, 0) != items {
            changed = true;
        }
    }
    assert!(changed);
    let out = shuffled(&items, 38);
    assert_eq!(&out[..38], &items[..38]);
    let mut tail = out[38..].to_vec();
    tail.sort();
    assert_eq!(tail, names(&["f38", "f39"]));
    assert_eq!(shuffled(&items, 100), items);
    assert!(shuffled(&Vec::new(), 0).is_empty());
}

#[test]
fn item_info() {
    let i = playlist_item_info("a.mp4".to_string(), Some("/m/a.mp4".to_string()));
    assert_eq!(i.filename, "a.mp4");
    assert_eq!(i.path, Some("/m/a.mp4".to_string()));
    assert!(i.available);
    let i = playlist_item_info("a.mp4".to_string(), None);
    assert_eq!(i.path, None);
    assert!(!i.available);
}

#[test]
fn playlist_requests() {
    let mut s = session();
    let mut effects = Vec::new();
    assert_eq!(update_playlist(&mut s, "add", Some("a.mp4"), None, 1, &mut effects), Ok(None));
    assert_eq!(update_playlist(&mut s, "add", Some("b.mp4"), None, 2, &mut effects), Ok(None));
    assert_eq!(update_playlist(&mut s, "add", Some("c.mp4"), None, 3, &mut effects), Ok(None));
    assert_eq!(s.playlist.get_item_filenames(), names(&["a.mp4", "b.mp4", "c.mp4"]));
    let e = shown(&effects);
    assert!(e.iter().any(|x| x.starts_with("Send(SetPlaylistChange")), "{:?}", e);

    assert_eq!(
        update_playlist(&mut s, "save", Some("/tmp/p.txt"), None, 4, &mut effects),
        Ok(Some("a.mp4\nb.mp4\nc.mp4".to_string()))
    );
    assert_eq!(update_playlist(&mut s, "remove", Some("1"), None, 5, &mut effects), Ok(None));
    assert_eq!(s.playlist.get_item_filenames(), names(&["a.mp4", "c.mp4"]));
    assert_eq!(update_playlist(&mut s, "select", Some("1"), None, 6, &mut effects), Ok(None));
    assert_eq!(s.playlist.get_current_index(), Some(1));
    assert_eq!(update_playlist(&mut s, "shuffle", None, None, 7, &mut effects), Ok(None));
    let mut now = s.playlist.get_item_filenames();
    now.sort();
    assert_eq!(now, names(&["a.mp4", "c.mp4"]));
    assert_eq!(update_playlist(&mut s, "clear", None, None, 8, &mut effects), Ok(None));
    assert!(s.playlist.is_empty());
    assert_eq!(
        update_playlist(&mut s, "load", Some("/tmp/p.txt"), Some("x\ny\n"), 9, &mut effects),
        Ok(None)
    );
    assert_eq!(s.playlist.get_item_filenames(), names(&["x", "y"]));
}

#[test]
fn playlist_requests_that_are_refused() {
    let mut s = session();
    let mut effects = Vec::new();
    let mut ask = |s: &mut Session, action: &str, arg: Option<&str>, contents: Option<&str>| {
        update_playlist(s, action, arg, contents, 1, &mut effects)
    };
    assert_eq!(ask(&mut s, "add", None, None), Err("Filename required for add action".to_string()));
    assert_eq!(ask(&mut s, "remove", None, None), Err("Index required for remove action".to_string()));
    assert_eq!(ask(&mut s, "remove", Some("0"), None), Err("Invalid index for remove action".to_string()));
    assert_eq!(ask(&mut s, "select", None, None), Err("Index required for select action".to_string()));
    assert_eq!(ask(&mut s, "select", Some("x"), None), Err("Invalid index for select action".to_string()));
    assert_eq!(ask(&mut s, "load", None, None), Err("Path required for load action".to_string()));
    assert_eq!(ask(&mut s, "load", Some("p"), None), Err("Failed to read playlist file".to_string()));
    assert_eq!(ask(&mut s, "load", Some("p"), Some(" \n")), Err("Playlist file is empty".to_string()));
    assert_eq!(ask(&mut s, "save", None, None), Err("Path required for save action".to_string()));
    assert_eq!(ask(&mut s, "dance", None, None), Err("Unknown playlist action: dance".to_string()));
    assert!(ask(&mut s, "next", None, None).is_err());
    assert!(ask(&mut s, "previous", None, None).is_err());
    assert_eq!(ask(&mut s, "undo", None, None), Ok(None));
    s.config.shared_playlist_enabled = false;
    assert_eq!(ask(&mut s, "add", Some("a"), None), Err("Shared playlists are disabled".to_string()));
    assert_eq!(ask(&mut s, "dance", None, None), Err("Shared playlists are disabled".to_string()));
    assert!(s.playlist.is_empty());
}

#[test]
fn errors_and_chat_are_shown() {
    let mut s = session();
    let mut effects = Vec::new();
    handle_error(&mut s, "boom", &mut effects);
    assert!(shown(&effects).iter().any(|x| x.contains("boom")));
    let mut effects = Vec::new();
    handle_chat(&s, Some("bob"), "hi", &mut effects);
    assert!(shown(&effects).iter().any(|x| x.starts_with("ChatLine")), "{:?}", effects);
}

fn hello() -> HelloMessage {
    HelloMessage {
        username: "me".to_string(),
        password: None,
        room: Some("room".to_string()),
        version: "1.2.255".to_string(),
        realversion: "1.7.0".to_string(),
        features: Some(FeatureList {
            feature_list: None,
            shared_playlists: Some(true),
            chat: Some(true),
            readiness: Some(true),
            managed_rooms: Some(true),
            persistent_rooms: None,
            set_others_readiness: None,
            max_chat_message_length: Some(150),
            max_username_length: Some(16),
            max_room_name_length: Some(35),
            max_filename_length: Some(250),
        }),
        motd: Some("welcome".to_string()),
    }
}

#[test]
fn hello_is_sent_once() {
    let mut s = session();
    s.last_hello = Some(hello());
    let mut effects = Vec::new();
    send_hello(&mut s, &mut effects);
    assert!(s.hello_sent);
    assert!(shown(&effects).iter().any(|x| x.starts_with("Send(Hello(")), "{:?}", effects);
    let mut effects = Vec::new();
    send_hello(&mut s, &mut effects);
    assert!(!shown(&effects).iter().any(|x| x.starts_with("Send(Hello(")), "{:?}", effects);
}

#[test]
fn server_greeting_is_taken() {
    let mut s = session();
    let mut effects = Vec::new();
    handle_hello(&mut s, &hello(), 5_000, &mut effects);
    assert_eq!(s.client_state.get_username(), "me");
    assert_eq!(s.client_state.get_room(), "room");
    assert_eq!(s.last_connect_time, Some(5_000));
    assert!(s.server_features.shared_playlists);
    assert_eq!(s.server_features.max_chat_message_length, Some(150));
    let e = shown(&effects);
    assert!(e.contains(&"MarkAuthenticated".to_string()), "{:?}", e);
    assert!(e.contains(&"Send(RequestList)".to_string()), "{:?}", e);
}

#[test]
fn list_replaces_the_users() {
    let mut s = session();
    s.client_state.add_user(user("old", "room", None, None));
    let list = vec![
        ListedUser {
            room: "room".to_string(),
            username: "a".to_string(),
            file: Some(FileInfo {
                name: Some("f.mp4".to_string()),
                size: Some(FileSizeInfo::Number(5)),
                duration: Some(60_000),
            }),
            is_ready: Some(true),
            controller: Some(false),
        },
        ListedUser {
            room: "other".to_string(),
            username: "b".to_string(),
            file: None,
            is_ready: None,
            controller: None,
        },
    ];
    let mut effects = Vec::new();
    handle_list(&mut s, &list, 1_000, &mut effects);
    assert!(s.client_state.get_user("old").is_none());
    let a = s.client_state.get_user("a").unwrap();
    assert_eq!(a.file, Some("f.mp4".to_string()));
    assert_eq!(a.file_duration, Some(60_000));
    assert_eq!(a.is_ready, Some(true));
    assert_eq!(s.client_state.get_user("b").unwrap().room, "other");
    assert!(shown(&effects).contains(&"EmitUserList".to_string()));
}

#[test]
fn user_updates_join_and_leave() {
    let mut s = session();
    let mut set = empty_set();
    set.user = Some(vec![UserUpdate {
        username: "bob".to_string(),
        room: Some("room".to_string()),
        file: None,
        left: None,
        is_ready: None,
        controller: None,
    }]);
    let mut effects = Vec::new();
    handle_set_message(&mut s, &set, 1_000, &mut effects);
    assert_eq!(s.client_state.get_user("bob").unwrap().room, "room");
    let e = shown(&effects);
    assert!(e.iter().any(|x| x.starts_with("SystemMessage(\"bob")), "{:?}", e);

    let mut set = empty_set();
    set.user = Some(vec![UserUpdate {
        username: "bob".to_string(),
        room: Some("room".to_string()),
        file: None,
        left: Some(true),
        is_ready: None,
        controller: None,
    }]);
    let mut effects = Vec::new();
    handle_set_message(&mut s, &set, 2_000, &mut effects);
    assert!(s.client_state.get_user("bob").is_none());
    let e = shown(&effects);
    assert!(e.iter().any(|x| x.starts_with("SystemMessage(\"bob") && x.contains("left")), "{:?}", e);
}

#[test]
fn messages_of_the_server_are_dispatched() {
    let mut s = session();
    s.client_state.set_global_state(0, false, None);
    s.last_global_update = Some(0);
    let context = PlayerContext {
        local: Some((10_000, false)),
        placeholder_path: None,
        name_of_path: None,
        size_on_disk: None,
    };
    let message = ServerMessage::State(StateMessage {
        playstate: Some(PlayState {
            position: 100_000,
            paused: false,
            do_seek: Some(true),
            set_by: Some("alice".to_string()),
        }),
        ping: None,
        ignoring_on_the_fly: None,
    });
    let mut effects = Vec::new();
    let reply = handle_server_message(&mut s, &message, &context, 0, 1_000, &mut effects);
    assert_eq!(reply, Some(None));
    assert!(shown(&effects).contains(&"SetPosition(100000)".to_string()));

    let mut effects = Vec::new();
    let reply = handle_server_message(
        &mut s,
        &ServerMessage::Error("bad".to_string()),
        &context,
        0,
        1_000,
        &mut effects,
    );
    assert_eq!(reply, None);
    assert!(shown(&effects).iter().any(|x| x.contains("bad")));

    let mut effects = Vec::new();
    let reply = handle_server_message(
        &mut s,
        &ServerMessage::Chat { username: Some("bob".to_string()), message: "hi".to_string() },
        &context,
        0,
        1_000,
        &mut effects,
    );
    assert_eq!(reply, None);
    assert!(!effects.is_empty());
}
