use syncplay_core::config::UserPreferences;
use syncplay_core::connection::{
    autosaved_rooms, handle_connection_closed, read_tls_answer, reconnect_after_wait,
    reconnect_attempt, reconnect_delay, reset_reconnect_state, start_reconnect_loop,
    tls_upgrade_finished, ReconnectStep,
};
use syncplay_core::framing::{frame_of, message_kind, take_frames, MessageKind};
use syncplay_core::session::{Effect, Session};
use syncplay_core::tls::{TlsInfo, TlsVersion};

fn names(list: &[&str]) -> Vec<String> {
    list.iter().map(|s| s.to_string()).collect()
}

fn shown(effects: &[Effect]) -> Vec<String> {
    effects.iter().map(|e| format!("{:?}", e)).collect()
}

#[test]
fn reconnect_delays_double_up_to_five_times() {
    let expected = [100u64, 200, 400, 800, 1_600, 3_200, 3_200, 3_200];
    for (attempt, delay) in expected.iter().enumerate() {
        assert_eq!(reconnect_delay(attempt as u32), *delay);
    }
    assert_eq!(reconnect_delay(u32::MAX), 3_200);
}

#[test]
fn reconnect_attempts_wait_longer_each_time() {
    let mut s = Session::new(UserPreferences::default());
    s.has_reconnect_snapshot = true;
    s.reconnect_state.enabled = true;
    s.reconnect_state.running = true;
    let mut waits = Vec::new();
    let mut firsts = Vec::new();
    loop {
        let mut effects = Vec::new();
        match reconnect_attempt(&mut s, &mut effects) {
            ReconnectStep::Wait(ms) => {
                waits.push(ms);
                firsts.push(shown(&effects));
                assert!(reconnect_after_wait(&mut s));
            }
            ReconnectStep::GiveUp => {
                assert_eq!(
                    shown(&effects),
                    vec!["ErrorMessage(\"Connection with server failed\")"]
                );
                break;
            }
            ReconnectStep::Stop => panic!("stopped"),
        }
        assert!(waits.len() < 1000);
    }
    assert!(waits.len() >= 6);
    assert_eq!(&waits[..6], &[100, 200, 400, 800, 1_600, 3_200]);
    assert!(waits[6..].iter().all(|w| *w == 3_200));
    assert!(firsts[0].contains(
        &"SystemMessage(\"Connection with server lost, attempting to reconnect\")".to_string()
    ));
    assert!(firsts[1].is_empty());
    assert!(!s.reconnect_state.enabled);
    assert!(!s.reconnect_state.running);
    assert_eq!(s.reconnect_state.attempts, 0);
}

#[test]
fn reconnect_stops_without_a_snapshot() {
    let mut s = Session::new(UserPreferences::default());
    s.reconnect_state.enabled = true;
    s.reconnect_state.running = true;
    s.reconnect_state.attempts = 3;
    let mut effects = Vec::new();
    assert_eq!(reconnect_attempt(&mut s, &mut effects), ReconnectStep::Stop);
    assert!(effects.is_empty());
    assert!(!s.reconnect_state.running);
    assert_eq!(s.reconnect_state.attempts, 0);
}

#[test]
fn reconnect_loop_starts_once() {
    let mut s = Session::new(UserPreferences::default());
    s.reconnect_state.enabled = true;
    assert!(!start_reconnect_loop(&mut s));
    s.has_reconnect_snapshot = true;
    assert!(start_reconnect_loop(&mut s));
    assert!(!start_reconnect_loop(&mut s));
    reset_reconnect_state(&mut s);
    assert_eq!(s.reconnect_state.attempts, 0);
    assert!(!s.reconnect_state.running);
}

#[test]
fn closed_connection_asks_to_connect_again() {
    let mut s = Session::new(UserPreferences::default());
    s.connected = true;
    s.reconnect_state.enabled = true;
    let mut effects = Vec::new();
    handle_connection_closed(&mut s, &mut effects);
    let e = shown(&effects);
    assert_eq!(e[0], "EmitConnectionStatus { connected: false }");
    assert_eq!(e[1], "EmitTlsStatus(Unknown)");
    assert_eq!(e[2], "StartReconnect");
    assert!(!s.connected);

    let mut s = Session::new(UserPreferences::default());
    s.connected = true;
    let mut effects = Vec::new();
    handle_connection_closed(&mut s, &mut effects);
    assert_eq!(shown(&effects)[2], "SystemMessage(\"Disconnected from server\")");

    let mut s = Session::new(UserPreferences::default());
    s.connected = true;
    s.manual_disconnect = true;
    let mut effects = Vec::new();
    handle_connection_closed(&mut s, &mut effects);
    assert!(effects.is_empty());
}

#[test]
fn tls_answer() {
    let mut s = Session::new(UserPreferences::default());
    s.connected = true;
    let mut effects = Vec::new();
    tls_upgrade_finished(&mut s, true, Some("TLSv1.3"), &mut effects);
    let e = shown(&effects);
    assert_eq!(e[0], "EmitTlsStatus(Enabled)");
    assert_eq!(e[1], "SystemMessage(\"Secure connection established (TLSv1.3)\")");
    let mut s = Session::new(UserPreferences::default());
    let mut effects = Vec::new();
    tls_upgrade_finished(&mut s, true, None, &mut effects);
    assert_eq!(shown(&effects)[1], "SystemMessage(\"Secure connection established (TLS)\")");
    let mut s = Session::new(UserPreferences::default());
    let mut effects = Vec::new();
    tls_upgrade_finished(&mut s, false, None, &mut effects);
    assert_eq!(shown(&effects)[0], "EmitTlsStatus(Unsupported)");
    let _ = read_tls_answer(Some("true"));
}

#[test]
fn tls_info_names_the_version() {
    assert_eq!(TlsInfo::of_version(Some(TlsVersion::V1_2)).protocol, Some("TLSv1.2".to_string()));
    assert_eq!(TlsInfo::of_version(Some(TlsVersion::V1_3)).protocol, Some("TLSv1.3".to_string()));
    assert_eq!(
        TlsInfo::of_version(Some(TlsVersion::Other("SSLv3".to_string()))).protocol,
        Some("SSLv3".to_string())
    );
    assert_eq!(TlsInfo::of_version(None).protocol, None);
    let info = TlsInfo { protocol: Some("x".to_string()) };
    assert_eq!(info.clone().protocol, Some("x".to_string()));
}

#[test]
fn joined_room_is_kept_in_front() {
    assert_eq!(autosaved_rooms(&names(&["a", "b"]), "c"), names(&["c", "a", "b"]));
    assert_eq!(autosaved_rooms(&names(&["a", "b"]), "b"), names(&["a", "b"]));
    assert_eq!(autosaved_rooms(&Vec::new(), "x"), names(&["x"]));
}

#[test]
fn frames_are_taken_as_they_become_whole() {
    let mut buffer = Vec::new();
    assert!(take_frames(&mut buffer, b"{\"a\"").is_empty());
    assert_eq!(buffer, b"{\"a\"".to_vec());
    let frames = take_frames(&mut buffer, b":1}\r\n{\"b\":2}\n\n\r\n{\"c\"");
    assert_eq!(frames, vec![b"{\"a\":1}".to_vec(), b"{\"b\":2}".to_vec()]);
    assert_eq!(buffer, b"{\"c\"".to_vec());
    let frames = take_frames(&mut buffer, b":3}\n");
    assert_eq!(frames, vec![b"{\"c\":3}".to_vec()]);
    assert!(buffer.is_empty());
    assert!(take_frames(&mut buffer, b"").is_empty());
    let frames = take_frames(&mut buffer, b"x\r\r\n\r");
    assert_eq!(frames, vec![b"x\r".to_vec()]);
    assert_eq!(buffer, b"\r".to_vec());
    let frames = take_frames(&mut buffer, b"\n");
    assert!(frames.is_empty());
    assert!(buffer.is_empty());

    assert_eq!(frame_of(b"hi"), b"hi\r\n".to_vec());
    assert_eq!(frame_of(b""), b"\r\n".to_vec());
    let mut buffer = Vec::new();
    let sent = frame_of("{\"Chat\":\"h\u{e9}\"}".as_bytes());
    let frames = take_frames(&mut buffer, &sent);
    assert_eq!(frames, vec!["{\"Chat\":\"h\u{e9}\"}".as_bytes().to_vec()]);
    assert!(buffer.is_empty());
}

#[test]
fn kinds_of_message_by_key() {
    assert_eq!(message_kind("Hello"), Some(MessageKind::Hello));
    assert_eq!(message_kind("Set"), Some(MessageKind::Update));
    assert_eq!(message_kind("List"), Some(MessageKind::List));
    assert_eq!(message_kind("State"), Some(MessageKind::State));
    assert_eq!(message_kind("Chat"), Some(MessageKind::Chat));
    assert_eq!(message_kind("Error"), Some(MessageKind::Error));
    assert_eq!(message_kind("TLS"), Some(MessageKind::Tls));
    assert_eq!(message_kind("hello"), None);
    assert_eq!(message_kind("Tls"), None);
    assert_eq!(message_kind(""), None);
}
