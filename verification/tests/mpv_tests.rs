use syncplay_core::events::{EndFileReason, MpvPlayerEvent};
use syncplay_core::mpv::{
    chat_message_text, extract_tag, flush_queue, handle_syncplayintf_line, is_url,
    parse_pause_position, queue_key, sanitize_mpv_text, send_with_throttle,
    update_from_term_playing_message, update_pause_and_position, LineEvent, MpvCommand, MpvQueue,
    QueueKey,
};
use syncplay_core::mpv_ipc::{
    apply_length, apply_refreshed, handle_event, refreshed_properties, response_failed, MpvEvent,
    PendingRequests,
};
use syncplay_core::properties::{PlayerState, PropertyId, PropertyValue};

fn cmd(words: &[&str]) -> MpvCommand {
    MpvCommand { command: words.iter().map(|w| w.to_string()).collect(), request_id: None }
}

fn words(list: &[MpvCommand]) -> Vec<Vec<String>> {
    list.iter().map(|c| c.command.clone()).collect()
}

fn w(list: &[&[&str]]) -> Vec<Vec<String>> {
    list.iter().map(|c| c.iter().map(|x| x.to_string()).collect()).collect()
}

#[test]
fn queue_key_of_commands() {
    assert_eq!(queue_key(&cmd(&["set_property", "time-pos", "5"])), Some(QueueKey::SetTimePos));
    assert_eq!(queue_key(&cmd(&["set_property", "pause", "yes"])), None);
    assert_eq!(queue_key(&cmd(&["set_property"])), None);
    assert_eq!(queue_key(&cmd(&["loadfile", "a.mp4"])), Some(QueueKey::LoadFile));
    assert_eq!(queue_key(&cmd(&["loadfile"])), Some(QueueKey::LoadFile));
    assert_eq!(queue_key(&cmd(&["cycle", "pause"])), Some(QueueKey::CyclePause));
    assert_eq!(queue_key(&cmd(&["cycle", "mute"])), None);
    assert_eq!(queue_key(&cmd(&["show-text", "x"])), None);
    assert_eq!(queue_key(&cmd(&[])), None);
}

#[test]
fn open_queue_hands_commands_on() {
    let mut q = MpvQueue::new();
    assert!(q.ready);
    let out = q.handle_command_queue(cmd(&["loadfile", "a.mp4"]));
    assert_eq!(out.unwrap().command, vec!["loadfile", "a.mp4"]);
    assert!(q.pending.is_empty());
}

#[test]
fn closed_queue_keeps_the_newest_of_a_kind() {
    let mut q = MpvQueue::new();
    assert!(q.set_ready(false, 1_000).is_empty());
    assert!(q.handle_command_queue(cmd(&["set_property", "time-pos", "1"])).is_none());
    assert!(q.handle_command_queue(cmd(&["show-text", "x"])).is_none());
    assert!(q.handle_command_queue(cmd(&["set_property", "time-pos", "2"])).is_none());
    assert!(q.handle_command_queue(cmd(&["loadfile", "a"])).is_none());
    assert!(q.handle_command_queue(cmd(&["loadfile", "b"])).is_none());
    assert_eq!(
        words(&q.pending),
        w(&[&["show-text", "x"], &["set_property", "time-pos", "2"], &["loadfile", "b"]])
    );
    let out = q.set_ready(true, 1_500);
    assert_eq!(
        words(&out),
        w(&[&["loadfile", "b"], &["set_property", "time-pos", "2"], &["show-text", "x"]])
    );
    assert!(q.pending.is_empty());
    assert!(q.ready);
}

#[test]
fn second_pause_toggle_cancels_the_first() {
    let mut q = MpvQueue::new();
    q.set_ready(false, 0);
    assert!(q.handle_command_queue(cmd(&["show-text", "x"])).is_none());
    assert!(q.handle_command_queue(cmd(&["cycle", "pause"])).is_none());
    assert_eq!(words(&q.pending), w(&[&["show-text", "x"], &["cycle", "pause"]]));
    assert!(q.handle_command_queue(cmd(&["cycle", "pause"])).is_none());
    assert_eq!(words(&q.pending), w(&[&["show-text", "x"]]));
    assert!(q.handle_command_queue(cmd(&["cycle", "pause"])).is_none());
    assert_eq!(words(&q.pending), w(&[&["show-text", "x"], &["cycle", "pause"]]));
}

#[test]
fn pause_toggle_with_open_queue_goes_out() {
    let mut q = MpvQueue::new();
    assert!(q.handle_command_queue(cmd(&["cycle", "pause"])).is_some());
    assert!(q.handle_command_queue(cmd(&["cycle", "pause"])).is_some());
}

#[test]
fn closed_queue_opens_after_three_seconds() {
    let mut q = MpvQueue::new();
    q.set_ready(false, 1_000);
    q.handle_command_queue(cmd(&["loadfile", "a"]));
    assert!(q.tick(3_999).is_empty());
    assert!(!q.ready);
    let out = q.tick(4_000);
    assert_eq!(words(&out), w(&[&["loadfile", "a"]]));
    assert!(q.ready);
    assert!(q.tick(9_000).is_empty());
}

#[test]
fn flush_sends_the_last_first() {
    let mut pending = vec![cmd(&["a"]), cmd(&["b"]), cmd(&["c"])];
    let out = flush_queue(&mut pending);
    assert_eq!(words(&out), w(&[&["c"], &["b"], &["a"]]));
    assert!(pending.is_empty());
}

#[test]
fn throttle_waits_out_fifty_milliseconds() {
    assert_eq!(send_with_throttle(None, 1_000), 0);
    assert_eq!(send_with_throttle(Some(1_000), 1_000), 50);
    assert_eq!(send_with_throttle(Some(1_000), 1_020), 30);
    assert_eq!(send_with_throttle(Some(1_000), 1_050), 0);
    assert_eq!(send_with_throttle(Some(1_000), 5_000), 0);
    assert_eq!(send_with_throttle(Some(1_000), 900), 50);
}

#[test]
fn url_by_prefix() {
    assert!(is_url("http://a/b"));
    assert!(is_url("https://a/b"));
    assert!(!is_url("ftp://a/b"));
    assert!(!is_url("/home/http://"));
    assert!(!is_url(""));
}

#[test]
fn extract_tag_reads_between_the_marks() {
    assert_eq!(extract_tag("x<chat>hello</chat>y", "chat"), Some("hello".to_string()));
    assert_eq!(extract_tag("<chat></chat>", "chat"), Some(String::new()));
    assert_eq!(extract_tag("<chat>hello", "chat"), None);
    assert_eq!(extract_tag("hello</chat>", "chat"), None);
    assert_eq!(extract_tag("</chat><chat>", "chat"), None);
}

#[test]
fn sanitize_replaces_what_the_player_cannot_take() {
    assert_eq!(sanitize_mpv_text("a\"b"), "a'b");
    assert_eq!(sanitize_mpv_text("a\rb"), "ab");
    assert_eq!(sanitize_mpv_text("a\\b"), "a\u{ff3c}b");
    assert_eq!(sanitize_mpv_text("a\nb"), "a\u{ff3c}nb");
    assert_eq!(sanitize_mpv_text(""), "");
}

#[test]
fn chat_message_text_names_the_sender() {
    assert_eq!(chat_message_text(Some("bob"), "hi \"you\""), "<bob> hi 'you'");
    assert_eq!(chat_message_text(None, "hi"), "hi");
}

#[test]
fn parse_pause_position_reads_both() {
    assert_eq!(parse_pause_position("<paused=true, pos=12.5>"), (Some(true), Some(12_500)));
    assert_eq!(parse_pause_position("<paused=false, pos=0>"), (Some(false), Some(0)));
    assert_eq!(parse_pause_position("<paused=nil, pos=nil>"), (None, None));
    assert_eq!(parse_pause_position("<paused=maybe, pos=3>"), (None, Some(3_000)));
    assert_eq!(parse_pause_position(""), (None, None));
}

#[test]
fn lines_of_the_player() {
    assert!(matches!(handle_syncplayintf_line("   "), LineEvent::Ignore));
    assert!(matches!(handle_syncplayintf_line("[cplayer] "), LineEvent::Ignore));
    assert!(matches!(
        handle_syncplayintf_line("Failed to get value of property x"),
        LineEvent::RefreshState
    ));
    assert!(matches!(handle_syncplayintf_line("pos=(unavailable)"), LineEvent::RefreshState));
    assert!(matches!(handle_syncplayintf_line("[term-msg] <eof>"), LineEvent::EndOfFile));
    assert!(matches!(
        handle_syncplayintf_line("<get_syncplayintf_options>"),
        LineEvent::SendOptions
    ));
    assert!(matches!(handle_syncplayintf_line("<SyncplayUpdateFile>"), LineEvent::FileLoading));
    assert!(matches!(handle_syncplayintf_line("Playing: a.mp4"), LineEvent::FileLoading));
    assert!(matches!(handle_syncplayintf_line("</SyncplayUpdateFile>"), LineEvent::FileLoaded));
    assert!(matches!(handle_syncplayintf_line("some error here"), LineEvent::OpenQueue));
    assert!(matches!(handle_syncplayintf_line("nothing of note"), LineEvent::Ignore));
    match handle_syncplayintf_line("[cplayer] <chat>a\u{ff3c}b</chat>") {
        LineEvent::Chat(m) => assert_eq!(m, "a\\b"),
        other => panic!("unexpected {:?}", other),
    }
    match handle_syncplayintf_line("ANS_filename=a.mp4") {
        LineEvent::TermPlaying { key, value } => {
            assert_eq!(key, "filename");
            assert_eq!(value, "a.mp4");
        }
        other => panic!("unexpected {:?}", other),
    }
    match handle_syncplayintf_line("<paused=true, pos=1.25>") {
        LineEvent::PauseAndPosition { paused, position } => {
            assert_eq!(paused, Some(true));
            assert_eq!(position, Some(1_250));
        }
        other => panic!("unexpected {:?}", other),
    }
}

#[test]
fn term_playing_message_updates_the_state() {
    let mut ps = PlayerState::default();
    update_from_term_playing_message(&mut ps, "filename", "a.mp4");
    update_from_term_playing_message(&mut ps, "length", "60.5");
    update_from_term_playing_message(&mut ps, "path", "/m/a.mp4");
    update_from_term_playing_message(&mut ps, "other", "x");
    assert_eq!(ps.filename, Some("a.mp4".to_string()));
    assert_eq!(ps.duration, Some(60_500));
    assert_eq!(ps.path, Some("/m/a.mp4".to_string()));
    update_from_term_playing_message(&mut ps, "duration", "junk");
    assert_eq!(ps.duration, None);
}

#[test]
fn pause_and_position_update_what_is_given() {
    let mut ps = PlayerState::default();
    assert!(!update_pause_and_position(&mut ps, Some(true), None));
    assert_eq!(ps.paused, Some(true));
    assert_eq!(ps.position, None);
    assert!(update_pause_and_position(&mut ps, None, Some(5_000)));
    assert_eq!(ps.paused, Some(true));
    assert_eq!(ps.position, Some(5_000));
}

#[test]
fn property_ids_round_trip() {
    for p in refreshed_properties() {
        assert_eq!(PropertyId::from_u64(p.as_u64()), Some(p));
    }
    assert_eq!(PropertyId::from_u64(0), None);
    assert_eq!(PropertyId::from_u64(7), None);
    assert_eq!(PropertyId::TimePos.as_u64(), 1);
    assert_eq!(PropertyId::Speed.as_u64(), 6);
    assert_eq!(PropertyId::TimePos.property_name(), "time-pos");
    assert_eq!(PropertyId::Pause.property_name(), "pause");
    assert_eq!(PropertyId::Filename.property_name(), "filename");
    assert_eq!(PropertyId::Duration.property_name(), "duration");
    assert_eq!(PropertyId::Path.property_name(), "path");
    assert_eq!(PropertyId::Speed.property_name(), "speed");
    assert_eq!(
        refreshed_properties(),
        vec![
            PropertyId::TimePos,
            PropertyId::Pause,
            PropertyId::Filename,
            PropertyId::Duration,
            PropertyId::Path,
            PropertyId::Speed
        ]
    );
}

#[test]
fn update_property_takes_values_of_the_right_kind() {
    let mut ps = PlayerState::default();
    ps.update_property(PropertyId::TimePos, &PropertyValue::Number(1_500));
    ps.update_property(PropertyId::Pause, &PropertyValue::Bool(true));
    ps.update_property(PropertyId::Filename, &PropertyValue::Text("a".to_string()));
    ps.update_property(PropertyId::Speed, &PropertyValue::Number(950));
    assert_eq!(ps.position, Some(1_500));
    assert_eq!(ps.paused, Some(true));
    assert_eq!(ps.filename, Some("a".to_string()));
    assert_eq!(ps.speed, Some(950));
    ps.update_property(PropertyId::TimePos, &PropertyValue::Text("x".to_string()));
    ps.update_property(PropertyId::Pause, &PropertyValue::Null);
    ps.update_property(PropertyId::Filename, &PropertyValue::Other);
    assert_eq!(ps.position, None);
    assert_eq!(ps.paused, None);
    assert_eq!(ps.filename, None);
}

#[test]
fn events_by_name() {
    assert_eq!(MpvPlayerEvent::from_event_name("file-loaded", None), MpvPlayerEvent::FileLoaded);
    assert_eq!(
        MpvPlayerEvent::from_event_name("playback-restart", None),
        MpvPlayerEvent::PlaybackRestart
    );
    assert_eq!(MpvPlayerEvent::from_event_name("seek", None), MpvPlayerEvent::SeekCompleted);
    assert_eq!(
        MpvPlayerEvent::from_event_name("property-change", None),
        MpvPlayerEvent::PropertyChange
    );
    assert_eq!(
        MpvPlayerEvent::from_event_name("end-file", Some("eof")),
        MpvPlayerEvent::EndFile { reason: EndFileReason::Eof }
    );
    assert_eq!(
        MpvPlayerEvent::from_event_name("end-file", None),
        MpvPlayerEvent::EndFile { reason: EndFileReason::Unknown("none".to_string()) }
    );
    assert_eq!(
        MpvPlayerEvent::from_event_name("idle", None),
        MpvPlayerEvent::Unknown("idle".to_string())
    );
    assert_eq!(EndFileReason::from_str("stop"), EndFileReason::Stop);
    assert_eq!(EndFileReason::from_str("quit"), EndFileReason::Quit);
    assert_eq!(EndFileReason::from_str("error"), EndFileReason::Error);
    assert_eq!(EndFileReason::from_str("redirect"), EndFileReason::Redirect);
    assert_eq!(EndFileReason::from_str("x"), EndFileReason::Unknown("x".to_string()));
}

fn event(name: &str) -> MpvEvent {
    MpvEvent { event: name.to_string(), id: None, data: None, text: None, reason: None }
}

#[test]
fn property_change_updates_the_state() {
    let mut ps = PlayerState::default();
    let mut e = event("property-change");
    e.id = Some(1);
    e.data = Some(PropertyValue::Number(2_000));
    let out = handle_event(&mut ps, &e);
    assert!(out.position_seen);
    assert!(out.event.is_none());
    assert_eq!(ps.position, Some(2_000));
    let mut e = event("property-change");
    e.id = Some(1);
    let out = handle_event(&mut ps, &e);
    assert!(!out.position_seen);
    assert_eq!(ps.position, None);
    let mut e = event("property-change");
    e.id = Some(9);
    e.data = Some(PropertyValue::Number(2_000));
    let out = handle_event(&mut ps, &e);
    assert!(!out.position_seen && out.event.is_none());
    assert_eq!(ps.position, None);
}

#[test]
fn other_events_are_handed_on() {
    let mut ps = PlayerState::default();
    let mut e = event("log-message");
    e.text = Some("line".to_string());
    assert_eq!(
        handle_event(&mut ps, &e).event,
        Some(MpvPlayerEvent::LogMessage("line".to_string()))
    );
    assert_eq!(handle_event(&mut ps, &event("log-message")).event, None);
    let mut e = event("end-file");
    e.reason = Some("eof".to_string());
    assert_eq!(
        handle_event(&mut ps, &e).event,
        Some(MpvPlayerEvent::EndFile { reason: EndFileReason::Eof })
    );
}

#[test]
fn response_errors() {
    assert!(!response_failed(""));
    assert!(!response_failed("success"));
    assert!(response_failed("property unavailable"));
}

#[test]
fn request_numbers_are_given_once_and_settled_once() {
    let mut p: PendingRequests<&str> = PendingRequests::new();
    let a = p.register("a").unwrap();
    let b = p.register("b").unwrap();
    let c = p.register("c").unwrap();
    assert_eq!((a, b, c), (1, 2, 3));
    assert_eq!(p.waiting_count(), 3);
    assert_eq!(p.settle(Some(b)), Some("b"));
    assert_eq!(p.settle(Some(b)), None);
    assert_eq!(p.settle(Some(99)), None);
    assert_eq!(p.settle(None), None);
    assert_eq!(p.waiting_count(), 2);
    assert_eq!(p.settle(Some(a)), Some("a"));
    assert_eq!(p.settle(Some(c)), Some("c"));
    assert_eq!(p.waiting_count(), 0);
    assert_eq!(p.register("d"), Some(4));
}

#[test]
fn refresh_notes_a_missing_duration() {
    let mut ps = PlayerState::default();
    let n = apply_refreshed(&mut ps, PropertyId::Duration, Some(&PropertyValue::Null));
    assert!(n.duration_missing && !n.position_seen);
    assert_eq!(ps.duration, None);
    let n = apply_refreshed(&mut ps, PropertyId::Duration, None);
    assert!(n.duration_missing);
    let n = apply_refreshed(&mut ps, PropertyId::Duration, Some(&PropertyValue::Number(60_000)));
    assert!(!n.duration_missing);
    assert_eq!(ps.duration, Some(60_000));
    let n = apply_refreshed(&mut ps, PropertyId::TimePos, Some(&PropertyValue::Number(5)));
    assert!(n.position_seen && !n.duration_missing);
    let n = apply_refreshed(&mut ps, PropertyId::TimePos, Some(&PropertyValue::Null));
    assert!(!n.position_seen);
    let n = apply_refreshed(&mut ps, PropertyId::Pause, None);
    assert!(!n.position_seen && !n.duration_missing);
}

#[test]
fn length_stands_in_for_the_duration() {
    let mut ps = PlayerState::default();
    apply_length(&mut ps, Some(&PropertyValue::Number(42_000)));
    assert_eq!(ps.duration, Some(42_000));
    apply_length(&mut ps, Some(&PropertyValue::Null));
    assert_eq!(ps.duration, Some(0));
    ps.duration = Some(7);
    apply_length(&mut ps, None);
    assert_eq!(ps.duration, Some(0));
}
