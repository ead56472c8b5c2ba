use syncplay_core::mpv::{queue_key, QueueKey};
use syncplay_core::mpv_commands::{
    get_length, get_property, load_file, move_osd, observe_property, quit, request_log_messages,
    send_options, set_paused, set_position, set_speed, show_chat_message, show_osd,
};
use syncplay_core::properties::PropertyId;
use syncplay_core::vlc::{
    load_file_line, set_paused_line, set_position_line, set_speed_line, show_osd_line,
};

#[test]
fn commands_for_mpv() {
    assert_eq!(set_position(12_500).command, vec!["set_property", "time-pos", "12.500"]);
    assert_eq!(set_position(0).command, vec!["set_property", "time-pos", "0.000"]);
    assert_eq!(set_position(12_500).request_id, None);
    assert_eq!(set_paused(true).command, vec!["set_property", "pause", "yes"]);
    assert_eq!(set_paused(false).command, vec!["set_property", "pause", "no"]);
    assert_eq!(set_speed(950).command, vec!["set_property", "speed", "0.950"]);
    assert_eq!(load_file("/m/a b.mp4").command, vec!["loadfile", "/m/a b.mp4", "replace"]);
    assert_eq!(get_property(PropertyId::Duration).command, vec!["get_property", "duration"]);
    assert_eq!(
        observe_property(PropertyId::Path).command,
        vec!["observe_property", "5", "path"]
    );
    assert_eq!(get_length().command, vec!["get_property", "length"]);
    assert_eq!(request_log_messages("info").command, vec!["request_log_messages", "info"]);
    assert_eq!(quit().command, vec!["quit"]);
    assert_eq!(
        send_options("a=1, b=2").command,
        vec!["script-message-to", "syncplayintf", "set_syncplayintf_options", "a=1, b=2"]
    );
    let (align, lift) = move_osd(110);
    assert_eq!(align.command, vec!["set_property", "osd-align-y", "bottom"]);
    assert_eq!(lift.command, vec!["set_property", "osd-margin-y", "110"]);
}

#[test]
fn position_and_file_commands_are_coalesced() {
    assert_eq!(queue_key(&set_position(1)), Some(QueueKey::SetTimePos));
    assert_eq!(queue_key(&load_file("a")), Some(QueueKey::LoadFile));
    assert_eq!(queue_key(&set_paused(true)), None);
}

#[test]
fn texts_over_the_picture() {
    assert_eq!(
        show_osd("say \"hi\"", Some(1_000), true).command,
        vec!["script-message-to", "syncplayintf", "notification-osd-neutral", "say 'hi'"]
    );
    assert_eq!(
        show_osd("say \"hi\"", Some(1_000), false).command,
        vec!["show-text", "say \"hi\"", "1000"]
    );
    assert_eq!(show_osd("x", None, false).command, vec!["show-text", "x", "3000"]);
    assert_eq!(
        show_chat_message(Some("bob"), "a\"b").command,
        vec!["script-message-to", "syncplayintf", "chat", "<bob> a'b"]
    );
}

#[test]
fn lines_for_vlc() {
    assert_eq!(set_position_line(12_500), "set-position: 12.500");
    assert_eq!(set_position_line(-1), "set-position: -0.001");
    assert_eq!(set_paused_line(true), "set-playstate: paused");
    assert_eq!(set_paused_line(false), "set-playstate: playing");
    assert_eq!(set_speed_line(950), "set-rate: 0.95");
    assert_eq!(set_speed_line(1_000), "set-rate: 1.00");
    assert_eq!(set_speed_line(1_005), "set-rate: 1.01");
    assert_eq!(set_speed_line(1_004), "set-rate: 1.00");
    assert_eq!(set_speed_line(12_340), "set-rate: 12.34");
    assert_eq!(set_speed_line(-50), "set-rate: -0.05");
    assert_eq!(set_speed_line(-4), "set-rate: 0.00");
    assert_eq!(set_speed_line(0), "set-rate: 0.00");
    assert_eq!(load_file_line("/m/a b.mp4", false), "load-file: /m/a b.mp4");
    assert_eq!(load_file_line("/m/\u{e9}.mp4", false), "load-file: file:///m/%C3%A9.mp4");
    assert_eq!(
        load_file_line("http://e.com/a b.mp4", false),
        "load-file: http://e.com/a%20b.mp4"
    );
    assert_eq!(show_osd_line("say \"hi\"", None), "display-osd: top-right, 3.000, say 'hi'");
    assert_eq!(show_osd_line("x", Some(2_050)), "display-osd: top-right, 2.050, x");
    assert_eq!(
        show_osd_line("x", Some(u64::MAX)),
        "display-osd: top-right, 9223372036854775.807, x"
    );
}
