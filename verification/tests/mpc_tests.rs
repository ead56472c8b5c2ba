use syncplay_core::config::PlayerKind;
use syncplay_core::mpc::{
    build_payload, build_start_args, check_version, is_switch_pause_version, min_version,
    min_version_message, read_message, set_paused_command, split_mpc_fields, CommandPayload,
    MpcEvent, CMD_CONNECT, CMD_CURRENTPOSITION, CMD_DISCONNECT, CMD_NOTIFYSEEK, CMD_NOWPLAYING,
    CMD_PAUSE, CMD_PLAY, CMD_PLAYMODE, CMD_PLAYPAUSE, CMD_STATE, CMD_VERSION,
};

#[test]
fn fields_are_split_at_bars() {
    assert_eq!(split_mpc_fields("a|b|c"), vec!["a", "b", "c"]);
    assert_eq!(split_mpc_fields("a\\|b|c"), vec!["a|b", "c"]);
    assert_eq!(split_mpc_fields("a\\\\|b"), vec!["a\\", "b"]);
    assert_eq!(split_mpc_fields("a|"), vec!["a"]);
    assert_eq!(split_mpc_fields("|a"), vec!["", "a"]);
    assert_eq!(split_mpc_fields("a||b"), vec!["a", "", "b"]);
    assert_eq!(split_mpc_fields("a\\"), vec!["a"]);
    assert!(split_mpc_fields("").is_empty());
}

#[test]
fn switch_pause_version() {
    assert!(is_switch_pause_version("1.6.4"));
    assert!(is_switch_pause_version("1.6.4.6052"));
    assert!(!is_switch_pause_version("1.6.5"));
    assert!(!is_switch_pause_version("1.6"));
    assert!(!is_switch_pause_version("01.6.4"));
    assert!(!is_switch_pause_version(""));
}

#[test]
fn minimum_versions() {
    assert_eq!(min_version(PlayerKind::MpcHc), "1.6.4");
    assert_eq!(min_version(PlayerKind::MpcBe), "1.5.2.3123");
    assert_eq!(
        min_version_message(PlayerKind::MpcBe),
        "MPC version not sufficient, please use `mpc-be` >= `1.5.2.3123`"
    );
    assert_eq!(
        min_version_message(PlayerKind::MpcHc),
        "MPC version not sufficient, please use `mpc-hc` >= `1.6.4`"
    );
}

#[test]
fn version_check() {
    assert_eq!(check_version(PlayerKind::MpcHc, "1.6.4"), Ok(true));
    assert_eq!(check_version(PlayerKind::MpcHc, "1.7.13"), Ok(false));
    assert_eq!(
        check_version(PlayerKind::MpcHc, "1.6.3"),
        Err("MPC version not sufficient, please use `mpc-hc` >= `1.6.4`".to_string())
    );
    assert_eq!(check_version(PlayerKind::MpcBe, "1.5.2.3123"), Ok(false));
    assert!(check_version(PlayerKind::MpcBe, "1.5.2.3122").is_err());
}

#[test]
fn messages_of_the_player() {
    assert!(matches!(read_message(CMD_CONNECT, " 1234 "), Some(MpcEvent::Connected(1234))));
    assert!(read_message(CMD_CONNECT, "x").is_none());
    assert!(matches!(read_message(CMD_STATE, "2"), Some(MpcEvent::LoadState(2))));
    assert!(matches!(read_message(CMD_PLAYMODE, "1"), Some(MpcEvent::PlayState(1))));
    assert!(read_message(CMD_PLAYMODE, "").is_none());
    match read_message(CMD_NOWPLAYING, "t|a|d|/p/a.mp4|60") {
        Some(MpcEvent::NowPlaying(v)) => assert_eq!(v, "t|a|d|/p/a.mp4|60"),
        other => panic!("unexpected {:?}", other),
    }
    assert!(matches!(read_message(CMD_CURRENTPOSITION, "12.5"), Some(MpcEvent::Position(12_500))));
    assert!(matches!(read_message(CMD_NOTIFYSEEK, " 3 "), Some(MpcEvent::Seek(3_000))));
    assert!(read_message(CMD_NOTIFYSEEK, "x").is_none());
    match read_message(CMD_VERSION, "1.7.13") {
        Some(MpcEvent::Version(v)) => assert_eq!(v, "1.7.13"),
        other => panic!("unexpected {:?}", other),
    }
    assert!(matches!(read_message(CMD_DISCONNECT, ""), Some(MpcEvent::Disconnected)));
    assert!(read_message(0x1234, "1").is_none());
}

#[test]
fn pause_commands() {
    assert_eq!(set_paused_command(true, false), CMD_PAUSE);
    assert_eq!(set_paused_command(false, false), CMD_PLAY);
    assert_eq!(set_paused_command(true, true), CMD_PLAY);
    assert_eq!(set_paused_command(false, true), CMD_PAUSE);
    assert_ne!(CMD_PLAYPAUSE, CMD_PLAY);
}

#[test]
fn payload_bytes() {
    assert!(build_payload(None).is_empty());
    assert_eq!(
        build_payload(Some(CommandPayload::Text("hi".to_string()))),
        vec![b'h', 0, b'i', 0, 0, 0]
    );
    assert_eq!(build_payload(Some(CommandPayload::Text(String::new()))), vec![0, 0]);
    assert_eq!(
        build_payload(Some(CommandPayload::Text("\u{e9}\u{1f600}".to_string()))),
        vec![0xE9, 0x00, 0x3D, 0xD8, 0x00, 0xDE, 0, 0]
    );
    assert_eq!(build_payload(Some(CommandPayload::Raw(vec![1, 2, 3]))), vec![1, 2, 3]);
    assert_eq!(
        build_payload(Some(CommandPayload::Osd {
            message: "a".to_string(),
            duration_ms: 3000,
            position: 1
        })),
        vec![1, 0, 0, 0, 0xB8, 0x0B, 0, 0, b'a', 0, 0, 0]
    );
    assert_eq!(
        build_payload(Some(CommandPayload::Osd {
            message: String::new(),
            duration_ms: -1,
            position: -2
        })),
        vec![0xFE, 0xFF, 0xFF, 0xFF, 0xFF, 0xFF, 0xFF, 0xFF, 0, 0]
    );
}

#[test]
fn start_arguments() {
    let args = build_start_args(&vec!["/fullscreen".to_string()]);
    assert!(args.contains(&"/fullscreen".to_string()));
    assert!(args.contains(&"/open".to_string()));
    assert!(args.contains(&"/new".to_string()));
}
