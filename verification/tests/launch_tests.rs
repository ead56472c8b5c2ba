use syncplay_core::config::PlayerKind;
use syncplay_core::launch::{
    after_connect_failure, after_spawn_failure, build_mpv_arguments, build_player_arguments,
    check_mpv_version, connect_failure_text, judge_mpv_version, max_connect_attempts,
    needs_version_check, plan_player_start, resolve_player_path, should_spawn_player,
    wait_for_ipc_socket, PlayerArguments, RetryStep, SocketWait, StartPlan, TERM_PLAYING_MSG,
};

fn names(list: &[&str]) -> Vec<String> {
    list.iter().map(|s| s.to_string()).collect()
}

#[test]
fn player_path_defaults_to_mpv() {
    assert_eq!(resolve_player_path(""), "mpv");
    assert_eq!(resolve_player_path("   "), "mpv");
    assert_eq!(resolve_player_path("custom"), "mpv");
    assert_eq!(resolve_player_path(" custom "), "mpv");
    assert_eq!(resolve_player_path(" /usr/bin/vlc "), "/usr/bin/vlc");
    assert_eq!(resolve_player_path("Custom"), "Custom");
}

#[test]
fn player_arguments_add_those_of_the_player() {
    let per_player = vec![
        PlayerArguments { player_path: "/usr/bin/vlc".to_string(), arguments: names(&["--x"]) },
        PlayerArguments { player_path: "mpv".to_string(), arguments: names(&["--a", "--b"]) },
        PlayerArguments { player_path: "mpv".to_string(), arguments: names(&["--c"]) },
    ];
    assert_eq!(
        build_player_arguments(&names(&["--g"]), &per_player, "mpv"),
        names(&["--g", "--a", "--b"])
    );
    assert_eq!(build_player_arguments(&names(&["--g"]), &per_player, "iina"), names(&["--g"]));
    assert_eq!(build_player_arguments(&Vec::new(), &Vec::new(), "mpv"), Vec::<String>::new());
}

#[test]
fn iina_is_used_again_within_fifteen_seconds() {
    let iina = Some(PlayerKind::Iina);
    assert!(should_spawn_player(PlayerKind::Iina, None, None, 1_000));
    assert!(!should_spawn_player(PlayerKind::Iina, Some(1_000), iina, 15_999));
    assert!(should_spawn_player(PlayerKind::Iina, Some(1_000), iina, 16_000));
    assert!(should_spawn_player(PlayerKind::Iina, Some(1_000), Some(PlayerKind::Mpv), 2_000));
    assert!(should_spawn_player(PlayerKind::Mpv, Some(1_000), Some(PlayerKind::Mpv), 1_001));
    assert!(should_spawn_player(PlayerKind::Vlc, Some(1_000), iina, 1_001));
}

#[test]
fn attempts_to_connect() {
    assert_eq!(max_connect_attempts(PlayerKind::Iina), 50);
    assert_eq!(max_connect_attempts(PlayerKind::Mpv), 10);
    assert_eq!(max_connect_attempts(PlayerKind::MpvNet), 10);
}

#[test]
fn mpv_arguments() {
    let args = build_mpv_arguments(PlayerKind::Mpv, "/tmp/s", None, Some("/x/intf.lua"), &names(&["--fs"]));
    assert_eq!(
        args,
        vec![
            "--force-window=yes".to_string(),
            "--idle=yes".to_string(),
            "--keep-open=always".to_string(),
            "--keep-open-pause=yes".to_string(),
            "--hr-seek=always".to_string(),
            "--input-terminal=no".to_string(),
            "--input-ipc-server=/tmp/s".to_string(),
            format!("--term-playing-msg={}", TERM_PLAYING_MSG),
            "--script=/x/intf.lua".to_string(),
            "--fs".to_string(),
        ]
    );
    let args = build_mpv_arguments(PlayerKind::MpvNet, "/tmp/s", Some("/p.png"), None, &Vec::new());
    assert_eq!(args.last().unwrap(), "--auto-load-folder=no");
    assert_eq!(args.len(), 9);
    assert!(!args.contains(&"/p.png".to_string()));
}

#[test]
fn iina_arguments() {
    let args =
        build_mpv_arguments(PlayerKind::Iina, "/tmp/s", Some("/p.png"), Some("/x/i.lua"), &names(&["--z"]));
    assert_eq!(
        args,
        vec![
            "--no-stdin".to_string(),
            "/p.png".to_string(),
            "--mpv-keep-open=always".to_string(),
            "--mpv-keep-open-pause=yes".to_string(),
            "--mpv-idle=yes".to_string(),
            "--mpv-input-terminal=no".to_string(),
            "--mpv-hr-seek=always".to_string(),
            "--mpv-force-window=yes".to_string(),
            "--mpv-input-ipc-server=/tmp/s".to_string(),
            format!("--mpv-term-playing-msg={}", TERM_PLAYING_MSG),
            "--mpv-script=/x/i.lua".to_string(),
            "--z".to_string(),
        ]
    );
    let args = build_mpv_arguments(PlayerKind::Iina, "/tmp/s", None, None, &Vec::new());
    assert_eq!(args.len(), 9);
    assert_eq!(args[1], "--mpv-keep-open=always");
}

#[test]
fn mpv_version_from_its_output() {
    assert_eq!(check_mpv_version("mpv 0.35.1 Copyright"), Ok(true));
    assert_eq!(check_mpv_version("mpv 0.28.0 Copyright"), Ok(true));
    assert_eq!(check_mpv_version("mpv 0.27.2 Copyright"), Ok(false));
    assert_eq!(check_mpv_version("mpv 0.23.0"), Ok(false));
    assert_eq!(
        check_mpv_version("mpv 0.22.9"),
        Err("This version of mpv is not compatible with Syncplay. Please use mpv >= 0.23.0."
            .to_string())
    );
    assert_eq!(check_mpv_version("mpv 1.0.0"), Ok(true));
    assert_eq!(check_mpv_version("mpv\t2.3.4"), Ok(true));
    assert_eq!(check_mpv_version("nothing here"), Ok(false));
    assert_eq!(check_mpv_version("mpv 0.35"), Ok(false));
    assert_eq!(check_mpv_version(""), Ok(false));
}

#[test]
fn mpv_version_numbers() {
    assert_eq!(judge_mpv_version("0", "28"), Ok(true));
    assert_eq!(judge_mpv_version("0", "27"), Ok(false));
    assert!(judge_mpv_version("0", "22").is_err());
    assert!(judge_mpv_version("x", "y").is_err());
    assert!(judge_mpv_version("99999999999", "5").is_err());
    assert_eq!(judge_mpv_version("99999999999", "30"), Ok(true));
    assert_eq!(judge_mpv_version("1", "0"), Ok(true));
}

#[test]
fn how_players_are_started() {
    assert_eq!(plan_player_start(PlayerKind::Mpv, "mpv", true), Ok(StartPlan::Mpv { spawn: true }));
    assert_eq!(plan_player_start(PlayerKind::Iina, "iina", false), Ok(StartPlan::Mpv { spawn: false }));
    assert_eq!(plan_player_start(PlayerKind::Vlc, "vlc", true), Ok(StartPlan::Vlc));
    assert_eq!(plan_player_start(PlayerKind::Mplayer, "mplayer", true), Ok(StartPlan::Mplayer));
    assert_eq!(plan_player_start(PlayerKind::MpcHc, "mpc-hc.exe", true), Ok(StartPlan::Mpc));
    assert_eq!(plan_player_start(PlayerKind::MpcBe, "mpc-be.exe", true), Ok(StartPlan::Mpc));
    assert_eq!(
        plan_player_start(PlayerKind::Vlc, "vlc", false),
        Err("Player not running".to_string())
    );
    assert_eq!(
        plan_player_start(PlayerKind::Unknown, "/bin/x", true),
        Err("Unsupported player path: /bin/x".to_string())
    );
}

#[test]
fn waiting_for_the_socket() {
    assert_eq!(wait_for_ipc_socket(true, None, 0, 10_000), SocketWait::Ready);
    assert_eq!(wait_for_ipc_socket(false, None, 0, 10_000), SocketWait::Again);
    assert_eq!(wait_for_ipc_socket(false, Some(true), 0, 10_000), SocketWait::Again);
    assert_eq!(wait_for_ipc_socket(false, Some(false), 0, 10_000), SocketWait::Failed);
    assert_eq!(wait_for_ipc_socket(true, None, 10_000, 10_000), SocketWait::TimedOut);
    assert_eq!(wait_for_ipc_socket(false, None, 10_001, 10_000), SocketWait::TimedOut);
}

#[test]
fn tries_to_start_and_to_reach_a_player() {
    assert_eq!(after_spawn_failure(1), RetryStep::Again(200));
    assert_eq!(after_spawn_failure(2), RetryStep::Again(200));
    assert_eq!(after_spawn_failure(3), RetryStep::GiveUp);
    assert_eq!(after_connect_failure(PlayerKind::Mpv, 9), RetryStep::Again(200));
    assert_eq!(after_connect_failure(PlayerKind::Mpv, 10), RetryStep::GiveUp);
    assert_eq!(after_connect_failure(PlayerKind::Iina, 49), RetryStep::Again(200));
    assert_eq!(after_connect_failure(PlayerKind::Iina, 50), RetryStep::GiveUp);
    assert_eq!(connect_failure_text("refused"), "Failed to connect to mpv IPC: refused");
    assert!(needs_version_check(PlayerKind::Mpv));
    assert!(needs_version_check(PlayerKind::MpvNet));
    assert!(!needs_version_check(PlayerKind::Iina));
}
