use syncplay_core::properties::PlayerState;
use syncplay_core::vlc::{
    build_mrl, build_vlc_arguments, build_vlc_extra_args, encode_with_safe, file_info_requests,
    handle_line, is_ascii_path, keeps_trying, meets_min_version, parse_line, pick_vlc_port,
    read_file_path, resolve_vlc_paths, FilePath, Platform, VlcEvent,
};

#[test]
fn parse_line_splits_command_and_argument() {
    assert_eq!(parse_line("position: 12.5"), ("position".to_string(), "12.5".to_string()));
    assert_eq!(parse_line("position:12.5"), ("position".to_string(), "12.5".to_string()));
    assert_eq!(parse_line(" playstate : paused "), ("playstate".to_string(), "paused".to_string()));
    assert_eq!(parse_line("hello"), ("hello".to_string(), String::new()));
    assert_eq!(
        parse_line("filepath: file:///a: b"),
        ("filepath".to_string(), "file:///a: b".to_string())
    );
    assert_eq!(parse_line(""), (String::new(), String::new()));
}

#[test]
fn port_is_in_range() {
    for _ in 0..200 {
        let p = pick_vlc_port();
        assert!((10_000..=55_000).contains(&p));
    }
}

#[test]
fn lines_update_the_state() {
    let mut ps = PlayerState::default();
    assert!(matches!(
        handle_line(&mut ps, "filepath-change-notification"),
        VlcEvent::RequestFileInfo
    ));
    handle_line(&mut ps, "playstate: playing");
    assert_eq!(ps.paused, Some(false));
    handle_line(&mut ps, "playstate: paused");
    assert_eq!(ps.paused, Some(true));
    handle_line(&mut ps, "playstate:");
    assert_eq!(ps.paused, Some(true));
    assert!(matches!(handle_line(&mut ps, "position: 12,5"), VlcEvent::Positioned));
    assert_eq!(ps.position, Some(12_500));
    assert!(matches!(handle_line(&mut ps, "position: junk"), VlcEvent::Nothing));
    assert_eq!(ps.position, Some(12_500));
    handle_line(&mut ps, "position: no-input");
    assert_eq!(ps.position, None);
    handle_line(&mut ps, "duration: 60.25");
    assert_eq!(ps.duration, Some(60_250));
    handle_line(&mut ps, "duration-change: 61");
    assert_eq!(ps.duration, Some(61_000));
    handle_line(&mut ps, "duration: invalid-32-bit-value");
    assert_eq!(ps.duration, None);
    handle_line(&mut ps, "filename: a.mp4");
    assert_eq!(ps.filename, Some("a.mp4".to_string()));
    handle_line(&mut ps, "filename: no-input");
    assert_eq!(ps.filename, Some("a.mp4".to_string()));
    ps.path = Some("/m/a.mp4".to_string());
    ps.duration = Some(1);
    ps.position = Some(1);
    handle_line(&mut ps, "inputstate-change: no-input");
    assert_eq!(ps.path, None);
    assert_eq!(ps.filename, None);
    assert_eq!(ps.duration, None);
    assert_eq!(ps.position, None);
}

#[test]
fn version_line_tells_whether_it_suffices() {
    let mut ps = PlayerState::default();
    assert!(matches!(
        handle_line(&mut ps, "vlc-version: 3.0.18"),
        VlcEvent::Version { sufficient: true }
    ));
    assert!(matches!(
        handle_line(&mut ps, "vlc-version: 2.1.0"),
        VlcEvent::Version { sufficient: false }
    ));
}

#[test]
fn file_paths() {
    assert!(matches!(read_file_path("no-input"), FilePath::NoInput));
    match read_file_path("file:///home/u/a.mp4") {
        FilePath::Local { path, fallback } => {
            assert_eq!(path, "/home/u/a.mp4");
            assert_eq!(fallback, "home/u/a.mp4");
        }
        other => panic!("unexpected {:?}", other),
    }
    match read_file_path("http://example.com/a%20b.mp4") {
        FilePath::Other(p) => assert_eq!(p, "http://example.com/a b.mp4"),
        other => panic!("unexpected {:?}", other),
    }
    match read_file_path("/plain/path.mp4") {
        FilePath::Other(p) => assert_eq!(p, "/plain/path.mp4"),
        other => panic!("unexpected {:?}", other),
    }
    match read_file_path("http://example.com/a%ffb.mp4") {
        FilePath::Other(p) => assert_eq!(p, "http://example.com/a%ffb.mp4"),
        other => panic!("unexpected {:?}", other),
    }
}

#[test]
fn filepath_line_hands_the_path_on() {
    let mut ps = PlayerState::default();
    assert!(matches!(
        handle_line(&mut ps, "filepath: file:///home/u/a.mp4"),
        VlcEvent::Path(FilePath::Local { .. })
    ));
    ps.path = Some("x".to_string());
    assert!(matches!(handle_line(&mut ps, "filepath: no-input"), VlcEvent::Nothing));
    assert_eq!(ps.path, None);
}

#[test]
fn min_version() {
    assert!(meets_min_version("2.2.1", "2.2.1"));
    assert!(meets_min_version("3.0", "2.2.1"));
    assert!(!meets_min_version("2.2", "2.2.1"));
    assert!(!meets_min_version("junk", "2.2.1"));
    assert!(meets_min_version("2.2.1.0", "2.2.1"));
    assert!(meets_min_version("", ""));
    assert!(meets_min_version("0", "-1"));
}

#[test]
fn ascii_paths() {
    assert!(is_ascii_path("/home/u/a.mp4"));
    assert!(is_ascii_path(""));
    assert!(!is_ascii_path("/home/u/\u{e9}.mp4"));
}

#[test]
fn encoding_keeps_safe_bytes() {
    assert_eq!(encode_with_safe("a b/c", b"/"), "a%20b/c");
    assert_eq!(encode_with_safe("a b/c", b""), "a%20b%2Fc");
    assert_eq!(encode_with_safe("A-z_0.9", b""), "A-z_0.9");
    assert_eq!(encode_with_safe("\u{e9}", b""), "%C3%A9");
    assert_eq!(encode_with_safe("\u{1f600}", b""), "%F0%9F%98%80");
    assert_eq!(encode_with_safe("a\n", b""), "a%0A");
    assert_eq!(encode_with_safe("", b"/"), "");
}

#[test]
fn mrl_of_paths_and_urls() {
    assert_eq!(build_mrl("/home/u/a b.mp4", false), "file:///home/u/a%20b.mp4");
    assert_eq!(build_mrl("C:\\m\\a b.mp4", true), "file:///C:/m/a%20b.mp4");
    assert_eq!(build_mrl("C:\\m\\a.mp4", false), "file://C:/m/a.mp4");
    assert_eq!(
        build_mrl("http://example.com/a b.mp4?x=1&y=[2]", false),
        "http://example.com/a%20b.mp4?x=1&y=%5B2%5D"
    );
}

#[test]
fn extra_arguments() {
    assert_eq!(
        build_vlc_extra_args("/usr/bin/vlc", false),
        vec!["--no-one-instance", "--no-one-instance-when-started-from-file"]
    );
    assert!(build_vlc_extra_args("C:\\x\\VLCPortable.exe", false).is_empty());
    assert_eq!(
        build_vlc_extra_args("C:\\x\\VLCPortable.exe", true),
        vec!["--verbose=2", "--no-file-logging"]
    );
}

#[test]
fn where_vlc_keeps_its_scripts() {
    assert_eq!(
        resolve_vlc_paths(Platform::Linux, "/usr/bin/vlc", "/usr/bin", "/home/u", ""),
        ("/usr/lib/vlc/lua/intf/".to_string(), "/home/u/.local/share/vlc/lua/intf/".to_string())
    );
    assert_eq!(
        resolve_vlc_paths(Platform::Linux, "/snap/bin/vlc", "/snap/bin", "/home/u", ""),
        (
            "/snap/vlc/current/usr/lib/vlc/lua/intf/".to_string(),
            "/home/u/snap/vlc/current/.local/share/vlc/lua/intf/".to_string()
        )
    );
    assert_eq!(
        resolve_vlc_paths(Platform::MacOs, "/Applications/VLC.app", "/Applications", "/Users/u", ""),
        (
            "/Applications/VLC.app/Contents/MacOS/share/lua/intf/".to_string(),
            "/Users/u/Library/Application Support/org.videolan.vlc/lua/intf/".to_string()
        )
    );
    assert_eq!(
        resolve_vlc_paths(Platform::Windows, "C:\\VLC\\vlc.exe", "C:\\VLC", "", "C:\\Users\\u\\AppData"),
        (
            "C:\\VLC\\lua/intf/".to_string(),
            "C:\\Users\\u\\AppData\\VLC/lua/intf/".to_string()
        )
    );
    assert_eq!(
        resolve_vlc_paths(Platform::Windows, "D:\\p\\VLCPortable.exe", "D:\\p\\", "", "x"),
        ("D:\\p\\App/vlc/lua/intf/".to_string(), "D:\\p\\App/vlc/lua/intf/".to_string())
    );
    assert_eq!(
        resolve_vlc_paths(Platform::Windows, "vlc.exe", "", "", ""),
        ("lua/intf/".to_string(), "VLC/lua/intf/".to_string())
    );
    assert_eq!(
        resolve_vlc_paths(Platform::Other, "/usr/local/bin/vlc", "/usr/local/bin", "/home/u", ""),
        (
            "/usr/local/lib/vlc/lua/intf/".to_string(),
            "/home/u/.local/share/vlc/lua/intf/".to_string()
        )
    );
}

#[test]
fn arguments_for_the_start_of_vlc() {
    let args = build_vlc_arguments(
        "C:\\VLC\\lua/intf/",
        12345,
        "/usr/bin/vlc",
        false,
        false,
        &vec!["--fullscreen".to_string()],
        Some("/m/\u{e9}.mp4"),
    );
    assert_eq!(
        args,
        vec![
            "--extraintf=luaintf",
            "--lua-intf=syncplay",
            "--no-quiet",
            "--no-input-fast-seek",
            "--play-and-pause",
            "--start-time=0",
            "--lua-config=syncplay={modulepath=\"C:/VLC/lua/intf//modules/?.luac\",port=\"12345\"}",
            "--no-one-instance",
            "--no-one-instance-when-started-from-file",
            "--fullscreen",
            "file:///m/%C3%A9.mp4",
        ]
    );
    let args = build_vlc_arguments("/i/", 10000, "vlc", true, false, &Vec::new(), Some("/m/a.mp4"));
    assert_eq!(args.len(), 10);
    assert_eq!(args[7], "--verbose=2");
    assert_eq!(args[9], "/m/a.mp4");
    let args = build_vlc_arguments("/i/", 10000, "vlc", false, false, &Vec::new(), None);
    assert_eq!(args.len(), 9);
}

#[test]
fn requests_to_vlc() {
    assert_eq!(file_info_requests(), vec!["get-duration", "get-filepath", "get-filename"]);
    assert!(keeps_trying(0));
    assert!(keeps_trying(19_999));
    assert!(!keeps_trying(20_000));
}
