use syncplay_core::config::PrivacyMode;
use syncplay_core::messages::FileSizeInfo;
use syncplay_core::utils::{
    apply_privacy, hash_filename, hash_filesize, is_controlled_room, is_music_file,
    is_trustable_and_trusted, is_url, parse_controlled_room_input, parse_player_arguments,
    playlist_filename_from_path, same_filename, same_filesize, strip_control_password,
    strip_filename, truncate_text, version_meets_min, PRIVACY_HIDDEN_FILENAME,
};

#[test]
fn test_hash_filename() {
    let hashed = hash_filename("Movie File.mp4", true);
    assert_eq!(hashed.len(), 12);
}

#[test]
fn test_same_filename_hidden() {
    assert!(same_filename(Some(PRIVACY_HIDDEN_FILENAME), Some("foo")));
}

#[test]
fn test_same_filename_hash_match() {
    let name = "Movie File.mp4";
    let hashed = hash_filename(name, true);
    assert!(same_filename(Some(name), Some(&hashed)));
}

#[test]
fn test_parse_player_arguments() {
    let args = parse_player_arguments("--foo bar --baz=1");
    assert_eq!(args, vec!["--foo", "bar", "--baz=1"]);
}

#[test]
fn test_truncate_text() {
    let text = truncate_text("hello", 3);
    assert_eq!(text, "hel");
}

#[test]
fn hash_filename_is_twelve_hex_digits_of_the_stripped_name() {
    assert_eq!(hash_filename("Movie File.mp4", true), "ce1f235715a0");
    assert_eq!(hash_filename("Movie File.mp4", false), "ce1f235715a0");
    assert_eq!(hash_filename("Movie_File-.mp4", false), "ce1f235715a0");
    assert_eq!(hash_filename("", false), "e3b0c44298fc");
}

#[test]
fn hash_filename_depends_on_the_name_alone() {
    for name in ["a.mkv", "Some Show - 01 [1080p].mkv", "http://example.com/v/a.mp4", ""] {
        let first = hash_filename(name, false);
        let second = hash_filename(name, false);
        assert_eq!(first, second);
        assert_eq!(first.len(), 12);
        assert!(first.chars().all(|c| c.is_ascii_digit() || ('a'..='f').contains(&c)));
    }
}

#[test]
fn a_name_matches_its_hash() {
    for name in ["a.mkv", "Some Show - 01 [1080p].mkv", "http://example.com/v/a.mp4", "x"] {
        let hashed = hash_filename(name, false);
        assert!(same_filename(Some(name), Some(&hashed)), "{}", name);
        assert!(same_filename(Some(&hashed), Some(name)), "{}", name);
    }
    let url = "http://example.com/v/My-Movie.mp4";
    let hashed = hash_filename(url, true);
    assert_eq!(hashed, "c221137f2ce0");
    assert!(same_filename(Some(url), Some(&hashed)));
}

#[test]
fn a_path_with_a_scheme_hashed_as_url_is_not_recognised() {
    let name = "a:/b/c.mp4";
    assert_eq!(hash_filename(name, false), "b1acc5444337");
    assert_eq!(hash_filename(name, true), "bef86ec15a74");
    assert!(!same_filename(Some(name), Some("bef86ec15a74")));
    assert!(same_filename(Some(name), Some("b1acc5444337")));
}

#[test]
fn hidden_name_matches_every_name() {
    for name in ["", "a", "b.mp4", PRIVACY_HIDDEN_FILENAME] {
        assert!(same_filename(Some(PRIVACY_HIDDEN_FILENAME), Some(name)));
        assert!(same_filename(Some(name), Some(PRIVACY_HIDDEN_FILENAME)));
    }
}

#[test]
fn same_filename_needs_both_names() {
    assert!(!same_filename(None, Some("a")));
    assert!(!same_filename(Some("a"), None));
    assert!(!same_filename(None, None));
}

#[test]
fn same_filename_ignores_case_and_punctuation() {
    assert!(same_filename(Some("Movie.MP4"), Some("movie.mp4")));
    assert!(same_filename(Some("My Movie.mp4"), Some("My_Movie.mp4")));
    assert!(same_filename(Some("My Movie.mp4"), Some("My-Movie[].mp4")));
    assert!(!same_filename(Some("My Movie.mp4"), Some("Other.mp4")));
    assert!(!same_filename(Some("Movie.mp4"), Some("movie2.mp4")));
}

#[test]
fn same_filename_compares_url_with_its_last_segment() {
    assert!(same_filename(Some("http://example.com/v/My-Movie.mp4"), Some("My Movie.mp4")));
    assert!(!same_filename(Some("http://example.com/v/My-Movie.mp4"), Some("Other.mp4")));
}

#[test]
fn strip_filename_removes_punctuation() {
    assert_eq!(strip_filename("Movie File.mp4", false), "MovieFilemp4");
    assert_eq!(strip_filename("a-b~c_d.e[f](g):h i", false), "abcdefghi");
    assert_eq!(strip_filename("", false), "");
    assert_eq!(strip_filename("plain", true), "plain");
}

#[test]
fn strip_filename_takes_last_segment_of_url() {
    assert_eq!(strip_filename("http://example.com/path/My-Movie.mp4", false), "MyMoviemp4");
    assert_eq!(strip_filename("http://example.com/path/My-Movie.mp4", true), "MyMoviemp4");
    assert_eq!(strip_filename("a:/b/c.mp4", true), "cmp4");
    assert_eq!(strip_filename("a:/b/c.mp4", false), "a/b/cmp4");
}

#[test]
fn hash_filesize_hashes_the_decimal_number() {
    assert_eq!(hash_filesize(1234), "03ac674216f3");
    assert_eq!(hash_filesize(5), "ef2d127de37b");
}

#[test]
fn truncate_text_edge_cases() {
    assert_eq!(truncate_text("hello", 0), "");
    assert_eq!(truncate_text("hi", 5), "hi");
    assert_eq!(truncate_text("hello", 5), "hello");
    assert_eq!(truncate_text("", 3), "");
    assert_eq!(truncate_text("h\u{e9}llo", 2), "h\u{fffd}");
    assert_eq!(truncate_text("h\u{e9}llo", 3), "h\u{e9}");
    assert_eq!(truncate_text("\u{1f600}x", 3), "\u{fffd}");
    assert_eq!(truncate_text("\u{1f600}x", 4), "\u{1f600}");
}

#[test]
fn is_music_file_by_extension() {
    assert!(is_music_file("song.mp3"));
    assert!(is_music_file("SONG.FLAC"));
    assert!(is_music_file("a.ogg"));
    assert!(is_music_file("x.r"));
    assert!(!is_music_file("video.mp4"));
    assert!(!is_music_file("mp3"));
    assert!(!is_music_file(""));
}

#[test]
fn is_url_needs_scheme_separator_and_a_parse() {
    assert!(is_url("http://example.com/a.mp4"));
    assert!(is_url("https://example.com"));
    assert!(!is_url("file.mp4"));
    assert!(!is_url("a:/b/c.mp4"));
    assert!(!is_url("://nothing"));
    assert!(!is_url(""));
}

#[test]
fn playlist_filename_from_path_cases() {
    assert_eq!(
        playlist_filename_from_path("http://x.com/a.mp4", None),
        Some("http://x.com/a.mp4".to_string())
    );
    assert_eq!(
        playlist_filename_from_path("/p/a.mp4", Some("a.mp4".to_string())),
        Some("a.mp4".to_string())
    );
    assert_eq!(playlist_filename_from_path("/p/a.mp4", None), None);
}

fn domains(list: &[&str]) -> Vec<String> {
    list.iter().map(|s| s.to_string()).collect()
}

#[test]
fn trust_of_urls() {
    let d = domains(&["example.com"]);
    assert_eq!(is_trustable_and_trusted("http://example.com/x", &d, true), (true, true));
    assert_eq!(is_trustable_and_trusted("https://www.example.com/x", &d, true), (true, true));
    assert_eq!(is_trustable_and_trusted("https://EXAMPLE.com/x", &d, true), (true, true));
    assert_eq!(is_trustable_and_trusted("http://evil.com/x", &d, true), (true, false));
    assert_eq!(is_trustable_and_trusted("http://evil.com/x", &d, false), (true, true));
    assert_eq!(is_trustable_and_trusted("ftp://example.com/x", &d, true), (false, false));
    assert_eq!(is_trustable_and_trusted("ftp://example.com/x", &d, false), (false, false));
    assert_eq!(is_trustable_and_trusted("not a url", &d, false), (false, false));
    assert_eq!(is_trustable_and_trusted("http://example.com/x", &[], true), (true, false));
}

#[test]
fn trust_with_wildcard_and_path() {
    let w = domains(&["*.example.com"]);
    assert_eq!(is_trustable_and_trusted("http://a.example.com/v", &w, true), (true, true));
    assert_eq!(is_trustable_and_trusted("http://a.b.example.com/v", &w, true), (true, false));
    assert_eq!(is_trustable_and_trusted("http://example.com/v", &w, true), (true, false));
    let p = domains(&["example.com/videos"]);
    assert_eq!(
        is_trustable_and_trusted("http://example.com/videos/a.mp4", &p, true),
        (true, true)
    );
    assert_eq!(is_trustable_and_trusted("http://example.com/other/a.mp4", &p, true), (true, false));
    let blank = domains(&["  ", "/x", " example.com "]);
    assert_eq!(is_trustable_and_trusted("http://example.com/a", &blank, true), (true, true));
}

#[test]
fn apply_privacy_modes() {
    let (n, s) = apply_privacy(
        Some("Movie File.mp4".to_string()),
        Some(1234),
        &PrivacyMode::SendRaw,
        &PrivacyMode::SendRaw,
    );
    assert_eq!(n, Some("Movie File.mp4".to_string()));
    assert!(matches!(s, Some(FileSizeInfo::Number(1234))));
    let (n, s) = apply_privacy(
        Some("Movie File.mp4".to_string()),
        Some(1234),
        &PrivacyMode::SendHashed,
        &PrivacyMode::SendHashed,
    );
    assert_eq!(n, Some("ce1f235715a0".to_string()));
    match s {
        Some(FileSizeInfo::Text(t)) => assert_eq!(t, "03ac674216f3"),
        other => panic!("unexpected size {:?}", other),
    }
    let (n, s) = apply_privacy(
        Some("Movie File.mp4".to_string()),
        Some(1234),
        &PrivacyMode::DoNotSend,
        &PrivacyMode::DoNotSend,
    );
    assert_eq!(n, Some(PRIVACY_HIDDEN_FILENAME.to_string()));
    assert!(matches!(s, Some(FileSizeInfo::Number(0))));
    let (n, s) = apply_privacy(None, None, &PrivacyMode::SendHashed, &PrivacyMode::DoNotSend);
    assert_eq!(n, None);
    assert!(s.is_none());
}

#[test]
fn same_filesize_cases() {
    let five = FileSizeInfo::Number(5);
    let six = FileSizeInfo::Number(6);
    let zero = FileSizeInfo::Number(0);
    let hash_five = FileSizeInfo::Text("ef2d127de37b".to_string());
    let empty = FileSizeInfo::Text(String::new());
    assert!(same_filesize(Some(&five), Some(&five)));
    assert!(!same_filesize(Some(&five), Some(&six)));
    assert!(same_filesize(Some(&zero), Some(&six)));
    assert!(same_filesize(Some(&six), Some(&zero)));
    assert!(same_filesize(Some(&five), Some(&hash_five)));
    assert!(same_filesize(Some(&hash_five), Some(&five)));
    assert!(!same_filesize(Some(&six), Some(&hash_five)));
    assert!(same_filesize(Some(&hash_five), Some(&hash_five)));
    assert!(!same_filesize(Some(&empty), Some(&empty)));
    assert!(!same_filesize(None, Some(&five)));
    assert!(!same_filesize(Some(&five), None));
    assert!(!same_filesize(None, None));
}

#[test]
fn parse_player_arguments_edge_cases() {
    assert!(parse_player_arguments("").is_empty());
    assert!(parse_player_arguments("   ").is_empty());
    assert_eq!(parse_player_arguments("--a 'b c'"), vec!["--a", "b c"]);
    assert_eq!(parse_player_arguments("--a \"b c\" d"), vec!["--a", "b c", "d"]);
    assert_eq!(parse_player_arguments("--a 'b"), vec!["--a", "'b"]);
    assert_eq!(parse_player_arguments("  x\ty  "), vec!["x", "y"]);
}

#[test]
fn strip_control_password_keeps_letters_digits_hyphen() {
    assert_eq!(strip_control_password("ab-12 cd!"), "AB-12CD");
    assert_eq!(strip_control_password(""), "");
    assert_eq!(strip_control_password("XY-99"), "XY-99");
    assert_eq!(strip_control_password("\u{e9}a"), "A");
}

#[test]
fn parse_controlled_room_input_cases() {
    assert_eq!(parse_controlled_room_input("room"), ("room".to_string(), None));
    assert_eq!(parse_controlled_room_input("+room:x"), ("+room:x".to_string(), None));
    assert_eq!(
        parse_controlled_room_input("+room:abcdef123456:pass-word1"),
        ("+room:abcdef123456".to_string(), Some("PASS-WORD1".to_string()))
    );
    assert_eq!(
        parse_controlled_room_input("+room:abcdef123456:!!"),
        ("+room:abcdef123456".to_string(), None)
    );
    assert_eq!(
        parse_controlled_room_input("+a:b:c:d"),
        ("+a:b".to_string(), Some("C".to_string()))
    );
    assert_eq!(parse_controlled_room_input("a:b:c"), ("a:b:c".to_string(), None));
}

#[test]
fn is_controlled_room_cases() {
    assert!(is_controlled_room("+room:abcdef123456"));
    assert!(is_controlled_room("+room:ABC_ef123456"));
    assert!(!is_controlled_room("+room:abc"));
    assert!(!is_controlled_room("room:abcdef123456"));
    assert!(!is_controlled_room("+room:abcdef123456:x"));
    assert!(!is_controlled_room("+room:abcdef12345-"));
    assert!(!is_controlled_room("+room"));
    assert!(!is_controlled_room(""));
}

#[test]
fn version_meets_min_cases() {
    assert!(version_meets_min("1.7.0", "1.6.9"));
    assert!(version_meets_min("1.2", "1.2.0"));
    assert!(version_meets_min("1.2.0", "1.2"));
    assert!(!version_meets_min("1.2.3", "1.10"));
    assert!(version_meets_min("1.10", "1.2.3"));
    assert!(version_meets_min("v1.7.1-beta", "1.7.1"));
    assert!(!version_meets_min("", "0.0.1"));
    assert!(version_meets_min("", ""));
    assert!(version_meets_min("2", "1.99.99"));
    assert!(!version_meets_min("99999999999.1", "0.2"));
}
