use syncplay_core::media_index::{
    check_first_entry, check_scan_time, clean_directories, find_existing, resolve_media_path,
    scan_directories, scan_entry, scan_roots, EntryKind, IndexEvent, MediaIndex, MediaIndexCache,
    MediaPath, ScanError, ScannedEntry, ScannedRoot,
};
use syncplay_core::utils::PRIVACY_HIDDEN_FILENAME;

fn names(list: &[&str]) -> Vec<String> {
    list.iter().map(|s| s.to_string()).collect()
}

#[test]
fn test_resolve_media_path_multiple_directories() {
    let directories = names(&["/tmp/dir1", "/tmp/dir2"]);
    let filename = "movie.mp4";
    let exists = vec![false, true];
    let listings = vec![Vec::new(), names(&["movie.mp4"])];
    let resolved =
        resolve_media_path(&directories, filename, Some("movie.mp4"), &exists, &listings).unwrap();
    assert_eq!(resolved, MediaPath::Joined { directory: 1 });
}

#[test]
fn test_resolve_media_path_empty() {
    let directories: Vec<String> = Vec::new();
    assert!(resolve_media_path(&directories, "file.mp4", Some("file.mp4"), &[], &[]).is_none());
}

#[test]
fn media_path_prefers_the_exact_name_in_any_directory() {
    let directories = names(&["/a", "/b"]);
    let listings = vec![names(&["My_Movie.mp4"]), names(&["x"])];
    assert_eq!(
        resolve_media_path(&directories, "My Movie.mp4", None, &[false, true], &listings),
        Some(MediaPath::Joined { directory: 1 })
    );
    assert_eq!(
        resolve_media_path(&directories, "My Movie.mp4", None, &[false, false], &listings),
        Some(MediaPath::Listed { directory: 0, entry: 0 })
    );
}

#[test]
fn media_path_takes_the_first_file_with_a_matching_name() {
    let directories = names(&["/a", "  ", "/c"]);
    let listings = vec![
        names(&["other.mp4"]),
        names(&["my movie.mp4"]),
        names(&["x.mkv", "MY-MOVIE.mp4", "My-Movie.mp4", "My Movie.mp4"]),
    ];
    assert_eq!(
        resolve_media_path(&directories, "/somewhere/My Movie.mp4", Some("My Movie.mp4"), &[], &listings),
        Some(MediaPath::Listed { directory: 2, entry: 2 })
    );
}

#[test]
fn media_path_skips_unnamed_directories() {
    let directories = names(&["   ", "/b"]);
    let listings = vec![names(&["a.mp4"]), names(&["a.mp4"])];
    assert_eq!(
        resolve_media_path(&directories, "a.mp4", None, &[true, true], &listings),
        Some(MediaPath::Joined { directory: 1 })
    );
    assert_eq!(
        resolve_media_path(&directories, "a.mp4", None, &[true, false], &listings),
        Some(MediaPath::Listed { directory: 1, entry: 0 })
    );
    assert_eq!(resolve_media_path(&names(&[" "]), "a.mp4", None, &[true], &listings), None);
}

#[test]
fn hidden_name_has_no_media_path() {
    let directories = names(&["/a"]);
    let listings = vec![names(&["a.mp4"])];
    assert_eq!(
        resolve_media_path(&directories, PRIVACY_HIDDEN_FILENAME, None, &[true], &listings),
        None
    );
}

#[test]
fn index_finds_a_file_by_each_key() {
    let mut cache = MediaIndexCache::new();
    cache.insert("My Movie.mp4", "/m/My Movie.mp4");
    cache.insert("other.mkv", "/m/other.mkv");
    assert_eq!(cache.candidates("my movie.MP4"), names(&["/m/My Movie.mp4"]));
    assert_eq!(cache.candidates("My_Movie.mp4"), names(&["/m/My Movie.mp4", "/m/My Movie.mp4"]));
    assert_eq!(cache.candidates("7bd21a07054c"), Vec::<String>::new());
    assert_eq!(
        cache.candidates("My Movie.mp4"),
        names(&["/m/My Movie.mp4", "/m/My Movie.mp4", "/m/My Movie.mp4"])
    );
    assert!(cache.candidates("nothing").is_empty());
    assert_eq!(
        cache.resolve("My Movie.mp4", &[true, true, true]),
        Some("/m/My Movie.mp4".to_string())
    );
    assert_eq!(cache.resolve("My Movie.mp4", &[false, false, false]), None);
    assert_eq!(cache.resolve("My Movie.mp4", &[]), None);
    assert_eq!(cache.resolve("nothing", &[true]), None);
}

#[test]
fn index_holds_every_path_under_three_keys() {
    let mut cache = MediaIndexCache::new();
    let files = [
        ("a.mp4", "/1/a.mp4"),
        ("A.mp4", "/2/A.mp4"),
        ("a-.mp4", "/3/a-.mp4"),
        ("b.mkv", "/1/b.mkv"),
        ("a.mp4", "/4/a.mp4"),
    ];
    for (name, path) in files {
        cache.insert(name, path);
    }
    for (name, path) in files {
        let found = cache.candidates(name);
        let count = found.iter().filter(|p| p.as_str() == path).count();
        assert_eq!(count, 3, "{} under {}: {:?}", path, name, found);
    }
    assert_eq!(
        cache.candidates("a.mp4"),
        names(&[
            "/1/a.mp4", "/2/A.mp4", "/4/a.mp4", "/1/a.mp4", "/3/a-.mp4", "/4/a.mp4", "/1/a.mp4",
            "/3/a-.mp4", "/4/a.mp4"
        ])
    );
    assert_eq!(cache.resolve("a.mp4", &[false, true]), Some("/2/A.mp4".to_string()));
    assert_eq!(
        cache.resolve("a.mp4", &[false, false, false, false, true]),
        Some("/3/a-.mp4".to_string())
    );
}

#[test]
fn index_finds_a_file_by_its_hash() {
    let mut cache = MediaIndexCache::new();
    cache.insert("Movie File.mp4", "/m/Movie File.mp4");
    assert_eq!(cache.candidates("ce1f235715a0"), Vec::<String>::new());
    let mut index = MediaIndex::new();
    index.finish_refresh(Ok(cache));
    assert_eq!(index.resolve_path("ce1f235715a0", false, &[true]), None);
}

#[test]
fn find_existing_takes_the_first_marked_path() {
    let paths = names(&["/a", "/b", "/c"]);
    assert_eq!(find_existing(&paths, &[false, true, true]), Some("/b".to_string()));
    assert_eq!(find_existing(&paths, &[false, false, false]), None);
    assert_eq!(find_existing(&paths, &[false]), None);
    assert_eq!(find_existing(&paths, &[true, false, false, true]), Some("/a".to_string()));
    assert_eq!(find_existing(&Vec::new(), &[true]), None);
}

#[test]
fn directories_are_cleaned() {
    assert_eq!(clean_directories(&names(&[" /a ", "", "  ", "/b\t"])), names(&["/a", "/b"]));
    assert!(clean_directories(&Vec::new()).is_empty());
}

#[test]
fn update_directories_tells_a_change() {
    let mut index = MediaIndex::new();
    assert!(!index.update_directories(names(&["", "  "])));
    assert!(index.update_directories(names(&[" /a ", "/b"])));
    assert!(!index.update_directories(names(&["/a", " ", "/b "])));
    assert!(index.update_directories(names(&["/b", "/a"])));
    assert!(index.update_directories(Vec::new()));
}

#[test]
fn refresh_runs_one_scan_at_a_time() {
    let mut index = MediaIndex::new();
    let plan = index.request_refresh();
    assert!(plan.scan.is_none());
    assert!(matches!(
        plan.events.as_slice(),
        [IndexEvent::Refreshing(true), IndexEvent::Refreshing(false)]
    ));
    assert!(!index.is_refreshing());

    index.update_directories(names(&["/a"]));
    let plan = index.request_refresh();
    assert_eq!(plan.scan, Some(names(&["/a"])));
    assert!(matches!(plan.events.as_slice(), [IndexEvent::Refreshing(true)]));
    assert!(index.is_refreshing());

    let again = index.request_refresh();
    assert!(again.scan.is_none());
    assert!(again.events.is_empty());

    let events = index.finish_refresh(Ok(MediaIndexCache::new()));
    assert!(matches!(events.as_slice(), [IndexEvent::Updated, IndexEvent::Refreshing(false)]));
    assert!(!index.is_refreshing());
}

#[test]
fn a_scan_that_takes_too_long_disables_the_index() {
    let mut index = MediaIndex::new();
    index.update_directories(names(&["/a"]));
    index.request_refresh();
    let events = index.finish_refresh(Err(ScanError::ScanTimeout("/a".to_string())));
    match events.as_slice() {
        [IndexEvent::Error(m), IndexEvent::Refreshing(false)] => {
            assert_eq!(m, "Media directory scan timed out in '/a'")
        }
        other => panic!("unexpected {:?}", other),
    }
    let plan = index.request_refresh();
    assert!(plan.scan.is_none() && plan.events.is_empty());
    let plan = index.request_refresh_force();
    assert_eq!(plan.scan, Some(names(&["/a"])));
    let events = index.finish_refresh(Err(ScanError::FirstFileTimeout("/a".to_string())));
    match events.as_slice() {
        [IndexEvent::Error(m), IndexEvent::Refreshing(false)] => {
            assert_eq!(m, "Media directory scan timed out while accessing '/a'")
        }
        other => panic!("unexpected {:?}", other),
    }
    assert!(index.request_refresh().scan.is_none());
    assert!(index.update_directories(names(&["/b"])));
    assert_eq!(index.request_refresh().scan, Some(names(&["/b"])));
    let events = index.finish_refresh(Err(ScanError::Io));
    match events.as_slice() {
        [IndexEvent::Error(m), IndexEvent::Refreshing(false)] => {
            assert_eq!(m, "Media directory scan failed")
        }
        other => panic!("unexpected {:?}", other),
    }
    assert_eq!(index.request_refresh().scan, Some(names(&["/b"])));
    let events = index.finish_refresh(Err(ScanError::NoDirectories));
    assert!(matches!(events.as_slice(), [IndexEvent::Refreshing(false)]));
}

#[test]
fn resolve_path_rules() {
    let mut cache = MediaIndexCache::new();
    cache.insert("a.mp4", "/m/a.mp4");
    let mut index = MediaIndex::new();
    index.finish_refresh(Ok(cache));
    assert_eq!(index.resolve_path(PRIVACY_HIDDEN_FILENAME, true, &[true]), None);
    assert_eq!(index.resolve_path("/x/a.mp4", true, &[]), Some("/x/a.mp4".to_string()));
    assert_eq!(index.candidates("A.MP4"), names(&["/m/a.mp4"]));
    assert_eq!(index.resolve_path("A.MP4", false, &[true]), Some("/m/a.mp4".to_string()));
    assert_eq!(index.resolve_path("A.MP4", false, &[false]), None);
    assert!(index.is_available("A.MP4", false, &[true]));
    assert!(!index.is_available("b.mp4", false, &[true]));
}

#[test]
fn scan_rules() {
    assert!(matches!(scan_roots(&Vec::new()), Err(ScanError::NoDirectories)));
    assert_eq!(scan_roots(&names(&[" /a ", " "])).unwrap(), names(&["/a"]));
    assert!(check_first_entry("/a", 25_000).is_ok());
    match check_first_entry("/a", 25_001) {
        Err(ScanError::FirstFileTimeout(d)) => assert_eq!(d, "/a"),
        other => panic!("unexpected {:?}", other),
    }
    assert!(check_scan_time("/a", 20_000).is_ok());
    match check_scan_time("/a", 20_001) {
        Err(ScanError::ScanTimeout(d)) => assert_eq!(d, "/a"),
        other => panic!("unexpected {:?}", other),
    }
    let mut cache = MediaIndexCache::new();
    assert!(scan_entry(&mut cache, EntryKind::Directory, Some("d"), "/m/d"));
    assert!(!scan_entry(&mut cache, EntryKind::Other, Some("s"), "/m/s"));
    assert!(!scan_entry(&mut cache, EntryKind::File, None, "/m/\u{fffd}"));
    assert!(cache.candidates("d").is_empty());
    assert!(!scan_entry(&mut cache, EntryKind::File, Some("a.mp4"), "/m/a.mp4"));
    assert_eq!(cache.candidates("a.mp4").len(), 3);
}

fn entry(kind: EntryKind, name: Option<&str>, path: &str, elapsed: u64) -> ScannedEntry {
    ScannedEntry { kind, filename: name.map(|n| n.to_string()), path: path.to_string(), elapsed }
}

fn root(directory: &str, is_dir: bool, entries: Vec<ScannedEntry>) -> ScannedRoot {
    ScannedRoot {
        directory: directory.to_string(),
        is_dir,
        readable: true,
        first_entry_time: 10,
        entries,
    }
}

#[test]
fn a_scan_indexes_the_regular_files_below_the_directories() {
    let tree = vec![
        root(
            "/m",
            true,
            vec![
                entry(EntryKind::Directory, Some("sub"), "/m/sub", 1),
                entry(EntryKind::File, Some("a.mp4"), "/m/a.mp4", 2),
                entry(EntryKind::Other, Some("sock"), "/m/sock", 3),
                entry(EntryKind::File, None, "/m/\u{fffd}", 4),
                entry(EntryKind::File, Some("A.mp4"), "/m/sub/A.mp4", 5),
            ],
        ),
        root("/gone", false, vec![entry(EntryKind::File, Some("x.mp4"), "/gone/x.mp4", 6)]),
        root("/other", true, vec![entry(EntryKind::File, Some("y.mp4"), "/other/y.mp4", 7)]),
        root("/m", true, vec![entry(EntryKind::File, Some("a.mp4"), "/m/a.mp4", 8)]),
    ];
    let cache = scan_directories(&names(&[" /m ", "", "/gone", "/m"]), &tree).unwrap();
    assert_eq!(
        cache.candidates("a.mp4"),
        names(&[
            "/m/a.mp4", "/m/sub/A.mp4", "/m/a.mp4", "/m/a.mp4", "/m/a.mp4", "/m/a.mp4", "/m/a.mp4"
        ])
    );
    assert!(cache.candidates("x.mp4").is_empty());
    assert!(cache.candidates("y.mp4").is_empty());
    assert!(cache.candidates("sock").is_empty());
    assert!(cache.candidates("sub").is_empty());
    let empty = scan_directories(&names(&["/m"]), &Vec::new()).unwrap();
    assert!(empty.candidates("a.mp4").is_empty());
}

#[test]
fn a_scan_ends_on_the_first_thing_that_goes_wrong() {
    assert!(matches!(scan_directories(&Vec::new(), &Vec::new()), Err(ScanError::NoDirectories)));
    let dirs = names(&["/a", "/b"]);
    let mut slow = root("/b", true, Vec::new());
    slow.first_entry_time = 25_001;
    let late = root("/a", true, vec![entry(EntryKind::File, Some("f"), "/a/f", 20_001)]);
    match scan_directories(&dirs, &vec![late, slow]) {
        Err(ScanError::FirstFileTimeout(d)) => assert_eq!(d, "/b"),
        other => panic!("unexpected {:?}", other.map(|_| ())),
    }
    let late = root("/a", true, vec![entry(EntryKind::File, Some("f"), "/a/f", 20_001)]);
    match scan_directories(&dirs, &vec![late, root("/b", true, Vec::new())]) {
        Err(ScanError::ScanTimeout(d)) => assert_eq!(d, "/a"),
        other => panic!("unexpected {:?}", other.map(|_| ())),
    }
    let mut shut = root("/a", true, Vec::new());
    shut.readable = false;
    assert!(matches!(scan_directories(&dirs, &vec![shut]), Err(ScanError::Io)));
    let mut fine = root("/zzz", true, vec![entry(EntryKind::File, Some("f"), "/zzz/f", 99_999)]);
    fine.readable = false;
    fine.first_entry_time = 99_999;
    assert!(scan_directories(&dirs, &vec![fine]).is_ok());
    let edge = root("/a", true, vec![entry(EntryKind::File, Some("f"), "/a/f", 20_000)]);
    let mut edge_root = edge;
    edge_root.first_entry_time = 25_000;
    let cache = scan_directories(&dirs, &vec![edge_root]).unwrap();
    assert_eq!(cache.candidates("f").len(), 3);
}
