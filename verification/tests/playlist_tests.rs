use syncplay_core::playlist::Playlist;

fn names(list: &[&str]) -> Vec<String> {
    list.iter().map(|s| s.to_string()).collect()
}

#[test]
fn test_playlist_add_items() {
    let mut playlist = Playlist::new();
    playlist.add_item("file1.mp4".to_string(), 0);
    playlist.add_item("file2.mp4".to_string(), 0);

    assert_eq!(playlist.len(), 2);
    assert_eq!(playlist.get_current_index(), Some(0));
}

#[test]
fn test_playlist_set_items() {
    let mut playlist = Playlist::new();
    playlist.set_items(names(&["file1.mp4", "file2.mp4", "file3.mp4"]), 0);

    assert_eq!(playlist.len(), 3);
    assert_eq!(playlist.get_current_index(), Some(0));
}

#[test]
fn test_playlist_navigation() {
    let mut playlist = Playlist::new();
    playlist.set_items(names(&["file1.mp4", "file2.mp4", "file3.mp4"]), 0);

    let item = playlist.next(1);
    assert_eq!(item.unwrap().filename, "file2.mp4");
    assert_eq!(playlist.get_current_index(), Some(1));

    playlist.next(2);
    assert_eq!(playlist.get_current_index(), Some(2));

    assert!(playlist.next(3).is_none());
    assert_eq!(playlist.get_current_index(), Some(2));

    let item = playlist.previous(4);
    assert_eq!(item.unwrap().filename, "file2.mp4");
    assert_eq!(playlist.get_current_index(), Some(1));
}

#[test]
fn test_playlist_navigation_with_loop() {
    let mut playlist = Playlist::new();
    playlist.set_items(names(&["file1.mp4", "file2.mp4"]), 0);
    playlist.set_current_index(1, 1);

    let item = playlist.next_with_loop(true, 2).unwrap();
    assert_eq!(item.filename, "file1.mp4");
    assert_eq!(playlist.get_current_index(), Some(0));
}

#[test]
fn test_playlist_remove() {
    let mut playlist = Playlist::new();
    playlist.set_items(names(&["file1.mp4", "file2.mp4", "file3.mp4"]), 0);

    playlist.set_current_index(1, 1);
    playlist.remove_item(1, 2);

    assert_eq!(playlist.len(), 2);
    assert_eq!(playlist.get_current_index(), Some(1));
}

#[test]
fn test_playlist_reorder() {
    let mut playlist = Playlist::new();
    playlist.set_items(names(&["file1.mp4", "file2.mp4", "file3.mp4"]), 0);

    playlist.set_current_index(0, 1);
    playlist.reorder(0, 2, 2);

    let items = playlist.get_items();
    assert_eq!(items[0].filename, "file2.mp4");
    assert_eq!(items[2].filename, "file1.mp4");
    assert_eq!(playlist.get_current_index(), Some(2));
}

#[test]
fn test_playlist_clear() {
    let mut playlist = Playlist::new();
    playlist.set_items(names(&["file1.mp4"]), 0);

    playlist.clear(1);
    assert!(playlist.is_empty());
    assert_eq!(playlist.get_current_index(), None);
}

#[test]
fn new_playlist_is_empty_without_index() {
    let playlist = Playlist::new();
    assert!(playlist.is_empty());
    assert_eq!(playlist.len(), 0);
    assert_eq!(playlist.get_current_index(), None);
    assert!(playlist.get_current_item().is_none());
    assert!(playlist.get_current_filename().is_none());
    assert!(!playlist.can_undo());
}

#[test]
fn index_stays_valid_through_mutations() {
    let mut playlist = Playlist::new();
    let check = |p: &Playlist| match p.get_current_index() {
        None => assert!(p.is_empty()),
        Some(i) => assert!(i < p.len()),
    };
    check(&playlist);
    playlist.add_item("a".to_string(), 1);
    check(&playlist);
    playlist.add_item("b".to_string(), 2);
    playlist.add_item("c".to_string(), 3);
    check(&playlist);
    assert!(playlist.set_current_index(2, 4));
    check(&playlist);
    assert!(playlist.remove_item(2, 5));
    check(&playlist);
    assert_eq!(playlist.get_current_index(), Some(1));
    assert!(playlist.remove_item(0, 6));
    check(&playlist);
    assert!(playlist.remove_item(0, 7));
    check(&playlist);
    assert_eq!(playlist.get_current_index(), None);
    assert!(!playlist.remove_item(0, 8));
    check(&playlist);
    playlist.set_items_with_index(names(&["x", "y"]), Some(9), 9);
    check(&playlist);
    assert_eq!(playlist.get_current_index(), Some(1));
    playlist.set_items_with_index(names(&["x", "y", "z"]), Some(1), 9);
    assert_eq!(playlist.get_current_index(), Some(1));
    playlist.set_items_with_index(names(&["x", "y", "z"]), None, 9);
    assert_eq!(playlist.get_current_index(), Some(0));
    playlist.set_items(Vec::new(), 10);
    check(&playlist);
    assert_eq!(playlist.get_current_index(), None);
}

#[test]
fn set_current_index_rejects_out_of_range() {
    let mut playlist = Playlist::new();
    playlist.set_items(names(&["a", "b"]), 0);
    assert!(!playlist.set_current_index(2, 1));
    assert_eq!(playlist.get_current_index(), Some(0));
    assert!(playlist.set_current_index(1, 1));
    assert_eq!(playlist.get_current_index(), Some(1));
}

#[test]
fn reorder_rejects_out_of_range() {
    let mut playlist = Playlist::new();
    playlist.set_items(names(&["a", "b"]), 0);
    assert!(!playlist.reorder(0, 2, 1));
    assert!(!playlist.reorder(2, 0, 1));
    assert_eq!(playlist.get_item_filenames(), names(&["a", "b"]));
}

#[test]
fn reorder_keeps_the_selected_item() {
    let mut playlist = Playlist::new();
    playlist.set_items(names(&["a", "b", "c", "d"]), 0);
    playlist.set_current_index(2, 1);
    assert!(playlist.reorder(0, 3, 2));
    assert_eq!(playlist.get_item_filenames(), names(&["b", "c", "d", "a"]));
    assert_eq!(playlist.get_current_filename(), Some("c".to_string()));
    assert!(playlist.reorder(3, 0, 3));
    assert_eq!(playlist.get_item_filenames(), names(&["a", "b", "c", "d"]));
    assert_eq!(playlist.get_current_filename(), Some("c".to_string()));
}

#[test]
fn remove_before_current_keeps_the_selected_item() {
    let mut playlist = Playlist::new();
    playlist.set_items(names(&["a", "b", "c"]), 0);
    playlist.set_current_index(2, 1);
    assert!(playlist.remove_item(0, 2));
    assert_eq!(playlist.get_current_index(), Some(1));
    assert_eq!(playlist.get_current_filename(), Some("c".to_string()));
}

#[test]
fn previous_at_start_stays() {
    let mut playlist = Playlist::new();
    playlist.set_items(names(&["a", "b"]), 0);
    assert!(playlist.previous(1).is_none());
    assert_eq!(playlist.get_current_index(), Some(0));
}

#[test]
fn next_without_loop_stops_at_end() {
    let mut playlist = Playlist::new();
    playlist.set_items(names(&["a", "b"]), 0);
    playlist.set_current_index(1, 1);
    assert!(playlist.next_with_loop(false, 2).is_none());
    assert_eq!(playlist.get_current_index(), Some(1));
}

#[test]
fn compute_valid_index_is_in_range() {
    let lists: Vec<Vec<String>> = vec![
        names(&["a", "b", "c"]),
        names(&["c"]),
        names(&["x", "y"]),
        names(&["b", "x"]),
        names(&["x", "a"]),
    ];
    for start in 0..3usize {
        for new_items in &lists {
            let mut playlist = Playlist::new();
            playlist.set_items(names(&["a", "b", "c"]), 0);
            playlist.set_current_index(start, 1);
            let i = playlist.compute_valid_index(new_items);
            assert!(i < new_items.len(), "start {} list {:?} gave {}", start, new_items, i);
        }
    }
}

#[test]
fn compute_valid_index_follows_the_current_file() {
    let mut playlist = Playlist::new();
    playlist.set_items(names(&["a", "b", "c"]), 0);
    playlist.set_current_index(1, 1);
    assert_eq!(playlist.compute_valid_index(&names(&["x", "b", "y"])), 1);
    assert_eq!(playlist.compute_valid_index(&names(&["c", "x"])), 0);
    assert_eq!(playlist.compute_valid_index(&names(&["x", "y"])), 0);
    assert_eq!(playlist.compute_valid_index(&names(&["x", "a", "y"])), 0);
    assert_eq!(playlist.compute_valid_index(&names(&["b"])), 0);
    playlist.set_current_index(2, 2);
    assert_eq!(playlist.compute_valid_index(&names(&["x", "b", "y"])), 2);
    assert_eq!(playlist.compute_valid_index(&names(&["x", "b"])), 1);
}

#[test]
fn compute_valid_index_with_switch_selects_appended_item() {
    let mut playlist = Playlist::new();
    playlist.set_items(names(&["a", "b"]), 0);
    playlist.mark_switch_to_new_item();
    assert_eq!(playlist.compute_valid_index(&names(&["a", "b", "c"])), 2);
    assert_eq!(playlist.compute_valid_index(&names(&["a", "b", "c"])), 0);
}

#[test]
fn compute_valid_index_on_empty_playlist() {
    let mut playlist = Playlist::new();
    assert_eq!(playlist.compute_valid_index(&names(&["a"])), 0);
}

#[test]
fn previous_playlist_buffer_and_undo() {
    let mut playlist = Playlist::new();
    playlist.set_items(names(&["a", "b"]), 0);
    assert!(!playlist.can_undo());
    assert!(playlist.playlist_buffer_is_from_old_room("room"));
    playlist.update_previous_playlist(&names(&["a", "b", "c"]), "room");
    assert_eq!(playlist.previous_playlist(), None);
    playlist.update_previous_playlist(&names(&["a", "b", "c"]), "room");
    assert_eq!(playlist.previous_playlist(), Some(names(&["a", "b"])));
    assert!(!playlist.can_undo());
    playlist.set_items(names(&["a", "b", "c"]), 1);
    assert!(playlist.can_undo());
    assert!(!playlist.playlist_buffer_is_from_old_room("room"));
    assert!(playlist.playlist_buffer_is_from_old_room("other"));
    playlist.update_previous_playlist(&names(&["a", "b", "c"]), "other");
    assert!(!playlist.can_undo());
    assert_eq!(playlist.previous_playlist(), None);
}

#[test]
fn previous_playlist_not_taken_when_announcement_repeats_current() {
    let mut playlist = Playlist::new();
    playlist.set_items(names(&["a"]), 0);
    playlist.update_previous_playlist(&names(&["a"]), "room");
    playlist.update_previous_playlist(&names(&["a"]), "room");
    assert_eq!(playlist.previous_playlist(), None);
}

#[test]
fn index_of_filename_finds_first() {
    let mut playlist = Playlist::new();
    playlist.set_items(names(&["a", "b", "a"]), 0);
    assert_eq!(playlist.index_of_filename("a"), Some(0));
    assert_eq!(playlist.index_of_filename("b"), Some(1));
    assert_eq!(playlist.index_of_filename("c"), None);
}

#[test]
fn not_just_changed_respects_threshold() {
    let mut playlist = Playlist::new();
    playlist.set_items(names(&["a", "b"]), 1000);
    playlist.set_current_index(1, 1000);
    assert!(!playlist.not_just_changed(8000, 5000));
    assert!(playlist.not_just_changed(8000, 9001));
}

#[test]
fn queued_filename_round_trip() {
    let mut playlist = Playlist::new();
    assert_eq!(playlist.get_queued_index_filename(), None);
    playlist.set_queued_index_filename(Some("b".to_string()));
    assert_eq!(playlist.get_queued_index_filename(), Some("b".to_string()));
    playlist.set_queued_index_filename(None);
    assert_eq!(playlist.get_queued_index_filename(), None);
}
