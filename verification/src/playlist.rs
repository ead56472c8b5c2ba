//! The shared playlist: an ordered list of file names, the item that is
//! selected, and the list as it was before the last change.
use crate::text::{
    clone_opt_text, clone_texts, first_index_of, index_of_text, lemma_first_index_of, opt_view,
    same_texts, texts_equal,
};
use vstd::prelude::*;

verus! {

/// One entry of the playlist. Durations are in milliseconds.
#[derive(Debug)]
pub struct PlaylistItem {
    pub filename: String,
    pub duration: Option<i64>,
}

pub struct PlaylistItemView {
    pub filename: Seq<char>,
    pub duration: Option<i64>,
}

impl View for PlaylistItem {
    type V = PlaylistItemView;

    open spec fn view(&self) -> PlaylistItemView {
        PlaylistItemView { filename: self.filename@, duration: self.duration }
    }
}

impl Clone for PlaylistItem {
    fn clone(&self) -> (r: Self)
        ensures
            r@ == self@,
    {
        PlaylistItem { filename: self.filename.clone(), duration: self.duration }
    }
}

impl PlaylistItem {
    pub fn new(filename: String) -> (r: Self)
        ensures
            r@ == (PlaylistItemView { filename: filename@, duration: None }),
    {
        Self { filename, duration: None }
    }

    pub fn with_duration(filename: String, duration: i64) -> (r: Self)
        ensures
            r@ == (PlaylistItemView { filename: filename@, duration: Some(duration) }),
    {
        Self { filename, duration: Some(duration) }
    }
}

/// The playlist. Times are readings of a monotonic clock in milliseconds.
pub struct Playlist {
    items: Vec<PlaylistItem>,
    current_index: Option<usize>,
    queued_index_filename: Option<String>,
    previous_playlist: Option<Vec<String>>,
    previous_playlist_room: Option<String>,
    switch_to_new_item: bool,
    last_index_change: Option<u64>,
}

pub struct PlaylistView {
    pub items: Seq<PlaylistItemView>,
    pub current_index: Option<int>,
    pub queued_index_filename: Option<Seq<char>>,
    pub previous_playlist: Option<Seq<Seq<char>>>,
    pub previous_playlist_room: Option<Seq<char>>,
    pub switch_to_new_item: bool,
    pub last_index_change: Option<u64>,
}

pub open spec fn item_views(items: Seq<PlaylistItem>) -> Seq<PlaylistItemView> {
    Seq::new(items.len(), |i: int| items[i]@)
}

/// The items that bare file names make: each without a duration.
pub open spec fn items_of(names: Seq<Seq<char>>) -> Seq<PlaylistItemView> {
    Seq::new(names.len(), |i: int| PlaylistItemView { filename: names[i], duration: None })
}

impl PlaylistView {
    pub open spec fn names(self) -> Seq<Seq<char>> {
        Seq::new(self.items.len(), |i: int| self.items[i].filename)
    }

    /// The selected index is an index of the list, and one is selected
    /// exactly where the list is not empty.
    pub open spec fn index_valid(self) -> bool {
        match self.current_index {
            Some(i) => 0 <= i < self.items.len(),
            None => self.items.len() == 0,
        }
    }

    /// The index that a new list of the given length selects: the one asked
    /// for, or the last where that one lies beyond the list; the first where
    /// none is asked for; none for an empty list.
    pub open spec fn index_for(len: int, index: Option<int>) -> Option<int> {
        if len <= 0 {
            None
        } else {
            match index {
                Some(i) => if i < 0 {
                    Some(0)
                } else if i < len {
                    Some(i)
                } else {
                    Some(len - 1)
                },
                None => Some(0),
            }
        }
    }

    /// The index selected after the item at `index` has been removed.
    pub open spec fn index_after_removal(self, index: int) -> Option<int> {
        match self.current_index {
            Some(c) => if c == index {
                if self.items.len() == 1 {
                    None
                } else if c >= self.items.len() - 1 {
                    Some(self.items.len() - 2)
                } else {
                    Some(c)
                }
            } else if c > index {
                Some(c - 1)
            } else {
                Some(c)
            },
            None => None,
        }
    }

    /// The index selected after the item at `from` has moved to `to`: the
    /// index at which the item that was selected now stands.
    pub open spec fn index_after_move(self, from: int, to: int) -> Option<int> {
        match self.current_index {
            Some(c) => if c == from {
                Some(to)
            } else if from < c && to >= c {
                Some(c - 1)
            } else if from > c && to <= c {
                Some(c + 1)
            } else {
                Some(c)
            },
            None => None,
        }
    }

    /// The first index from `i` on whose name stands in `new`, as the index
    /// of that name in `new`; -1 where there is none.
    pub open spec fn forward_hit(self, new: Seq<Seq<char>>, i: int) -> int
        decreases self.items.len() - i,
    {
        if i < 0 || i >= self.items.len() {
            -1
        } else if first_index_of(new, self.items[i].filename) >= 0 {
            first_index_of(new, self.items[i].filename)
        } else {
            self.forward_hit(new, i + 1)
        }
    }

    /// The last index from `i` down to 1 whose name stands in `new`, as the
    /// index of that name in `new`; -1 where there is none.
    pub open spec fn backward_hit(self, new: Seq<Seq<char>>, i: int) -> int
        decreases i,
    {
        if i <= 0 {
            -1
        } else if i < self.items.len() && first_index_of(new, self.items[i].filename) >= 0 {
            first_index_of(new, self.items[i].filename)
        } else {
            self.backward_hit(new, i - 1)
        }
    }

    /// The index to select in a list that replaces this one. With the switch
    /// to a new item armed it is the length of this list. Else the selected
    /// item is looked for in the new list, then the items after it, then the
    /// items before it down to the second, and of one found before it the
    /// successor is taken where there is one; 0 where none is found.
    pub open spec fn valid_index(self, new: Seq<Seq<char>>) -> int {
        if self.switch_to_new_item {
            self.items.len() as int
        } else if self.current_index.is_none() || new.len() <= 1 {
            0
        } else {
            let start = self.current_index.unwrap();
            let f = self.forward_hit(new, start);
            let b = self.backward_hit(new, start);
            if f >= 0 {
                f
            } else if b >= 0 {
                if b < new.len() - 1 {
                    b + 1
                } else {
                    b
                }
            } else {
                0
            }
        }
    }

    /// The buffer was taken in another room than `room`, or in none.
    pub open spec fn buffer_from_old_room(self, room: Seq<char>) -> bool {
        match self.previous_playlist_room {
            Some(stored) => stored != room,
            None => true,
        }
    }

    pub open spec fn undo_possible(self) -> bool {
        match self.previous_playlist {
            Some(p) => p != self.names(),
            None => false,
        }
    }
}

impl View for Playlist {
    type V = PlaylistView;

    closed spec fn view(&self) -> PlaylistView {
        PlaylistView {
            items: item_views(self.items@),
            current_index: match self.current_index {
                Some(i) => Some(i as int),
                None => None,
            },
            queued_index_filename: opt_view(self.queued_index_filename),
            previous_playlist: match self.previous_playlist {
                Some(p) => Some(p.deep_view()),
                None => None,
            },
            previous_playlist_room: opt_view(self.previous_playlist_room),
            switch_to_new_item: self.switch_to_new_item,
            last_index_change: self.last_index_change,
        }
    }
}

fn items_from(names: Vec<String>) -> (r: Vec<PlaylistItem>)
    ensures
        item_views(r@) == items_of(names.deep_view()),
{
    let mut r: Vec<PlaylistItem> = Vec::new();
    let mut i: usize = 0;
    while i < names.len()
        invariant
            i <= names.len(),
            r.len() == i,
            forall|j: int|
                0 <= j < i ==> r@[j]@ == (PlaylistItemView {
                    filename: names@[j]@,
                    duration: None,
                }),
        decreases names.len() - i,
    {
        r.push(PlaylistItem::new(names[i].clone()));
        i = i + 1;
    }
    assert(item_views(r@) =~= items_of(names.deep_view()));
    r
}

impl Playlist {
    /// The invariant of the playlist.
    pub open spec fn wf(&self) -> bool {
        self@.index_valid()
    }

    pub fn new() -> (r: Self)
        ensures
            r.wf(),
            r@ == (PlaylistView {
                items: Seq::empty(),
                current_index: None,
                queued_index_filename: None,
                previous_playlist: None,
                previous_playlist_room: None,
                switch_to_new_item: false,
                last_index_change: None,
            }),
    {
        let r = Self {
            items: Vec::new(),
            current_index: None,
            queued_index_filename: None,
            previous_playlist: None,
            previous_playlist_room: None,
            switch_to_new_item: false,
            last_index_change: None,
        };
        assert(r@.items =~= Seq::empty());
        r
    }

    pub fn get_items(&self) -> (r: Vec<PlaylistItem>)
        ensures
            item_views(r@) == self@.items,
    {
        let mut r: Vec<PlaylistItem> = Vec::new();
        let mut i: usize = 0;
        while i < self.items.len()
            invariant
                i <= self.items.len(),
                r.len() == i,
                forall|j: int| 0 <= j < i ==> r@[j]@ == self.items@[j]@,
            decreases self.items.len() - i,
        {
            r.push(self.items[i].clone());
            i = i + 1;
        }
        assert(item_views(r@) =~= item_views(self.items@));
        r
    }

    pub fn get_item_filenames(&self) -> (r: Vec<String>)
        ensures
            r.deep_view() == self@.names(),
    {
        let mut r: Vec<String> = Vec::new();
        let mut i: usize = 0;
        while i < self.items.len()
            invariant
                i <= self.items.len(),
                r.len() == i,
                forall|j: int| 0 <= j < i ==> r@[j]@ == self.items@[j].filename@,
            decreases self.items.len() - i,
        {
            r.push(self.items[i].filename.clone());
            i = i + 1;
        }
        assert(r.deep_view() =~= self@.names());
        r
    }

    pub fn get_current_index(&self) -> (r: Option<usize>)
        ensures
            match r {
                Some(i) => self@.current_index == Some(i as int),
                None => self@.current_index.is_none(),
            },
    {
        self.current_index
    }

    pub fn get_current_item(&self) -> (r: Option<PlaylistItem>)
        requires
            self.wf(),
        ensures
            opt_view(r) == (match self@.current_index {
                Some(i) => Some(self@.items[i]),
                None => None,
            }),
    {
        match self.current_index {
            Some(i) => Some(self.items[i].clone()),
            None => None,
        }
    }

    pub fn get_current_filename(&self) -> (r: Option<String>)
        requires
            self.wf(),
        ensures
            opt_view(r) == (match self@.current_index {
                Some(i) => Some(self@.items[i].filename),
                None => None,
            }),
    {
        match self.current_index {
            Some(i) => Some(self.items[i].filename.clone()),
            None => None,
        }
    }

    pub fn get_queued_index_filename(&self) -> (r: Option<String>)
        ensures
            opt_view(r) == self@.queued_index_filename,
    {
        clone_opt_text(&self.queued_index_filename)
    }

    pub fn set_queued_index_filename(&mut self, filename: Option<String>)
        ensures
            final(self)@ == (PlaylistView {
                queued_index_filename: opt_view(filename),
                ..old(self)@
            }),
            final(self).wf() == old(self).wf(),
    {
        self.queued_index_filename = filename;
    }

    pub fn mark_switch_to_new_item(&mut self)
        ensures
            final(self)@ == (PlaylistView { switch_to_new_item: true, ..old(self)@ }),
            final(self).wf() == old(self).wf(),
    {
        self.switch_to_new_item = true;
    }

    /// Notes that a file was opened at time `now`.
    pub fn opened_file(&mut self, now: u64)
        ensures
            final(self)@ == (PlaylistView { last_index_change: Some(now), ..old(self)@ }),
            final(self).wf() == old(self).wf(),
    {
        self.last_index_change = Some(now);
    }

    /// Whether more than `threshold` milliseconds have passed at time `now`
    /// since the selection last changed; true where it never changed.
    pub fn not_just_changed(&self, threshold: u64, now: u64) -> (r: bool)
        ensures
            r == (match self@.last_index_change {
                Some(t) => now - t > threshold,
                None => true,
            }),
    {
        match self.last_index_change {
            Some(t) => now > t && now - t > threshold,
            None => true,
        }
    }

    /// Replaces the list and selects its first item.
    pub fn set_items(&mut self, items: Vec<String>, now: u64)
        ensures
            final(self).wf(),
            final(self)@ == (PlaylistView {
                items: items_of(items.deep_view()),
                current_index: PlaylistView::index_for(items.len() as int, None),
                last_index_change: if items.len() > 0 {
                    Some(now)
                } else {
                    old(self)@.last_index_change
                },
                ..old(self)@
            }),
    {
        let n = items.len();
        self.items = items_from(items);
        if n > 0 {
            self.current_index = Some(0);
            self.last_index_change = Some(now);
        } else {
            self.current_index = None;
        }
    }

    /// Replaces the list and selects the item at `index` where there is one,
    /// else the first.
    pub fn set_items_with_index(&mut self, items: Vec<String>, index: Option<usize>, now: u64)
        ensures
            final(self).wf(),
            final(self)@ == old(self)@.replaced(
                items.deep_view(),
                match index {
                    Some(i) => Some(i as int),
                    None => None,
                },
                now,
            ),
    {
        assert(items.deep_view().len() == items@.len());
        let len = items.len();
        self.items = items_from(items);
        let next_index = if len == 0 {
            None
        } else {
            match index {
                Some(idx) => if idx < len {
                    Some(idx)
                } else {
                    Some(len - 1)
                },
                None => Some(0),
            }
        };
        if self.current_index != next_index {
            self.current_index = next_index;
            self.last_index_change = Some(now);
        }
    }

    /// Adds an item at the end; the first item of a list is selected.
    pub fn add_item(&mut self, filename: String, now: u64)
        requires
            old(self).wf(),
        ensures
            final(self).wf(),
            final(self)@ == (PlaylistView {
                items: old(self)@.items.push(
                    PlaylistItemView { filename: filename@, duration: None },
                ),
                current_index: if old(self)@.items.len() == 0 {
                    Some(0)
                } else {
                    old(self)@.current_index
                },
                last_index_change: if old(self)@.items.len() == 0 {
                    Some(now)
                } else {
                    old(self)@.last_index_change
                },
                ..old(self)@
            }),
    {
        self.items.push(PlaylistItem::new(filename));
        if self.items.len() == 1 {
            self.current_index = Some(0);
            self.last_index_change = Some(now);
        }
        assert(self@.items =~= old(self)@.items.push(
            PlaylistItemView { filename: filename@, duration: None },
        ));
    }

    /// Removes the item at `index`. The item that was selected stays
    /// selected; where it was the one removed, the item that took its place
    /// is, or the last.
    pub fn remove_item(&mut self, index: usize, now: u64) -> (r: bool)
        requires
            old(self).wf(),
        ensures
            final(self).wf(),
            r == (index < old(self)@.items.len()),
            !r ==> final(self)@ == old(self)@,
            r ==> final(self)@ == (PlaylistView {
                items: old(self)@.items.remove(index as int),
                current_index: old(self)@.index_after_removal(index as int),
                last_index_change: if final(self)@.current_index != Some(index as int) {
                    Some(now)
                } else {
                    old(self)@.last_index_change
                },
                ..old(self)@
            }),
    {
        if index >= self.items.len() {
            return false;
        }
        self.items.remove(index);
        match self.current_index {
            Some(current_idx) => {
                if current_idx == index {
                    if self.items.len() == 0 {
                        self.current_index = None;
                    } else if current_idx >= self.items.len() {
                        self.current_index = Some(self.items.len() - 1);
                    }
                } else if current_idx > index {
                    self.current_index = Some(current_idx - 1);
                }
            },
            None => {},
        }
        let unchanged = match self.current_index {
            Some(c) => c == index,
            None => false,
        };
        if !unchanged {
            self.last_index_change = Some(now);
        }
        assert(self@.items =~= old(self)@.items.remove(index as int));
        true
    }

    /// Selects the item at `index`.
    pub fn set_current_index(&mut self, index: usize, now: u64) -> (r: bool)
        requires
            old(self).wf(),
        ensures
            final(self).wf(),
            r == (index < old(self)@.items.len()),
            final(self)@ == old(self)@.selected(index as int, now),
    {
        if index >= self.items.len() {
            return false;
        }
        let same = match self.current_index {
            Some(c) => c == index,
            None => false,
        };
        if !same {
            self.current_index = Some(index);
            self.last_index_change = Some(now);
        }
        true
    }

    pub fn index_of_filename(&self, filename: &str) -> (r: Option<usize>)
        ensures
            match r {
                Some(i) => first_index_of(self@.names(), filename@) == i,
                None => first_index_of(self@.names(), filename@) == -1,
            },
    {
        let names = self.get_item_filenames();
        index_of_text(names.as_slice(), filename)
    }

    /// The index to select in a list that replaces this one. Disarms the
    /// switch to a new item.
    pub fn compute_valid_index(&mut self, new_playlist: &[String]) -> (r: usize)
        requires
            old(self).wf(),
        ensures
            final(self).wf(),
            r == old(self)@.valid_index(new_playlist.deep_view()),
            final(self)@ == (PlaylistView { switch_to_new_item: false, ..old(self)@ }),
            !old(self)@.switch_to_new_item && new_playlist@.len() > 0 ==> r < new_playlist@.len(),
    {
        let ghost new = new_playlist.deep_view();
        let ghost v = self@;
        if self.switch_to_new_item {
            self.switch_to_new_item = false;
            return self.items.len();
        }
        let start_index = match self.current_index {
            Some(i) => i,
            None => {
                return 0;
            },
        };
        if new_playlist.len() <= 1 {
            return 0;
        }
        let names = self.get_item_filenames();
        assert(names.deep_view().len() == names@.len());
        let mut i: usize = start_index;
        while i < names.len()
            invariant
                start_index <= i <= names.len(),
                self@ == v,
                v == old(self)@,
                !v.switch_to_new_item,
                v.current_index == Some(start_index as int),
                v.index_valid(),
                new.len() > 1,
                new.len() == new_playlist@.len(),
                names.deep_view() == v.names(),
                names.len() == v.items.len(),
                new == new_playlist.deep_view(),
                v.forward_hit(new, start_index as int) == v.forward_hit(new, i as int),
            decreases names.len() - i,
        {
            assert(names.deep_view()[i as int] == names@[i as int]@);
            assert(v.names()[i as int] == v.items[i as int].filename);
            proof {
                lemma_first_index_of(new, v.items[i as int].filename);
            }
            match index_of_text(new_playlist, names[i].as_str()) {
                Some(valid_index) => {
                    return valid_index;
                },
                None => {},
            }
            i = i + 1;
        }
        let mut i: usize = start_index;
        while i > 0
            invariant
                i <= start_index < names.len(),
                self@ == v,
                v == old(self)@,
                !v.switch_to_new_item,
                v.current_index == Some(start_index as int),
                v.index_valid(),
                v.forward_hit(new, start_index as int) == -1,
                names.deep_view() == v.names(),
                names.len() == v.items.len(),
                new == new_playlist.deep_view(),
                new.len() == new_playlist@.len(),
                new.len() > 1,
                v.backward_hit(new, start_index as int) == v.backward_hit(new, i as int),
            decreases i,
        {
            assert(names.deep_view()[i as int] == names@[i as int]@);
            assert(v.names()[i as int] == v.items[i as int].filename);
            proof {
                lemma_first_index_of(new, v.items[i as int].filename);
            }
            match index_of_text(new_playlist, names[i].as_str()) {
                Some(valid_index) => {
                    if valid_index < new_playlist.len() - 1 {
                        return valid_index + 1;
                    }
                    return valid_index;
                },
                None => {},
            }
            i = i - 1;
        }
        0
    }

    /// Moves the selection to the next item; nothing happens at the end.
    pub fn next(&mut self, now: u64) -> (r: Option<PlaylistItem>)
        requires
            old(self).wf(),
        ensures
            final(self).wf(),
            final(self)@ == old(self)@.stepped(old(self)@.next_index(false), now),
            opt_view(r) == old(self)@.item_at(old(self)@.next_index(false)),
    {
        self.next_with_loop(false, now)
    }

    /// Moves the selection to the next item, from the last to the first
    /// where `loop_at_end` is set.
    pub fn next_with_loop(&mut self, loop_at_end: bool, now: u64) -> (r: Option<PlaylistItem>)
        requires
            old(self).wf(),
        ensures
            final(self).wf(),
            final(self)@ == old(self)@.stepped(old(self)@.next_index(loop_at_end), now),
            opt_view(r) == old(self)@.item_at(old(self)@.next_index(loop_at_end)),
    {
        if self.items.len() == 0 {
            return None;
        }
        let next_index = match self.current_index {
            Some(idx) => if idx + 1 < self.items.len() {
                idx + 1
            } else if loop_at_end {
                0
            } else {
                return None;
            },
            None => 0,
        };
        self.current_index = Some(next_index);
        self.last_index_change = Some(now);
        Some(self.items[next_index].clone())
    }

    /// Moves the selection to the item before; nothing happens at the start.
    pub fn previous(&mut self, now: u64) -> (r: Option<PlaylistItem>)
        requires
            old(self).wf(),
        ensures
            final(self).wf(),
            final(self)@ == old(self)@.stepped(old(self)@.previous_index(), now),
            opt_view(r) == old(self)@.item_at(old(self)@.previous_index()),
    {
        if self.items.len() == 0 {
            return None;
        }
        let prev_index = match self.current_index {
            Some(idx) => if idx == 0 {
                return None;
            } else {
                idx - 1
            },
            None => {
                return None;
            },
        };
        self.current_index = Some(prev_index);
        self.last_index_change = Some(now);
        Some(self.items[prev_index].clone())
    }

    /// Empties the list.
    pub fn clear(&mut self, now: u64)
        ensures
            final(self).wf(),
            final(self)@ == (PlaylistView {
                items: Seq::empty(),
                current_index: None,
                last_index_change: Some(now),
                queued_index_filename: None,
                ..old(self)@
            }),
    {
        self.items.clear();
        self.current_index = None;
        self.last_index_change = Some(now);
        self.queued_index_filename = None;
        assert(self@.items =~= Seq::empty());
    }

    pub fn len(&self) -> (r: usize)
        ensures
            r == self@.items.len(),
    {
        self.items.len()
    }

    pub fn is_empty(&self) -> (r: bool)
        ensures
            r == (self@.items.len() == 0),
    {
        self.items.len() == 0
    }

    /// Moves the item at `from_index` to `to_index`; the item that was
    /// selected stays selected.
    pub fn reorder(&mut self, from_index: usize, to_index: usize, now: u64) -> (r: bool)
        requires
            old(self).wf(),
        ensures
            final(self).wf(),
            r == (from_index < old(self)@.items.len() && to_index < old(self)@.items.len()),
            !r || from_index == to_index ==> final(self)@ == old(self)@,
            r && from_index != to_index ==> final(self)@ == (PlaylistView {
                items: old(self)@.items.remove(from_index as int).insert(
                    to_index as int,
                    old(self)@.items[from_index as int],
                ),
                current_index: old(self)@.index_after_move(from_index as int, to_index as int),
                last_index_change: Some(now),
                ..old(self)@
            }),
    {
        if from_index >= self.items.len() || to_index >= self.items.len() {
            return false;
        }
        if from_index == to_index {
            return true;
        }
        let item = self.items.remove(from_index);
        self.items.insert(to_index, item);
        match self.current_index {
            Some(current_idx) => {
                if current_idx == from_index {
                    self.current_index = Some(to_index);
                } else if from_index < current_idx && to_index >= current_idx {
                    self.current_index = Some(current_idx - 1);
                } else if from_index > current_idx && to_index <= current_idx {
                    self.current_index = Some(current_idx + 1);
                }
            },
            None => {},
        }
        self.last_index_change = Some(now);
        assert(self@.items =~= old(self)@.items.remove(from_index as int).insert(
            to_index as int,
            old(self)@.items[from_index as int],
        ));
        true
    }

    /// Keeps the list as it is now for a later undo, before `new_playlist`
    /// replaces it in `room`. A buffer from another room is dropped and the
    /// room noted; else the list is kept where it differs from the buffer and
    /// from the new list.
    pub fn update_previous_playlist(&mut self, new_playlist: &[String], room: &str)
        ensures
            final(self).wf() == old(self).wf(),
            final(self)@ == old(self)@.buffered(new_playlist.deep_view(), room@),
    {
        if self.playlist_buffer_is_from_old_room(room) {
            self.previous_playlist = None;
            self.previous_playlist_room = Some(crate::text::copy_str(room));
            return ;
        }
        let current_items = self.get_item_filenames();
        let same_as_buffer = match &self.previous_playlist {
            Some(p) => same_texts(p.as_slice(), current_items.as_slice()),
            None => false,
        };
        if !same_as_buffer && !same_texts(current_items.as_slice(), new_playlist) {
            self.previous_playlist = Some(current_items);
        }
    }

    pub fn previous_playlist(&self) -> (r: Option<Vec<String>>)
        ensures
            match r {
                Some(p) => self@.previous_playlist == Some(p.deep_view()),
                None => self@.previous_playlist.is_none(),
            },
    {
        match &self.previous_playlist {
            Some(p) => Some(clone_texts(p.as_slice())),
            None => None,
        }
    }

    pub fn playlist_buffer_is_from_old_room(&self, room: &str) -> (r: bool)
        ensures
            r == self@.buffer_from_old_room(room@),
    {
        match &self.previous_playlist_room {
            Some(stored) => !texts_equal(stored, room),
            None => true,
        }
    }

    /// Whether there is an earlier list to go back to.
    pub fn can_undo(&self) -> (r: bool)
        ensures
            r == self@.undo_possible(),
    {
        let current_items = self.get_item_filenames();
        match &self.previous_playlist {
            Some(p) => !same_texts(p.as_slice(), current_items.as_slice()),
            None => false,
        }
    }
}

impl PlaylistView {
    /// The index after the selected one: the first where nothing is
    /// selected, the first again after the last where `loop_at_end` is set.
    pub open spec fn next_index(self, loop_at_end: bool) -> Option<int> {
        if self.items.len() == 0 {
            None
        } else {
            match self.current_index {
                Some(i) => if i + 1 < self.items.len() {
                    Some(i + 1)
                } else if loop_at_end {
                    Some(0)
                } else {
                    None
                },
                None => Some(0),
            }
        }
    }

    pub open spec fn previous_index(self) -> Option<int> {
        match self.current_index {
            Some(i) => if i > 0 && self.items.len() > 0 {
                Some(i - 1)
            } else {
                None
            },
            None => None,
        }
    }

    pub open spec fn item_at(self, index: Option<int>) -> Option<PlaylistItemView> {
        match index {
            Some(i) => Some(self.items[i]),
            None => None,
        }
    }

    /// The playlist with the list replaced and the item at `index` selected,
    /// or the last where `index` lies beyond the list, or the first where
    /// no index is given.
    pub open spec fn replaced(self, files: Seq<Seq<char>>, index: Option<int>, now: u64) -> PlaylistView {
        PlaylistView {
            items: items_of(files),
            current_index: PlaylistView::index_for(files.len() as int, index),
            last_index_change: if PlaylistView::index_for(files.len() as int, index)
                != self.current_index {
                Some(now)
            } else {
                self.last_index_change
            },
            ..self
        }
    }

    /// The playlist with the item at `index` selected, where there is one.
    pub open spec fn selected(self, index: int, now: u64) -> PlaylistView {
        if 0 <= index < self.items.len() {
            PlaylistView {
                current_index: Some(index),
                last_index_change: if self.current_index != Some(index) {
                    Some(now)
                } else {
                    self.last_index_change
                },
                ..self
            }
        } else {
            self
        }
    }

    /// The playlist with the list as it is kept for a later undo, before
    /// `new` replaces it in `room`.
    pub open spec fn buffered(self, new: Seq<Seq<char>>, room: Seq<char>) -> PlaylistView {
        if self.buffer_from_old_room(room) {
            PlaylistView { previous_playlist: None, previous_playlist_room: Some(room), ..self }
        } else if self.previous_playlist != Some(self.names()) && self.names() != new {
            PlaylistView { previous_playlist: Some(self.names()), ..self }
        } else {
            self
        }
    }

    /// The name of the selected item.
    pub open spec fn current_name(self) -> Option<Seq<char>> {
        match self.current_index {
            Some(i) => Some(self.items[i].filename),
            None => None,
        }
    }

    /// The playlist after the selection has moved to `target` at time `now`;
    /// unchanged where there is no target.
    pub open spec fn stepped(self, target: Option<int>, now: u64) -> PlaylistView {
        match target {
            Some(i) => PlaylistView {
                current_index: Some(i),
                last_index_change: Some(now),
                ..self
            },
            None => self,
        }
    }
}

impl PlaylistView {
    /// The index that is selected when the user's own change puts `new` in
    /// the place of the list: none in an empty list, the first where the
    /// selection starts anew, else the valid index.
    pub open spec fn local_index(self, new: Seq<Seq<char>>, reset_index: bool) -> Option<int> {
        if new.len() == 0 {
            None
        } else if reset_index {
            Some(0)
        } else {
            Some(self.valid_index(new))
        }
    }

    /// The playlist after the user's own change has put `new` in its place.
    pub open spec fn changed_locally(
        self,
        new: Seq<Seq<char>>,
        room: Seq<char>,
        reset_index: bool,
        now: u64,
    ) -> PlaylistView {
        let p1 = self.before_change(new, room);
        let p2 = PlaylistView {
            switch_to_new_item: p1.switch_to_new_item && (new.len() == 0 || reset_index),
            ..p1
        };
        p2.replaced(new, p1.local_index(new, reset_index), now)
    }

    /// The playlist as it is kept for a later undo before the user's own
    /// change, with no item noted as being opened.
    pub open spec fn before_change(self, new: Seq<Seq<char>>, room: Seq<char>) -> PlaylistView {
        PlaylistView { queued_index_filename: None, ..self }.buffered(new, room)
    }
}

impl Playlist {
    /// Puts `new_items` in the place of the list because the user has
    /// changed it; gives the index that is selected.
    pub fn change_locally(&mut self, new_items: &[String], room: &str, reset_index: bool, now: u64) -> (r:
        Option<usize>)
        requires
            old(self).wf(),
        ensures
            final(self).wf(),
            final(self)@ == old(self)@.changed_locally(
                new_items.deep_view(),
                room@,
                reset_index,
                now,
            ),
            (match r {
                Some(i) => Some(i as int),
                None => None,
            }) == old(self)@.before_change(new_items.deep_view(), room@).local_index(
                new_items.deep_view(),
                reset_index,
            ),
    {
        assert(new_items.deep_view().len() == new_items@.len());
        self.set_queued_index_filename(None);
        self.update_previous_playlist(new_items, room);
        let new_index = if new_items.len() == 0 {
            None
        } else if reset_index {
            Some(0)
        } else {
            Some(self.compute_valid_index(new_items))
        };
        self.set_items_with_index(clone_texts(new_items), new_index, now);
        new_index
    }
}

} // verus!
