//! What the user asks of the shared playlist.
use crate::bridge::shuffle_names;
use crate::commands::outcome_view;
use crate::messages::{ClientMessage, ClientMessageView};
use crate::player_loop::{index_sent, index_sent_effects, loops_at_end, send_playlist_index};
use crate::playlist::PlaylistView;
use crate::readiness::{is_playing_music, playlists_shared, shared_playlists_enabled};
use crate::session::{emit, fx, Effect, EffectView, Session, SessionView};
use crate::set_message::{apply_playlist_index_from_server, index_applied, index_applied_effects};
use crate::text::{
    all_digits, copy_str, digits_value, drop_empty, from_chars, join, joined, only_digits, opt_view,
    parse_digits, same_chars, slice, split, split_on, text2, to_chars, to_strings, trim, trimmed,
    views, without_empty,
};
use vstd::prelude::*;

verus! {

/// An item of the playlist as the user interface is told of it.
#[derive(Debug)]
pub struct PlaylistItemInfo {
    pub filename: String,
    pub path: Option<String>,
    pub available: bool,
}

/// What is told of an item of the playlist: where it is found, and that it
/// is available where it is found. `found` is the URL itself for a URL, else
/// the path of the file of that name in the media directories.
pub fn playlist_item_info(filename: String, found: Option<String>) -> (r: PlaylistItemInfo)
    ensures
        r.filename@ == filename@,
        opt_view(r.path) == opt_view(found),
        r.available == found.is_some(),
{
    let available = found.is_some();
    PlaylistItemInfo { filename, path: found, available }
}

/// The index that a text names: a string of digits, with `+` before it or
/// not, that denotes an index below `len`.
pub open spec fn index_named(text: Seq<char>, len: int) -> Option<int> {
    let digits = if text.len() > 0 && text[0] == '+' {
        text.skip(1)
    } else {
        text
    };
    if digits.len() > 0 && all_digits(digits) && digits_value(digits) < len {
        Some(digits_value(digits) as int)
    } else {
        None
    }
}

pub fn parse_index(text: &str, len: usize) -> (r: Option<usize>)
    ensures
        (match r {
            Some(i) => Some(i as int),
            None => None,
        }) == index_named(text@, len as int),
{
    let chars = to_chars(text);
    let digits = if chars.len() > 0 && chars[0] == '+' {
        let d = slice(&chars, 1, chars.len());
        assert(d@ =~= chars@.skip(1));
        d
    } else {
        chars
    };
    if digits.len() == 0 || !only_digits(&digits) || len == 0 {
        return None;
    }
    match parse_digits(&digits, (len - 1) as u64) {
        Some(n) => Some(n as usize),
        None => None,
    }
}

/// The index after the selected one, as the user asks for it.
pub open spec fn next_index_of(s: SessionView) -> Result<int, Seq<char>> {
    let current = match s.playlist.current_index {
        Some(i) => i,
        None => 0,
    };
    if s.playlist.items.len() == 0 {
        Err("Playlist is empty"@)
    } else if current + 1 < s.playlist.items.len() {
        Ok(current + 1)
    } else if loops_at_end(s) {
        Ok(0)
    } else {
        Err("Already at end of playlist"@)
    }
}

pub open spec fn index_outcome(r: Result<usize, String>) -> Result<int, Seq<char>> {
    match r {
        Ok(i) => Ok(i as int),
        Err(e) => Err(e@),
    }
}

pub fn next_index(state: &Session) -> (r: Result<usize, String>)
    requires
        state.wf(),
    ensures
        index_outcome(r) == next_index_of(state@),
{
    let n = state.playlist.len();
    if n == 0 {
        return Err(copy_str("Playlist is empty"));
    }
    let current = match state.playlist.get_current_index() {
        Some(i) => i,
        None => 0,
    };
    if current + 1 < n {
        return Ok(current + 1);
    }
    if state.config.loop_at_end_of_playlist || is_playing_music(state) {
        return Ok(0);
    }
    Err(copy_str("Already at end of playlist"))
}

/// The index before the selected one, as the user asks for it.
pub open spec fn previous_index_of(s: SessionView) -> Result<int, Seq<char>> {
    let current = match s.playlist.current_index {
        Some(i) => i,
        None => 0,
    };
    if s.playlist.items.len() == 0 {
        Err("Playlist is empty"@)
    } else if current == 0 {
        Err("Already at start of playlist"@)
    } else {
        Ok(current - 1)
    }
}

pub fn previous_index(state: &Session) -> (r: Result<usize, String>)
    ensures
        index_outcome(r) == previous_index_of(state@),
{
    if state.playlist.len() == 0 {
        return Err(copy_str("Playlist is empty"));
    }
    let current = match state.playlist.get_current_index() {
        Some(i) => i,
        None => 0,
    };
    if current == 0 {
        return Err(copy_str("Already at start of playlist"));
    }
    Ok(current - 1)
}

/// The session with the user's own list in the place of the playlist.
#[verifier::opaque]
pub open spec fn list_installed(s: SessionView, new: Seq<Seq<char>>, reset_index: bool, now: u64) -> SessionView {
    SessionView {
        playlist: s.playlist.changed_locally(new, s.client.room, reset_index, now),
        ..s
    }
}

/// The index that the user's own list selects.
#[verifier::opaque]
pub open spec fn installed_index(s: SessionView, new: Seq<Seq<char>>, reset_index: bool) -> Option<
    int,
> {
    s.playlist.before_change(new, s.client.room).local_index(new, reset_index)
}

fn install_list(state: &mut Session, new_items: &Vec<String>, reset_index: bool, now: u64) -> (r:
    Option<usize>)
    requires
        old(state).wf(),
    ensures
        final(state).wf(),
        final(state)@ == list_installed(old(state)@, new_items.deep_view(), reset_index, now),
        (match r {
            Some(i) => Some(i as int),
            None => None,
        }) == installed_index(old(state)@, new_items.deep_view(), reset_index),
{
    proof {
        reveal(list_installed);
        reveal(installed_index);
    }
    let room = state.client_state.get_room();
    state.playlist.change_locally(new_items.as_slice(), room.as_str(), reset_index, now)
}

/// The session after the user's own change of the playlist.
pub open spec fn changed_locally(s: SessionView, new: Seq<Seq<char>>, reset_index: bool, now: u64) -> SessionView {
    let s1 = list_installed(s, new, reset_index, now);
    match installed_index(s, new, reset_index) {
        Some(i) => if s.connected {
            index_sent(s1, i, false, now)
        } else {
            s1
        },
        None => s1,
    }
}

/// What the user's own change of the playlist asks for: the server is told
/// the list and the selection; nothing without a connection.
pub open spec fn changed_locally_effects(
    s: SessionView,
    new: Seq<Seq<char>>,
    reset_index: bool,
    now: u64,
) -> Seq<EffectView> {
    let s1 = list_installed(s, new, reset_index, now);
    if !s.connected {
        Seq::empty()
    } else {
        seq![
            EffectView::Send(
                ClientMessageView::SetPlaylistChange { user: Some(s.client.username), files: new },
            ),
        ] + (match installed_index(s, new, reset_index) {
            Some(i) => index_sent_effects(s1, i, false),
            None => seq![EffectView::EmitPlaylist],
        })
    }
}

fn send_list(state: &Session, new_items: Vec<String>, effects: &mut Vec<Effect>)
    requires
        state@.connected,
    ensures
        fx(*final(effects)) == fx(*old(effects)) + seq![
            EffectView::Send(
                ClientMessageView::SetPlaylistChange {
                    user: Some(state@.client.username),
                    files: new_items.deep_view(),
                },
            ),
        ],
{
    emit(
        effects,
        Effect::Send(
            ClientMessage::SetPlaylistChange {
                user: Some(state.client_state.get_username()),
                files: new_items,
            },
        ),
    );
    assert(fx(*effects) =~= fx(*old(effects)) + seq![
        EffectView::Send(
            ClientMessageView::SetPlaylistChange {
                user: Some(state@.client.username),
                files: new_items.deep_view(),
            },
        ),
    ]);
}

fn announce_list(
    state: &mut Session,
    new_items: Vec<String>,
    index: Option<usize>,
    now: u64,
    effects: &mut Vec<Effect>,
)
    requires
        old(state).wf(),
        old(state)@.connected,
    ensures
        final(state).wf(),
        final(state)@ == (match index {
            Some(i) => index_sent(old(state)@, i as int, false, now),
            None => old(state)@,
        }),
        fx(*final(effects)) == fx(*old(effects)) + seq![
            EffectView::Send(
                ClientMessageView::SetPlaylistChange {
                    user: Some(old(state)@.client.username),
                    files: new_items.deep_view(),
                },
            ),
        ] + (match index {
            Some(i) => index_sent_effects(old(state)@, i as int, false),
            None => seq![EffectView::EmitPlaylist],
        }),
{
    let ghost e0 = fx(*effects);
    send_list(state, new_items, effects);
    let ghost e1 = fx(*effects);
    match index {
        Some(i) => {
            let _ = send_playlist_index(state, i, false, now, effects);
        },
        None => {
            emit(effects, Effect::EmitPlaylist);
            assert(fx(*effects) =~= e1 + seq![EffectView::EmitPlaylist]);
        },
    }
}

/// Puts the user's own list in the place of the playlist and tells the
/// server.
pub fn apply_playlist_change_local(
    state: &mut Session,
    new_items: Vec<String>,
    reset_index: bool,
    now: u64,
    effects: &mut Vec<Effect>,
) -> (r: Result<(), String>)
    requires
        old(state).wf(),
    ensures
        final(state).wf(),
        final(state)@ == changed_locally(old(state)@, new_items.deep_view(), reset_index, now),
        outcome_view(r) == (if old(state)@.connected {
            Ok(())
        } else {
            Err("Not connected to server"@)
        }),
        fx(*final(effects)) == fx(*old(effects)) + changed_locally_effects(
            old(state)@,
            new_items.deep_view(),
            reset_index,
            now,
        ),
{
    let ghost s0 = state@;
    let connected = state.connected;
    let index = install_list(state, &new_items, reset_index, now);
    assert(state@.connected == s0.connected && state@.client == s0.client) by {
        reveal(list_installed);
    }
    if !connected {
        assert(fx(*effects) =~= fx(*old(effects)) + Seq::empty());
        return Err(copy_str("Not connected to server"));
    }
    announce_list(state, new_items, index, now, effects);
    Ok(())
}

/// The session after the user has selected an item.
pub open spec fn item_selected(s: SessionView, index: int, now: u64) -> SessionView {
    if s.connected {
        index_applied(index_sent(s, index, true, now), index, now)
    } else {
        index_sent(s, index, true, now)
    }
}

pub open spec fn item_selected_effects(s: SessionView, index: int, now: u64) -> Seq<EffectView> {
    index_sent_effects(s, index, true) + (if s.connected {
        index_applied_effects(index_sent(s, index, true, now), index, true, now)
    } else {
        Seq::empty()
    })
}

/// Selects an item because the user asks for it, tells the server and
/// opens the item.
pub fn select_item(state: &mut Session, index: usize, now: u64, effects: &mut Vec<Effect>) -> (r:
    Result<(), String>)
    requires
        old(state).wf(),
    ensures
        final(state).wf(),
        final(state)@ == item_selected(old(state)@, index as int, now),
        outcome_view(r) == (if old(state)@.connected {
            Ok(())
        } else {
            Err("Not connected to server"@)
        }),
        fx(*final(effects)) == fx(*old(effects)) + item_selected_effects(
            old(state)@,
            index as int,
            now,
        ),
{
    let ghost e0 = fx(*effects);
    match send_playlist_index(state, index, true, now, effects) {
        Ok(_) => {
            apply_playlist_index_from_server(state, index, true, now, effects);
            assert(fx(*effects) =~= e0 + item_selected_effects(old(state)@, index as int, now));
            Ok(())
        },
        Err(e) => {
            assert(fx(*effects) =~= e0 + item_selected_effects(old(state)@, index as int, now));
            Err(e)
        },
    }
}

/// The items that a playlist file holds: its lines, trimmed, the empty ones
/// left out.
pub open spec fn file_items(contents: Seq<char>) -> Seq<Seq<char>> {
    drop_empty(trimmed_lines(split(contents, '\n')))
}

pub open spec fn trimmed_lines(lines: Seq<Seq<char>>) -> Seq<Seq<char>> {
    Seq::new(lines.len(), |i: int| trim(lines[i]))
}

pub fn read_playlist_file(contents: &str) -> (r: Vec<String>)
    ensures
        r.deep_view() == file_items(contents@),
{
    let lines = split_on(&to_chars(contents), '\n');
    let mut cut: Vec<Vec<char>> = Vec::new();
    let mut i: usize = 0;
    while i < lines.len()
        invariant
            i <= lines.len(),
            cut.len() == i,
            forall|j: int| 0 <= j < i ==> cut@[j]@ == trim(lines@[j]@),
        decreases lines.len() - i,
    {
        cut.push(trimmed(&lines[i]));
        i = i + 1;
    }
    assert(views(cut@) =~= trimmed_lines(views(lines@)));
    to_strings(&without_empty(cut))
}

/// The text of a playlist file: the items, one to a line.
pub fn write_playlist_file(items: &Vec<String>) -> (r: String)
    ensures
        r@ == join(items.deep_view(), "\n"@),
{
    let mut parts: Vec<Vec<char>> = Vec::new();
    let mut i: usize = 0;
    while i < items.len()
        invariant
            i <= items.len(),
            parts.len() == i,
            forall|j: int| 0 <= j < i ==> parts@[j]@ == items@[j]@,
        decreases items.len() - i,
    {
        parts.push(to_chars(items[i].as_str()));
        i = i + 1;
    }
    assert(views(parts@) =~= items.deep_view());
    from_chars(&joined(&parts, &to_chars("\n")))
}

/// The list in a random order, and the list with what follows an index in
/// a random order.
pub fn shuffled(items: &Vec<String>, keep: usize) -> (r: Vec<String>)
    ensures
        r.len() == items.len(),
        forall|j: int| 0 <= j < keep && j < items.len() ==> r@[j]@ == items@[j]@,
        r.deep_view().to_multiset() == items.deep_view().to_multiset(),
{
    let mut head: Vec<String> = Vec::new();
    let mut tail: Vec<String> = Vec::new();
    let cut = if keep < items.len() {
        keep
    } else {
        items.len()
    };
    let mut i: usize = 0;
    while i < items.len()
        invariant
            i <= items.len(),
            cut <= items.len(),
            head.len() == (if i < cut {
                i
            } else {
                cut
            }),
            tail.len() == i - head.len(),
            forall|j: int| 0 <= j < head.len() ==> head@[j]@ == items@[j]@,
            forall|j: int| 0 <= j < tail.len() ==> tail@[j]@ == items@[cut + j]@,
        decreases items.len() - i,
    {
        if i < cut {
            head.push(items[i].clone());
        } else {
            tail.push(items[i].clone());
        }
        i = i + 1;
    }
    let ghost h = head.deep_view();
    let ghost t = tail.deep_view();
    assert(h + t =~= items.deep_view());
    shuffle_names(&mut tail);
    let ghost t2 = tail.deep_view();
    let ghost n = head.len();
    head.append(&mut tail);
    proof {
        assert(head.deep_view() =~= h + t2);
        vstd::seq_lib::lemma_multiset_commutative(h, t2);
        vstd::seq_lib::lemma_multiset_commutative(h, t);
    }
    head
}

/// What the user can ask of the playlist.
#[derive(Clone, Copy, Debug, PartialEq, Eq, Structural)]
pub enum PlaylistAction {
    Add,
    Remove,
    Clear,
    Select,
    Next,
    Previous,
    Undo,
    Shuffle,
    ShuffleRemaining,
    Load,
    Save,
    Unknown,
}

pub open spec fn action_named(action: Seq<char>) -> PlaylistAction {
    if action == "add"@ {
        PlaylistAction::Add
    } else if action == "remove"@ {
        PlaylistAction::Remove
    } else if action == "clear"@ {
        PlaylistAction::Clear
    } else if action == "select"@ {
        PlaylistAction::Select
    } else if action == "next"@ {
        PlaylistAction::Next
    } else if action == "previous"@ {
        PlaylistAction::Previous
    } else if action == "undo"@ {
        PlaylistAction::Undo
    } else if action == "shuffle"@ {
        PlaylistAction::Shuffle
    } else if action == "shuffle_remaining"@ {
        PlaylistAction::ShuffleRemaining
    } else if action == "load"@ {
        PlaylistAction::Load
    } else if action == "save"@ {
        PlaylistAction::Save
    } else {
        PlaylistAction::Unknown
    }
}

fn is_word(s: &Vec<char>, word: &str) -> (r: bool)
    ensures
        r == (s@ == word@),
{
    same_chars(s, &to_chars(word))
}

pub fn read_action(action: &str) -> (r: PlaylistAction)
    ensures
        r == action_named(action@),
{
    let c = to_chars(action);
    if is_word(&c, "add") {
        PlaylistAction::Add
    } else if is_word(&c, "remove") {
        PlaylistAction::Remove
    } else if is_word(&c, "clear") {
        PlaylistAction::Clear
    } else if is_word(&c, "select") {
        PlaylistAction::Select
    } else if is_word(&c, "next") {
        PlaylistAction::Next
    } else if is_word(&c, "previous") {
        PlaylistAction::Previous
    } else if is_word(&c, "undo") {
        PlaylistAction::Undo
    } else if is_word(&c, "shuffle") {
        PlaylistAction::Shuffle
    } else if is_word(&c, "shuffle_remaining") {
        PlaylistAction::ShuffleRemaining
    } else if is_word(&c, "load") {
        PlaylistAction::Load
    } else if is_word(&c, "save") {
        PlaylistAction::Save
    } else {
        PlaylistAction::Unknown
    }
}

/// What a request of the user comes to, before anything is done.
pub enum Request {
    /// The request is refused.
    Refuse(String),
    /// Nothing is to be done.
    Nothing,
    /// The list is put in the place of the playlist.
    Change { items: Vec<String>, reset_index: bool },
    /// The list is put in a random order, the items before `keep` left
    /// where they are; the selection starts anew where `reset_index` is set.
    Shuffle { keep: usize, reset_index: bool },
    /// The item is selected and opened.
    Select(usize),
    /// The text is written to the file that the user has named.
    Save(String),
}

pub enum RequestView {
    Refuse(Seq<char>),
    Nothing,
    Change { items: Seq<Seq<char>>, reset_index: bool },
    Shuffle { keep: usize, reset_index: bool },
    Select(usize),
    Save(Seq<char>),
}

impl View for Request {
    type V = RequestView;

    open spec fn view(&self) -> RequestView {
        match self {
            Request::Refuse(e) => RequestView::Refuse(e@),
            Request::Nothing => RequestView::Nothing,
            Request::Change { items, reset_index } => RequestView::Change {
                items: items.deep_view(),
                reset_index: *reset_index,
            },
            Request::Shuffle { keep, reset_index } => RequestView::Shuffle {
                keep: *keep,
                reset_index: *reset_index,
            },
            Request::Select(i) => RequestView::Select(*i),
            Request::Save(t) => RequestView::Save(t@),
        }
    }
}

/// What a request of the user comes to. `argument` is what comes with the
/// action: a file name, an index, or the path of a playlist file, whose
/// text is `contents` where it could be read.
pub open spec fn request_for(
    s: SessionView,
    action: PlaylistAction,
    argument: Option<Seq<char>>,
    contents: Option<Seq<char>>,
) -> RequestView {
    let names = s.playlist.names();
    if !playlists_shared(s) {
        RequestView::Refuse("Shared playlists are disabled"@)
    } else {
        match action {
            PlaylistAction::Add => match argument {
                Some(f) => RequestView::Change { items: names.push(f), reset_index: false },
                None => RequestView::Refuse("Filename required for add action"@),
            },
            PlaylistAction::Remove => match argument {
                Some(t) => match index_named(t, names.len() as int) {
                    Some(i) => RequestView::Change { items: names.remove(i), reset_index: false },
                    None => RequestView::Refuse("Invalid index for remove action"@),
                },
                None => RequestView::Refuse("Index required for remove action"@),
            },
            PlaylistAction::Clear => RequestView::Change {
                items: Seq::empty(),
                reset_index: false,
            },
            PlaylistAction::Select => match argument {
                Some(t) => match index_named(t, names.len() as int) {
                    Some(i) => RequestView::Select(i as usize),
                    None => RequestView::Refuse("Invalid index for select action"@),
                },
                None => RequestView::Refuse("Index required for select action"@),
            },
            PlaylistAction::Next => match next_index_of(s) {
                Ok(i) => RequestView::Select(i as usize),
                Err(e) => RequestView::Refuse(e),
            },
            PlaylistAction::Previous => match previous_index_of(s) {
                Ok(i) => RequestView::Select(i as usize),
                Err(e) => RequestView::Refuse(e),
            },
            PlaylistAction::Undo => match s.playlist.previous_playlist {
                Some(p) => RequestView::Change { items: p, reset_index: false },
                None => RequestView::Nothing,
            },
            PlaylistAction::Shuffle => RequestView::Shuffle { keep: 0, reset_index: true },
            PlaylistAction::ShuffleRemaining => match s.playlist.current_index {
                Some(i) => RequestView::Shuffle { keep: (i + 1) as usize, reset_index: false },
                None => RequestView::Nothing,
            },
            PlaylistAction::Load => match argument {
                Some(_) => match contents {
                    Some(c) => if file_items(c).len() == 0 {
                        RequestView::Refuse("Playlist file is empty"@)
                    } else {
                        RequestView::Change { items: file_items(c), reset_index: true }
                    },
                    None => RequestView::Refuse("Failed to read playlist file"@),
                },
                None => RequestView::Refuse("Path required for load action"@),
            },
            PlaylistAction::Save => match argument {
                Some(_) => RequestView::Save(join(names, "\n"@)),
                None => RequestView::Refuse("Path required for save action"@),
            },
            PlaylistAction::Unknown => RequestView::Nothing,
        }
    }
}

fn refuse(text: &str) -> (r: Request)
    ensures
        r@ == RequestView::Refuse(text@),
{
    Request::Refuse(copy_str(text))
}

/// Reads a request of the user. An action that is not known is left to
/// `update_playlist`, which names it in its complaint.
#[verifier::rlimit(40)]
pub fn plan_playlist_request(
    state: &Session,
    action: PlaylistAction,
    argument: Option<&str>,
    contents: Option<&str>,
) -> (r: Request)
    requires
        state.wf(),
    ensures
        r@ == request_for(state@, action, opt_view(argument), opt_view(contents)),
{
    if !shared_playlists_enabled(state) {
        return refuse("Shared playlists are disabled");
    }
    let mut items = state.playlist.get_item_filenames();
    let ghost names = state@.playlist.names();
    assert(items.deep_view().len() == items@.len());
    match action {
        PlaylistAction::Add => match argument {
            Some(f) => {
                items.push(copy_str(f));
                assert(items.deep_view() =~= names.push(f@));
                Request::Change { items, reset_index: false }
            },
            None => refuse("Filename required for add action"),
        },
        PlaylistAction::Remove => match argument {
            Some(t) => match parse_index(t, items.len()) {
                Some(i) => {
                    items.remove(i);
                    assert(items.deep_view() =~= names.remove(i as int));
                    Request::Change { items, reset_index: false }
                },
                None => refuse("Invalid index for remove action"),
            },
            None => refuse("Index required for remove action"),
        },
        PlaylistAction::Clear => {
            let none: Vec<String> = Vec::new();
            assert(none.deep_view() =~= Seq::<Seq<char>>::empty());
            Request::Change { items: none, reset_index: false }
        },
        PlaylistAction::Select => match argument {
            Some(t) => match parse_index(t, items.len()) {
                Some(i) => Request::Select(i),
                None => refuse("Invalid index for select action"),
            },
            None => refuse("Index required for select action"),
        },
        PlaylistAction::Next => match next_index(state) {
            Ok(i) => Request::Select(i),
            Err(e) => Request::Refuse(e),
        },
        PlaylistAction::Previous => match previous_index(state) {
            Ok(i) => Request::Select(i),
            Err(e) => Request::Refuse(e),
        },
        PlaylistAction::Undo => match state.playlist.previous_playlist() {
            Some(p) => Request::Change { items: p, reset_index: false },
            None => Request::Nothing,
        },
        PlaylistAction::Shuffle => Request::Shuffle { keep: 0, reset_index: true },
        PlaylistAction::ShuffleRemaining => match state.playlist.get_current_index() {
            Some(i) => {
                assert(i < items.len());
                Request::Shuffle { keep: i + 1, reset_index: false }
            },
            None => Request::Nothing,
        },
        PlaylistAction::Load => match argument {
            Some(_) => match contents {
                Some(c) => {
                    let read = read_playlist_file(c);
                    assert(read.deep_view().len() == read@.len());
                    if read.len() == 0 {
                        refuse("Playlist file is empty")
                    } else {
                        Request::Change { items: read, reset_index: true }
                    }
                },
                None => refuse("Failed to read playlist file"),
            },
            None => refuse("Path required for load action"),
        },
        PlaylistAction::Save => match argument {
            Some(_) => Request::Save(write_playlist_file(&items)),
            None => refuse("Path required for save action"),
        },
        PlaylistAction::Unknown => Request::Nothing,
    }
}

/// The session after a change of the list that a request asks for.
pub open spec fn request_done(s: SessionView, r: RequestView, now: u64) -> SessionView {
    match r {
        RequestView::Change { items, reset_index } => changed_locally(s, items, reset_index, now),
        RequestView::Select(i) => item_selected(s, i as int, now),
        _ => s,
    }
}

pub open spec fn request_effects(s: SessionView, r: RequestView, now: u64) -> Seq<EffectView> {
    match r {
        RequestView::Change { items, reset_index } => changed_locally_effects(
            s,
            items,
            reset_index,
            now,
        ),
        RequestView::Select(i) => item_selected_effects(s, i as int, now),
        _ => Seq::empty(),
    }
}

/// What doing a request gives back: the text to save, or the complaint.
pub open spec fn request_outcome(s: SessionView, r: RequestView) -> Result<Option<Seq<char>>, Seq<char>> {
    match r {
        RequestView::Refuse(e) => Err(e),
        RequestView::Nothing => Ok(None),
        RequestView::Save(t) => Ok(Some(t)),
        _ => if s.connected {
            Ok(None)
        } else {
            Err("Not connected to server"@)
        },
    }
}

fn lift(r: Result<(), String>) -> (out: Result<Option<String>, String>)
    ensures
        crate::commands::text_outcome(out) == (match outcome_view(r) {
            Ok(_) => Ok::<Option<Seq<char>>, Seq<char>>(None),
            Err(e) => Err(e),
        }),
{
    match r {
        Ok(_) => Ok(None),
        Err(e) => Err(e),
    }
}

/// Does what a request that names its list or item asks for.
pub fn run_playlist_request(state: &mut Session, request: Request, now: u64, effects: &mut Vec<Effect>) -> (r:
    Result<Option<String>, String>)
    requires
        old(state).wf(),
        !(request@ is Shuffle),
    ensures
        final(state).wf(),
        final(state)@ == request_done(old(state)@, request@, now),
        crate::commands::text_outcome(r) == request_outcome(old(state)@, request@),
        fx(*final(effects)) == fx(*old(effects)) + request_effects(old(state)@, request@, now),
{
    match request {
        Request::Refuse(e) => {
            assert(fx(*effects) =~= fx(*old(effects)) + Seq::empty());
            Err(e)
        },
        Request::Nothing => {
            assert(fx(*effects) =~= fx(*old(effects)) + Seq::empty());
            Ok(None)
        },
        Request::Save(t) => {
            assert(fx(*effects) =~= fx(*old(effects)) + Seq::empty());
            Ok(Some(t))
        },
        Request::Change { items, reset_index } => lift(
            apply_playlist_change_local(state, items, reset_index, now, effects),
        ),
        Request::Select(i) => lift(select_item(state, i, now, effects)),
        Request::Shuffle { keep, reset_index } => Ok(None),
    }
}

/// A list is the playlist in another order, with the items before `keep`
/// where they were.
pub open spec fn reordered(list: Seq<Seq<char>>, names: Seq<Seq<char>>, keep: int) -> bool {
    list.len() == names.len() && list.to_multiset() == names.to_multiset() && forall|j: int|
        0 <= j < keep && j < names.len() ==> list[j] == names[j]
}

/// The request that a request becomes once the random order is chosen.
pub fn settle_request(state: &Session, request: Request) -> (r: Request)
    ensures
        !(r@ is Shuffle),
        !(request@ is Shuffle) ==> r@ == request@,
        match request@ {
            RequestView::Shuffle { keep, reset_index } => match r@ {
                RequestView::Change { items, reset_index: reset } => reset == reset_index
                    && reordered(items, state@.playlist.names(), keep as int),
                _ => false,
            },
            _ => true,
        },
{
    match request {
        Request::Shuffle { keep, reset_index } => {
            let items = state.playlist.get_item_filenames();
            assert(items.deep_view().len() == items@.len());
            let list = shuffled(&items, keep);
            assert(list.deep_view().len() == list@.len());
            assert forall|j: int| 0 <= j < keep && j < items@.len() implies list.deep_view()[j]
                == items.deep_view()[j] by {
                assert(list.deep_view()[j] == list@[j]@);
                assert(items.deep_view()[j] == items@[j]@);
            }
            Request::Change { items: list, reset_index }
        },
        other => other,
    }
}

/// The complaint about an action that is not known.
pub open spec fn unknown_action_text(action: Seq<char>) -> Seq<char> {
    "Unknown playlist action: "@ + action
}

/// Does what the user asks of the playlist. `argument` is what comes with
/// the action, `contents` the text of the playlist file that is to be
/// loaded, where it could be read. The result holds the text to write for
/// the action that saves the playlist.
///
/// The request is read, a random order is chosen where one is asked for,
/// and the request is done.
pub fn update_playlist(
    state: &mut Session,
    action: &str,
    argument: Option<&str>,
    contents: Option<&str>,
    now: u64,
    effects: &mut Vec<Effect>,
) -> (r: Result<Option<String>, String>)
    requires
        old(state).wf(),
    ensures
        final(state).wf(),
        action_named(action@) == PlaylistAction::Unknown && playlists_shared(old(state)@) ==> {
            &&& final(state)@ == old(state)@
            &&& crate::commands::text_outcome(r) == Err::<Option<Seq<char>>, Seq<char>>(
                unknown_action_text(action@),
            )
            &&& fx(*final(effects)) == fx(*old(effects))
        },
        !(action_named(action@) == PlaylistAction::Unknown && playlists_shared(old(state)@))
            ==> exists|settled: RequestView|
            {
                &&& settles(
                    old(state)@,
                    request_for(
                        old(state)@,
                        action_named(action@),
                        opt_view(argument),
                        opt_view(contents),
                    ),
                    settled,
                )
                &&& final(state)@ == request_done(old(state)@, settled, now)
                &&& crate::commands::text_outcome(r) == request_outcome(old(state)@, settled)
                &&& fx(*final(effects)) == fx(*old(effects)) + request_effects(
                    old(state)@,
                    settled,
                    now,
                )
            },
{
    let a = read_action(action);
    if a == PlaylistAction::Unknown && shared_playlists_enabled(state) {
        return Err(text2("Unknown playlist action: ", action));
    }
    let request = plan_playlist_request(state, a, argument, contents);
    let settled = settle_request(state, request);
    let ghost sv = settled@;
    assert(settles(old(state)@, request@, sv));
    run_playlist_request(state, settled, now, effects)
}

/// A request is settled: it is what it was, but that a random order has
/// become some order of the playlist.
pub open spec fn settles(s: SessionView, request: RequestView, settled: RequestView) -> bool {
    match request {
        RequestView::Shuffle { keep, reset_index } => match settled {
            RequestView::Change { items, reset_index: reset } => reset == reset_index && reordered(
                items,
                s.playlist.names(),
                keep as int,
            ),
            _ => false,
        },
        _ => settled == request,
    }
}

} // verus!
