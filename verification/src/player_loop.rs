//! What the client does with what the player shows: the file that is open,
//! the end of a file, and the user's own pausing and seeking.
use crate::messages::{
    ClientMessage, ClientMessageView, FileInfo, FileInfoView, FileSizeInfo, PlayState,
    PlayStateView,
};
use crate::playlist::PlaylistView;
use crate::properties::{PlayerState, PlayerStateView};
use crate::connection::{ready_plan, ready_send_effects};

use crate::protocol::{counters_after_send, state_send_effects, write_state};
use crate::session::IgnoringCounters;
use crate::time::{magnitude, sat_sub, sub_ms};
use crate::readiness::{
    all_others_ready, are_all_other_users_ready, is_playing_music, just_advanced, music_override,
    playing_music, playlists_shared, recently_advanced, room_count, seamless_music_override,
    shared_playlists_enabled, users_in_room_count,
};
use crate::reconcile::{can_control, current_user_can_control, notice, notice_effects};
use crate::set_message::{apply_playlist_index_from_server, index_applied_effects};
use crate::warnings::{
    autoplay_evaluated, autoplay_ready, countdown_effects, evaluate_autoplay, music_effects,
};
use crate::config::UnpauseAction;
use crate::session::{emit, fx, Effect, EffectView, LocalPlaybackState, Session, SessionView};
use crate::config::PlayerKind;
use crate::set_message::{index_applied};
use crate::state::ClientStateView;
use crate::text::{
    clone_opt_text, copy_str, first_index_of, opt_view, same_chars, text2, texts_equal, to_chars,
};
use crate::time::{elapsed, elapsed_ms};
use crate::utils::{
    apply_privacy, hidden_name, is_trustable_and_trusted, is_url, is_url_text, private_name,
    private_size, same_filename, same_name, trust, truncate_text, truncated,
    PRIVACY_HIDDEN_FILENAME,
};
use vstd::prelude::*;

verus! {

/// How long the server may be silent before the connection counts as lost.
pub const PROTOCOL_TIMEOUT: u64 = 12500;

/// How long after a rewind the player counts as just rewound.
pub const RECENT_REWIND_THRESHOLD: u64 = 5000;

/// By how much a rewind counts as earlier once a file was opened after it.
pub const RECENT_REWIND_FILE_UPDATE_SHIFT: u64 = 4500;

/// A file shorter than this does not move the playlist on.
pub const PLAYLIST_LOAD_NEXT_FILE_MINIMUM_LENGTH: i64 = 10000;

/// How close to its end a file moves the playlist on.
pub const PLAYLIST_LOAD_NEXT_FILE_TIME_FROM_END_THRESHOLD: i64 = 5000;

/// The server has been silent for too long.
pub open spec fn timed_out(s: SessionView, now: u64) -> bool {
    match s.last_global_update {
        Some(t) => elapsed(now, t) > PROTOCOL_TIMEOUT,
        None => false,
    }
}

pub open spec fn timeout_effects(s: SessionView, now: u64) -> Seq<EffectView> {
    if timed_out(s, now) {
        seq![EffectView::ErrorMessage("Server timed out"@)] + (if s.connected {
            seq![EffectView::Disconnect]
        } else {
            Seq::empty()
        })
    } else {
        Seq::empty()
    }
}

fn timeout_plan(state: &Session, now: u64, effects: &mut Vec<Effect>) -> (r: (bool, Option<u64>))
    ensures
        r.0 == timed_out(state@, now),
        r.1 == (if timed_out(state@, now) {
            None
        } else {
            state@.last_global_update
        }),
        fx(*final(effects)) == fx(*old(effects)) + timeout_effects(state@, now),
{
    let out = match state.last_global_update {
        Some(t) => elapsed_ms(now, t) > PROTOCOL_TIMEOUT,
        None => false,
    };
    if !out {
        assert(fx(*effects) =~= fx(*old(effects)) + Seq::empty());
        return (false, state.last_global_update);
    }
    emit(effects, Effect::ErrorMessage(copy_str("Server timed out")));
    if state.connected {
        emit(effects, Effect::Disconnect);
    }
    assert(fx(*effects) =~= fx(*old(effects)) + timeout_effects(state@, now));
    (true, None)
}

/// Ends the connection where the server has sent no state for twelve and a
/// half seconds. Tells whether it did.
pub fn check_protocol_timeout(state: &mut Session, now: u64, effects: &mut Vec<Effect>) -> (r: bool)
    ensures
        r == timed_out(old(state)@, now),
        final(state)@ == (SessionView {
            last_global_update: if timed_out(old(state)@, now) {
                None
            } else {
                old(state)@.last_global_update
            },
            ..old(state)@
        }),
        final(state).wf() == old(state).wf(),
        fx(*final(effects)) == fx(*old(effects)) + timeout_effects(old(state)@, now),
{
    let (out, update) = timeout_plan(state, now, effects);
    state.last_global_update = update;
    out
}

/// The time of the last rewind as it counts: four and a half seconds
/// earlier where a file was opened after it.
pub open spec fn rewind_time(s: SessionView) -> Option<u64> {
    match s.last_rewind_time {
        Some(r) => match s.last_updated_file_time {
            Some(u) => if u > r && r >= RECENT_REWIND_FILE_UPDATE_SHIFT {
                Some((r - RECENT_REWIND_FILE_UPDATE_SHIFT) as u64)
            } else {
                Some(r)
            },
            None => Some(r),
        },
        None => None,
    }
}

/// The player was rewound less than five seconds ago.
pub open spec fn just_rewound(s: SessionView, now: u64) -> bool {
    match rewind_time(s) {
        Some(t) => elapsed(now, t) < RECENT_REWIND_THRESHOLD,
        None => false,
    }
}

pub fn recently_rewound(state: &Session, now: u64) -> (r: bool)
    ensures
        r == just_rewound(state@, now),
{
    let mut last_rewind = match state.last_rewind_time {
        Some(r) => r,
        None => {
            return false;
        },
    };
    match state.last_updated_file_time {
        Some(u) => {
            if u > last_rewind && last_rewind >= RECENT_REWIND_FILE_UPDATE_SHIFT {
                last_rewind = last_rewind - RECENT_REWIND_FILE_UPDATE_SHIFT;
            }
        },
        None => {},
    }
    elapsed_ms(now, last_rewind) < RECENT_REWIND_THRESHOLD
}

/// Rewinds the player and notes when.
pub fn rewind_player(state: &mut Session, now: u64, effects: &mut Vec<Effect>)
    ensures
        final(state)@ == (SessionView { last_rewind_time: Some(now), ..old(state)@ }),
        final(state).wf() == old(state).wf(),
        fx(*final(effects)) == fx(*old(effects)) + seq![EffectView::RewindPlayer],
{
    emit(effects, Effect::RewindPlayer);
    assert(fx(*effects) =~= fx(*old(effects)) + seq![EffectView::RewindPlayer]);
    state.last_rewind_time = Some(now);
}

/// Notes that the player was paused because somebody has left.
pub fn note_paused_on_leave(state: &mut Session, now: u64)
    ensures
        final(state)@ == (SessionView { last_paused_on_leave_time: Some(now), ..old(state)@ }),
        final(state).wf() == old(state).wf(),
{
    state.last_paused_on_leave_time = Some(now);
}

/// The session after the client has selected a playlist item itself.
#[verifier::opaque]
pub open spec fn index_sent(s: SessionView, index: int, reset_position: bool, now: u64) -> SessionView {
    SessionView {
        playlist: s.playlist.selected(index, now),
        last_advance_time: if s.connected && reset_position {
            Some(now)
        } else {
            s.last_advance_time
        },
        last_rewind_time: if s.connected && reset_position {
            Some(now)
        } else {
            s.last_rewind_time
        },
        ..s
    }
}

/// What the client's own selection of a playlist item asks for: the server
/// is told, and with it that playback starts anew where it does.
#[verifier::opaque]
pub open spec fn index_sent_effects(s: SessionView, index: int, reset_position: bool) -> Seq<
    EffectView,
> {
    seq![EffectView::EmitPlaylist] + (if s.connected {
        seq![
            EffectView::Send(
                ClientMessageView::SetPlaylistIndex {
                    user: Some(s.client.username),
                    index: index as usize,
                },
            ),
        ] + (if reset_position {
            seq![
                EffectView::Send(
                    ClientMessageView::BareState {
                        state: PlayStateView {
                            position: 0,
                            paused: true,
                            do_seek: None,
                            set_by: None,
                        },
                    },
                ),
            ]
        } else {
            Seq::empty()
        })
    } else {
        Seq::empty()
    })
}

fn index_plan(state: &Session, index: usize, reset_position: bool, now: u64, effects: &mut Vec<Effect>) -> (r:
    (Option<u64>, Option<u64>, Result<(), String>))
    ensures
        r.0 == index_sent(state@, index as int, reset_position, now).last_advance_time,
        r.1 == index_sent(state@, index as int, reset_position, now).last_rewind_time,
        match r.2 {
            Ok(_) => state@.connected,
            Err(e) => !state@.connected && e@ == "Not connected to server"@,
        },
        fx(*final(effects)) == fx(*old(effects)) + index_sent_effects(
            state@,
            index as int,
            reset_position,
        ),
{
    proof {
        reveal(index_sent);
        reveal(index_sent_effects);
    }
    emit(effects, Effect::EmitPlaylist);
    if !state.connected {
        assert(fx(*effects) =~= fx(*old(effects)) + index_sent_effects(
            state@,
            index as int,
            reset_position,
        ));
        return (
            state.last_advance_time,
            state.last_rewind_time,
            Err(copy_str("Not connected to server")),
        );
    }
    emit(
        effects,
        Effect::Send(
            ClientMessage::SetPlaylistIndex {
                user: Some(state.client_state.get_username()),
                index,
            },
        ),
    );
    if reset_position {
        emit(
            effects,
            Effect::Send(
                ClientMessage::BareState {
                    state: PlayState { position: 0, paused: true, do_seek: None, set_by: None },
                },
            ),
        );
        assert(fx(*effects) =~= fx(*old(effects)) + index_sent_effects(
            state@,
            index as int,
            reset_position,
        ));
        return (Some(now), Some(now), Ok(()));
    }
    assert(fx(*effects) =~= fx(*old(effects)) + index_sent_effects(
        state@,
        index as int,
        reset_position,
    ));
    (state.last_advance_time, state.last_rewind_time, Ok(()))
}

/// Selects a playlist item and tells the server.
pub fn send_playlist_index(
    state: &mut Session,
    index: usize,
    reset_position: bool,
    now: u64,
    effects: &mut Vec<Effect>,
) -> (r: Result<(), String>)
    requires
        old(state).wf(),
    ensures
        final(state).wf(),
        final(state)@ == index_sent(old(state)@, index as int, reset_position, now),
        match r {
            Ok(_) => old(state)@.connected,
            Err(e) => !old(state)@.connected && e@ == "Not connected to server"@,
        },
        fx(*final(effects)) == fx(*old(effects)) + index_sent_effects(
            old(state)@,
            index as int,
            reset_position,
        ),
{
    let (advance, rewind, r) = index_plan(state, index, reset_position, now, effects);
    state.playlist.set_current_index(index, now);
    state.last_advance_time = advance;
    state.last_rewind_time = rewind;
    assert(state@ == index_sent(old(state)@, index as int, reset_position, now)) by {
        reveal(index_sent);
    }
    r
}

/// What the opening of a file in the player means for the playlist.
#[derive(Clone, Copy, Debug, PartialEq, Eq, Structural)]
pub enum FileInPlaylist {
    /// Nothing: playlists are not shared, or the file is not in the list, or
    /// it is the item that is being opened anyway.
    Nothing,
    /// The file is another item of the list: that item is selected.
    Select(usize),
    /// The file is the selected item, opened anew: it starts at its start.
    Rewind,
}

/// What a file that the player has opened means for the playlist.
/// `name` is the name by which the playlist would know the file.
#[verifier::opaque]
pub open spec fn file_in_playlist(s: SessionView, name: Seq<char>) -> FileInPlaylist {
    let index = first_index_of(s.playlist.names(), name);
    if !playlists_shared(s) || index < 0 {
        FileInPlaylist::Nothing
    } else if s.playlist.current_index != Some(index) {
        FileInPlaylist::Select(index as usize)
    } else if s.playlist.queued_index_filename == Some(name) {
        FileInPlaylist::Nothing
    } else {
        FileInPlaylist::Rewind
    }
}

pub fn playlist_change_for_file(state: &Session, name: &str) -> (r: FileInPlaylist)
    ensures
        r == file_in_playlist(state@, name@),
{
    proof {
        reveal(file_in_playlist);
    }
    if !shared_playlists_enabled(state) {
        return FileInPlaylist::Nothing;
    }
    let index = match state.playlist.index_of_filename(name) {
        Some(i) => i,
        None => {
            return FileInPlaylist::Nothing;
        },
    };
    let current = state.playlist.get_current_index();
    let same = match current {
        Some(c) => c == index,
        None => false,
    };
    if !same {
        return FileInPlaylist::Select(index);
    }
    match state.playlist.get_queued_index_filename() {
        Some(q) => {
            if texts_equal(&q, name) {
                return FileInPlaylist::Nothing;
            }
        },
        None => {},
    }
    FileInPlaylist::Rewind
}

/// Brings the playlist in line with a file that the player has opened.
pub fn change_playlist_from_filename(
    state: &mut Session,
    name: &str,
    now: u64,
    effects: &mut Vec<Effect>,
) -> (r: FileInPlaylist)
    requires
        old(state).wf(),
    ensures
        final(state).wf(),
        r == file_in_playlist(old(state)@, name@),
        final(state)@ == (match r {
            FileInPlaylist::Nothing => old(state)@,
            FileInPlaylist::Select(i) => index_sent(old(state)@, i as int, true, now),
            FileInPlaylist::Rewind => SessionView { last_rewind_time: Some(now), ..old(state)@ },
        }),
        fx(*final(effects)) == fx(*old(effects)) + (match r {
            FileInPlaylist::Nothing => Seq::empty(),
            FileInPlaylist::Select(i) => index_sent_effects(old(state)@, i as int, true),
            FileInPlaylist::Rewind => seq![EffectView::RewindPlayer],
        }),
{
    let r = playlist_change_for_file(state, name);
    match r {
        FileInPlaylist::Nothing => {
            assert(fx(*effects) =~= fx(*old(effects)) + Seq::empty());
        },
        FileInPlaylist::Select(i) => {
            let _ = send_playlist_index(state, i, true, now, effects);
        },
        FileInPlaylist::Rewind => {
            rewind_player(state, now, effects);
        },
    }
    r
}

// ---------------------------------------------------------------------------
// The file that is open
// ---------------------------------------------------------------------------

/// Whether what the player shows of its file is told to the server: it
/// shows a path, or a name that is a URL.
pub open spec fn tells_file(ps: PlayerStateView) -> bool {
    match ps.path {
        Some(_) => true,
        None => match ps.filename {
            Some(f) => is_url_text(f),
            None => false,
        },
    }
}

/// The name of the file that the player has open: a URL stands for itself;
/// a local file goes by the name that the player shows, else by the file
/// name of its path (`name_of_path`).
pub open spec fn raw_file_name(ps: PlayerStateView, name_of_path: Option<Seq<char>>) -> Option<
    Seq<char>,
> {
    match ps.path {
        Some(p) => if is_url_text(p) {
            Some(p)
        } else {
            match ps.filename {
                Some(f) => Some(f),
                None => name_of_path,
            }
        },
        None => ps.filename,
    }
}

/// The size of the file that the player has open: what the disk says
/// (`size_on_disk`) of a local file, nothing of a URL.
pub open spec fn raw_file_size(ps: PlayerStateView, size_on_disk: Option<u64>) -> Option<u64> {
    match ps.path {
        Some(p) => if is_url_text(p) {
            Some(0)
        } else {
            match size_on_disk {
                Some(n) => Some(n),
                None => Some(0),
            }
        },
        None => Some(0),
    }
}

/// The longest file name that the server takes.
pub open spec fn name_limit(s: SessionView) -> usize {
    match s.features.max_filename_length {
        Some(n) => n,
        None => 250,
    }
}

/// The file as it is told to the server: its name cut to what the server
/// takes, and name and size as the user's privacy allows.
pub open spec fn file_told(
    s: SessionView,
    ps: PlayerStateView,
    name_of_path: Option<Seq<char>>,
    size_on_disk: Option<u64>,
) -> FileInfoView {
    FileInfoView {
        name: private_name(
            match raw_file_name(ps, name_of_path) {
                Some(n) => Some(truncated(n, name_limit(s) as int)),
                None => None,
            },
            s.config.filename_privacy_mode,
        ),
        size: private_size(raw_file_size(ps, size_on_disk), s.config.filesize_privacy_mode),
        duration: ps.duration,
    }
}

/// The session with the file noted that the player has open.
#[verifier::opaque]
pub open spec fn file_update_sent(
    s: SessionView,
    ps: PlayerStateView,
    name_of_path: Option<Seq<char>>,
    size_on_disk: Option<u64>,
    now: u64,
) -> SessionView {
    SessionView {
        client: ClientStateView {
            file: if tells_file(ps) {
                raw_file_name(ps, name_of_path)
            } else {
                s.client.file
            },
            file_size: if tells_file(ps) {
                file_told(s, ps, name_of_path, size_on_disk).size
            } else {
                s.client.file_size
            },
            file_duration: if tells_file(ps) {
                ps.duration
            } else {
                s.client.file_duration
            },
            ..s.client
        },
        last_updated_file_time: if tells_file(ps) {
            Some(now)
        } else {
            s.last_updated_file_time
        },
        ..s
    }
}

#[verifier::opaque]
pub open spec fn file_update_effects(
    s: SessionView,
    ps: PlayerStateView,
    name_of_path: Option<Seq<char>>,
    size_on_disk: Option<u64>,
) -> Seq<EffectView> {
    if tells_file(ps) && s.connected {
        seq![
            EffectView::Send(
                ClientMessageView::SetFile { file: file_told(s, ps, name_of_path, size_on_disk) },
            ),
            EffectView::Send(ClientMessageView::RequestList),
        ]
    } else {
        Seq::empty()
    }
}

fn told(ps: &PlayerState) -> (r: bool)
    ensures
        r == tells_file(ps@),
{
    match &ps.path {
        Some(_) => true,
        None => match &ps.filename {
            Some(f) => is_url(f.as_str()),
            None => false,
        },
    }
}

fn raw_name_of(ps: &PlayerState, name_of_path: Option<&str>) -> (r: Option<String>)
    ensures
        opt_view(r) == raw_file_name(ps@, opt_view(name_of_path)),
{
    match &ps.path {
        Some(p) => if is_url(p.as_str()) {
            Some(p.clone())
        } else {
            match &ps.filename {
                Some(f) => Some(f.clone()),
                None => match name_of_path {
                    Some(n) => Some(copy_str(n)),
                    None => None,
                },
            }
        },
        None => clone_opt_text(&ps.filename),
    }
}

fn raw_size_of(ps: &PlayerState, size_on_disk: Option<u64>) -> (r: Option<u64>)
    ensures
        r == raw_file_size(ps@, size_on_disk),
{
    match &ps.path {
        Some(p) => if is_url(p.as_str()) {
            Some(0)
        } else {
            match size_on_disk {
                Some(n) => Some(n),
                None => Some(0),
            }
        },
        None => Some(0),
    }
}

struct FileUpdate {
    raw_name: Option<String>,
    size: Option<FileSizeInfo>,
    duration: Option<i64>,
    time: Option<u64>,
}

fn file_update_plan(
    state: &Session,
    ps: &PlayerState,
    name_of_path: Option<&str>,
    size_on_disk: Option<u64>,
    now: u64,
    effects: &mut Vec<Effect>,
) -> (r: FileUpdate)
    ensures
        opt_view(r.raw_name) == file_update_sent(
            state@,
            ps@,
            opt_view(name_of_path),
            size_on_disk,
            now,
        ).client.file,
        opt_view(r.size) == file_update_sent(
            state@,
            ps@,
            opt_view(name_of_path),
            size_on_disk,
            now,
        ).client.file_size,
        r.duration == file_update_sent(
            state@,
            ps@,
            opt_view(name_of_path),
            size_on_disk,
            now,
        ).client.file_duration,
        r.time == file_update_sent(
            state@,
            ps@,
            opt_view(name_of_path),
            size_on_disk,
            now,
        ).last_updated_file_time,
        fx(*final(effects)) == fx(*old(effects)) + file_update_effects(
            state@,
            ps@,
            opt_view(name_of_path),
            size_on_disk,
        ),
{
    proof {
        reveal(file_update_sent);
        reveal(file_update_effects);
    }
    if !told(ps) {
        assert(fx(*effects) =~= fx(*old(effects)) + Seq::empty());
        return FileUpdate {
            raw_name: state.client_state.get_file(),
            size: state.client_state.get_file_size(),
            duration: state.client_state.get_file_duration(),
            time: state.last_updated_file_time,
        };
    }
    let raw_name = raw_name_of(ps, name_of_path);
    let raw_size = raw_size_of(ps, size_on_disk);
    let max_len = match state.server_features.max_filename_length {
        Some(n) => n,
        None => 250,
    };
    let outbound = match &raw_name {
        Some(n) => Some(truncate_text(n.as_str(), max_len)),
        None => None,
    };
    let (name, size) = apply_privacy(
        outbound,
        raw_size,
        &state.config.filename_privacy_mode,
        &state.config.filesize_privacy_mode,
    );
    let kept = crate::state::clone_opt_size(&size);
    if state.connected {
        emit(
            effects,
            Effect::Send(ClientMessage::SetFile { file: FileInfo { name, size, duration: ps.duration } }),
        );
        emit(effects, Effect::Send(ClientMessage::RequestList));
        assert(fx(*effects) =~= fx(*old(effects)) + file_update_effects(
            state@,
            ps@,
            opt_view(name_of_path),
            size_on_disk,
        ));
    } else {
        assert(fx(*effects) =~= fx(*old(effects)) + Seq::empty());
    }
    FileUpdate { raw_name, size: kept, duration: ps.duration, time: Some(now) }
}

/// Tells the server what file the player has open. `name_of_path` is the
/// file name of the player's path and `size_on_disk` the size of the file
/// there, where the path names a file on this machine. The result is the
/// name by which the client knows the file, where it has told it.
pub fn send_file_update(
    state: &mut Session,
    ps: &PlayerState,
    name_of_path: Option<&str>,
    size_on_disk: Option<u64>,
    now: u64,
    effects: &mut Vec<Effect>,
) -> (r: Option<String>)
    ensures
        final(state)@ == file_update_sent(
            old(state)@,
            ps@,
            opt_view(name_of_path),
            size_on_disk,
            now,
        ),
        final(state).wf() == old(state).wf(),
        opt_view(r) == (if tells_file(ps@) {
            raw_file_name(ps@, opt_view(name_of_path))
        } else {
            None
        }),
        fx(*final(effects)) == fx(*old(effects)) + file_update_effects(
            old(state)@,
            ps@,
            opt_view(name_of_path),
            size_on_disk,
        ),
{
    let plan = file_update_plan(state, ps, name_of_path, size_on_disk, now, effects);
    let name = if told(ps) {
        clone_opt_text(&plan.raw_name)
    } else {
        None
    };
    proof {
        reveal(file_update_sent);
    }
    state.client_state.set_file(plan.raw_name);
    state.client_state.set_file_size(plan.size);
    state.client_state.set_file_duration(plan.duration);
    state.last_updated_file_time = plan.time;
    name
}

/// Whether the player shows nothing but the picture that stands for no
/// file. `placeholder_path` is where that picture lies.
pub open spec fn shows_placeholder(ps: PlayerStateView, placeholder_path: Option<Seq<char>>) -> bool {
    ps.filename == Some("placeholder.png"@) || (match (ps.path, placeholder_path) {
        (Some(p), Some(q)) => p == q,
        _ => false,
    })
}

pub fn is_placeholder_file(ps: &PlayerState, placeholder_path: Option<&str>) -> (r: bool)
    ensures
        r == shows_placeholder(ps@, opt_view(placeholder_path)),
{
    match &ps.filename {
        Some(name) => {
            if texts_equal(name, "placeholder.png") {
                return true;
            }
        },
        None => {},
    }
    match (&ps.path, placeholder_path) {
        (Some(p), Some(q)) => texts_equal(p, q),
        _ => false,
    }
}

/// What the player showed of its file the last time it was looked at.
#[derive(Debug)]
pub struct PlayerStateSnapshot {
    pub filename: Option<String>,
    pub position: Option<i64>,
    pub paused: Option<bool>,
    pub duration: Option<i64>,
    pub path: Option<String>,
}

pub struct PlayerStateSnapshotView {
    pub filename: Option<Seq<char>>,
    pub position: Option<i64>,
    pub paused: Option<bool>,
    pub duration: Option<i64>,
    pub path: Option<Seq<char>>,
}

impl View for PlayerStateSnapshot {
    type V = PlayerStateSnapshotView;

    open spec fn view(&self) -> PlayerStateSnapshotView {
        PlayerStateSnapshotView {
            filename: opt_view(self.filename),
            position: self.position,
            paused: self.paused,
            duration: self.duration,
            path: opt_view(self.path),
        }
    }
}

impl PlayerStateSnapshot {
    pub fn from(state: &PlayerState) -> (r: Self)
        ensures
            r@ == (PlayerStateSnapshotView {
                filename: state@.filename,
                position: state@.position,
                paused: state@.paused,
                duration: state@.duration,
                path: state@.path,
            }),
    {
        Self {
            filename: clone_opt_text(&state.filename),
            position: state.position,
            paused: state.paused,
            duration: state.duration,
            path: clone_opt_text(&state.path),
        }
    }
}

/// The player shows another file than the last time: another name, path or
/// duration, or it was not looked at before.
pub open spec fn file_changed(ps: PlayerStateView, last: Option<PlayerStateSnapshotView>) -> bool {
    match last {
        None => true,
        Some(prev) => prev.filename != ps.filename || prev.path != ps.path || prev.duration
            != ps.duration,
    }
}

fn same_opt_text(a: &Option<String>, b: &Option<String>) -> (r: bool)
    ensures
        r == (opt_view(*a) == opt_view(*b)),
{
    match (a, b) {
        (Some(x), Some(y)) => texts_equal(x, y.as_str()),
        (None, None) => true,
        _ => false,
    }
}

pub fn file_info_changed(ps: &PlayerState, last_sent: Option<&PlayerStateSnapshot>) -> (r: bool)
    ensures
        r == file_changed(ps@, opt_view(last_sent)),
{
    match last_sent {
        None => true,
        Some(prev) => {
            let same_duration = match (prev.duration, ps.duration) {
                (Some(a), Some(b)) => a == b,
                (None, None) => true,
                _ => false,
            };
            !same_opt_text(&prev.filename, &ps.filename) || !same_opt_text(&prev.path, &ps.path)
                || !same_duration
        },
    }
}

// ---------------------------------------------------------------------------
// Opening a file
// ---------------------------------------------------------------------------

/// What is opened for a name: a URL that may be opened stands for itself,
/// any other name for the path that was found for it (`found`).
pub open spec fn media_target(
    name: Seq<char>,
    domains: Seq<Seq<char>>,
    only_trusted: bool,
    found: Option<Seq<char>>,
) -> Result<Seq<char>, Seq<char>> {
    if is_url_text(name) {
        if trust(name, domains, only_trusted) == (true, true) {
            Ok(name)
        } else {
            Err("URL is not trusted"@)
        }
    } else {
        match found {
            Some(p) => Ok(p),
            None => Err("File not found in media directories: "@ + name),
        }
    }
}

pub open spec fn result_view(r: Result<String, String>) -> Result<Seq<char>, Seq<char>> {
    match r {
        Ok(s) => Ok(s@),
        Err(e) => Err(e@),
    }
}

/// What to open for a name, or why nothing is opened. `found` is the path
/// of the file of that name in the media directories, where there is one.
pub fn resolve_media_target(
    state: &Session,
    name: &str,
    trusted_domains: &[String],
    found: Option<&str>,
) -> (r: Result<String, String>)
    ensures
        result_view(r) == media_target(
            name@,
            trusted_domains.deep_view(),
            state@.config.only_switch_to_trusted_domains,
            opt_view(found),
        ),
{
    if is_url(name) {
        let (trustable, trusted) = is_trustable_and_trusted(
            name,
            trusted_domains,
            state.config.only_switch_to_trusted_domains,
        );
        if !trustable || !trusted {
            return Err(copy_str("URL is not trusted"));
        }
        return Ok(copy_str(name));
    }
    match found {
        Some(p) => Ok(copy_str(p)),
        None => Err(text2("File not found in media directories: ", name)),
    }
}

/// The session after the player has opened the file of a name.
#[verifier::opaque]
pub open spec fn media_loaded(
    s: SessionView,
    name: Seq<char>,
    reset_position: bool,
    suppress_update: bool,
    now: u64,
) -> SessionView {
    let s1 = SessionView {
        client: ClientStateView { file: Some(name), ..s.client },
        last_updated_file_time: Some(now),
        playlist: PlaylistView { last_index_change: Some(now), ..s.playlist },
        last_rewind_time: if reset_position {
            Some(now)
        } else {
            s.last_rewind_time
        },
        suppress_next_file_update: suppress_update || s.suppress_next_file_update,
        ..s
    };
    SessionView {
        autoplay: if reset_position {
            crate::warnings::autoplay_evaluated(
                s1.autoplay,
                crate::warnings::autoplay_ready(s1, now),
            )
        } else {
            s1.autoplay
        },
        ..s1
    }
}

fn note_loaded(state: &mut Session, name: &str, reset_position: bool, suppress_update: bool, now: u64)
    ensures
        final(state).wf() == old(state).wf(),
        final(state)@ == (SessionView {
            client: ClientStateView { file: Some(name@), ..old(state)@.client },
            last_updated_file_time: Some(now),
            playlist: PlaylistView { last_index_change: Some(now), ..old(state)@.playlist },
            last_rewind_time: if reset_position {
                Some(now)
            } else {
                old(state)@.last_rewind_time
            },
            suppress_next_file_update: suppress_update || old(state)@.suppress_next_file_update,
            ..old(state)@
        }),
{
    let rewind = if reset_position {
        Some(now)
    } else {
        state.last_rewind_time
    };
    let suppress = suppress_update || state.suppress_next_file_update;
    state.client_state.set_file(Some(copy_str(name)));
    state.last_updated_file_time = Some(now);
    state.playlist.opened_file(now);
    state.last_rewind_time = rewind;
    state.suppress_next_file_update = suppress;
}

pub open spec fn media_loaded_effects(s: SessionView, name: Seq<char>, reset_position: bool, suppress_update: bool, now: u64) -> Seq<
    EffectView,
> {
    if reset_position {
        seq![EffectView::RewindPlayer] + music_effects(
            loaded_before_autoplay(s, name, reset_position, suppress_update, now),
            now,
        ) + countdown_effects(
            s.autoplay,
            autoplay_ready(loaded_before_autoplay(s, name, reset_position, suppress_update, now), now),
        )
    } else {
        Seq::empty()
    }
}

/// The session with a loaded file noted, before it is seen whether playback
/// may start by itself.
pub open spec fn loaded_before_autoplay(
    s: SessionView,
    name: Seq<char>,
    reset_position: bool,
    suppress_update: bool,
    now: u64,
) -> SessionView {
    SessionView {
        client: ClientStateView { file: Some(name), ..s.client },
        last_updated_file_time: Some(now),
        playlist: PlaylistView { last_index_change: Some(now), ..s.playlist },
        last_rewind_time: if reset_position {
            Some(now)
        } else {
            s.last_rewind_time
        },
        suppress_next_file_update: suppress_update || s.suppress_next_file_update,
        ..s
    }
}

fn rewind_and_evaluate(state: &mut Session, now: u64, effects: &mut Vec<Effect>)
    ensures
        final(state).wf() == old(state).wf(),
        final(state)@ == (SessionView {
            autoplay: autoplay_evaluated(old(state)@.autoplay, autoplay_ready(old(state)@, now)),
            ..old(state)@
        }),
        fx(*final(effects)) == fx(*old(effects)) + seq![EffectView::RewindPlayer] + music_effects(
            old(state)@,
            now,
        ) + countdown_effects(old(state)@.autoplay, autoplay_ready(old(state)@, now)),
{
    emit(effects, Effect::RewindPlayer);
    let ghost mid = fx(*effects);
    evaluate_autoplay(state, now, effects);
    assert(fx(*effects) =~= fx(*old(effects)) + seq![EffectView::RewindPlayer] + music_effects(
        old(state)@,
        now,
    ) + countdown_effects(old(state)@.autoplay, autoplay_ready(old(state)@, now)));
}

/// Takes the news that the player has opened the file of a name. The file
/// starts at its start where that is asked for, and the opening is not told
/// to the server where `suppress_update` is set.
pub fn handle_media_loaded(
    state: &mut Session,
    name: &str,
    reset_position: bool,
    suppress_update: bool,
    now: u64,
    effects: &mut Vec<Effect>,
)
    ensures
        final(state).wf() == old(state).wf(),
        final(state)@ == media_loaded(old(state)@, name@, reset_position, suppress_update, now),
        fx(*final(effects)) == fx(*old(effects)) + media_loaded_effects(
            old(state)@,
            name@,
            reset_position,
            suppress_update,
            now,
        ),
{
    note_loaded(state, name, reset_position, suppress_update, now);
    if reset_position {
        rewind_and_evaluate(state, now, effects);
        assert(state@ == media_loaded(old(state)@, name@, reset_position, suppress_update, now))
            by {
            reveal(media_loaded);
        }
    } else {
        assert(fx(*effects) =~= fx(*old(effects)) + Seq::empty());
        assert(state@ == media_loaded(old(state)@, name@, reset_position, suppress_update, now))
            by {
            reveal(media_loaded);
        }
    }
}

// ---------------------------------------------------------------------------
// Moving on in the playlist
// ---------------------------------------------------------------------------

/// How long after a change of the selection the playlist does not move on
/// by itself.
pub const ADVANCE_COOLDOWN: u64 = 8000;

/// The selection has not just changed.
pub open spec fn selection_settled(s: SessionView, now: u64) -> bool {
    match s.playlist.last_index_change {
        Some(t) => now - t > ADVANCE_COOLDOWN,
        None => true,
    }
}

/// The file that is open is the selected item of the playlist.
pub open spec fn playing_current(s: SessionView) -> bool {
    match s.playlist.current_index {
        Some(i) => 0 <= i < s.playlist.items.len() && same_name(
            s.client.file,
            Some(s.playlist.items[i].filename),
        ),
        None => false,
    }
}

pub fn is_playing_current_index(state: &Session) -> (r: bool)
    requires
        state.wf(),
    ensures
        r == playing_current(state@),
{
    let index = match state.playlist.get_current_index() {
        Some(i) => i,
        None => {
            return false;
        },
    };
    let items = state.playlist.get_item_filenames();
    assert(items.deep_view().len() == items@.len());
    if index >= items.len() {
        return false;
    }
    assert(items.deep_view()[index as int] == items@[index as int]@);
    let file = state.client_state.get_file();
    same_filename(crate::warnings::opt_str(&file), Some(items[index].as_str()))
}

/// Whether the playlist goes from its last item to its first.
pub open spec fn loops_at_end(s: SessionView) -> bool {
    s.config.loop_at_end_of_playlist || playing_music(s.client)
}

/// Whether a list of one item plays that item again and again.
pub open spec fn loops_single(s: SessionView) -> bool {
    s.playlist.items.len() == 1 && (s.config.loop_single_files || playing_music(s.client))
}

/// The item that follows the selected one.
pub open spec fn next_item(s: SessionView) -> Option<int> {
    match s.playlist.current_index {
        Some(i) => if i + 1 < s.playlist.items.len() {
            Some(i + 1)
        } else if loops_at_end(s) && s.playlist.items.len() > 0 {
            Some(0)
        } else {
            None
        },
        None => None,
    }
}

/// What the end of a file leads to.
#[derive(Clone, Copy, Debug, PartialEq, Eq, Structural)]
pub enum Advance {
    /// Nothing.
    Stay,
    /// The one item of the list is played again.
    Repeat,
    /// The playlist moves on to the item of that index.
    MoveTo(usize),
}

/// What the end of the file that is open leads to, where the playlist is
/// shared and the file is the selected item. `next_available` tells whether
/// the item that follows can be opened.
#[verifier::opaque]
pub open spec fn advance(s: SessionView, next_available: bool) -> Advance {
    if !playlists_shared(s) || !playing_current(s) || s.playlist.items.len() == 0 {
        Advance::Stay
    } else if loops_single(s) {
        Advance::Repeat
    } else {
        match next_item(s) {
            Some(i) => if next_available {
                Advance::MoveTo(i as usize)
            } else {
                Advance::Stay
            },
            None => Advance::Stay,
        }
    }
}

fn following(state: &Session) -> (r: Option<usize>)
    ensures
        (match r {
            Some(i) => Some(i as int),
            None => None,
        }) == next_item(state@),
{
    let n = state.playlist.len();
    match state.playlist.get_current_index() {
        Some(i) => if i < usize::MAX && i + 1 < n {
            Some(i + 1)
        } else if (state.config.loop_at_end_of_playlist || is_playing_music(state)) && n > 0 {
            Some(0)
        } else {
            None
        },
        None => None,
    }
}

/// The name of the item that follows the selected one.
pub fn next_playlist_item(state: &Session) -> (r: Option<String>)
    requires
        state.wf(),
    ensures
        opt_view(r) == (match next_item(state@) {
            Some(i) => if 0 <= i < state@.playlist.items.len() {
                Some(state@.playlist.items[i].filename)
            } else {
                None
            },
            None => None,
        }),
{
    let items = state.playlist.get_item_filenames();
    assert(items.deep_view().len() == items@.len());
    match following(state) {
        Some(i) => {
            if i < items.len() {
                assert(items.deep_view()[i as int] == items@[i as int]@);
                Some(items[i].clone())
            } else {
                None
            }
        },
        None => None,
    }
}

pub fn plan_advance(state: &Session, next_available: bool) -> (r: Advance)
    requires
        state.wf(),
    ensures
        r == advance(state@, next_available),
{
    proof {
        reveal(advance);
    }
    if !shared_playlists_enabled(state) {
        return Advance::Stay;
    }
    if !is_playing_current_index(state) {
        return Advance::Stay;
    }
    if state.playlist.len() == 0 {
        return Advance::Stay;
    }
    if state.playlist.len() == 1 && (state.config.loop_single_files || is_playing_music(state)) {
        return Advance::Repeat;
    }
    match following(state) {
        Some(i) => if next_available {
            Advance::MoveTo(i)
        } else {
            Advance::Stay
        },
        None => Advance::Stay,
    }
}

/// The session after the one item of the list has started again.
pub open spec fn repeated(s: SessionView, now: u64) -> SessionView {
    SessionView {
        playlist: PlaylistView { last_index_change: Some(now), ..s.playlist },
        last_rewind_time: Some(now),
        ..s
    }
}

pub open spec fn repeated_effects(s: SessionView) -> Seq<EffectView> {
    seq![EffectView::RewindPlayer] + (if s.player_kind.is_some() {
        seq![EffectView::SetPaused(false)]
    } else {
        Seq::empty()
    })
}

fn repeat_file(state: &mut Session, now: u64, effects: &mut Vec<Effect>)
    ensures
        final(state).wf() == old(state).wf(),
        final(state)@ == repeated(old(state)@, now),
        fx(*final(effects)) == fx(*old(effects)) + repeated_effects(old(state)@),
{
    emit_repeat(state, effects);
    state.playlist.opened_file(now);
    state.last_rewind_time = Some(now);
}

fn emit_repeat(state: &Session, effects: &mut Vec<Effect>)
    ensures
        fx(*final(effects)) == fx(*old(effects)) + repeated_effects(state@),
{
    emit(effects, Effect::RewindPlayer);
    if state.player_kind.is_some() {
        emit(effects, Effect::SetPaused(false));
    }
    assert(fx(*effects) =~= fx(*old(effects)) + repeated_effects(state@));
}

/// The session after the playlist has moved on to an item.
pub open spec fn moved_on(s: SessionView, index: int, now: u64) -> SessionView {
    index_applied(
        crate::player_loop::index_sent(
            SessionView { last_advance_time: Some(now), ..s },
            index,
            true,
            now,
        ),
        index,
        now,
    )
}

pub open spec fn moved_on_effects(s: SessionView, index: int, now: u64) -> Seq<EffectView> {
    index_sent_effects(SessionView { last_advance_time: Some(now), ..s }, index, true)
        + index_applied_effects(
        crate::player_loop::index_sent(
            SessionView { last_advance_time: Some(now), ..s },
            index,
            true,
            now,
        ),
        index,
        true,
        now,
    )
}

fn note_advance(state: &mut Session, now: u64)
    ensures
        final(state).wf() == old(state).wf(),
        final(state)@ == (SessionView { last_advance_time: Some(now), ..old(state)@ }),
{
    state.last_advance_time = Some(now);
}

fn move_on(state: &mut Session, index: usize, now: u64, effects: &mut Vec<Effect>)
    requires
        old(state).wf(),
    ensures
        final(state).wf(),
        final(state)@ == moved_on(old(state)@, index as int, now),
        fx(*final(effects)) == fx(*old(effects)) + moved_on_effects(old(state)@, index as int, now),
{
    let ghost e0 = fx(*effects);
    note_advance(state, now);
    let _ = send_playlist_index(state, index, true, now, effects);
    apply_playlist_index_from_server(state, index, true, now, effects);
    assert(fx(*effects) =~= e0 + moved_on_effects(old(state)@, index as int, now));
}

/// The session after the end of a file.
#[verifier::opaque]
pub open spec fn advanced(s: SessionView, next_available: bool, now: u64) -> SessionView {
    match advance(s, next_available) {
        Advance::Stay => s,
        Advance::Repeat => repeated(s, now),
        Advance::MoveTo(i) => moved_on(s, i as int, now),
    }
}

/// What the end of a file asks for: the file starts again, or the next item
/// is selected, told to the server and opened.
#[verifier::opaque]
pub open spec fn advanced_effects(s: SessionView, next_available: bool, now: u64) -> Seq<
    EffectView,
> {
    match advance(s, next_available) {
        Advance::Stay => Seq::empty(),
        Advance::Repeat => repeated_effects(s),
        Advance::MoveTo(i) => moved_on_effects(s, i as int, now),
    }
}

/// Moves on in the playlist after the end of the file that is open.
pub fn load_next_file_in_playlist(
    state: &mut Session,
    next_available: bool,
    now: u64,
    effects: &mut Vec<Effect>,
) -> (r: Advance)
    requires
        old(state).wf(),
    ensures
        final(state).wf(),
        r == advance(old(state)@, next_available),
        final(state)@ == advanced(old(state)@, next_available, now),
        fx(*final(effects)) == fx(*old(effects)) + advanced_effects(
            old(state)@,
            next_available,
            now,
        ),
{
    proof {
        reveal(advanced);
        reveal(advanced_effects);
    }
    let plan = plan_advance(state, next_available);
    match plan {
        Advance::Stay => {
            assert(fx(*effects) =~= fx(*old(effects)) + Seq::empty());
        },
        Advance::Repeat => {
            repeat_file(state, now, effects);
        },
        Advance::MoveTo(i) => {
            move_on(state, i, now, effects);
        },
    }
    plan
}

/// Whether an item of the playlist can be opened: not one whose name is
/// hidden; a URL where it may be opened; any other where it was found in
/// the media directories (`found`).
pub open spec fn item_available(
    name: Seq<char>,
    domains: Seq<Seq<char>>,
    only_trusted: bool,
    found: bool,
) -> bool {
    name != hidden_name() && (if is_url_text(name) {
        trust(name, domains, only_trusted) == (true, true)
    } else {
        found
    })
}

pub fn playlist_item_available(
    state: &Session,
    filename: &str,
    trusted_domains: &[String],
    found: bool,
) -> (r: bool)
    ensures
        r == item_available(
            filename@,
            trusted_domains.deep_view(),
            state@.config.only_switch_to_trusted_domains,
            found,
        ),
{
    if same_chars(&to_chars(filename), &to_chars(PRIVACY_HIDDEN_FILENAME)) {
        return false;
    }
    if is_url(filename) {
        let (trustable, trusted) = is_trustable_and_trusted(
            filename,
            trusted_domains,
            state.config.only_switch_to_trusted_domains,
        );
        return trustable && trusted;
    }
    found
}

/// The duration of the file after its end was seen at a position: that
/// position, where the selection has settled and a file is open.
pub open spec fn duration_at_end(s: SessionView, position: Option<i64>, now: u64) -> Option<i64> {
    if selection_settled(s, now) && s.client.file.is_some() && position.is_some() {
        position
    } else {
        s.client.file_duration
    }
}

/// The session with the duration of the file corrected at its end.
pub open spec fn end_noted(s: SessionView, position: Option<i64>, now: u64) -> SessionView {
    SessionView {
        client: ClientStateView { file_duration: duration_at_end(s, position, now), ..s.client },
        ..s
    }
}

fn note_end(state: &mut Session, position: Option<i64>, now: u64) -> (settled: bool)
    ensures
        final(state).wf() == old(state).wf(),
        final(state)@ == end_noted(old(state)@, position, now),
        settled == selection_settled(old(state)@, now),
{
    let (settled, duration) = end_plan(state, position, now);
    state.client_state.set_file_duration(duration);
    settled
}

fn end_plan(state: &Session, position: Option<i64>, now: u64) -> (r: (bool, Option<i64>))
    ensures
        r.0 == selection_settled(state@, now),
        r.1 == duration_at_end(state@, position, now),
{
    let settled = state.playlist.not_just_changed(ADVANCE_COOLDOWN, now);
    let duration = if settled && state.client_state.get_file().is_some() && position.is_some() {
        position
    } else {
        state.client_state.get_file_duration()
    };
    (settled, duration)
}

/// Whether the end of a file moves the playlist on: playlists are shared
/// and the selection has settled.
pub open spec fn end_advances(s: SessionView, now: u64) -> bool {
    playlists_shared(s) && selection_settled(s, now)
}

/// The session after the player has reached the end of its file.
#[verifier::opaque]
pub open spec fn end_handled(s: SessionView, position: Option<i64>, next_available: bool, now: u64) -> SessionView {
    if end_advances(s, now) {
        advanced(end_noted(s, position, now), next_available, now)
    } else {
        end_noted(s, position, now)
    }
}

#[verifier::opaque]
pub open spec fn end_effects(s: SessionView, position: Option<i64>, next_available: bool, now: u64) -> Seq<
    EffectView,
> {
    if end_advances(s, now) {
        advanced_effects(end_noted(s, position, now), next_available, now)
    } else {
        Seq::empty()
    }
}

/// Takes the end of the file that is open. `position` is where the player
/// stands, where that is known.
pub fn handle_end_of_file(
    state: &mut Session,
    position: Option<i64>,
    next_available: bool,
    now: u64,
    effects: &mut Vec<Effect>,
)
    requires
        old(state).wf(),
    ensures
        final(state).wf(),
        final(state)@ == end_handled(old(state)@, position, next_available, now),
        fx(*final(effects)) == fx(*old(effects)) + end_effects(
            old(state)@,
            position,
            next_available,
            now,
        ),
{
    proof {
        reveal(end_handled);
        reveal(end_effects);
    }
    let settled = note_end(state, position, now);
    if shared_playlists_enabled(state) && settled {
        let _ = load_next_file_in_playlist(state, next_available, now, effects);
    } else {
        assert(fx(*effects) =~= fx(*old(effects)) + Seq::empty());
    }
}

// ---------------------------------------------------------------------------
// The user's own pausing
// ---------------------------------------------------------------------------

/// Whether an unpause by the user starts playback at once: always for
/// music; else only for a user who controls the room, and then as the user
/// has chosen: always, or when they were ready already, or when the others
/// are ready, or when the others are ready and there are users enough.
pub open spec fn instaplay(s: SessionView) -> bool {
    playing_music(s.client) || (can_control(s.client) && (match s.config.unpause_action {
        UnpauseAction::Always => true,
        UnpauseAction::IfAlreadyReady => s.client.is_ready,
        UnpauseAction::IfOthersReady => all_others_ready(s.client),
        UnpauseAction::IfMinUsersReady => all_others_ready(s.client) && (
        s.config.autoplay_min_users <= 0 || room_count(s.client) >= s.config.autoplay_min_users),
    }))
}

pub fn instaplay_conditions_met(state: &Session) -> (r: bool)
    ensures
        r == instaplay(state@),
{
    if is_playing_music(state) {
        return true;
    }
    if !current_user_can_control(state) {
        return false;
    }
    match state.config.unpause_action {
        UnpauseAction::Always => true,
        UnpauseAction::IfAlreadyReady => state.client_state.is_ready(),
        UnpauseAction::IfOthersReady => are_all_other_users_ready(state),
        UnpauseAction::IfMinUsersReady => {
            if !are_all_other_users_ready(state) {
                return false;
            }
            let min_users = state.config.autoplay_min_users;
            if min_users > 0 {
                let count = users_in_room_count(state);
                return (count as u64) >= (min_users as u64);
            }
            true
        },
    }
}

/// What becomes of a pause or unpause by the user.
pub struct Toggle {
    /// Whether it is told to the server as a change of playback.
    pub change: bool,
    /// Whether the player is paused afterwards.
    pub paused: bool,
    /// The pause that the player is given, where it is given one.
    pub set_paused: Option<bool>,
    /// The readiness that is announced, and whether as the user's own
    /// doing, where one is announced.
    pub ready: Option<(bool, bool)>,
    /// What the user is told.
    pub message: Option<Seq<char>>,
    /// Whether the pause after somebody left is forgotten.
    pub forgets_leave: bool,
}

/// The pause after somebody left is less than two seconds old.
pub open spec fn just_paused_on_leave(s: SessionView, now: u64) -> bool {
    match s.last_paused_on_leave_time {
        Some(t) => elapsed(now, t) < crate::readiness::LAST_PAUSED_DIFF_THRESHOLD,
        None => false,
    }
}

/// What becomes of a pause or unpause by the user.
///
/// A user who does not control the room cannot change playback: the player
/// is set back to the room's pause and the user's readiness is turned over
/// instead. Music that has just moved on plays on. A pause of the room
/// right after a rewind stands. An unpause that may not start playback at
/// once makes the user ready and leaves the player paused. Anything else is
/// a change of playback, and the user's readiness follows it.
#[verifier::opaque]
pub open spec fn ready_toggle(s: SessionView, paused: bool, global_paused: bool, now: u64) -> Toggle {
    if !can_control(s.client) {
        let says = !(just_rewound(s, now) || (global_paused && !just_advanced(s, now)));
        Toggle {
            change: false,
            paused: global_paused,
            set_paused: Some(global_paused),
            ready: if says {
                Some((!s.client.is_ready, true))
            } else {
                None
            },
            message: if says {
                Some(
                    if !s.client.is_ready {
                        "You are now set as ready"@
                    } else {
                        "You are now set as not ready"@
                    },
                )
            } else {
                None
            },
            forgets_leave: false,
        }
    } else if music_override(s, now) {
        Toggle {
            change: false,
            paused,
            set_paused: Some(paused),
            ready: None,
            message: None,
            forgets_leave: false,
        }
    } else if just_rewound(s, now) && global_paused && !just_advanced(s, now) {
        Toggle {
            change: false,
            paused: global_paused,
            set_paused: Some(global_paused),
            ready: None,
            message: None,
            forgets_leave: false,
        }
    } else if !paused && !instaplay(s) {
        Toggle {
            change: false,
            paused: true,
            set_paused: Some(true),
            ready: Some((true, true)),
            message: Some("You are now set as ready - unpause again to unpause"@),
            forgets_leave: false,
        }
    } else if just_paused_on_leave(s, now) {
        Toggle {
            change: true,
            paused,
            set_paused: None,
            ready: None,
            message: None,
            forgets_leave: true,
        }
    } else {
        Toggle {
            change: true,
            paused,
            set_paused: None,
            ready: if !paused != s.client.is_ready {
                Some((!paused, false))
            } else {
                None
            },
            message: None,
            forgets_leave: s.last_paused_on_leave_time.is_some(),
        }
    }
}

#[verifier::opaque]
pub open spec fn toggle_effects(s: SessionView, t: Toggle) -> Seq<EffectView> {
    (match t.set_paused {
        Some(p) => seq![EffectView::SetPaused(p)],
        None => Seq::empty(),
    }) + (match t.ready {
        Some((r, m)) => ready_send_effects(s, r, m),
        None => Seq::empty(),
    }) + (match t.message {
        Some(m) => notice_effects(s, m, true),
        None => Seq::empty(),
    })
}

/// The session after a pause or unpause by the user.
#[verifier::opaque]
pub open spec fn toggled(s: SessionView, t: Toggle) -> SessionView {
    SessionView {
        client: ClientStateView {
            is_ready: match t.ready {
                Some((r, _)) => if s.features.readiness {
                    r
                } else {
                    s.client.is_ready
                },
                None => s.client.is_ready,
            },
            ..s.client
        },
        last_paused_on_leave_time: if t.forgets_leave {
            None
        } else {
            s.last_paused_on_leave_time
        },
        ..s
    }
}

struct TogglePlan {
    change: bool,
    paused: bool,
    set_paused: Option<bool>,
    ready: Option<(bool, bool)>,
    message: Option<String>,
    forgets_leave: bool,
}

impl TogglePlan {
    spec fn plan_view(&self) -> Toggle {
        Toggle {
            change: self.change,
            paused: self.paused,
            set_paused: self.set_paused,
            ready: self.ready,
            message: opt_view(self.message),
            forgets_leave: self.forgets_leave,
        }
    }
}

fn plan_toggle(state: &Session, paused: bool, global_paused: bool, now: u64) -> (r: TogglePlan)
    ensures
        r.plan_view() == ready_toggle(state@, paused, global_paused, now),
{
    proof {
        reveal(ready_toggle);
    }
    let rewound = recently_rewound(state, now);
    let advanced = recently_advanced(state, now);
    if !current_user_can_control(state) {
        let new_ready = !state.client_state.is_ready();
        let says = !(rewound || (global_paused && !advanced));
        return TogglePlan {
            change: false,
            paused: global_paused,
            set_paused: Some(global_paused),
            ready: if says {
                Some((new_ready, true))
            } else {
                None
            },
            message: if says {
                Some(
                    if new_ready {
                        copy_str("You are now set as ready")
                    } else {
                        copy_str("You are now set as not ready")
                    },
                )
            } else {
                None
            },
            forgets_leave: false,
        };
    }
    if seamless_music_override(state, now) {
        return TogglePlan {
            change: false,
            paused,
            set_paused: Some(paused),
            ready: None,
            message: None,
            forgets_leave: false,
        };
    }
    if rewound && global_paused && !advanced {
        return TogglePlan {
            change: false,
            paused: global_paused,
            set_paused: Some(global_paused),
            ready: None,
            message: None,
            forgets_leave: false,
        };
    }
    if !paused && !instaplay_conditions_met(state) {
        return TogglePlan {
            change: false,
            paused: true,
            set_paused: Some(true),
            ready: Some((true, true)),
            message: Some(copy_str("You are now set as ready - unpause again to unpause")),
            forgets_leave: false,
        };
    }
    let on_leave = match state.last_paused_on_leave_time {
        Some(t) => elapsed_ms(now, t) < crate::readiness::LAST_PAUSED_DIFF_THRESHOLD,
        None => false,
    };
    if on_leave {
        return TogglePlan {
            change: true,
            paused,
            set_paused: None,
            ready: None,
            message: None,
            forgets_leave: true,
        };
    }
    let desired_ready = !paused;
    TogglePlan {
        change: true,
        paused,
        set_paused: None,
        ready: if desired_ready != state.client_state.is_ready() {
            Some((desired_ready, false))
        } else {
            None
        },
        message: None,
        forgets_leave: state.last_paused_on_leave_time.is_some(),
    }
}

fn emit_pause_opt(set_paused: Option<bool>, effects: &mut Vec<Effect>)
    ensures
        fx(*final(effects)) == fx(*old(effects)) + (match set_paused {
            Some(p) => seq![EffectView::SetPaused(p)],
            None => Seq::empty(),
        }),
{
    match set_paused {
        Some(p) => {
            emit(effects, Effect::SetPaused(p));
            assert(fx(*effects) =~= fx(*old(effects)) + seq![EffectView::SetPaused(p)]);
        },
        None => {
            assert(fx(*effects) =~= fx(*old(effects)) + Seq::empty());
        },
    }
}

fn emit_ready_opt(state: &Session, ready: Option<(bool, bool)>, effects: &mut Vec<Effect>) -> (r:
    Option<bool>)
    ensures
        r == (match ready {
            Some((ready, _)) => if state@.features.readiness {
                Some(ready)
            } else {
                None
            },
            None => None,
        }),
        fx(*final(effects)) == fx(*old(effects)) + (match ready {
            Some((r, m)) => ready_send_effects(state@, r, m),
            None => Seq::empty(),
        }),
{
    match ready {
        Some((r, m)) => {
            let (ready, _) = ready_plan(state, r, m, effects);
            ready
        },
        None => {
            assert(fx(*effects) =~= fx(*old(effects)) + Seq::empty());
            None
        },
    }
}

fn emit_message_opt(state: &Session, message: &Option<String>, effects: &mut Vec<Effect>)
    ensures
        fx(*final(effects)) == fx(*old(effects)) + (match opt_view(*message) {
            Some(m) => notice_effects(state@, m, true),
            None => Seq::empty(),
        }),
{
    match message {
        Some(m) => {
            notice(state, m.clone(), true, effects);
        },
        None => {
            assert(fx(*effects) =~= fx(*old(effects)) + Seq::empty());
        },
    }
}

fn emit_toggle(state: &Session, plan: &TogglePlan, effects: &mut Vec<Effect>) -> (r: (
    Option<bool>,
    Option<u64>,
))
    ensures
        r.0 == (match plan.ready {
            Some((ready, _)) => if state@.features.readiness {
                Some(ready)
            } else {
                None
            },
            None => None,
        }),
        r.1 == (if plan.forgets_leave {
            None
        } else {
            state@.last_paused_on_leave_time
        }),
        fx(*final(effects)) == fx(*old(effects)) + toggle_effects(state@, plan.plan_view()),
{
    proof {
        reveal(toggle_effects);
    }
    let ghost e0 = fx(*effects);
    emit_pause_opt(plan.set_paused, effects);
    let ready = emit_ready_opt(state, plan.ready, effects);
    emit_message_opt(state, &plan.message, effects);
    assert(fx(*effects) =~= e0 + toggle_effects(state@, plan.plan_view()));
    let leave = if plan.forgets_leave {
        None
    } else {
        state.last_paused_on_leave_time
    };
    (ready, leave)
}

/// Takes a pause or unpause by the user while readiness is told. Gives
/// whether it counts as a change of playback, and whether the player is
/// paused afterwards.
pub fn apply_ready_toggle(
    state: &mut Session,
    paused: bool,
    global_paused: bool,
    now: u64,
    effects: &mut Vec<Effect>,
) -> (r: (bool, bool))
    ensures
        final(state).wf() == old(state).wf(),
        r.0 == ready_toggle(old(state)@, paused, global_paused, now).change,
        r.1 == ready_toggle(old(state)@, paused, global_paused, now).paused,
        final(state)@ == toggled(old(state)@, ready_toggle(old(state)@, paused, global_paused, now)),
        fx(*final(effects)) == fx(*old(effects)) + toggle_effects(
            old(state)@,
            ready_toggle(old(state)@, paused, global_paused, now),
        ),
{
    proof {
        reveal(toggled);
    }
    let plan = plan_toggle(state, paused, global_paused, now);
    let (ready, leave) = emit_toggle(state, &plan, effects);
    state.client_state.set_ready_if(ready);
    state.last_paused_on_leave_time = leave;
    (plan.change, plan.paused)
}

// ---------------------------------------------------------------------------
// A look at the player
// ---------------------------------------------------------------------------

/// The position is near the end of a file of that length: the file is at
/// least ten seconds long and the position less than five seconds from its
/// end.
pub open spec fn near_end(position: int, length: Option<i64>) -> bool {
    match length {
        Some(l) => l >= PLAYLIST_LOAD_NEXT_FILE_MINIMUM_LENGTH && magnitude(sat_sub(position, l as int))
            < PLAYLIST_LOAD_NEXT_FILE_TIME_FROM_END_THRESHOLD,
        None => false,
    }
}

fn is_near_end(position: i64, length: Option<i64>) -> (r: bool)
    ensures
        r == near_end(position as int, length),
{
    match length {
        Some(l) => {
            let d = sub_ms(position, l);
            l >= PLAYLIST_LOAD_NEXT_FILE_MINIMUM_LENGTH && d
                < PLAYLIST_LOAD_NEXT_FILE_TIME_FROM_END_THRESHOLD && d
                > -PLAYLIST_LOAD_NEXT_FILE_TIME_FROM_END_THRESHOLD
        },
        None => false,
    }
}

/// Whether the playlist moves on because the player stands near the end
/// of its file: playlists are shared, the selection has settled, and the
/// position is near the end of the file as its duration is known.
pub open spec fn check_advances(s: SessionView, position: i64, now: u64) -> bool {
    playlists_shared(s) && selection_settled(s, now) && near_end(
        position as int,
        s.client.file_duration,
    )
}

/// The session after a look at the position: moved on in the playlist
/// where that is due, else as it was.
#[verifier::opaque]
pub open spec fn advance_checked(s: SessionView, position: i64, next_available: bool, now: u64) -> SessionView {
    if check_advances(s, position, now) {
        advanced(s, next_available, now)
    } else {
        s
    }
}

#[verifier::opaque]
pub open spec fn advance_checked_effects(
    s: SessionView,
    position: i64,
    next_available: bool,
    now: u64,
) -> Seq<EffectView> {
    if check_advances(s, position, now) {
        advanced_effects(s, next_available, now)
    } else {
        Seq::empty()
    }
}

/// Moving on in the playlist leaves alone what is known of the user, the
/// room and the file that is open: only the playlist and the times of the
/// last advance and rewind change.
pub proof fn lemma_advance_keeps_client(s: SessionView, next_available: bool, now: u64)
    ensures
        advanced(s, next_available, now).client == s.client,
        advanced(s, next_available, now).config == s.config,
        advanced(s, next_available, now).connected == s.connected,
{
    reveal(advanced);
    reveal(index_sent);
    reveal(index_applied);
}

/// Moves the playlist on where the player stands near the end of its file.
/// Tells whether that was due. What is known of the file stays as it is;
/// where nothing is due, the session stays as it is and nothing is asked
/// for.
pub fn advance_playlist_check(
    state: &mut Session,
    position: i64,
    next_available: bool,
    now: u64,
    effects: &mut Vec<Effect>,
) -> (r: bool)
    requires
        old(state).wf(),
    ensures
        final(state).wf(),
        r == (playlists_shared(old(state)@) && selection_settled(old(state)@, now) && near_end(
            position as int,
            old(state)@.client.file_duration,
        )),
        final(state)@.client == old(state)@.client,
        !r ==> final(state)@ == old(state)@ && fx(*final(effects)) == fx(*old(effects)),
        r ==> final(state)@ == advanced(old(state)@, next_available, now) && fx(*final(effects))
            == fx(*old(effects)) + advanced_effects(old(state)@, next_available, now),
        final(state)@ == advance_checked(old(state)@, position, next_available, now),
        fx(*final(effects)) == fx(*old(effects)) + advance_checked_effects(
            old(state)@,
            position,
            next_available,
            now,
        ),
{
    proof {
        reveal(advance_checked);
        reveal(advance_checked_effects);
        lemma_advance_keeps_client(state@, next_available, now);
    }
    if !shared_playlists_enabled(state) {
        assert(fx(*effects) =~= fx(*old(effects)) + Seq::empty());
        return false;
    }
    let settled = state.playlist.not_just_changed(ADVANCE_COOLDOWN, now);
    let near = is_near_end(position, state.client_state.get_file_duration());
    if near && settled {
        let _ = load_next_file_in_playlist(state, next_available, now, effects);
        true
    } else {
        assert(fx(*effects) =~= fx(*old(effects)) + Seq::empty());
        false
    }
}

/// What a look at the player finds.
pub struct Seen {
    /// The user has paused or unpaused the player.
    pub pause_change: bool,
    /// The user has jumped.
    pub seeked: bool,
    /// The jump went backwards.
    pub rewound: bool,
    /// The player was paused near the end of its file.
    pub at_end: bool,
}

/// What a look at the player finds, at a position and a pause.
#[verifier::opaque]
pub open spec fn seen(s: SessionView, position: i64, paused: bool) -> Seen {
    let g = s.client.global_state;
    Seen {
        pause_change: s.local.pause_changes(paused, g.paused),
        seeked: s.local.jumps(position as int, g.position as int),
        rewound: s.local.jumps(position as int, g.position as int) && (match s.local.known() {
            Some((q, _)) => position < q,
            None => false,
        }),
        at_end: s.local.pause_changes(paused, g.paused) && paused && near_end(
            position as int,
            match s.client.file_duration {
                Some(d) => Some(d),
                None => Some(0),
            },
        ),
    }
}

/// The session with what the player shows noted.
#[verifier::opaque]
pub open spec fn observed(s: SessionView, position: i64, paused: bool, now: u64) -> SessionView {
    SessionView {
        local: LocalPlaybackState {
            position: Some(position),
            paused: Some(paused),
            seeked: seen(s, position, paused).seeked,
        },
        last_rewind_time: if seen(s, position, paused).rewound {
            Some(now)
        } else {
            s.last_rewind_time
        },
        ..s
    }
}

struct SeenData {
    pause_change: bool,
    seeked: bool,
    rewound: bool,
    at_end: bool,
}

impl SeenData {
    spec fn data_view(&self) -> Seen {
        Seen {
            pause_change: self.pause_change,
            seeked: self.seeked,
            rewound: self.rewound,
            at_end: self.at_end,
        }
    }
}

fn look(state: &Session, position: i64, paused: bool, now: u64) -> (r: (
    SeenData,
    LocalPlaybackState,
    Option<u64>,
))
    ensures
        r.0.data_view() == seen(state@, position, paused),
        r.1 == observed(state@, position, paused, now).local,
        r.2 == observed(state@, position, paused, now).last_rewind_time,
{
    proof {
        reveal(seen);
        reveal(observed);
    }
    let global = state.client_state.get_global_state();
    let mut local = state.local_playback_state;
    let previous = local.current();
    let (pause_change, seeked) = local.update_from_player(
        position,
        paused,
        global.position,
        global.paused,
    );
    let rewound = seeked && (match previous {
        Some((q, _)) => position < q,
        None => false,
    });
    let length = match state.client_state.get_file_duration() {
        Some(d) => Some(d),
        None => Some(0),
    };
    let at_end = pause_change && paused && is_near_end(position, length);
    let rewind_time = if rewound {
        Some(now)
    } else {
        state.last_rewind_time
    };
    (SeenData { pause_change, seeked, rewound, at_end }, local, rewind_time)
}

fn observe(state: &mut Session, position: i64, paused: bool, now: u64) -> (r: SeenData)
    ensures
        final(state).wf() == old(state).wf(),
        r.data_view() == seen(old(state)@, position, paused),
        final(state)@ == observed(old(state)@, position, paused, now),
{
    proof {
        reveal(observed);
    }
    let (found, local, rewind_time) = look(state, position, paused, now);
    state.local_playback_state = local;
    state.last_rewind_time = rewind_time;
    found
}

fn take_suppression(state: &mut Session, pause_change: bool, paused: bool) -> (r: bool)
    ensures
        final(state).wf() == old(state).wf(),
        r == (pause_change && !paused && old(state)@.suppress_unpause_check),
        final(state)@ == (SessionView {
            suppress_unpause_check: old(state)@.suppress_unpause_check && !(pause_change
                && !paused),
            ..old(state)@
        }),
{
    let suppressed = pause_change && !paused && state.suppress_unpause_check;
    let keep = state.suppress_unpause_check && !(pause_change && !paused);
    state.suppress_unpause_check = keep;
    suppressed
}

/// The state of playback that the client reports after a change by the
/// user: where the room is just after a rewind or a move in the playlist,
/// else where the player is, marked as a seek after a jump.
pub open spec fn reported_state(s: SessionView, position: i64, paused: bool, seeked: bool, now: u64) -> PlayStateView {
    if just_rewound(s, now) || just_advanced(s, now) {
        PlayStateView {
            position: s.client.global_state.position,
            paused,
            do_seek: None,
            set_by: None,
        }
    } else {
        PlayStateView {
            position,
            paused,
            do_seek: if seeked {
                Some(true)
            } else {
                None
            },
            set_by: None,
        }
    }
}

/// Whether a change by the user is told to the server.
pub open spec fn reports_change(s: SessionView, is_placeholder: bool, change: bool, seeked: bool) -> bool {
    !is_placeholder && s.last_global_update.is_some() && (change || seeked)
}

#[verifier::opaque]
pub open spec fn report_effects(
    s: SessionView,
    is_placeholder: bool,
    change: bool,
    seeked: bool,
    position: i64,
    paused: bool,
    now: u64,
) -> Seq<EffectView> {
    if reports_change(s, is_placeholder, change, seeked) {
        state_send_effects(
            s,
            Some(reported_state(s, position, paused, seeked, now)),
            s.last_latency_calculation,
            true,
        )
    } else {
        Seq::empty()
    }
}

/// The session after a change by the user was told to the server, where it
/// was.
#[verifier::opaque]
pub open spec fn reported(s: SessionView, is_placeholder: bool, change: bool, seeked: bool) -> SessionView {
    SessionView {
        ignoring: if reports_change(s, is_placeholder, change, seeked) {
            counters_after_send(s.ignoring, true)
        } else {
            s.ignoring
        },
        ..s
    }
}

fn state_to_report(state: &Session, position: i64, paused: bool, seeked: bool, now: u64) -> (r:
    PlayState)
    ensures
        r@ == reported_state(state@, position, paused, seeked, now),
{
    if recently_rewound(state, now) || recently_advanced(state, now) {
        let global = state.client_state.get_global_state();
        PlayState { position: global.position, paused, do_seek: None, set_by: None }
    } else {
        PlayState {
            position,
            paused,
            do_seek: if seeked {
                Some(true)
            } else {
                None
            },
            set_by: None,
        }
    }
}

fn report_plan(
    state: &Session,
    is_placeholder: bool,
    change: bool,
    seeked: bool,
    position: i64,
    paused: bool,
    now: u64,
    effects: &mut Vec<Effect>,
) -> (r: IgnoringCounters)
    ensures
        r == reported(state@, is_placeholder, change, seeked).ignoring,
        fx(*final(effects)) == fx(*old(effects)) + report_effects(
            state@,
            is_placeholder,
            change,
            seeked,
            position,
            paused,
            now,
        ),
{
    proof {
        reveal(reported);
        reveal(report_effects);
    }
    if !is_placeholder && state.last_global_update.is_some() && (change || seeked) {
        let play_state = state_to_report(state, position, paused, seeked, now);
        let (after, _) = write_state(
            state,
            Some(play_state),
            state.last_latency_calculation,
            true,
            effects,
        );
        after
    } else {
        assert(fx(*effects) =~= fx(*old(effects)) + Seq::empty());
        state.ignoring_on_the_fly
    }
}

fn report(
    state: &mut Session,
    is_placeholder: bool,
    change: bool,
    seeked: bool,
    position: i64,
    paused: bool,
    now: u64,
    effects: &mut Vec<Effect>,
)
    ensures
        final(state).wf() == old(state).wf(),
        final(state)@ == reported(old(state)@, is_placeholder, change, seeked),
        fx(*final(effects)) == fx(*old(effects)) + report_effects(
            old(state)@,
            is_placeholder,
            change,
            seeked,
            position,
            paused,
            now,
        ),
{
    let counters = report_plan(
        state,
        is_placeholder,
        change,
        seeked,
        position,
        paused,
        now,
        effects,
    );
    state.ignoring_on_the_fly = counters;
    assert(state@ == reported(old(state)@, is_placeholder, change, seeked)) by {
        reveal(reported);
    }
}

/// The session after the first part of a look at the player: what it shows
/// is noted and, where it was paused near the end of its file, the playlist
/// has moved on.
#[verifier::opaque]
pub open spec fn look_noted(s: SessionView, position: i64, paused: bool, next_available: bool, now: u64) -> SessionView {
    if seen(s, position, paused).at_end {
        advance_checked(observed(s, position, paused, now), position, next_available, now)
    } else {
        observed(s, position, paused, now)
    }
}

#[verifier::opaque]
pub open spec fn look_noted_effects(
    s: SessionView,
    position: i64,
    paused: bool,
    next_available: bool,
    now: u64,
) -> Seq<EffectView> {
    if seen(s, position, paused).at_end {
        advance_checked_effects(observed(s, position, paused, now), position, next_available, now)
    } else {
        Seq::empty()
    }
}

fn note_look(
    state: &mut Session,
    position: i64,
    paused: bool,
    next_available: bool,
    now: u64,
    effects: &mut Vec<Effect>,
) -> (found: SeenData)
    requires
        old(state).wf(),
    ensures
        final(state).wf(),
        found.data_view() == seen(old(state)@, position, paused),
        final(state)@ == look_noted(old(state)@, position, paused, next_available, now),
        fx(*final(effects)) == fx(*old(effects)) + look_noted_effects(
            old(state)@,
            position,
            paused,
            next_available,
            now,
        ),
{
    proof {
        reveal(look_noted);
        reveal(look_noted_effects);
        reveal(seen);
    }
    let found = observe(state, position, paused, now);
    if found.at_end {
        let _ = advance_playlist_check(state, position, next_available, now, effects);
        assert(state@ == look_noted(old(state)@, position, paused, next_available, now));
    } else {
        assert(fx(*effects) =~= fx(*old(effects)) + Seq::empty());
        assert(state@ == look_noted(old(state)@, position, paused, next_available, now));
    }
    found
}

/// Whether a pause or unpause by the user is weighed as a change of
/// readiness: it is not passed over, the user has not jumped, the server
/// knows readiness, and the player was not paused near the end of its file.
pub open spec fn weighs_toggle(s: SessionView, found: Seen, suppressed: bool) -> bool {
    found.pause_change && !suppressed && !found.seeked && s.features.readiness && !found.at_end
}

/// The session after the pause or unpause by the user was weighed.
#[verifier::opaque]
pub open spec fn toggle_weighed(
    s: SessionView,
    found: Seen,
    suppressed: bool,
    paused: bool,
    global_paused: bool,
    now: u64,
) -> SessionView {
    if weighs_toggle(s, found, suppressed) {
        toggled(s, ready_toggle(s, paused, global_paused, now))
    } else {
        s
    }
}

#[verifier::opaque]
pub open spec fn toggle_weighed_effects(
    s: SessionView,
    found: Seen,
    suppressed: bool,
    paused: bool,
    global_paused: bool,
    now: u64,
) -> Seq<EffectView> {
    if weighs_toggle(s, found, suppressed) {
        toggle_effects(s, ready_toggle(s, paused, global_paused, now))
    } else {
        Seq::empty()
    }
}

/// Whether the user's pause or unpause counts as a change of playback, and
/// whether the player is paused afterwards.
#[verifier::opaque]
pub open spec fn toggle_outcome(
    s: SessionView,
    found: Seen,
    suppressed: bool,
    paused: bool,
    global_paused: bool,
    now: u64,
) -> (bool, bool) {
    if weighs_toggle(s, found, suppressed) {
        (
            ready_toggle(s, paused, global_paused, now).change,
            ready_toggle(s, paused, global_paused, now).paused,
        )
    } else {
        (found.pause_change && !suppressed, paused)
    }
}

fn weigh_toggle(
    state: &mut Session,
    found: &SeenData,
    suppressed: bool,
    paused: bool,
    global_paused: bool,
    now: u64,
    effects: &mut Vec<Effect>,
) -> (r: (bool, bool))
    ensures
        final(state).wf() == old(state).wf(),
        r == toggle_outcome(old(state)@, found.data_view(), suppressed, paused, global_paused, now),
        final(state)@ == toggle_weighed(
            old(state)@,
            found.data_view(),
            suppressed,
            paused,
            global_paused,
            now,
        ),
        fx(*final(effects)) == fx(*old(effects)) + toggle_weighed_effects(
            old(state)@,
            found.data_view(),
            suppressed,
            paused,
            global_paused,
            now,
        ),
{
    proof {
        reveal(toggle_weighed);
        reveal(toggle_weighed_effects);
        reveal(toggle_outcome);
    }
    let change = found.pause_change && !suppressed;
    if change && !found.seeked && state.server_features.readiness && !found.at_end {
        let r = apply_ready_toggle(state, paused, global_paused, now, effects);
        assert(state@ == toggle_weighed(
            old(state)@,
            found.data_view(),
            suppressed,
            paused,
            global_paused,
            now,
        ));
        r
    } else {
        assert(fx(*effects) =~= fx(*old(effects)) + Seq::empty());
        (change, paused)
    }
}

/// The session after what the player shows was noted and an unpause that
/// the client has caused itself was passed over.
#[verifier::opaque]
pub open spec fn suppression_taken(
    s: SessionView,
    position: i64,
    paused: bool,
    next_available: bool,
    now: u64,
) -> SessionView {
    let s2 = look_noted(s, position, paused, next_available, now);
    SessionView {
        suppress_unpause_check: s2.suppress_unpause_check && !(seen(
            s,
            position,
            paused,
        ).pause_change && !paused),
        ..s2
    }
}

/// Whether the unpause that the player shows is passed over.
#[verifier::opaque]
pub open spec fn suppresses(
    s: SessionView,
    position: i64,
    paused: bool,
    next_available: bool,
    now: u64,
) -> bool {
    seen(s, position, paused).pause_change && !paused && look_noted(
        s,
        position,
        paused,
        next_available,
        now,
    ).suppress_unpause_check
}

fn look_and_suppress(
    state: &mut Session,
    position: i64,
    paused: bool,
    next_available: bool,
    now: u64,
    effects: &mut Vec<Effect>,
) -> (r: (SeenData, bool))
    requires
        old(state).wf(),
    ensures
        final(state).wf(),
        r.0.data_view() == seen(old(state)@, position, paused),
        r.1 == suppresses(old(state)@, position, paused, next_available, now),
        final(state)@ == suppression_taken(old(state)@, position, paused, next_available, now),
        fx(*final(effects)) == fx(*old(effects)) + look_noted_effects(
            old(state)@,
            position,
            paused,
            next_available,
            now,
        ),
{
    proof {
        reveal(suppression_taken);
        reveal(suppresses);
    }
    let found = note_look(state, position, paused, next_available, now, effects);
    let suppressed = take_suppression(state, found.pause_change, paused);
    (found, suppressed)
}

/// The session after the user's pause or unpause was weighed.
#[verifier::opaque]
pub open spec fn look_weighed(
    s: SessionView,
    position: i64,
    paused: bool,
    next_available: bool,
    now: u64,
) -> SessionView {
    toggle_weighed(
        suppression_taken(s, position, paused, next_available, now),
        seen(s, position, paused),
        suppresses(s, position, paused, next_available, now),
        paused,
        s.client.global_state.paused,
        now,
    )
}

#[verifier::opaque]
pub open spec fn look_weighed_effects(
    s: SessionView,
    position: i64,
    paused: bool,
    next_available: bool,
    now: u64,
) -> Seq<EffectView> {
    look_noted_effects(s, position, paused, next_available, now) + toggle_weighed_effects(
        suppression_taken(s, position, paused, next_available, now),
        seen(s, position, paused),
        suppresses(s, position, paused, next_available, now),
        paused,
        s.client.global_state.paused,
        now,
    )
}

/// Whether the user has changed playback, and whether the player is paused
/// after the client has had its say.
#[verifier::opaque]
pub open spec fn look_outcome(
    s: SessionView,
    position: i64,
    paused: bool,
    next_available: bool,
    now: u64,
) -> (bool, bool) {
    toggle_outcome(
        suppression_taken(s, position, paused, next_available, now),
        seen(s, position, paused),
        suppresses(s, position, paused, next_available, now),
        paused,
        s.client.global_state.paused,
        now,
    )
}

fn look_and_weigh(
    state: &mut Session,
    position: i64,
    paused: bool,
    next_available: bool,
    now: u64,
    effects: &mut Vec<Effect>,
) -> (r: (bool, bool, bool))
    requires
        old(state).wf(),
    ensures
        final(state).wf(),
        r.0 == seen(old(state)@, position, paused).seeked,
        (r.1, r.2) == look_outcome(old(state)@, position, paused, next_available, now),
        final(state)@ == look_weighed(old(state)@, position, paused, next_available, now),
        fx(*final(effects)) == fx(*old(effects)) + look_weighed_effects(
            old(state)@,
            position,
            paused,
            next_available,
            now,
        ),
{
    proof {
        reveal(look_weighed);
        reveal(look_weighed_effects);
        reveal(look_outcome);
    }
    let ghost e0 = fx(*effects);
    let global = state.client_state.get_global_state();
    let (found, suppressed) = look_and_suppress(
        state,
        position,
        paused,
        next_available,
        now,
        effects,
    );
    let (change, paused_after) = weigh_toggle(
        state,
        &found,
        suppressed,
        paused,
        global.paused,
        now,
        effects,
    );
    assert(fx(*effects) =~= e0 + look_weighed_effects(
        old(state)@,
        position,
        paused,
        next_available,
        now,
    ));
    (found.seeked, change, paused_after)
}

/// The session after a look at a player that shows where it is and whether
/// it is paused.
pub open spec fn playback_seen(
    s: SessionView,
    position: i64,
    paused: bool,
    is_placeholder: bool,
    next_available: bool,
    now: u64,
) -> SessionView {
    reported(
        look_weighed(s, position, paused, next_available, now),
        is_placeholder,
        look_outcome(s, position, paused, next_available, now).0,
        seen(s, position, paused).seeked,
    )
}

pub open spec fn playback_seen_effects(
    s: SessionView,
    position: i64,
    paused: bool,
    is_placeholder: bool,
    next_available: bool,
    now: u64,
) -> Seq<EffectView> {
    look_weighed_effects(s, position, paused, next_available, now) + report_effects(
        look_weighed(s, position, paused, next_available, now),
        is_placeholder,
        look_outcome(s, position, paused, next_available, now).0,
        seen(s, position, paused).seeked,
        position,
        look_outcome(s, position, paused, next_available, now).1,
        now,
    )
}

/// Takes what the player shows of its playback: notes it, moves the
/// playlist on after a pause near the end of the file, weighs a pause or
/// unpause by the user, and tells the server of a change.
pub fn tick_playback(
    state: &mut Session,
    position: i64,
    paused: bool,
    is_placeholder: bool,
    next_available: bool,
    now: u64,
    effects: &mut Vec<Effect>,
)
    requires
        old(state).wf(),
    ensures
        final(state).wf(),
        final(state)@ == playback_seen(
            old(state)@,
            position,
            paused,
            is_placeholder,
            next_available,
            now,
        ),
        fx(*final(effects)) == fx(*old(effects)) + playback_seen_effects(
            old(state)@,
            position,
            paused,
            is_placeholder,
            next_available,
            now,
        ),
{
    let ghost e0 = fx(*effects);
    let (seeked, change, paused_after) = look_and_weigh(
        state,
        position,
        paused,
        next_available,
        now,
        effects,
    );
    report(state, is_placeholder, change, seeked, position, paused_after, now, effects);
    assert(fx(*effects) =~= e0 + playback_seen_effects(
        old(state)@,
        position,
        paused,
        is_placeholder,
        next_available,
        now,
    ));
}

/// What the loop that looks at the player keeps from one look to the next.
#[derive(Debug)]
pub struct PlayerLoopState {
    pub last_observed: Option<PlayerStateSnapshot>,
    pub eof_sent: bool,
}

pub struct PlayerLoopView {
    pub last_observed: Option<PlayerStateSnapshotView>,
    pub eof_sent: bool,
}

impl View for PlayerLoopState {
    type V = PlayerLoopView;

    open spec fn view(&self) -> PlayerLoopView {
        PlayerLoopView { last_observed: opt_view(self.last_observed), eof_sent: self.eof_sent }
    }
}

impl PlayerLoopState {
    pub fn new() -> (r: Self)
        ensures
            r@ == (PlayerLoopView { last_observed: None, eof_sent: false }),
    {
        Self { last_observed: None, eof_sent: false }
    }
}

/// The player shows a file that was not there at the last look.
pub open spec fn new_file(l: PlayerLoopView, ps: PlayerStateView, is_placeholder: bool) -> bool {
    !is_placeholder && file_changed(ps, l.last_observed)
}

/// Players of these kinds are set to the room's pause and position when
/// they have opened a file.
pub open spec fn resyncs_after_load(kind: Option<PlayerKind>) -> bool {
    kind == Some(PlayerKind::MpcHc) || kind == Some(PlayerKind::MpcBe) || kind == Some(
        PlayerKind::Vlc,
    ) || kind == Some(PlayerKind::Mplayer)
}

/// The session after a look at the file that the player has open.
#[verifier::opaque]
pub open spec fn file_seen(
    s: SessionView,
    l: PlayerLoopView,
    ps: PlayerStateView,
    is_placeholder: bool,
    name_of_path: Option<Seq<char>>,
    size_on_disk: Option<u64>,
    now: u64,
) -> SessionView {
    if !new_file(l, ps, is_placeholder) {
        s
    } else if s.suppress_next_file_update {
        SessionView { suppress_next_file_update: false, ..s }
    } else {
        file_update_sent(s, ps, name_of_path, size_on_disk, now)
    }
}

#[verifier::opaque]
pub open spec fn file_seen_effects(
    s: SessionView,
    l: PlayerLoopView,
    ps: PlayerStateView,
    is_placeholder: bool,
    name_of_path: Option<Seq<char>>,
    size_on_disk: Option<u64>,
) -> Seq<EffectView> {
    if !new_file(l, ps, is_placeholder) {
        Seq::empty()
    } else {
        (if s.suppress_next_file_update {
            Seq::empty()
        } else {
            file_update_effects(s, ps, name_of_path, size_on_disk)
        }) + (if resyncs_after_load(s.player_kind) {
            seq![
                EffectView::SetPaused(s.client.global_state.paused),
                EffectView::SetPosition(s.client.global_state.position),
            ]
        } else {
            Seq::empty()
        })
    }
}

fn clear_suppression(state: &mut Session)
    ensures
        final(state).wf() == old(state).wf(),
        final(state)@ == (SessionView { suppress_next_file_update: false, ..old(state)@ }),
{
    state.suppress_next_file_update = false;
}

fn emit_resync(state: &Session, effects: &mut Vec<Effect>)
    ensures
        fx(*final(effects)) == fx(*old(effects)) + (if resyncs_after_load(state@.player_kind) {
            seq![
                EffectView::SetPaused(state@.client.global_state.paused),
                EffectView::SetPosition(state@.client.global_state.position),
            ]
        } else {
            Seq::empty()
        }),
{
    let resync = match state.player_kind {
        Some(k) => k == PlayerKind::MpcHc || k == PlayerKind::MpcBe || k == PlayerKind::Vlc || k
            == PlayerKind::Mplayer,
        None => false,
    };
    if resync {
        let global = state.client_state.get_global_state();
        emit(effects, Effect::SetPaused(global.paused));
        emit(effects, Effect::SetPosition(global.position));
        assert(fx(*effects) =~= fx(*old(effects)) + seq![
            EffectView::SetPaused(state@.client.global_state.paused),
            EffectView::SetPosition(state@.client.global_state.position),
        ]);
    } else {
        assert(fx(*effects) =~= fx(*old(effects)) + Seq::empty());
    }
}

/// Takes what the player shows of its file. A file that was not there at the
/// last look is told to the server, unless the client has just opened it for
/// the server's sake. The result is the name by which the client knows the
/// file, where it has told it.
pub fn tick_file(
    state: &mut Session,
    loop_state: &mut PlayerLoopState,
    ps: &PlayerState,
    is_placeholder: bool,
    name_of_path: Option<&str>,
    size_on_disk: Option<u64>,
    now: u64,
    effects: &mut Vec<Effect>,
) -> (r: Option<String>)
    ensures
        final(state).wf() == old(state).wf(),
        final(state)@ == file_seen(
            old(state)@,
            old(loop_state)@,
            ps@,
            is_placeholder,
            opt_view(name_of_path),
            size_on_disk,
            now,
        ),
        final(loop_state)@ == (PlayerLoopView {
            eof_sent: old(loop_state)@.eof_sent && !new_file(old(loop_state)@, ps@, is_placeholder),
            ..old(loop_state)@
        }),
        opt_view(r) == (if new_file(old(loop_state)@, ps@, is_placeholder)
            && !old(state)@.suppress_next_file_update && tells_file(ps@) {
            raw_file_name(ps@, opt_view(name_of_path))
        } else {
            None
        }),
        fx(*final(effects)) == fx(*old(effects)) + file_seen_effects(
            old(state)@,
            old(loop_state)@,
            ps@,
            is_placeholder,
            opt_view(name_of_path),
            size_on_disk,
        ),
{
    proof {
        reveal(file_seen);
        reveal(file_seen_effects);
    }
    let changed = !is_placeholder && file_info_changed(
        ps,
        crate::warnings::opt_ref(&loop_state.last_observed),
    );
    if !changed {
        assert(fx(*effects) =~= fx(*old(effects)) + Seq::empty());
        return None;
    }
    loop_state.eof_sent = false;
    let ghost e0 = fx(*effects);
    let ghost s0 = state@;
    if state.suppress_next_file_update {
        clear_suppression(state);
        emit_resync(state, effects);
        assert(fx(*effects) =~= e0 + (Seq::empty() + (if resyncs_after_load(s0.player_kind) {
            seq![
                EffectView::SetPaused(s0.client.global_state.paused),
                EffectView::SetPosition(s0.client.global_state.position),
            ]
        } else {
            Seq::empty()
        })));
        None
    } else {
        emit_resync_first(state, ps, name_of_path, size_on_disk, now, effects)
    }
}

fn emit_resync_first(
    state: &mut Session,
    ps: &PlayerState,
    name_of_path: Option<&str>,
    size_on_disk: Option<u64>,
    now: u64,
    effects: &mut Vec<Effect>,
) -> (r: Option<String>)
    ensures
        final(state).wf() == old(state).wf(),
        final(state)@ == file_update_sent(
            old(state)@,
            ps@,
            opt_view(name_of_path),
            size_on_disk,
            now,
        ),
        opt_view(r) == (if tells_file(ps@) {
            raw_file_name(ps@, opt_view(name_of_path))
        } else {
            None
        }),
        fx(*final(effects)) == fx(*old(effects)) + file_update_effects(
            old(state)@,
            ps@,
            opt_view(name_of_path),
            size_on_disk,
        ) + (if resyncs_after_load(old(state)@.player_kind) {
            seq![
                EffectView::SetPaused(old(state)@.client.global_state.paused),
                EffectView::SetPosition(old(state)@.client.global_state.position),
            ]
        } else {
            Seq::empty()
        }),
{
    let ghost e0 = fx(*effects);
    let kind = state.player_kind;
    let global = state.client_state.get_global_state();
    let r = send_file_update(state, ps, name_of_path, size_on_disk, now, effects);
    let ghost e1 = fx(*effects);
    let resync = match kind {
        Some(k) => k == PlayerKind::MpcHc || k == PlayerKind::MpcBe || k == PlayerKind::Vlc || k
            == PlayerKind::Mplayer,
        None => false,
    };
    if resync {
        emit(effects, Effect::SetPaused(global.paused));
        emit(effects, Effect::SetPosition(global.position));
        assert(fx(*effects) =~= e1 + seq![
            EffectView::SetPaused(global.paused),
            EffectView::SetPosition(global.position),
        ]);
    } else {
        assert(fx(*effects) =~= e1 + Seq::empty());
    }
    r
}

/// The position counts as the end of a file of that duration: less than a
/// fifth of a second is left.
pub open spec fn at_end_of_file(ps: PlayerStateView) -> bool {
    match (ps.duration, ps.position) {
        (Some(d), Some(p)) => d > 0 && p >= (if d > 200 {
            d - 200
        } else {
            d as int
        }),
        _ => false,
    }
}

/// Whether the end of the file is taken now: it is reached and was not
/// taken before.
pub open spec fn end_taken(l: PlayerLoopView, ps: PlayerStateView) -> bool {
    !l.eof_sent && at_end_of_file(ps)
}

fn reached_end(ps: &PlayerState) -> (r: bool)
    ensures
        r == at_end_of_file(ps@),
{
    match (ps.duration, ps.position) {
        (Some(d), Some(p)) => {
            let threshold = if d > 200 {
                d - 200
            } else {
                d
            };
            d > 0 && p >= threshold
        },
        _ => false,
    }
}

/// Notes what the player shows for the next look, and takes the end of the
/// file where the player has reached it.
pub fn tick_end(
    state: &mut Session,
    loop_state: &mut PlayerLoopState,
    ps: &PlayerState,
    next_available: bool,
    now: u64,
    effects: &mut Vec<Effect>,
)
    requires
        old(state).wf(),
    ensures
        final(state).wf(),
        final(loop_state)@ == (PlayerLoopView {
            last_observed: Some(
                PlayerStateSnapshotView {
                    filename: ps@.filename,
                    position: ps@.position,
                    paused: ps@.paused,
                    duration: ps@.duration,
                    path: ps@.path,
                },
            ),
            eof_sent: old(loop_state)@.eof_sent || at_end_of_file(ps@),
        }),
        final(state)@ == (if end_taken(old(loop_state)@, ps@) {
            end_handled(old(state)@, ps@.position, next_available, now)
        } else {
            old(state)@
        }),
        fx(*final(effects)) == fx(*old(effects)) + (if end_taken(old(loop_state)@, ps@) {
            end_effects(old(state)@, ps@.position, next_available, now)
        } else {
            Seq::empty()
        }),
{
    loop_state.last_observed = Some(PlayerStateSnapshot::from(ps));
    if !loop_state.eof_sent && reached_end(ps) {
        loop_state.eof_sent = true;
        handle_end_of_file(state, ps.position, next_available, now, effects);
    } else {
        assert(fx(*effects) =~= fx(*old(effects)) + Seq::empty());
    }
}

/// How long after a rewind the position is looked at again, in
/// milliseconds: three looks.
pub fn double_check_rewind_delays() -> (r: Vec<u64>)
    ensures
        r@ == seq![500u64, 1000u64, 1500u64],
{
    let mut r: Vec<u64> = Vec::new();
    r.push(500);
    r.push(1000);
    r.push(1500);
    r
}

/// The position beyond which a player that was rewound is rewound again,
/// in milliseconds.
pub const DOUBLE_CHECK_REWIND_POSITION_THRESHOLD: i64 = 5000;

/// Whether a player that was rewound is rewound again: it shows a
/// position, and one beyond the first five seconds.
pub fn needs_second_rewind(position: Option<i64>) -> (r: bool)
    ensures
        r == (match position {
            Some(p) => p > DOUBLE_CHECK_REWIND_POSITION_THRESHOLD,
            None => false,
        }),
{
    match position {
        Some(p) => p > DOUBLE_CHECK_REWIND_POSITION_THRESHOLD,
        None => false,
    }
}

} // verus!
