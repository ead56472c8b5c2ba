//! The `Set` message: the server's envelope for changes of room, file,
//! users, readiness, operators and playlist.
use crate::control::{
    auth_handled, auth_handled_effects, handle_controller_auth, handle_new_controlled_room,
    new_room_effects, new_room_entered, reidentify_as_controller, reidentify_effects,
    reidentify_password,
};
use crate::messages::{
    update_views, ClientMessage, ClientMessageView, ControllerAuth, ControllerAuthView, FileInfo,
    FileInfoView, NewControlledRoom, NewControlledRoomView, PlaylistChange, PlaylistChangeView,
    PlaylistIndexUpdate, PlaylistIndexUpdateView, ReadyState, ReadyStateView, SetMessage,
    SetMessageView, UserUpdate, UserUpdateView,
};
use crate::playlist::{Playlist, PlaylistView};
use crate::readiness::{playlists_shared, shared_playlists_enabled};
use crate::reconcile::{notice, notice_effects};
use crate::session::{emit, fx, Effect, EffectView, Session, SessionView};
use crate::state::{
    clone_opt_size, user_named, users_changed, ClientStateView, User, UserChange, UserChangeView,
    UserView,
};
use crate::text::{clone_opt_text, clone_texts, opt_view, text2, texts_equal};
use crate::users::{
    apply_user_update, is_placeholder, is_placeholder_username, leaves_room, update_counts,
    user_update_effects, users_after,
};
use crate::utils::{same_filename, same_name};
use crate::warnings::{
    autoplay_evaluated, autoplay_ready, countdown_effects, evaluate_autoplay, music_effects,
    opt_str,
};
use vstd::prelude::*;

verus! {

// ---------------------------------------------------------------------------
// Room and file
// ---------------------------------------------------------------------------

/// The session with the room noted that the server has put the client
/// into: the playlist starts anew there.
#[verifier::opaque]
pub open spec fn room_noted(s: SessionView, name: Seq<char>) -> SessionView {
    SessionView {
        client: ClientStateView { room: name, ..s.client },
        had_first_playlist_index: false,
        playlist_may_need_restoring: false,
        ..s
    }
}

/// The session in a room that the server has put the client into.
pub open spec fn room_entered(s: SessionView, name: Seq<char>) -> SessionView {
    SessionView {
        last_control_password_attempt: match reidentify_password(room_noted(s, name)) {
            Some(p) => Some(p),
            None => s.last_control_password_attempt,
        },
        ..room_noted(s, name)
    }
}

pub open spec fn room_entered_effects(s: SessionView, name: Seq<char>) -> Seq<EffectView> {
    reidentify_effects(room_noted(s, name))
}

fn note_room(state: &mut Session, name: &String)
    ensures
        final(state)@ == room_noted(old(state)@, name@),
        final(state).wf() == old(state).wf(),
{
    proof {
        reveal(room_noted);
    }
    state.client_state.set_room(name.clone());
    state.had_first_playlist_index = false;
    state.playlist_may_need_restoring = false;
}

fn enter_room(state: &mut Session, name: &String, effects: &mut Vec<Effect>)
    ensures
        final(state)@ == room_entered(old(state)@, name@),
        final(state).wf() == old(state).wf(),
        fx(*final(effects)) == fx(*old(effects)) + room_entered_effects(old(state)@, name@),
{
    proof {
        reveal(room_noted);
    }
    note_room(state, name);
    reidentify_as_controller(state, effects);
}

#[verifier::opaque]
pub open spec fn room_step(s: SessionView, room: Option<Seq<char>>) -> SessionView {
    match room {
        Some(name) => room_entered(s, name),
        None => s,
    }
}

#[verifier::opaque]
pub open spec fn room_step_effects(s: SessionView, room: Option<Seq<char>>) -> Seq<EffectView> {
    match room {
        Some(name) => room_entered_effects(s, name),
        None => Seq::empty(),
    }
}

fn do_room_step(state: &mut Session, room: &Option<String>, effects: &mut Vec<Effect>)
    ensures
        final(state)@ == room_step(old(state)@, opt_view(*room)),
        final(state).wf() == old(state).wf(),
        fx(*final(effects)) == fx(*old(effects)) + room_step_effects(old(state)@, opt_view(*room)),
{
    proof {
        reveal(room_step);
        reveal(room_step_effects);
    }
    match room {
        Some(name) => {
            enter_room(state, name, effects);
        },
        None => {
            assert(fx(*effects) =~= fx(*old(effects)) + Seq::empty());
        },
    }
}

/// Whether a message names a file for the client.
pub open spec fn names_file(file: Option<FileInfoView>) -> bool {
    match file {
        Some(f) => f.name.is_some(),
        None => false,
    }
}

/// The client with the file that the server names for it.
#[verifier::opaque]
pub open spec fn file_step(s: SessionView, file: Option<FileInfoView>) -> SessionView {
    SessionView {
        client: ClientStateView {
            file: if names_file(file) {
                file.unwrap().name
            } else {
                s.client.file
            },
            file_size: if names_file(file) {
                file.unwrap().size
            } else {
                s.client.file_size
            },
            file_duration: if names_file(file) {
                file.unwrap().duration
            } else {
                s.client.file_duration
            },
            ..s.client
        },
        ..s
    }
}

#[verifier::opaque]
pub open spec fn file_step_effects(file: Option<FileInfoView>) -> Seq<EffectView> {
    if names_file(file) {
        seq![
            EffectView::LoadMedia {
                name: file.unwrap().name.unwrap(),
                reset_position: false,
                suppress_update: true,
            },
        ]
    } else {
        Seq::empty()
    }
}

fn file_plan(state: &Session, file: &Option<FileInfo>, effects: &mut Vec<Effect>) -> (r: (
    Option<String>,
    Option<crate::messages::FileSizeInfo>,
    Option<i64>,
))
    ensures
        opt_view(r.0) == file_step(state@, opt_view(*file)).client.file,
        opt_view(r.1) == file_step(state@, opt_view(*file)).client.file_size,
        r.2 == file_step(state@, opt_view(*file)).client.file_duration,
        fx(*final(effects)) == fx(*old(effects)) + file_step_effects(opt_view(*file)),
{
    proof {
        reveal(file_step);
        reveal(file_step_effects);
    }
    match file {
        Some(f) => match &f.name {
            Some(name) => {
                emit(
                    effects,
                    Effect::LoadMedia {
                        name: name.clone(),
                        reset_position: false,
                        suppress_update: true,
                    },
                );
                assert(fx(*effects) =~= fx(*old(effects)) + file_step_effects(opt_view(*file)));
                return (Some(name.clone()), clone_opt_size(&f.size), f.duration);
            },
            None => {},
        },
        None => {},
    }
    assert(fx(*effects) =~= fx(*old(effects)) + Seq::empty());
    (
        state.client_state.get_file(),
        state.client_state.get_file_size(),
        state.client_state.get_file_duration(),
    )
}

fn do_file_step(state: &mut Session, file: &Option<FileInfo>, effects: &mut Vec<Effect>)
    ensures
        final(state)@ == file_step(old(state)@, opt_view(*file)),
        final(state).wf() == old(state).wf(),
        fx(*final(effects)) == fx(*old(effects)) + file_step_effects(opt_view(*file)),
{
    proof {
        reveal(file_step);
    }
    let (name, size, duration) = file_plan(state, file, effects);
    state.client_state.set_file(name);
    state.client_state.set_file_size(size);
    state.client_state.set_file_duration(duration);
}

// ---------------------------------------------------------------------------
// Users
// ---------------------------------------------------------------------------

/// The session after the updates of users, one after the other.
pub open spec fn users_step(s: SessionView, updates: Seq<UserUpdateView>) -> SessionView
    decreases updates.len(),
{
    if updates.len() == 0 {
        s
    } else {
        let before = users_step(s, updates.drop_last());
        SessionView {
            client: ClientStateView {
                users: users_after(before, updates.last()),
                ..before.client
            },
            ..before
        }
    }
}

pub open spec fn users_step_effects(s: SessionView, updates: Seq<UserUpdateView>) -> Seq<
    EffectView,
>
    decreases updates.len(),
{
    if updates.len() == 0 {
        Seq::empty()
    } else {
        users_step_effects(s, updates.drop_last()) + user_update_effects(
            users_step(s, updates.drop_last()),
            updates.last(),
        )
    }
}

/// One of the updates counts.
pub open spec fn any_update_counts(updates: Seq<UserUpdateView>) -> bool
    decreases updates.len(),
{
    updates.len() > 0 && (any_update_counts(updates.drop_last()) || update_counts(updates.last()))
}

/// One of the updates tells that a user has left the client's room.
pub open spec fn any_leaves_room(s: SessionView, updates: Seq<UserUpdateView>) -> bool
    decreases updates.len(),
{
    updates.len() > 0 && (any_leaves_room(s, updates.drop_last()) || leaves_room(
        users_step(s, updates.drop_last()),
        updates.last(),
    ))
}

fn left_room(state: &Session, update: &UserUpdate) -> (r: bool)
    ensures
        r == leaves_room(state@, update@),
{
    proof {
        reveal(leaves_room);
    }
    let left = match update.left {
        Some(l) => l,
        None => false,
    };
    if !left {
        return false;
    }
    match state.client_state.get_user(update.username.as_str()) {
        Some(user) => {
            let room = state.client_state.get_room();
            texts_equal(&user.room, room.as_str())
        },
        None => false,
    }
}

fn do_users_step(state: &mut Session, updates: &Vec<UserUpdate>, effects: &mut Vec<Effect>) -> (r: (
    bool,
    bool,
))
    requires
        old(state).wf(),
    ensures
        final(state).wf(),
        final(state)@ == users_step(old(state)@, update_views(updates@)),
        r.0 == any_update_counts(update_views(updates@)),
        r.1 == any_leaves_room(old(state)@, update_views(updates@)),
        fx(*final(effects)) == fx(*old(effects)) + users_step_effects(
            old(state)@,
            update_views(updates@),
        ),
{
    let ghost us = update_views(updates@);
    let ghost s0 = state@;
    let ghost e0 = fx(*effects);
    let mut users_changed = false;
    let mut left_in_room = false;
    let mut i: usize = 0;
    assert(us.take(0) =~= Seq::<UserUpdateView>::empty());
    assert(e0 =~= e0 + Seq::<EffectView>::empty());
    while i < updates.len()
        invariant
            i <= updates.len(),
            us == update_views(updates@),
            state.wf(),
            state@ == users_step(s0, us.take(i as int)),
            users_changed == any_update_counts(us.take(i as int)),
            left_in_room == any_leaves_room(s0, us.take(i as int)),
            fx(*effects) == e0 + users_step_effects(s0, us.take(i as int)),
        decreases updates.len() - i,
    {
        proof {
            assert(us.take(i + 1).drop_last() =~= us.take(i as int));
            assert(us.take(i + 1).last() == updates@[i as int]@);
        }
        if left_room(state, &updates[i]) {
            left_in_room = true;
        }
        let ghost mid = fx(*effects);
        if apply_user_update(state, &updates[i], effects) {
            users_changed = true;
        }
        assert(fx(*effects) =~= e0 + users_step_effects(s0, us.take(i + 1)));
        i = i + 1;
    }
    assert(us.take(updates.len() as int) =~= us);
    (users_changed, left_in_room)
}

// ---------------------------------------------------------------------------
// Readiness
// ---------------------------------------------------------------------------

/// The user that a change of readiness is about, where it names one.
pub open spec fn ready_subject(ready: Option<ReadyStateView>) -> Option<Seq<char>> {
    match ready {
        Some(r) => match r.username {
            Some(u) => if is_placeholder(u) {
                None
            } else {
                Some(u)
            },
            None => None,
        },
        None => None,
    }
}

/// The user after a change of their readiness: the readiness that is told,
/// or the one they had where none is told.
pub open spec fn ready_user(s: SessionView, ready: ReadyStateView) -> UserView {
    let name = ready.username.unwrap();
    match user_named(s.client.users, name) {
        Some(u) => UserView {
            is_ready: match ready.is_ready {
                Some(r) => Some(r),
                None => u.is_ready,
            },
            ..u
        },
        None => UserView {
            username: name,
            room: s.client.room,
            file: None,
            file_size: None,
            file_duration: None,
            is_ready: ready.is_ready,
            is_controller: false,
        },
    }
}

pub open spec fn ready_change(s: SessionView, ready: Option<ReadyStateView>) -> UserChangeView {
    match ready_subject(ready) {
        Some(_) => UserChangeView::Put(ready_user(s, ready.unwrap())),
        None => UserChangeView::Keep,
    }
}

/// The client's own readiness as a change tells it, where it is about the
/// client.
pub open spec fn own_ready_told(s: SessionView, ready: Option<ReadyStateView>) -> Option<bool> {
    match ready_subject(ready) {
        Some(u) => if u == s.client.username {
            ready.unwrap().is_ready
        } else {
            None
        },
        None => None,
    }
}

#[verifier::opaque]
pub open spec fn ready_step(s: SessionView, ready: Option<ReadyStateView>) -> SessionView {
    SessionView {
        client: ClientStateView {
            users: users_changed(s.client.users, ready_change(s, ready)),
            is_ready: match own_ready_told(s, ready) {
                Some(r) => r,
                None => s.client.is_ready,
            },
            ..s.client
        },
        ..s
    }
}

/// The news that somebody has set a user's readiness.
#[verifier::opaque]
pub open spec fn ready_step_effects(ready: Option<ReadyStateView>) -> Seq<EffectView> {
    match ready_subject(ready) {
        Some(u) => match ready.unwrap().set_by {
            Some(by) => seq![
                EffectView::SystemMessage(
                    u + (if ready.unwrap().is_ready == Some(true) {
                        " was set as ready by "@
                    } else {
                        " was set as not ready by "@
                    }) + by,
                ),
            ],
            None => Seq::empty(),
        },
        None => Seq::empty(),
    }
}

fn ready_plan(state: &Session, ready: &Option<ReadyState>, effects: &mut Vec<Effect>) -> (r: (
    UserChange,
    Option<bool>,
    bool,
))
    ensures
        r.0@ == ready_change(state@, opt_view(*ready)),
        r.1 == own_ready_told(state@, opt_view(*ready)),
        r.2 == ready_subject(opt_view(*ready)).is_some(),
        fx(*final(effects)) == fx(*old(effects)) + ready_step_effects(opt_view(*ready)),
{
    proof {
        reveal(ready_step);
        reveal(ready_step_effects);
    }
    let ready = match ready {
        Some(r) => r,
        None => {
            assert(fx(*effects) =~= fx(*old(effects)) + Seq::empty());
            return (UserChange::Keep, None, false);
        },
    };
    let username = match &ready.username {
        Some(u) => u,
        None => {
            assert(fx(*effects) =~= fx(*old(effects)) + Seq::empty());
            return (UserChange::Keep, None, false);
        },
    };
    if is_placeholder_username(username.as_str()) {
        assert(fx(*effects) =~= fx(*old(effects)) + Seq::empty());
        return (UserChange::Keep, None, false);
    }
    let user = match state.client_state.get_user(username.as_str()) {
        Some(u) => User {
            username: u.username.clone(),
            room: u.room.clone(),
            file: clone_opt_text(&u.file),
            file_size: clone_opt_size(&u.file_size),
            file_duration: u.file_duration,
            is_ready: match ready.is_ready {
                Some(r) => Some(r),
                None => u.is_ready,
            },
            is_controller: u.is_controller,
        },
        None => User {
            username: username.clone(),
            room: state.client_state.get_room(),
            file: None,
            file_size: None,
            file_duration: None,
            is_ready: ready.is_ready,
            is_controller: false,
        },
    };
    let me = state.client_state.get_username();
    let own = if texts_equal(username, me.as_str()) {
        ready.is_ready
    } else {
        None
    };
    match &ready.set_by {
        Some(by) => {
            let is_ready = match ready.is_ready {
                Some(r) => r,
                None => false,
            };
            let message = if is_ready {
                crate::text::text3(username.as_str(), " was set as ready by ", by.as_str())
            } else {
                crate::text::text3(username.as_str(), " was set as not ready by ", by.as_str())
            };
            emit(effects, Effect::SystemMessage(message));
            assert(fx(*effects) =~= fx(*old(effects)) + ready_step_effects(Some(ready@)));
        },
        None => {
            assert(fx(*effects) =~= fx(*old(effects)) + Seq::empty());
        },
    }
    (UserChange::Put(user), own, true)
}

fn do_ready_step(state: &mut Session, ready: &Option<ReadyState>, effects: &mut Vec<Effect>) -> (r:
    bool)
    requires
        old(state).wf(),
    ensures
        final(state).wf(),
        final(state)@ == ready_step(old(state)@, opt_view(*ready)),
        r == ready_subject(opt_view(*ready)).is_some(),
        fx(*final(effects)) == fx(*old(effects)) + ready_step_effects(opt_view(*ready)),
{
    proof {
        reveal(ready_step);
    }
    let (change, own, changed) = ready_plan(state, ready, effects);
    state.client_state.change_user(change);
    state.client_state.set_ready_if(own);
    changed
}

// ---------------------------------------------------------------------------
// Playlist
// ---------------------------------------------------------------------------

/// The session with the playlist item at `index` selected as the server
/// says, and its name noted as the one that is being opened.
#[verifier::opaque]
pub open spec fn index_applied(s: SessionView, index: int, now: u64) -> SessionView {
    SessionView {
        playlist: PlaylistView {
            queued_index_filename: s.playlist.selected(index, now).current_name(),
            ..s.playlist.selected(index, now)
        },
        ..s
    }
}

/// What the selection of a playlist item asks for: the playlist is told to
/// the user interface and the item is opened.
#[verifier::opaque]
pub open spec fn index_applied_effects(
    s: SessionView,
    index: int,
    reset_position: bool,
    now: u64,
) -> Seq<EffectView> {
    seq![EffectView::EmitPlaylist] + (match s.playlist.selected(index, now).current_name() {
        Some(name) => seq![
            EffectView::LoadMedia { name, reset_position, suppress_update: false },
        ],
        None => Seq::empty(),
    })
}

pub fn select_index(state: &mut Session, index: usize, now: u64) -> (filename: Option<String>)
    requires
        old(state).wf(),
    ensures
        final(state).wf(),
        final(state)@ == index_applied(old(state)@, index as int, now),
        opt_view(filename) == old(state)@.playlist.selected(index as int, now).current_name(),
{
    proof {
        reveal(index_applied);
    }
    state.playlist.set_current_index(index, now);
    let filename = state.playlist.get_current_filename();
    state.playlist.set_queued_index_filename(clone_opt_text(&filename));
    filename
}

/// Selects a playlist item as the server says, and opens it.
pub fn apply_playlist_index_from_server(
    state: &mut Session,
    index: usize,
    reset_position: bool,
    now: u64,
    effects: &mut Vec<Effect>,
)
    requires
        old(state).wf(),
    ensures
        final(state).wf(),
        final(state)@ == index_applied(old(state)@, index as int, now),
        fx(*final(effects)) == fx(*old(effects)) + index_applied_effects(
            old(state)@,
            index as int,
            reset_position,
            now,
        ),
{
    proof {
        reveal(index_applied_effects);
    }
    let filename = select_index(state, index, now);
    emit_index(&filename, reset_position, effects);
}

fn emit_index(filename: &Option<String>, reset_position: bool, effects: &mut Vec<Effect>)
    ensures
        fx(*final(effects)) == fx(*old(effects)) + seq![EffectView::EmitPlaylist] + (match opt_view(
            *filename,
        ) {
            Some(name) => seq![
                EffectView::LoadMedia { name, reset_position, suppress_update: false },
            ],
            None => Seq::empty(),
        }),
{
    emit(effects, Effect::EmitPlaylist);
    match filename {
        Some(name) => {
            emit(
                effects,
                Effect::LoadMedia { name: name.clone(), reset_position, suppress_update: false },
            );
            assert(fx(*effects) =~= fx(*old(effects)) + seq![EffectView::EmitPlaylist] + seq![
                EffectView::LoadMedia { name: name@, reset_position, suppress_update: false },
            ]);
        },
        None => {
            assert(fx(*effects) =~= fx(*old(effects)) + seq![EffectView::EmitPlaylist]
                + Seq::empty());
        },
    }
}

/// Whether the client answers an empty playlist with its own: it has just
/// connected again, nobody is named as the one who emptied the list, the
/// client has a list, and the list was kept in this room.
#[verifier::opaque]
pub open spec fn restores_playlist(s: SessionView, change: PlaylistChangeView) -> bool {
    s.playlist_may_need_restoring && change.files.len() == 0 && change.user.is_none()
        && s.playlist.items.len() > 0 && !s.playlist.buffer_from_old_room(s.client.room)
}

/// The client's playlist and selection, sent to the server again.
#[verifier::opaque]
pub open spec fn restore_effects(s: SessionView) -> Seq<EffectView> {
    if s.connected {
        seq![
            EffectView::Send(
                ClientMessageView::SetPlaylistChange { user: None, files: s.playlist.names() },
            ),
        ] + (match s.playlist.current_index {
            Some(i) => seq![
                EffectView::Send(
                    ClientMessageView::SetPlaylistIndex { user: None, index: i as usize },
                ),
            ],
            None => Seq::empty(),
        })
    } else {
        Seq::empty()
    }
}

fn restore_playlist(state: &Session, effects: &mut Vec<Effect>)
    ensures
        fx(*final(effects)) == fx(*old(effects)) + restore_effects(state@),
{
    proof {
        reveal(restore_effects);
    }
    if !state.connected {
        assert(fx(*effects) =~= fx(*old(effects)) + Seq::empty());
        return ;
    }
    let items = state.playlist.get_item_filenames();
    emit(effects, Effect::Send(ClientMessage::SetPlaylistChange { user: None, files: items }));
    match state.playlist.get_current_index() {
        Some(index) => {
            emit(effects, Effect::Send(ClientMessage::SetPlaylistIndex { user: None, index }));
        },
        None => {},
    }
    assert(fx(*effects) =~= fx(*old(effects)) + restore_effects(state@));
}

/// The index that stays selected when the server's list replaces the
/// client's: the one that was, where the new list has it.
pub open spec fn kept_index(p: PlaylistView, files: Seq<Seq<char>>) -> Option<int> {
    match p.current_index {
        Some(i) => if i < files.len() {
            Some(i)
        } else if files.len() == 0 {
            None
        } else {
            Some(0)
        },
        None => if files.len() == 0 {
            None
        } else {
            Some(0)
        },
    }
}

/// The playlist with the server's list in place of the client's.
#[verifier::opaque]
pub open spec fn list_replaced(s: SessionView, change: PlaylistChangeView, now: u64) -> PlaylistView {
    s.playlist.buffered(change.files, s.client.room).replaced(
        change.files,
        kept_index(s.playlist, change.files),
        now,
    )
}

/// Whether the new list's selected item is opened at once: no selection
/// follows in the same message and the client has no file.
pub open spec fn opens_after_change(s: SessionView, has_index_update: bool) -> bool {
    !has_index_update && s.client.file.is_none()
}

/// The session after a change of the playlist by the server.
#[verifier::opaque]
pub open spec fn playlist_changed(
    s: SessionView,
    change: PlaylistChangeView,
    has_index_update: bool,
    now: u64,
) -> SessionView {
    let s1 = SessionView { playlist: list_replaced(s, change, now), ..s };
    if opens_after_change(s, has_index_update) && s1.playlist.current_index.is_some() {
        index_applied(s1, s1.playlist.current_index.unwrap(), now)
    } else {
        s1
    }
}

#[verifier::opaque]
pub open spec fn playlist_changed_effects(
    s: SessionView,
    change: PlaylistChangeView,
    has_index_update: bool,
    now: u64,
) -> Seq<EffectView> {
    let s1 = SessionView { playlist: list_replaced(s, change, now), ..s };
    (match change.user {
        Some(u) => notice_effects(s, u + " updated the playlist"@, s.config.show_same_room_osd),
        None => Seq::empty(),
    }) + (if opens_after_change(s, has_index_update) && s1.playlist.current_index.is_some() {
        index_applied_effects(s1, s1.playlist.current_index.unwrap(), false, now)
    } else {
        Seq::empty()
    })
}

fn index_to_keep(state: &Session, files: &Vec<String>) -> (r: Option<usize>)
    ensures
        (match r {
            Some(i) => Some(i as int),
            None => None,
        }) == kept_index(state@.playlist, files.deep_view()),
{
    assert(files.deep_view().len() == files@.len());
    match state.playlist.get_current_index() {
        Some(i) => if i < files.len() {
            Some(i)
        } else if files.len() == 0 {
            None
        } else {
            Some(0)
        },
        None => if files.len() == 0 {
            None
        } else {
            Some(0)
        },
    }
}

fn announce_change(state: &Session, change: &PlaylistChange, effects: &mut Vec<Effect>)
    ensures
        fx(*final(effects)) == fx(*old(effects)) + (match change@.user {
            Some(u) => notice_effects(
                state@,
                u + " updated the playlist"@,
                state@.config.show_same_room_osd,
            ),
            None => Seq::empty(),
        }),
{
    match &change.user {
        Some(u) => {
            notice(
                state,
                text2(u.as_str(), " updated the playlist"),
                state.config.show_same_room_osd,
                effects,
            );
        },
        None => {
            assert(fx(*effects) =~= fx(*old(effects)) + Seq::empty());
        },
    }
}

fn install_list(state: &mut Session, change: &PlaylistChange, now: u64)
    requires
        old(state).wf(),
    ensures
        final(state).wf(),
        final(state)@ == (SessionView {
            playlist: list_replaced(old(state)@, change@, now),
            ..old(state)@
        }),
{
    proof {
        reveal(list_replaced);
    }
    let room = state.client_state.get_room();
    let next_index = index_to_keep(state, &change.files);
    state.playlist.update_previous_playlist(change.files.as_slice(), room.as_str());
    state.playlist.set_items_with_index(clone_texts(change.files.as_slice()), next_index, now);
}

/// The session with the selected item opened, where that is asked for and
/// an item is selected.
#[verifier::opaque]
pub open spec fn selected_opened(s: SessionView, opens: bool, now: u64) -> SessionView {
    if opens && s.playlist.current_index.is_some() {
        index_applied(s, s.playlist.current_index.unwrap(), now)
    } else {
        s
    }
}

#[verifier::opaque]
pub open spec fn selected_opened_effects(s: SessionView, opens: bool, now: u64) -> Seq<EffectView> {
    if opens && s.playlist.current_index.is_some() {
        index_applied_effects(s, s.playlist.current_index.unwrap(), false, now)
    } else {
        Seq::empty()
    }
}

fn open_selected(state: &mut Session, opens: bool, now: u64, effects: &mut Vec<Effect>)
    requires
        old(state).wf(),
    ensures
        final(state).wf(),
        final(state)@ == selected_opened(old(state)@, opens, now),
        fx(*final(effects)) == fx(*old(effects)) + selected_opened_effects(old(state)@, opens, now),
{
    proof {
        reveal(selected_opened);
        reveal(selected_opened_effects);
    }
    match state.playlist.get_current_index() {
        Some(index) => {
            if opens {
                apply_playlist_index_from_server(state, index, false, now, effects);
                assert(state@ == selected_opened(old(state)@, opens, now));
            } else {
                assert(fx(*effects) =~= fx(*old(effects)) + Seq::empty());
                assert(state@ == selected_opened(old(state)@, opens, now));
            }
        },
        None => {
            assert(fx(*effects) =~= fx(*old(effects)) + Seq::empty());
            assert(state@ == selected_opened(old(state)@, opens, now));
        },
    }
}

fn replace_playlist(
    state: &mut Session,
    change: &PlaylistChange,
    has_index_update: bool,
    now: u64,
    effects: &mut Vec<Effect>,
)
    requires
        old(state).wf(),
    ensures
        final(state).wf(),
        final(state)@ == playlist_changed(old(state)@, change@, has_index_update, now),
        fx(*final(effects)) == fx(*old(effects)) + playlist_changed_effects(
            old(state)@,
            change@,
            has_index_update,
            now,
        ),
{
    proof {
        reveal(playlist_changed);
        reveal(playlist_changed_effects);
        reveal(selected_opened);
        reveal(selected_opened_effects);
    }
    let ghost s0 = state@;
    let ghost e0 = fx(*effects);
    announce_change(state, change, effects);
    let opens = !has_index_update && state.client_state.get_file().is_none();
    install_list(state, change, now);
    let ghost s1 = state@;
    let ghost e1 = fx(*effects);
    open_selected(state, opens, now, effects);
    assert(state@ == playlist_changed(s0, change@, has_index_update, now));
    assert(fx(*effects) =~= e0 + playlist_changed_effects(s0, change@, has_index_update, now));
}

/// The session after the part of a message that changes the playlist.
#[verifier::opaque]
pub open spec fn change_step(
    s: SessionView,
    change: Option<PlaylistChangeView>,
    has_index_update: bool,
    now: u64,
) -> SessionView {
    match change {
        Some(c) => {
            let s1 = if restores_playlist(s, c) {
                s
            } else {
                playlist_changed(s, c, has_index_update, now)
            };
            SessionView { playlist_may_need_restoring: false, ..s1 }
        },
        None => s,
    }
}

#[verifier::opaque]
pub open spec fn change_step_effects(
    s: SessionView,
    change: Option<PlaylistChangeView>,
    has_index_update: bool,
    now: u64,
) -> Seq<EffectView> {
    match change {
        Some(c) => if restores_playlist(s, c) {
            restore_effects(s)
        } else {
            playlist_changed_effects(s, c, has_index_update, now)
        },
        None => Seq::empty(),
    }
}

/// Whether the playlist is told to the user interface after a change.
#[verifier::opaque]
pub open spec fn change_emits(s: SessionView, change: Option<PlaylistChangeView>) -> bool {
    match change {
        Some(c) => !restores_playlist(s, c),
        None => false,
    }
}

fn should_restore(state: &Session, change: &PlaylistChange) -> (r: bool)
    ensures
        r == restores_playlist(state@, change@),
{
    proof {
        reveal(restores_playlist);
    }
    assert(change.files.deep_view().len() == change.files@.len());
    if !state.playlist_may_need_restoring {
        return false;
    }
    let room = state.client_state.get_room();
    change.files.len() == 0 && change.user.is_none() && !state.playlist.is_empty()
        && !state.playlist.playlist_buffer_is_from_old_room(room.as_str())
}

fn change_playlist(
    state: &mut Session,
    change: &PlaylistChange,
    has_index_update: bool,
    now: u64,
    effects: &mut Vec<Effect>,
) -> (emits: bool)
    requires
        old(state).wf(),
    ensures
        final(state).wf(),
        final(state)@ == change_step(old(state)@, Some(change@), has_index_update, now),
        emits == change_emits(old(state)@, Some(change@)),
        fx(*final(effects)) == fx(*old(effects)) + change_step_effects(
            old(state)@,
            Some(change@),
            has_index_update,
            now,
        ),
{
    proof {
        reveal(change_step);
        reveal(change_step_effects);
        reveal(change_emits);
    }
    let restore = should_restore(state, change);
    if restore {
        restore_playlist(state, effects);
        disarm_restore(state);
        assert(state@ == change_step(old(state)@, Some(change@), has_index_update, now));
    } else {
        replace_playlist(state, change, has_index_update, now, effects);
        disarm_restore(state);
        assert(state@ == change_step(old(state)@, Some(change@), has_index_update, now));
    }
    !restore
}

fn disarm_restore(state: &mut Session)
    ensures
        final(state)@ == (SessionView { playlist_may_need_restoring: false, ..old(state)@ }),
        final(state).wf() == old(state).wf(),
{
    state.playlist_may_need_restoring = false;
}

fn do_change_step(
    state: &mut Session,
    change: &Option<PlaylistChange>,
    has_index_update: bool,
    now: u64,
    effects: &mut Vec<Effect>,
) -> (emits: bool)
    requires
        old(state).wf(),
    ensures
        final(state).wf(),
        final(state)@ == change_step(old(state)@, opt_view(*change), has_index_update, now),
        emits == change_emits(old(state)@, opt_view(*change)),
        fx(*final(effects)) == fx(*old(effects)) + change_step_effects(
            old(state)@,
            opt_view(*change),
            has_index_update,
            now,
        ),
{
    proof {
        reveal(change_step);
        reveal(change_step_effects);
        reveal(change_emits);
    }
    match change {
        Some(c) => change_playlist(state, c, has_index_update, now, effects),
        None => {
            assert(fx(*effects) =~= fx(*old(effects)) + Seq::empty());
            false
        },
    }
}

/// Whether a selection is one that the client has made itself and already
/// follows: it is by the client and names the file that is open.
#[verifier::opaque]
pub open spec fn follows_selection(s: SessionView, user: Option<Seq<char>>, index: int) -> bool {
    user == Some(s.client.username) && 0 <= index < s.playlist.items.len() && same_name(
        s.client.file,
        Some(s.playlist.items[index].filename),
    )
}

/// The index that a message selects, where it selects one.
pub open spec fn selected_index(update: Option<PlaylistIndexUpdateView>) -> Option<usize> {
    match update {
        Some(u) => u.index,
        None => None,
    }
}

/// The session after the part of a message that selects a playlist item.
#[verifier::opaque]
pub open spec fn index_step(s: SessionView, update: Option<PlaylistIndexUpdateView>, now: u64) -> SessionView {
    match selected_index(update) {
        Some(i) => index_applied(SessionView { had_first_playlist_index: true, ..s }, i as int, now),
        None => s,
    }
}

/// What the selection of a playlist item by the server asks for: the item
/// is opened, at its start unless it is the first selection of the session,
/// or only shown where the client follows it already; and whoever selected
/// it is named.
#[verifier::opaque]
pub open spec fn index_step_effects(
    s: SessionView,
    update: Option<PlaylistIndexUpdateView>,
    now: u64,
) -> Seq<EffectView> {
    match selected_index(update) {
        Some(i) => (if follows_selection(s, update.unwrap().user, i as int) {
            seq![EffectView::EmitPlaylist]
        } else {
            index_applied_effects(
                SessionView { had_first_playlist_index: true, ..s },
                i as int,
                s.had_first_playlist_index,
                now,
            )
        }) + (match update.unwrap().user {
            Some(u) => notice_effects(
                s,
                u + " changed the playlist selection"@,
                s.config.show_same_room_osd,
            ),
            None => Seq::empty(),
        }),
        None => Seq::empty(),
    }
}

fn follows(state: &Session, user: &Option<String>, index: usize) -> (r: bool)
    ensures
        r == follows_selection(state@, opt_view(*user), index as int),
{
    proof {
        reveal(follows_selection);
    }
    let user = match user {
        Some(u) => u,
        None => {
            return false;
        },
    };
    let me = state.client_state.get_username();
    if !texts_equal(user, me.as_str()) {
        return false;
    }
    let items = state.playlist.get_item_filenames();
    assert(items.deep_view().len() == items@.len());
    if index >= items.len() {
        return false;
    }
    assert(items.deep_view()[index as int] == items@[index as int]@);
    let file = state.client_state.get_file();
    same_filename(opt_str(&file), Some(items[index].as_str()))
}

fn mark_first_index(state: &mut Session)
    ensures
        final(state)@ == (SessionView { had_first_playlist_index: true, ..old(state)@ }),
        final(state).wf() == old(state).wf(),
{
    state.had_first_playlist_index = true;
}

fn announce_selection(state: &Session, user: &Option<String>, effects: &mut Vec<Effect>)
    ensures
        fx(*final(effects)) == fx(*old(effects)) + (match opt_view(*user) {
            Some(u) => notice_effects(
                state@,
                u + " changed the playlist selection"@,
                state@.config.show_same_room_osd,
            ),
            None => Seq::empty(),
        }),
{
    match user {
        Some(u) => {
            notice(
                state,
                text2(u.as_str(), " changed the playlist selection"),
                state.config.show_same_room_osd,
                effects,
            );
        },
        None => {
            assert(fx(*effects) =~= fx(*old(effects)) + Seq::empty());
        },
    }
}

fn select_and_show(
    state: &mut Session,
    skip: bool,
    index: usize,
    reset_position: bool,
    now: u64,
    effects: &mut Vec<Effect>,
)
    requires
        old(state).wf(),
    ensures
        final(state).wf(),
        final(state)@ == index_applied(old(state)@, index as int, now),
        announce_base(final(state)@) == announce_base(old(state)@),
        fx(*final(effects)) == fx(*old(effects)) + (if skip {
            seq![EffectView::EmitPlaylist]
        } else {
            index_applied_effects(old(state)@, index as int, reset_position, now)
        }),
{
    proof {
        reveal(index_applied);
        reveal(index_applied_effects);
    }
    let filename = select_index(state, index, now);
    if skip {
        emit(effects, Effect::EmitPlaylist);
        assert(fx(*effects) =~= fx(*old(effects)) + seq![EffectView::EmitPlaylist]);
    } else {
        emit_index(&filename, reset_position, effects);
    }
}

fn select_from_server(
    state: &mut Session,
    update: &PlaylistIndexUpdate,
    index: usize,
    now: u64,
    effects: &mut Vec<Effect>,
)
    requires
        old(state).wf(),
        update@.index == Some(index),
    ensures
        final(state).wf(),
        final(state)@ == index_step(old(state)@, Some(update@), now),
        fx(*final(effects)) == fx(*old(effects)) + index_step_effects(
            old(state)@,
            Some(update@),
            now,
        ),
{
    proof {
        reveal(index_step);
        reveal(index_step_effects);
    }
    let ghost s0 = state@;
    let ghost e0 = fx(*effects);
    let reset_position = state.had_first_playlist_index;
    let skip = follows(state, &update.user, index);
    mark_first_index(state);
    select_and_show(state, skip, index, reset_position, now, effects);
    let ghost e1 = fx(*effects);
    announce_selection_in(state, Ghost(s0), &update.user, effects);
    assert(fx(*effects) =~= e0 + index_step_effects(s0, Some(update@), now));
}

/// What a notice depends on.
pub open spec fn announce_base(s: SessionView) -> (crate::config::UserPreferences, bool) {
    (s.config, s.player_kind.is_some())
}

fn announce_selection_in(
    state: &Session,
    Ghost(s0): Ghost<SessionView>,
    user: &Option<String>,
    effects: &mut Vec<Effect>,
)
    requires
        announce_base(state@) == announce_base(s0),
    ensures
        fx(*final(effects)) == fx(*old(effects)) + (match opt_view(*user) {
            Some(u) => notice_effects(
                s0,
                u + " changed the playlist selection"@,
                s0.config.show_same_room_osd,
            ),
            None => Seq::empty(),
        }),
{
    announce_selection(state, user, effects);
    match user {
        Some(u) => {
            assert(notice_effects(
                state@,
                u@ + " changed the playlist selection"@,
                state@.config.show_same_room_osd,
            ) =~= notice_effects(
                s0,
                u@ + " changed the playlist selection"@,
                s0.config.show_same_room_osd,
            ));
        },
        None => {},
    }
}

fn do_index_step(
    state: &mut Session,
    update: &Option<PlaylistIndexUpdate>,
    now: u64,
    effects: &mut Vec<Effect>,
) -> (handled: bool)
    requires
        old(state).wf(),
    ensures
        final(state).wf(),
        final(state)@ == index_step(old(state)@, opt_view(*update), now),
        handled == selected_index(opt_view(*update)).is_some(),
        fx(*final(effects)) == fx(*old(effects)) + index_step_effects(
            old(state)@,
            opt_view(*update),
            now,
        ),
{
    match update {
        Some(u) => match u.index {
            Some(index) => {
                select_from_server(state, u, index, now, effects);
                true
            },
            None => {
                proof {
                    reveal(index_step);
                    reveal(index_step_effects);
                }
                assert(fx(*effects) =~= fx(*old(effects)) + Seq::empty());
                false
            },
        },
        None => {
            proof {
                reveal(index_step);
                reveal(index_step_effects);
            }
            assert(fx(*effects) =~= fx(*old(effects)) + Seq::empty());
            false
        },
    }
}

// ---------------------------------------------------------------------------
// The whole message
// ---------------------------------------------------------------------------

pub open spec fn users_part(s: SessionView, updates: Option<Seq<UserUpdateView>>) -> SessionView {
    match updates {
        Some(u) => users_step(s, u),
        None => s,
    }
}

pub open spec fn users_part_effects(s: SessionView, updates: Option<Seq<UserUpdateView>>) -> Seq<
    EffectView,
> {
    match updates {
        Some(u) => users_step_effects(s, u),
        None => Seq::empty(),
    }
}

pub open spec fn auth_part(s: SessionView, auth: Option<ControllerAuthView>) -> SessionView {
    match auth {
        Some(a) => auth_handled(s, a),
        None => s,
    }
}

pub open spec fn auth_part_effects(s: SessionView, auth: Option<ControllerAuthView>) -> Seq<
    EffectView,
> {
    match auth {
        Some(a) => auth_handled_effects(s, a),
        None => Seq::empty(),
    }
}

pub open spec fn new_room_part(s: SessionView, room: Option<NewControlledRoomView>) -> SessionView {
    match room {
        Some(r) => new_room_entered(s, r),
        None => s,
    }
}

pub open spec fn new_room_part_effects(s: SessionView, room: Option<NewControlledRoomView>) -> Seq<
    EffectView,
> {
    match room {
        Some(r) => new_room_effects(s, r),
        None => Seq::empty(),
    }
}

/// The session after the room and the file of a message.
pub open spec fn after_file(s: SessionView, m: SetMessageView) -> SessionView {
    file_step(room_step(s, m.room), m.file)
}

/// The session after the users and the readiness of a message.
pub open spec fn after_ready(s: SessionView, m: SetMessageView) -> SessionView {
    ready_step(users_part(after_file(s, m), m.user), m.ready)
}

/// The session after everything in a message that is about people.
#[verifier::opaque]
pub open spec fn after_people(s: SessionView, m: SetMessageView) -> SessionView {
    new_room_part(auth_part(after_ready(s, m), m.controller_auth), m.new_controlled_room)
}

/// Whether a message has changed the users.
pub open spec fn users_touched(m: SetMessageView) -> bool {
    (match m.user {
        Some(u) => any_update_counts(u),
        None => false,
    }) || ready_subject(m.ready).is_some()
}

/// Whether somebody has left the client's room.
pub open spec fn somebody_left(s: SessionView, m: SetMessageView) -> bool {
    match m.user {
        Some(u) => any_leaves_room(after_file(s, m), u),
        None => false,
    }
}

#[verifier::opaque]
pub open spec fn people_effects(s: SessionView, m: SetMessageView) -> Seq<EffectView> {
    room_step_effects(s, m.room) + file_step_effects(m.file) + users_part_effects(
        after_file(s, m),
        m.user,
    ) + ready_step_effects(m.ready) + auth_part_effects(after_ready(s, m), m.controller_auth)
        + new_room_part_effects(
        auth_part(after_ready(s, m), m.controller_auth),
        m.new_controlled_room,
    ) + (if users_touched(m) {
        seq![EffectView::EmitUserList]
    } else {
        Seq::empty()
    }) + (if somebody_left(s, m) && s.config.pause_on_leave {
        seq![EffectView::PauseForLeave]
    } else {
        Seq::empty()
    })
}

fn do_users_part(state: &mut Session, updates: &Option<Vec<UserUpdate>>, effects: &mut Vec<Effect>) -> (r:
    (bool, bool))
    requires
        old(state).wf(),
    ensures
        final(state).wf(),
        final(state)@ == users_part(old(state)@, opt_updates(*updates)),
        r.0 == (match opt_updates(*updates) {
            Some(u) => any_update_counts(u),
            None => false,
        }),
        r.1 == (match opt_updates(*updates) {
            Some(u) => any_leaves_room(old(state)@, u),
            None => false,
        }),
        fx(*final(effects)) == fx(*old(effects)) + users_part_effects(
            old(state)@,
            opt_updates(*updates),
        ),
{
    match updates {
        Some(u) => do_users_step(state, u, effects),
        None => {
            assert(fx(*effects) =~= fx(*old(effects)) + Seq::empty());
            (false, false)
        },
    }
}

pub open spec fn opt_updates(updates: Option<Vec<UserUpdate>>) -> Option<Seq<UserUpdateView>> {
    match updates {
        Some(u) => Some(update_views(u@)),
        None => None,
    }
}

fn do_auth_part(state: &mut Session, auth: &Option<ControllerAuth>, effects: &mut Vec<Effect>)
    requires
        old(state).wf(),
    ensures
        final(state).wf(),
        final(state)@ == auth_part(old(state)@, opt_view(*auth)),
        fx(*final(effects)) == fx(*old(effects)) + auth_part_effects(old(state)@, opt_view(*auth)),
{
    match auth {
        Some(a) => {
            handle_controller_auth(state, a, effects);
        },
        None => {
            assert(fx(*effects) =~= fx(*old(effects)) + Seq::empty());
        },
    }
}

fn do_new_room_part(state: &mut Session, room: &Option<NewControlledRoom>, effects: &mut Vec<Effect>)
    requires
        old(state).wf(),
    ensures
        final(state).wf(),
        final(state)@ == new_room_part(old(state)@, opt_view(*room)),
        fx(*final(effects)) == fx(*old(effects)) + new_room_part_effects(
            old(state)@,
            opt_view(*room),
        ),
{
    match room {
        Some(r) => {
            handle_new_controlled_room(state, r, effects);
        },
        None => {
            assert(fx(*effects) =~= fx(*old(effects)) + Seq::empty());
        },
    }
}

fn emit_if(cond: bool, effect: Effect, effects: &mut Vec<Effect>)
    ensures
        fx(*final(effects)) == fx(*old(effects)) + (if cond {
            seq![effect@]
        } else {
            Seq::empty()
        }),
{
    if cond {
        emit(effects, effect);
        assert(fx(*effects) =~= fx(*old(effects)) + seq![effect@]);
    } else {
        assert(fx(*effects) =~= fx(*old(effects)) + Seq::empty());
    }
}

fn do_people(state: &mut Session, m: &SetMessage, effects: &mut Vec<Effect>)
    requires
        old(state).wf(),
    ensures
        final(state).wf(),
        final(state)@ == after_people(old(state)@, m@),
        fx(*final(effects)) == fx(*old(effects)) + people_effects(old(state)@, m@),
{
    proof {
        reveal(after_people);
        reveal(people_effects);
    }
    let ghost s0 = state@;
    let ghost e0 = fx(*effects);
    let pause_on_leave = state.config.pause_on_leave;
    do_room_step(state, &m.room, effects);
    do_file_step(state, &m.file, effects);
    let ghost e2 = fx(*effects);
    assert(e2 =~= e0 + (room_step_effects(s0, m@.room) + file_step_effects(m@.file)));
    let (changed, left) = do_users_part(state, &m.user, effects);
    let ready_changed = do_ready_step(state, &m.ready, effects);
    let ghost e4 = fx(*effects);
    assert(e4 =~= e2 + (users_part_effects(after_file(s0, m@), m@.user) + ready_step_effects(
        m@.ready,
    )));
    do_auth_part(state, &m.controller_auth, effects);
    do_new_room_part(state, &m.new_controlled_room, effects);
    let ghost e6 = fx(*effects);
    assert(e6 =~= e4 + (auth_part_effects(after_ready(s0, m@), m@.controller_auth)
        + new_room_part_effects(
        auth_part(after_ready(s0, m@), m@.controller_auth),
        m@.new_controlled_room,
    )));
    emit_if(changed || ready_changed, Effect::EmitUserList, effects);
    emit_if(left && pause_on_leave, Effect::PauseForLeave, effects);
    assert(fx(*effects) =~= e0 + people_effects(s0, m@));
}

/// The session after everything in a message that is about the playlist;
/// nothing of it counts where playlists are not shared.
#[verifier::opaque]
pub open spec fn after_playlist(s: SessionView, m: SetMessageView, now: u64) -> SessionView {
    if playlists_shared(s) {
        index_step(
            change_step(s, m.playlist_change, m.playlist_index.is_some(), now),
            m.playlist_index,
            now,
        )
    } else {
        s
    }
}

#[verifier::opaque]
pub open spec fn playlist_effects(s: SessionView, m: SetMessageView, now: u64) -> Seq<EffectView> {
    if playlists_shared(s) {
        change_step_effects(s, m.playlist_change, m.playlist_index.is_some(), now)
            + index_step_effects(
            change_step(s, m.playlist_change, m.playlist_index.is_some(), now),
            m.playlist_index,
            now,
        ) + (if change_emits(s, m.playlist_change) && selected_index(m.playlist_index).is_none() {
            seq![EffectView::EmitPlaylist]
        } else {
            Seq::empty()
        })
    } else {
        Seq::empty()
    }
}

fn do_playlist(state: &mut Session, m: &SetMessage, now: u64, effects: &mut Vec<Effect>)
    requires
        old(state).wf(),
    ensures
        final(state).wf(),
        final(state)@ == after_playlist(old(state)@, m@, now),
        fx(*final(effects)) == fx(*old(effects)) + playlist_effects(old(state)@, m@, now),
{
    proof {
        reveal(after_playlist);
        reveal(playlist_effects);
    }
    let ghost s0 = state@;
    let ghost e0 = fx(*effects);
    if !shared_playlists_enabled(state) {
        assert(fx(*effects) =~= e0 + Seq::empty());
        return ;
    }
    let emits = do_change_step(
        state,
        &m.playlist_change,
        m.playlist_index.is_some(),
        now,
        effects,
    );
    let handled = do_index_step(state, &m.playlist_index, now, effects);
    emit_if(emits && !handled, Effect::EmitPlaylist, effects);
    assert(fx(*effects) =~= e0 + playlist_effects(s0, m@, now));
}

/// The session after a `Set` message: its parts are taken in this order:
/// room, file, users, readiness, operators, new managed room, playlist,
/// selection; then it is seen whether playback may start by itself.
pub open spec fn set_handled(s: SessionView, m: SetMessageView, now: u64) -> SessionView {
    let s1 = after_playlist(after_people(s, m), m, now);
    SessionView { autoplay: autoplay_evaluated(s1.autoplay, autoplay_ready(s1, now)), ..s1 }
}

pub open spec fn set_effects(s: SessionView, m: SetMessageView, now: u64) -> Seq<EffectView> {
    let s1 = after_playlist(after_people(s, m), m, now);
    people_effects(s, m) + playlist_effects(after_people(s, m), m, now) + music_effects(s1, now)
        + countdown_effects(s1.autoplay, autoplay_ready(s1, now))
}

/// Takes a `Set` message of the server.
pub fn handle_set_message(state: &mut Session, set_msg: &SetMessage, now: u64, effects: &mut Vec<Effect>)
    requires
        old(state).wf(),
    ensures
        final(state).wf(),
        final(state)@ == set_handled(old(state)@, set_msg@, now),
        fx(*final(effects)) == fx(*old(effects)) + set_effects(old(state)@, set_msg@, now),
{
    let ghost s0 = state@;
    let ghost e0 = fx(*effects);
    do_people(state, set_msg, effects);
    do_playlist(state, set_msg, now, effects);
    let ghost e1 = fx(*effects);
    assert(e1 =~= e0 + (people_effects(s0, set_msg@) + playlist_effects(
        after_people(s0, set_msg@),
        set_msg@,
        now,
    )));
    evaluate_autoplay(state, now, effects);
    assert(fx(*effects) =~= e0 + set_effects(s0, set_msg@, now));
}

} // verus!
