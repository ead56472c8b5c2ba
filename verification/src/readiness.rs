//! Who is ready: what the readiness of the users in the room adds up to.
use crate::reconcile::{can_control, current_user_can_control};
use crate::session::{Session, SessionView};
use crate::state::{user_views, users_in, ClientStateView, User, UserView};
use crate::text::{opt_view, texts_equal};
use crate::time::{elapsed, elapsed_ms};
use crate::utils::{
    is_controlled_room, is_controlled_room_name, is_music_file, is_music_name, same_filename,
    same_name,
};
use vstd::prelude::*;

verus! {

/// How long after the connection was made the client counts as just
/// connected.
pub const LAST_PAUSED_DIFF_THRESHOLD: u64 = 2000;

/// How long after the playlist has moved on the move counts as recent.
pub const RECENT_ADVANCE_GRACE: u64 = 8000;

/// The users in the client's room.
pub open spec fn room_users(c: ClientStateView) -> Seq<UserView> {
    users_in(c.users, c.room)
}

/// Whether the client is ready, where it has a file.
pub open spec fn own_ready_with_file(c: ClientStateView) -> Option<bool> {
    if c.file.is_none() {
        None
    } else {
        Some(c.is_ready)
    }
}

pub fn current_user_ready_with_file(state: &Session) -> (r: Option<bool>)
    ensures
        r == own_ready_with_file(state@.client),
{
    if state.client_state.get_file().is_none() {
        return None;
    }
    Some(state.client_state.is_ready())
}

/// Whether a user may change playback in the client's room.
pub open spec fn controls_room(c: ClientStateView, user: UserView) -> bool {
    !is_controlled_room_name(c.room) || user.is_controller
}

pub fn user_can_control_in_room(state: &Session, user: &User) -> (r: bool)
    ensures
        r == controls_room(state@.client, user@),
{
    let room = state.client_state.get_room();
    if !is_controlled_room(room.as_str()) {
        return true;
    }
    user.is_controller
}

/// Some other user in the room tells whether they are ready.
#[verifier::opaque]
pub open spec fn others_tell_readiness(c: ClientStateView) -> bool {
    exists|i: int|
        0 <= i < room_users(c).len() && (#[trigger] room_users(c)[i]).username != c.username
            && room_users(c)[i].ready_with_file().is_some()
}

/// The server knows readiness and, where other users are asked for, one of
/// them in the room tells theirs.
pub open spec fn readiness_supported(s: SessionView, requires_other_users: bool) -> bool {
    s.features.readiness && (!requires_other_users || others_tell_readiness(s.client))
}

#[verifier::loop_isolation(false)]
pub fn is_readiness_supported(state: &Session, requires_other_users: bool) -> (r: bool)
    ensures
        r == readiness_supported(state@, requires_other_users),
{
    proof {
        reveal(others_tell_readiness);
    }
    if !state.server_features.readiness {
        return false;
    }
    if !requires_other_users {
        return true;
    }
    let room = state.client_state.get_room();
    let username = state.client_state.get_username();
    let users = state.client_state.get_users_in_room(room.as_str());
    let ghost us = room_users(state@.client);
    let mut i: usize = 0;
    while i < users.len()
        invariant
            i <= users.len(),
            user_views(users@) == us,
            us == room_users(state@.client),
            username@ == state@.client.username,
            state@.features.readiness,
            requires_other_users,
            forall|j: int|
                0 <= j < i ==> !((#[trigger] us[j]).username != username@
                    && us[j].ready_with_file().is_some()),
        decreases users.len() - i,
    {
        assert(us[i as int] == users@[i as int]@);
        if !texts_equal(&users[i].username, username.as_str())
            && users[i].is_ready_with_file().is_some() {
            assert(room_users(state@.client)[i as int].username != state@.client.username);
            return true;
        }
        i = i + 1;
    }
    assert(us.len() == users@.len());
    false
}

/// A user does not stand in the way of playback: they are not known to be
/// unready, and where the same file is asked for they have the client's.
pub open spec fn user_agrees(c: ClientStateView, user: UserView, require_same: bool) -> bool {
    user.ready_with_file() != Some(false) && (!require_same || same_name(c.file, user.file))
}

/// The client is ready with a file, and every other user in the room agrees.
#[verifier::opaque]
pub open spec fn all_in_room_ready(c: ClientStateView, require_same: bool) -> bool {
    own_ready_with_file(c) == Some(true) && forall|i: int|
        0 <= i < room_users(c).len() && (#[trigger] room_users(c)[i]).username != c.username
            ==> user_agrees(c, room_users(c)[i], require_same)
}

fn agrees(current_file: &Option<String>, user: &User, require_same: bool) -> (r: bool)
    ensures
        r == (user@.ready_with_file() != Some(false) && (!require_same || same_name(
            opt_view(*current_file),
            user@.file,
        ))),
{
    match user.is_ready_with_file() {
        Some(ready) => {
            if !ready {
                return false;
            }
        },
        None => {},
    }
    if !require_same {
        return true;
    }
    let a: Option<&str> = match current_file {
        Some(f) => Some(f.as_str()),
        None => None,
    };
    let b: Option<&str> = match &user.file {
        Some(f) => Some(f.as_str()),
        None => None,
    };
    same_filename(a, b)
}

#[verifier::loop_isolation(false)]
pub fn are_all_users_in_room_ready(state: &Session, require_same_filenames: bool) -> (r: bool)
    ensures
        r == all_in_room_ready(state@.client, require_same_filenames),
{
    proof {
        reveal(all_in_room_ready);
    }
    match current_user_ready_with_file(state) {
        Some(ready) => {
            if !ready {
                return false;
            }
        },
        None => {
            return false;
        },
    }
    let current_file = state.client_state.get_file();
    let room = state.client_state.get_room();
    let username = state.client_state.get_username();
    let users = state.client_state.get_users_in_room(room.as_str());
    let ghost c = state@.client;
    let ghost us = room_users(c);
    let mut i: usize = 0;
    while i < users.len()
        invariant
            i <= users.len(),
            user_views(users@) == us,
            us == room_users(c),
            c == state@.client,
            username@ == c.username,
            opt_view(current_file) == c.file,
            own_ready_with_file(c) == Some(true),
            forall|j: int|
                0 <= j < i && (#[trigger] us[j]).username != c.username ==> user_agrees(
                    c,
                    us[j],
                    require_same_filenames,
                ),
        decreases users.len() - i,
    {
        assert(us[i as int] == users@[i as int]@);
        if !texts_equal(&users[i].username, username.as_str()) {
            if !agrees(&current_file, &users[i], require_same_filenames) {
                return false;
            }
        }
        i = i + 1;
    }
    assert(us.len() == users@.len());
    true
}

/// The client is ready with a file, and so is everybody whose readiness
/// counts: every other user for a client that controls the room, else every
/// user who does.
#[verifier::opaque]
pub open spec fn all_relevant_ready(c: ClientStateView, require_same: bool) -> bool {
    own_ready_with_file(c) == Some(true) && (if can_control(c) {
        all_in_room_ready(c, require_same)
    } else {
        forall|i: int|
            0 <= i < room_users(c).len() && controls_room(c, #[trigger] room_users(c)[i])
                ==> user_agrees(c, room_users(c)[i], require_same)
    })
}

#[verifier::loop_isolation(false)]
pub fn are_all_relevant_users_in_room_ready(state: &Session, require_same_filenames: bool) -> (r:
    bool)
    ensures
        r == all_relevant_ready(state@.client, require_same_filenames),
{
    proof {
        reveal(all_relevant_ready);
    }
    match current_user_ready_with_file(state) {
        Some(ready) => {
            if !ready {
                return false;
            }
        },
        None => {
            return false;
        },
    }
    if current_user_can_control(state) {
        return are_all_users_in_room_ready(state, require_same_filenames);
    }
    let current_file = state.client_state.get_file();
    let room = state.client_state.get_room();
    let users = state.client_state.get_users_in_room(room.as_str());
    let ghost c = state@.client;
    let ghost us = room_users(c);
    let mut i: usize = 0;
    while i < users.len()
        invariant
            i <= users.len(),
            user_views(users@) == us,
            us == room_users(c),
            c == state@.client,
            opt_view(current_file) == c.file,
            own_ready_with_file(c) == Some(true),
            !can_control(c),
            forall|j: int|
                0 <= j < i && controls_room(c, #[trigger] us[j]) ==> user_agrees(
                    c,
                    us[j],
                    require_same_filenames,
                ),
        decreases users.len() - i,
    {
        assert(us[i as int] == users@[i as int]@);
        if user_can_control_in_room(state, &users[i]) {
            if !agrees(&current_file, &users[i], require_same_filenames) {
                return false;
            }
        }
        i = i + 1;
    }
    assert(us.len() == users@.len());
    true
}

/// No other user in the room is known to be unready.
#[verifier::opaque]
pub open spec fn all_others_ready(c: ClientStateView) -> bool {
    forall|i: int|
        0 <= i < room_users(c).len() && (#[trigger] room_users(c)[i]).username != c.username
            ==> room_users(c)[i].ready_with_file() != Some(false)
}

#[verifier::loop_isolation(false)]
pub fn are_all_other_users_ready(state: &Session) -> (r: bool)
    ensures
        r == all_others_ready(state@.client),
{
    proof {
        reveal(all_others_ready);
    }
    let room = state.client_state.get_room();
    let username = state.client_state.get_username();
    let users = state.client_state.get_users_in_room(room.as_str());
    let ghost c = state@.client;
    let ghost us = room_users(c);
    let mut i: usize = 0;
    while i < users.len()
        invariant
            i <= users.len(),
            user_views(users@) == us,
            us == room_users(c),
            c == state@.client,
            username@ == c.username,
            forall|j: int|
                0 <= j < i && (#[trigger] us[j]).username != c.username ==> us[j].ready_with_file()
                    != Some(false),
        decreases users.len() - i,
    {
        assert(us[i as int] == users@[i as int]@);
        if !texts_equal(&users[i].username, username.as_str()) {
            match users[i].is_ready_with_file() {
                Some(ready) => {
                    if !ready {
                        return false;
                    }
                },
                None => {},
            }
        }
        i = i + 1;
    }
    assert(us.len() == users@.len());
    true
}

/// How many of the users are ready with a file, those of the name `skip`
/// left out.
pub open spec fn count_ready(users: Seq<UserView>, skip: Option<Seq<char>>) -> nat
    decreases users.len(),
{
    if users.len() == 0 {
        0
    } else {
        count_ready(users.drop_last(), skip) + (if Some(users.last().username) != skip
            && users.last().ready_with_file() == Some(true) {
            1nat
        } else {
            0nat
        })
    }
}

pub proof fn lemma_count_ready_bound(users: Seq<UserView>, skip: Option<Seq<char>>)
    ensures
        count_ready(users, skip) <= users.len(),
    decreases users.len(),
{
    if users.len() > 0 {
        lemma_count_ready_bound(users.drop_last(), skip);
    }
}

fn count_ready_users(users: &Vec<User>, skip: Option<&str>) -> (r: usize)
    ensures
        r == count_ready(user_views(users@), opt_view(skip)),
{
    let ghost us = user_views(users@);
    let mut count: usize = 0;
    let mut i: usize = 0;
    assert(us.take(0) =~= Seq::<UserView>::empty());
    while i < users.len()
        invariant
            i <= users.len(),
            us == user_views(users@),
            count == count_ready(us.take(i as int), opt_view(skip)),
            count <= i,
        decreases users.len() - i,
    {
        proof {
            assert(us.take(i + 1).drop_last() =~= us.take(i as int));
            assert(us.take(i + 1).last() == users@[i as int]@);
        }
        let skipped = match skip {
            Some(name) => texts_equal(&users[i].username, name),
            None => false,
        };
        if !skipped {
            match users[i].is_ready_with_file() {
                Some(ready) => {
                    if ready {
                        count = count + 1;
                    }
                },
                None => {},
            }
        }
        i = i + 1;
    }
    assert(us.take(users.len() as int) =~= us);
    count
}

/// The client and the other users in the room who are ready with a file.
pub open spec fn room_count(c: ClientStateView) -> nat {
    1 + count_ready(room_users(c), Some(c.username))
}

pub fn users_in_room_count(state: &Session) -> (r: usize)
    ensures
        r == if room_count(state@.client) > usize::MAX {
            usize::MAX as nat
        } else {
            room_count(state@.client)
        },
{
    let room = state.client_state.get_room();
    let username = state.client_state.get_username();
    let users = state.client_state.get_users_in_room(room.as_str());
    let n = count_ready_users(&users, Some(username.as_str()));
    if n == usize::MAX {
        usize::MAX
    } else {
        n + 1
    }
}

/// The users in the room who are ready with a file, and the client where
/// it is.
pub open spec fn ready_count(c: ClientStateView) -> nat {
    (if c.file.is_some() && c.is_ready {
        1nat
    } else {
        0nat
    }) + count_ready(room_users(c), None)
}

pub fn ready_user_count(state: &Session) -> (r: usize)
    ensures
        r == if ready_count(state@.client) > usize::MAX {
            usize::MAX as nat
        } else {
            ready_count(state@.client)
        },
{
    let room = state.client_state.get_room();
    let users = state.client_state.get_users_in_room(room.as_str());
    let n = count_ready_users(&users, None);
    if state.client_state.get_file().is_some() && state.client_state.is_ready() {
        if n == usize::MAX {
            usize::MAX
        } else {
            n + 1
        }
    } else {
        n
    }
}

/// Playlists are shared where the user wants it and the server does it.
pub open spec fn playlists_shared(s: SessionView) -> bool {
    s.config.shared_playlist_enabled && s.features.shared_playlists
}

pub fn shared_playlists_enabled(state: &Session) -> (r: bool)
    ensures
        r == playlists_shared(state@),
{
    state.config.shared_playlist_enabled && state.server_features.shared_playlists
}

/// Less than two seconds have passed since the server's greeting, or there
/// was none yet.
pub open spec fn just_connected(s: SessionView, now: u64) -> bool {
    match s.last_connect_time {
        Some(t) => elapsed(now, t) < LAST_PAUSED_DIFF_THRESHOLD,
        None => true,
    }
}

pub fn recently_connected(state: &Session, now: u64) -> (r: bool)
    ensures
        r == just_connected(state@, now),
{
    match state.last_connect_time {
        Some(t) => elapsed_ms(now, t) < LAST_PAUSED_DIFF_THRESHOLD,
        None => true,
    }
}

/// Less than eight seconds have passed since the playlist moved on.
pub open spec fn just_advanced(s: SessionView, now: u64) -> bool {
    match s.last_advance_time {
        Some(t) => elapsed(now, t) < RECENT_ADVANCE_GRACE,
        None => false,
    }
}

pub fn recently_advanced(state: &Session, now: u64) -> (r: bool)
    ensures
        r == just_advanced(state@, now),
{
    match state.last_advance_time {
        Some(t) => elapsed_ms(now, t) < RECENT_ADVANCE_GRACE,
        None => false,
    }
}

/// The file that is open is an audio file.
pub open spec fn playing_music(c: ClientStateView) -> bool {
    match c.file {
        Some(f) => is_music_name(f),
        None => false,
    }
}

pub fn is_playing_music(state: &Session) -> (r: bool)
    ensures
        r == playing_music(state@.client),
{
    match state.client_state.get_file() {
        Some(f) => is_music_file(f.as_str()),
        None => false,
    }
}

/// Music goes on without a pause from one item of the playlist to the next.
pub open spec fn music_override(s: SessionView, now: u64) -> bool {
    playing_music(s.client) && just_advanced(s, now)
}

pub fn seamless_music_override(state: &Session, now: u64) -> (r: bool)
    ensures
        r == music_override(state@, now),
{
    is_playing_music(state) && recently_advanced(state, now)
}

} // verus!
