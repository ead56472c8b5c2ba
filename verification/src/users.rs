//! What the server tells of the users: who has come, who has gone, and what
//! they play.
use crate::messages::{FileInfo, UserUpdate, UserUpdateView};
use crate::reconcile::{notice, notice_effects};
use crate::session::{emit, fx, Effect, EffectView, Session, SessionView};
use crate::state::{
    clone_opt_size, user_named, user_views, with_user, without_user, ClientStateView, User,
    UserChange, UserChangeView, UserView,
};
use crate::text::{
    clone_opt_text, copy_str, is_blank, opt_view, text2, text4, text5, texts_equal, to_chars, trim,
};
use crate::time::{format_time, time_code};
use crate::utils::{same_filename, same_filesize, same_name, same_size};
use crate::warnings::{aspects_string, aspects_text, opt_ref, opt_str, same_duration, same_length};
use vstd::prelude::*;

verus! {

/// A name that stands for nobody: it holds nothing but white space.
pub open spec fn is_placeholder(username: Seq<char>) -> bool {
    trim(username).len() == 0
}

pub fn is_placeholder_username(username: &str) -> (r: bool)
    ensures
        r == is_placeholder(username@),
{
    is_blank(&to_chars(username))
}

/// A user has the same file as before: the same name, size and duration.
/// A user who was not known has not.
pub open spec fn same_file(old_user: Option<UserView>, new_user: UserView, show_duration: bool) -> bool {
    match old_user {
        Some(o) => same_name(o.file, new_user.file) && same_size(o.file_size, new_user.file_size)
            && same_length(o.file_duration, new_user.file_duration, show_duration),
        None => false,
    }
}

pub fn is_same_file(old_user: Option<&User>, new_user: &User, show_duration: bool) -> (r: bool)
    ensures
        r == same_file(opt_view(old_user), new_user@, show_duration),
{
    let old_user = match old_user {
        Some(o) => o,
        None => {
            return false;
        },
    };
    let same_name = same_filename(opt_str(&old_user.file), opt_str(&new_user.file));
    let same_size = same_filesize(opt_ref(&old_user.file_size), opt_ref(&new_user.file_size));
    let same_duration = same_duration(
        old_user.file_duration,
        new_user.file_duration,
        show_duration,
    );
    same_name && same_size && same_duration
}

/// Whether news of a user may be shown over the picture.
pub open spec fn osd_allowed(
    s: SessionView,
    old_user: Option<UserView>,
    user: UserView,
) -> bool {
    let was_in_room = match old_user {
        Some(o) => o.room == s.client.room,
        None => false,
    };
    (s.config.show_non_controller_osd || user.is_controller) && (if was_in_room || user.room
        == s.client.room {
        s.config.show_same_room_osd
    } else {
        s.config.show_different_room_osd
    })
}

pub fn allow_osd_for_user(state: &Session, old_user: Option<&User>, user: &User) -> (r: bool)
    ensures
        r == osd_allowed(state@, opt_view(old_user), user@),
{
    let current_room = state.client_state.get_room();
    let was_in_room = match old_user {
        Some(o) => texts_equal(&o.room, current_room.as_str()),
        None => false,
    };
    let is_in_room = texts_equal(&user.room, current_room.as_str());
    let allow = if was_in_room || is_in_room {
        state.config.show_same_room_osd
    } else {
        state.config.show_different_room_osd
    };
    if !state.config.show_non_controller_osd && !user.is_controller {
        return false;
    }
    allow
}

/// How the file of a user in the client's room differs from the client's.
pub open spec fn differences_to(s: SessionView, user: UserView) -> Option<Seq<char>> {
    if user.room != s.client.room || s.client.file.is_none() || user.file.is_none() {
        None
    } else {
        aspects_text(
            !same_name(s.client.file, user.file),
            !same_size(s.client.file_size, user.file_size),
            !same_length(
                s.client.file_duration,
                user.file_duration,
                s.config.show_duration_notification,
            ),
        )
    }
}

pub fn file_differences(state: &Session, user: &User) -> (r: Option<String>)
    ensures
        opt_view(r) == differences_to(state@, user@),
{
    let room = state.client_state.get_room();
    if !texts_equal(&user.room, room.as_str()) {
        return None;
    }
    let current_file = state.client_state.get_file();
    let current_size = state.client_state.get_file_size();
    let current_duration = state.client_state.get_file_duration();
    if current_file.is_none() || user.file.is_none() {
        return None;
    }
    aspects_string(
        !same_filename(opt_str(&current_file), opt_str(&user.file)),
        !same_filesize(opt_ref(&current_size), opt_ref(&user.file_size)),
        !same_duration(
            current_duration,
            user.file_duration,
            state.config.show_duration_notification,
        ),
    )
}

/// The user that an update makes of a user.
#[verifier::opaque]
pub open spec fn user_updated(s: SessionView, update: UserUpdateView) -> UserView {
    let known = match user_named(s.client.users, update.username) {
        Some(u) => u,
        None => UserView {
            username: update.username,
            room: s.client.room,
            file: None,
            file_size: None,
            file_duration: None,
            is_ready: None,
            is_controller: false,
        },
    };
    UserView {
        username: known.username,
        room: match update.room {
            Some(r) => r,
            None => known.room,
        },
        file: match update.file {
            Some(f) => f.name,
            None => known.file,
        },
        file_size: match update.file {
            Some(f) => f.size,
            None => known.file_size,
        },
        file_duration: match update.file {
            Some(f) => f.duration,
            None => known.file_duration,
        },
        is_ready: match update.is_ready {
            Some(r) => Some(r),
            None => known.is_ready,
        },
        is_controller: match update.controller {
            Some(c) => c,
            None => known.is_controller,
        },
    }
}

/// Whether an update counts: it names somebody.
pub open spec fn update_counts(update: UserUpdateView) -> bool {
    !is_placeholder(update.username)
}

/// Whether an update says that the user has left.
pub open spec fn update_leaves(update: UserUpdateView) -> bool {
    update.left == Some(true)
}

/// The users after an update of one of them.
#[verifier::opaque]
pub open spec fn users_after(s: SessionView, update: UserUpdateView) -> Seq<UserView> {
    if !update_counts(update) {
        s.client.users
    } else if update_leaves(update) {
        without_user(s.client.users, update.username)
    } else {
        with_user(s.client.users, user_updated(s, update))
    }
}

/// What is said of a file that a user plays.
pub open spec fn playing_text(s: SessionView, user: UserView) -> Seq<char> {
    let duration = match user.file_duration {
        Some(d) => d,
        None => 0,
    };
    user.username + " is playing '"@ + user.file.unwrap() + "' ("@ + (if duration > 0 {
        time_code(duration as int)
    } else {
        "--:--"@
    }) + ")"@ + (if s.client.room != user.room || user.username == s.client.username {
        " in room: '"@ + user.room + "'"@
    } else {
        Seq::empty()
    })
}

/// What an update of a user asks for: the news that they have left, that
/// they play a file (and how it differs from the client's), or that they
/// have come into a room.
#[verifier::opaque]
pub open spec fn user_update_effects(s: SessionView, update: UserUpdateView) -> Seq<EffectView> {
    let old_user = user_named(s.client.users, update.username);
    let user = user_updated(s, update);
    if !update_counts(update) {
        Seq::empty()
    } else if update_leaves(update) {
        match old_user {
            Some(o) => notice_effects(
                s,
                update.username + " has left"@,
                if o.room == s.client.room {
                    s.config.show_same_room_osd
                } else {
                    s.config.show_different_room_osd
                },
            ),
            None => Seq::empty(),
        }
    } else if update.file.is_some() && !same_file(
        old_user,
        user,
        s.config.show_duration_notification,
    ) {
        if user.file.is_some() {
            notice_effects(s, playing_text(s, user), osd_allowed(s, old_user, user)) + (
            if user.username != s.client.username {
                match differences_to(s, user) {
                    Some(d) => seq![
                        EffectView::SystemMessage(
                            "Your file differs in the following way(s): "@ + d,
                        ),
                    ],
                    None => Seq::empty(),
                }
            } else {
                Seq::empty()
            })
        } else {
            Seq::empty()
        }
    } else if (match old_user {
        Some(o) => o.room != user.room,
        None => true,
    }) {
        notice_effects(
            s,
            user.username + " has joined the room: '"@ + user.room + "'"@,
            osd_allowed(s, old_user, user),
        )
    } else {
        Seq::empty()
    }
}

fn clone_file_name(f: &Option<FileInfo>, known: &Option<String>) -> (r: Option<String>)
    ensures
        opt_view(r) == (match opt_view(*f) {
            Some(v) => v.name,
            None => opt_view(*known),
        }),
{
    match f {
        Some(file) => clone_opt_text(&file.name),
        None => clone_opt_text(known),
    }
}

fn updated_user(state: &Session, update: &UserUpdate) -> (r: (Option<User>, User))
    ensures
        opt_view(r.0) == user_named(state@.client.users, update@.username),
        r.1@ == user_updated(state@, update@),
{
    proof {
        reveal(user_updated);
    }
    let old_user = state.client_state.get_user(update.username.as_str());
    let known = match &old_user {
        Some(u) => u.clone(),
        None => User {
            username: update.username.clone(),
            room: state.client_state.get_room(),
            file: None,
            file_size: None,
            file_duration: None,
            is_ready: None,
            is_controller: false,
        },
    };
    let user = User {
        username: known.username.clone(),
        room: match &update.room {
            Some(r) => r.clone(),
            None => known.room.clone(),
        },
        file: clone_file_name(&update.file, &known.file),
        file_size: match &update.file {
            Some(f) => clone_opt_size(&f.size),
            None => clone_opt_size(&known.file_size),
        },
        file_duration: match &update.file {
            Some(f) => f.duration,
            None => known.file_duration,
        },
        is_ready: match update.is_ready {
            Some(r) => Some(r),
            None => known.is_ready,
        },
        is_controller: match update.controller {
            Some(c) => c,
            None => known.is_controller,
        },
    };
    (old_user, user)
}

fn playing_message(state: &Session, user: &User) -> (r: String)
    requires
        user@.file.is_some(),
    ensures
        r@ == playing_text(state@, user@),
{
    let duration = match user.file_duration {
        Some(d) => d,
        None => 0,
    };
    let duration_text = if duration > 0 {
        format_time(duration)
    } else {
        copy_str("--:--")
    };
    let file_name = match &user.file {
        Some(f) => f.clone(),
        None => String::new(),
    };
    let head = text5(
        user.username.as_str(),
        " is playing '",
        file_name.as_str(),
        "' (",
        duration_text.as_str(),
    );
    let current_room = state.client_state.get_room();
    let me = state.client_state.get_username();
    if !texts_equal(&current_room, user.room.as_str()) || texts_equal(&user.username, me.as_str()) {
        let r = text5(head.as_str(), ")", " in room: '", user.room.as_str(), "'");
        assert(r@ =~= playing_text(state@, user@));
        r
    } else {
        let r = text2(head.as_str(), ")");
        assert(r@ =~= playing_text(state@, user@));
        r
    }
}

fn announce_update(
    state: &Session,
    update: &UserUpdate,
    old_user: &Option<User>,
    user: &User,
    effects: &mut Vec<Effect>,
)
    requires
        opt_view(*old_user) == user_named(state@.client.users, update@.username),
        user@ == user_updated(state@, update@),
    ensures
        fx(*final(effects)) == fx(*old(effects)) + user_update_effects(state@, update@),
{
    proof {
        reveal(user_update_effects);
    }
    if is_placeholder_username(update.username.as_str()) {
        assert(fx(*effects) =~= fx(*old(effects)) + Seq::empty());
        return ;
    }
    let left = match update.left {
        Some(l) => l,
        None => false,
    };
    if left {
        match old_user {
            Some(o) => {
                let room = state.client_state.get_room();
                let allow_osd = if texts_equal(&o.room, room.as_str()) {
                    state.config.show_same_room_osd
                } else {
                    state.config.show_different_room_osd
                };
                notice(state, text2(update.username.as_str(), " has left"), allow_osd, effects);
            },
            None => {
                assert(fx(*effects) =~= fx(*old(effects)) + Seq::empty());
            },
        }
        return ;
    }
    let file_changed = update.file.is_some() && !is_same_file(
        opt_ref(old_user),
        user,
        state.config.show_duration_notification,
    );
    if file_changed {
        if user.file.is_some() {
            let message = playing_message(state, user);
            let allow_osd = allow_osd_for_user(state, opt_ref(old_user), user);
            notice(state, message, allow_osd, effects);
            let ghost mid = fx(*effects);
            let me = state.client_state.get_username();
            if !texts_equal(&user.username, me.as_str()) {
                match file_differences(state, user) {
                    Some(diff) => {
                        emit(
                            effects,
                            Effect::SystemMessage(
                                text2("Your file differs in the following way(s): ", diff.as_str()),
                            ),
                        );
                    },
                    None => {},
                }
            }
            assert(fx(*effects) =~= fx(*old(effects)) + user_update_effects(state@, update@));
        } else {
            assert(fx(*effects) =~= fx(*old(effects)) + Seq::empty());
        }
        return ;
    }
    let room_changed = match old_user {
        Some(o) => !texts_equal(&o.room, user.room.as_str()),
        None => true,
    };
    if room_changed {
        let message = text4(
            user.username.as_str(),
            " has joined the room: '",
            user.room.as_str(),
            "'",
        );
        let allow_osd = allow_osd_for_user(state, opt_ref(old_user), user);
        notice(state, message, allow_osd, effects);
    } else {
        assert(fx(*effects) =~= fx(*old(effects)) + Seq::empty());
    }
}

/// Whether a user who leaves was in the client's room.
#[verifier::opaque]
pub open spec fn leaves_room(s: SessionView, update: UserUpdateView) -> bool {
    update_leaves(update) && (match user_named(s.client.users, update.username) {
        Some(u) => u.room == s.client.room,
        None => false,
    })
}

fn change_of(update: &UserUpdate, user: User) -> (r: (UserChange, bool))
    ensures
        r.1 == update_counts(update@),
        r.0@ == (if !update_counts(update@) {
            UserChangeView::Keep
        } else if update_leaves(update@) {
            UserChangeView::Remove(update@.username)
        } else {
            UserChangeView::Put(user@)
        }),
{
    proof {
        reveal(users_after);
    }
    let counts = !is_placeholder_username(update.username.as_str());
    let left = match update.left {
        Some(l) => l,
        None => false,
    };
    if !counts {
        (UserChange::Keep, false)
    } else if left {
        (UserChange::Remove(update.username.clone()), true)
    } else {
        (UserChange::Put(user), true)
    }
}

/// Takes what the server tells of one user. Tells whether the users have
/// changed.
pub fn apply_user_update(state: &mut Session, update: &UserUpdate, effects: &mut Vec<Effect>) -> (r:
    bool)
    requires
        old(state).wf(),
    ensures
        final(state).wf(),
        r == update_counts(update@),
        final(state)@ == (SessionView {
            client: ClientStateView {
                users: users_after(old(state)@, update@),
                ..old(state)@.client
            },
            ..old(state)@
        }),
        fx(*final(effects)) == fx(*old(effects)) + user_update_effects(old(state)@, update@),
{
    proof {
        reveal(users_after);
    }
    let (old_user, user) = updated_user(state, update);
    announce_update(state, update, &old_user, &user, effects);
    let (change, counts) = change_of(update, user);
    state.client_state.change_user(change);
    counts
}

/// The users that are shown: all but those whose name stands for nobody,
/// in their order.
pub open spec fn shown_users(users: Seq<UserView>) -> Seq<UserView>
    decreases users.len(),
{
    if users.len() == 0 {
        Seq::empty()
    } else if is_placeholder(users.last().username) {
        shown_users(users.drop_last())
    } else {
        shown_users(users.drop_last()).push(users.last())
    }
}

/// The users of a list that are shown.
pub fn listed_users(users: &Vec<User>) -> (r: Vec<User>)
    ensures
        user_views(r@) == shown_users(user_views(users@)),
{
    let mut r: Vec<User> = Vec::new();
    let mut i: usize = 0;
    let ghost all = user_views(users@);
    assert(all.take(0) =~= Seq::<UserView>::empty());
    assert(user_views(r@) =~= Seq::<UserView>::empty());
    while i < users.len()
        invariant
            i <= users.len(),
            all == user_views(users@),
            user_views(r@) == shown_users(all.take(i as int)),
        decreases users.len() - i,
    {
        proof {
            assert(all.take(i + 1).drop_last() =~= all.take(i as int));
            assert(all.take(i + 1).last() == users@[i as int]@);
        }
        if !is_placeholder_username(users[i].username.as_str()) {
            let ghost before = user_views(r@);
            r.push(users[i].clone());
            assert(user_views(r@) =~= before.push(users@[i as int]@));
        }
        i = i + 1;
    }
    assert(all.take(users.len() as int) =~= all);
    r
}

} // verus!
