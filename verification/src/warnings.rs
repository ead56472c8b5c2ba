//! Warnings about the room, and playback that starts by itself.
use crate::reconcile::{can_control, current_user_can_control, maybe_show_osd, osd_effects};
use crate::readiness::{
    all_in_room_ready, all_relevant_ready, are_all_relevant_users_in_room_ready,
    are_all_users_in_room_ready, controls_room, current_user_ready_with_file, is_playing_music,
    is_readiness_supported, just_advanced, just_connected, music_override, own_ready_with_file,
    playing_music, readiness_supported, ready_count, ready_user_count, recently_advanced,
    recently_connected, room_count, room_users, seamless_music_override, user_can_control_in_room,
    users_in_room_count,
};
use crate::session::{
    emit, fx, AutoplayState, Effect, EffectView, RoomWarningState, RoomWarningView, Session,
    SessionView, WarningTimerState, WarningTimers,
};
use crate::state::{user_views, User, UserView};
use crate::text::{
    append, clone_opt_text, copy_str, decimal, decimal_chars, from_chars, join, opt_view, text2,
    text3, texts_equal, to_chars,
};
use crate::time::{magnitude, seconds_of, whole_seconds};
use crate::utils::{same_filename, same_filesize, same_name, same_size};
use vstd::prelude::*;

verus! {

/// How many seconds a warning stays over the picture.
pub const OSD_WARNING_MESSAGE_DURATION: u32 = 5;

/// How many seconds pass before playback starts by itself.
pub const AUTOPLAY_DELAY: i32 = 3;

/// The whole seconds nearest to a duration, with its sign.
pub open spec fn signed_seconds(ms: int) -> int {
    if ms < 0 {
        -(whole_seconds(ms) as int)
    } else {
        whole_seconds(ms) as int
    }
}

/// Two durations stand for the same file: rounded to seconds they are less
/// than two and a half seconds apart. Where durations are not looked at,
/// any two do.
pub open spec fn same_length(a: Option<i64>, b: Option<i64>, allow: bool) -> bool {
    !allow || (match (a, b) {
        (Some(x), Some(y)) => magnitude(signed_seconds(x as int) - signed_seconds(y as int)) <= 2,
        _ => false,
    })
}

pub fn same_duration(a: Option<i64>, b: Option<i64>, allow: bool) -> (r: bool)
    ensures
        r == same_length(a, b, allow),
{
    if !allow {
        return true;
    }
    match (a, b) {
        (Some(x), Some(y)) => {
            let sx: i128 = if x < 0 {
                -(seconds_of(x) as i128)
            } else {
                seconds_of(x) as i128
            };
            let sy: i128 = if y < 0 {
                -(seconds_of(y) as i128)
            } else {
                seconds_of(y) as i128
            };
            let d = sx - sy;
            d <= 2 && d >= -2
        },
        _ => false,
    }
}

/// What of a file can differ.
#[derive(Clone, Copy, PartialEq, Eq, Structural)]
pub enum Aspect {
    Name,
    Size,
    Duration,
}

/// A user's file differs from the client's in that aspect.
pub open spec fn differs_in(s: SessionView, user: UserView, aspect: Aspect) -> bool {
    match aspect {
        Aspect::Name => !same_name(s.client.file, user.file),
        Aspect::Size => !same_size(s.client.file_size, user.file_size),
        Aspect::Duration => !same_length(
            s.client.file_duration,
            user.file_duration,
            s.config.show_duration_notification,
        ),
    }
}

/// A user whose file is compared with the client's: another user who may
/// change playback in the room and has a file.
pub open spec fn is_compared(s: SessionView, user: UserView) -> bool {
    user.username != s.client.username && controls_room(s.client, user) && user.file.is_some()
}

/// One of the users is compared and differs in that aspect.
pub open spec fn any_differs(s: SessionView, users: Seq<UserView>, aspect: Aspect) -> bool
    decreases users.len(),
{
    if users.len() == 0 {
        false
    } else {
        any_differs(s, users.drop_last(), aspect) || (is_compared(s, users.last()) && differs_in(
            s,
            users.last(),
            aspect,
        ))
    }
}

/// The names of the aspects, with commas between them.
pub open spec fn aspects_text(name: bool, size: bool, duration: bool) -> Option<Seq<char>> {
    let parts = (if name {
        seq!["name"@]
    } else {
        Seq::empty()
    }) + (if size {
        seq!["size"@]
    } else {
        Seq::empty()
    }) + (if duration {
        seq!["duration"@]
    } else {
        Seq::empty()
    });
    if parts.len() == 0 {
        None
    } else {
        Some(join(parts, ", "@))
    }
}

pub fn aspects_string(name: bool, size: bool, duration: bool) -> (r: Option<String>)
    ensures
        opt_view(r) == aspects_text(name, size, duration),
{
    let mut out: Vec<char> = Vec::new();
    let ghost mut parts: Seq<Seq<char>> = Seq::empty();
    let mut any = false;
    if name {
        append(&mut out, &to_chars("name"));
        any = true;
        proof {
            parts = parts.push("name"@);
            assert(parts.drop_last() =~= Seq::<Seq<char>>::empty());
        }
    }
    assert(out@ == join(parts, ", "@));
    if size {
        let ghost before = parts;
        if any {
            append(&mut out, &to_chars(", "));
        }
        append(&mut out, &to_chars("size"));
        any = true;
        proof {
            parts = parts.push("size"@);
            assert(parts.drop_last() =~= before);
        }
    }
    assert(out@ == join(parts, ", "@));
    if duration {
        let ghost before = parts;
        if any {
            append(&mut out, &to_chars(", "));
        }
        append(&mut out, &to_chars("duration"));
        any = true;
        proof {
            parts = parts.push("duration"@);
            assert(parts.drop_last() =~= before);
        }
    }
    assert(out@ == join(parts, ", "@));
    assert(any == (parts.len() > 0));
    assert(parts =~= (if name {
        seq!["name"@]
    } else {
        Seq::empty()
    }) + (if size {
        seq!["size"@]
    } else {
        Seq::empty()
    }) + (if duration {
        seq!["duration"@]
    } else {
        Seq::empty()
    }));
    if any {
        Some(from_chars(&out))
    } else {
        None
    }
}

/// How the files of the others differ from the client's; nothing where the
/// client has no file or nothing differs.
#[verifier::opaque]
pub open spec fn room_differences(s: SessionView) -> Option<Seq<char>> {
    if s.client.file.is_none() {
        None
    } else {
        aspects_text(
            any_differs(s, room_users(s.client), Aspect::Name),
            any_differs(s, room_users(s.client), Aspect::Size),
            any_differs(s, room_users(s.client), Aspect::Duration),
        )
    }
}

pub fn opt_str(o: &Option<String>) -> (r: Option<&str>)
    ensures
        opt_view(r) == opt_view(*o),
{
    match o {
        Some(s) => Some(s.as_str()),
        None => None,
    }
}

pub fn opt_ref<T>(o: &Option<T>) -> (r: Option<&T>)
    ensures
        match (r, *o) {
            (Some(a), Some(b)) => *a == b,
            (None, None) => true,
            _ => false,
        },
{
    match o {
        Some(s) => Some(s),
        None => None,
    }
}

fn compare_files(state: &Session, users: &Vec<User>) -> (r: (bool, bool, bool))
    ensures
        r.0 == any_differs(state@, user_views(users@), Aspect::Name),
        r.1 == any_differs(state@, user_views(users@), Aspect::Size),
        r.2 == any_differs(state@, user_views(users@), Aspect::Duration),
{
    let current_file = state.client_state.get_file();
    let current_size = state.client_state.get_file_size();
    let current_duration = state.client_state.get_file_duration();
    let username = state.client_state.get_username();
    let ghost s = state@;
    let ghost us = user_views(users@);
    let mut diff_name = false;
    let mut diff_size = false;
    let mut diff_duration = false;
    let mut i: usize = 0;
    assert(us.take(0) =~= Seq::<UserView>::empty());
    while i < users.len()
        invariant
            i <= users.len(),
            s == state@,
            us == user_views(users@),
            opt_view(current_file) == s.client.file,
            opt_view(current_size) == s.client.file_size,
            current_duration == s.client.file_duration,
            username@ == s.client.username,
            diff_name == any_differs(s, us.take(i as int), Aspect::Name),
            diff_size == any_differs(s, us.take(i as int), Aspect::Size),
            diff_duration == any_differs(s, us.take(i as int), Aspect::Duration),
        decreases users.len() - i,
    {
        proof {
            assert(us.take(i + 1).drop_last() =~= us.take(i as int));
            assert(us.take(i + 1).last() == users@[i as int]@);
        }
        let user = &users[i];
        if !texts_equal(&user.username, username.as_str()) && user_can_control_in_room(state, user)
            && user.file.is_some() {
            if !same_filename(opt_str(&current_file), opt_str(&user.file)) {
                diff_name = true;
            }
            if !same_filesize(opt_ref(&current_size), opt_ref(&user.file_size)) {
                diff_size = true;
            }
            if !same_duration(
                current_duration,
                user.file_duration,
                state.config.show_duration_notification,
            ) {
                diff_duration = true;
            }
        }
        i = i + 1;
    }
    assert(us.take(users.len() as int) =~= us);
    (diff_name, diff_size, diff_duration)
}

/// The names of the other users who say that they are not ready.
pub open spec fn unready_names(users: Seq<UserView>, me: Seq<char>) -> Seq<Seq<char>>
    decreases users.len(),
{
    if users.len() == 0 {
        Seq::empty()
    } else if users.last().username != me && users.last().ready_with_file() == Some(false) {
        unready_names(users.drop_last(), me).push(users.last().username)
    } else {
        unready_names(users.drop_last(), me)
    }
}

/// Whether one of the users is not the client.
pub open spec fn has_others(users: Seq<UserView>, me: Seq<char>) -> bool
    decreases users.len(),
{
    if users.len() == 0 {
        false
    } else {
        has_others(users.drop_last(), me) || users.last().username != me
    }
}

/// The client is by itself in the room, and not only because it has just
/// connected.
pub open spec fn is_alone(s: SessionView, now: u64) -> bool {
    !has_others(room_users(s.client), s.client.username) && !just_connected(s, now)
}

/// Who is not ready: the client where it is not ready with a file, and the
/// others who say that they are not.
pub open spec fn not_ready_names(s: SessionView) -> Seq<Seq<char>> {
    (if own_ready_with_file(s.client) != Some(true) {
        seq![s.client.username]
    } else {
        Seq::empty()
    }) + unready_names(room_users(s.client), s.client.username)
}

/// The warning that names who is not ready; none for a client that is alone,
/// where readiness is not told, or where everybody who counts is ready.
#[verifier::opaque]
pub open spec fn not_ready_warning(s: SessionView, now: u64) -> Option<Seq<char>> {
    if is_alone(s, now) || !readiness_supported(s, true) || all_relevant_ready(s.client, false)
        || not_ready_names(s).len() == 0 {
        None
    } else {
        Some("Not ready: "@ + join(not_ready_names(s), ", "@))
    }
}

/// What there is to warn of in the room.
pub open spec fn room_warnings(s: SessionView, now: u64) -> RoomWarningView {
    RoomWarningView {
        alone: is_alone(s, now),
        file_differences: room_differences(s),
        not_ready: not_ready_warning(s, now),
    }
}

fn others_present(users: &Vec<User>, me: &str) -> (r: bool)
    ensures
        r == has_others(user_views(users@), me@),
{
    let ghost us = user_views(users@);
    let mut found = false;
    let mut i: usize = 0;
    assert(us.take(0) =~= Seq::<UserView>::empty());
    while i < users.len()
        invariant
            i <= users.len(),
            us == user_views(users@),
            found == has_others(us.take(i as int), me@),
        decreases users.len() - i,
    {
        proof {
            assert(us.take(i + 1).drop_last() =~= us.take(i as int));
            assert(us.take(i + 1).last() == users@[i as int]@);
        }
        if !texts_equal(&users[i].username, me) {
            found = true;
        }
        i = i + 1;
    }
    assert(us.take(users.len() as int) =~= us);
    found
}

fn not_ready_text(state: &Session, users: &Vec<User>) -> (r: (Vec<char>, bool))
    requires
        user_views(users@) == room_users(state@.client),
    ensures
        r.0@ == join(not_ready_names(state@), ", "@),
        r.1 == (not_ready_names(state@).len() > 0),
{
    let me = state.client_state.get_username();
    let ghost us = user_views(users@);
    let ghost mut names: Seq<Seq<char>> = Seq::empty();
    let mut out: Vec<char> = Vec::new();
    let mut any = false;
    match current_user_ready_with_file(state) {
        Some(true) => {},
        _ => {
            append(&mut out, &to_chars(me.as_str()));
            any = true;
            proof {
                names = names.push(me@);
                assert(names.drop_last() =~= Seq::<Seq<char>>::empty());
            }
        },
    }
    let ghost head = names;
    let mut i: usize = 0;
    assert(us.take(0) =~= Seq::<UserView>::empty());
    assert(names =~= head + unready_names(us.take(0), me@));
    while i < users.len()
        invariant
            i <= users.len(),
            us == user_views(users@),
            names == head + unready_names(us.take(i as int), me@),
            out@ == join(names, ", "@),
            any == (names.len() > 0),
        decreases users.len() - i,
    {
        proof {
            assert(us.take(i + 1).drop_last() =~= us.take(i as int));
            assert(us.take(i + 1).last() == users@[i as int]@);
        }
        let user = &users[i];
        let unready = match user.is_ready_with_file() {
            Some(ready) => !ready,
            None => false,
        };
        if !texts_equal(&user.username, me.as_str()) && unready {
            let ghost before = names;
            if any {
                append(&mut out, &to_chars(", "));
            }
            append(&mut out, &to_chars(user.username.as_str()));
            any = true;
            proof {
                names = names.push(user.username@);
                assert(names.drop_last() =~= before);
                assert(names =~= head + unready_names(us.take(i + 1), me@));
            }
        }
        i = i + 1;
    }
    assert(us.take(users.len() as int) =~= us);
    assert(names == not_ready_names(state@));
    (out, any)
}

/// Looks at the room: whether the client is alone, how the files differ, and
/// who is not ready.
pub fn compute_room_warning_state(state: &Session, now: u64) -> (r: RoomWarningState)
    ensures
        r@ == room_warnings(state@, now),
{
    proof {
        reveal(room_differences);
        reveal(not_ready_warning);
    }
    let room = state.client_state.get_room();
    let me = state.client_state.get_username();
    let users = state.client_state.get_users_in_room(room.as_str());
    let alone = !others_present(&users, me.as_str()) && !recently_connected(state, now);
    let file_differences = if state.client_state.get_file().is_some() {
        let (n, s, d) = compare_files(state, &users);
        aspects_string(n, s, d)
    } else {
        None
    };
    let not_ready = if alone || !is_readiness_supported(state, true)
        || are_all_relevant_users_in_room_ready(state, false) {
        None
    } else {
        let (names, any) = not_ready_text(state, &users);
        if !any {
            None
        } else {
            let mut text = to_chars("Not ready: ");
            append(&mut text, &names);
            Some(from_chars(&text))
        }
    };
    RoomWarningState { alone, file_differences, not_ready }
}

/// A warning's timer after it was seen whether there is reason for the
/// warning: it starts anew when the reason appears and stops when it goes.
pub open spec fn timer_seen(timer: WarningTimerState, active: bool) -> WarningTimerState {
    if active {
        if timer.active {
            timer
        } else {
            WarningTimerState { active: true, displayed_for: 0 }
        }
    } else {
        WarningTimerState { active: false, displayed_for: 0 }
    }
}

pub fn update_warning_timer_state(timer: &mut WarningTimerState, active: bool)
    ensures
        *final(timer) == timer_seen(*old(timer), active),
{
    if active {
        if !timer.active {
            timer.active = true;
            timer.displayed_for = 0;
        }
    } else {
        timer.active = false;
        timer.displayed_for = 0;
    }
}

/// Whether a second of a warning is shown now.
pub open spec fn timer_shows(timer: WarningTimerState) -> bool {
    timer.active && timer.displayed_for < OSD_WARNING_MESSAGE_DURATION
}

/// A warning's timer after a second: one second more shown, or stopped once
/// the warning has been shown long enough.
pub open spec fn timer_ticked(timer: WarningTimerState) -> WarningTimerState {
    if !timer.active {
        timer
    } else if timer.displayed_for >= OSD_WARNING_MESSAGE_DURATION {
        WarningTimerState { active: false, displayed_for: 0 }
    } else {
        WarningTimerState { active: true, displayed_for: (timer.displayed_for + 1) as u32 }
    }
}

pub fn tick_warning_timer(timer: &mut WarningTimerState) -> (r: bool)
    ensures
        r == timer_shows(*old(timer)),
        *final(timer) == timer_ticked(*old(timer)),
{
    if !timer.active {
        return false;
    }
    if timer.displayed_for >= OSD_WARNING_MESSAGE_DURATION {
        timer.displayed_for = 0;
        timer.active = false;
        return false;
    }
    timer.displayed_for = timer.displayed_for + 1;
    true
}

/// Whether the player is paused as far as the client has seen; paused where
/// it has not seen the player.
pub open spec fn seen_paused(s: SessionView) -> bool {
    match (s.local.position, s.local.paused) {
        (Some(_), Some(p)) => p,
        _ => true,
    }
}

/// The warning about who is not ready starts anew while there is reason to
/// wait: the player is paused, or somebody who counts is not ready.
pub open spec fn not_ready_timer_resets(s: SessionView, warnings: RoomWarningView) -> bool {
    !warnings.alone && readiness_supported(s, true) && (seen_paused(s) || own_ready_with_file(
        s.client,
    ) != Some(true) || !all_relevant_ready(s.client, false))
}

pub fn should_reset_not_ready_timer(state: &Session, warnings: &RoomWarningState) -> (r: bool)
    ensures
        r == not_ready_timer_resets(state@, warnings@),
{
    if warnings.alone || !is_readiness_supported(state, true) {
        return false;
    }
    let player_paused = match (
        state.local_playback_state.position,
        state.local_playback_state.paused,
    ) {
        (Some(_), Some(p)) => p,
        _ => true,
    };
    let current_ready = match current_user_ready_with_file(state) {
        Some(ready) => ready,
        None => false,
    };
    let all_relevant_ready = are_all_relevant_users_in_room_ready(state, false);
    player_paused || !current_ready || !all_relevant_ready
}

pub open spec fn alone_text() -> Seq<char> {
    "You are currently by yourself in the room"@
}

/// What the warning says about readiness.
pub open spec fn ready_text(s: SessionView, warnings: RoomWarningView) -> Option<Seq<char>> {
    if !readiness_supported(s, true) {
        None
    } else if all_in_room_ready(s.client, false) {
        Some("Everyone is ready ("@ + decimal(ready_shown(s)) + " users)"@)
    } else {
        warnings.not_ready
    }
}

/// The number of ready users as it is shown.
pub open spec fn ready_shown(s: SessionView) -> nat {
    if ready_count(s.client) > usize::MAX {
        usize::MAX as nat
    } else {
        ready_count(s.client)
    }
}

/// The text of the warning over the picture: that the client is alone, or
/// how the files differ and, for a client that controls the room, who is
/// not ready, or only the latter. There is none where no texts are shown,
/// there is no player, or playback is about to start by itself.
#[verifier::opaque]
pub open spec fn warning_text(s: SessionView, warnings: RoomWarningView) -> Option<Seq<char>> {
    if !s.config.show_osd || s.player_kind.is_none() || s.autoplay.countdown_active {
        None
    } else if warnings.alone {
        Some(alone_text())
    } else {
        match warnings.file_differences {
            Some(d) => match ready_text(s, warnings) {
                Some(r) => if can_control(s.client) && readiness_supported(s, true) {
                    Some("File differences: "@ + d + "; "@ + r)
                } else {
                    Some("File differences: "@ + d)
                },
                None => Some("File differences: "@ + d),
            },
            None => ready_text(s, warnings),
        }
    }
}

fn ready_message(state: &Session, warnings: &RoomWarningState) -> (r: Option<String>)
    ensures
        opt_view(r) == ready_text(state@, warnings@),
{
    if !is_readiness_supported(state, true) {
        return None;
    }
    if are_all_users_in_room_ready(state, false) {
        let n = ready_user_count(state);
        let digits = from_chars(&decimal_chars(n as u64));
        return Some(text3("Everyone is ready (", digits.as_str(), " users)"));
    }
    clone_opt_text(&warnings.not_ready)
}

pub fn build_room_warning_message(state: &Session, warnings: &RoomWarningState) -> (r: Option<
    String,
>)
    ensures
        opt_view(r) == warning_text(state@, warnings@),
{
    proof {
        reveal(warning_text);
    }
    if !state.config.show_osd {
        return None;
    }
    if state.player_kind.is_none() {
        return None;
    }
    if state.autoplay.countdown_active {
        return None;
    }
    if warnings.alone {
        return Some(copy_str("You are currently by yourself in the room"));
    }
    let ready = ready_message(state, warnings);
    match &warnings.file_differences {
        Some(d) => {
            let file_diff_message = text2("File differences: ", d.as_str());
            if current_user_can_control(state) && is_readiness_supported(state, true) {
                match ready {
                    Some(r) => {
                        return Some(text3(file_diff_message.as_str(), "; ", r.as_str()));
                    },
                    None => {},
                }
            }
            Some(file_diff_message)
        },
        None => ready,
    }
}

/// The warning over the picture, where there is one to show.
pub open spec fn warning_osd(s: SessionView, warnings: RoomWarningView) -> Seq<EffectView> {
    match warning_text(s, warnings) {
        Some(t) => osd_effects(s, t, true),
        None => Seq::empty(),
    }
}

pub fn show_room_warning_osd(state: &Session, warnings: &RoomWarningState, effects: &mut Vec<Effect>)
    ensures
        fx(*final(effects)) == fx(*old(effects)) + warning_osd(state@, warnings@),
{
    match build_room_warning_message(state, warnings) {
        Some(message) => {
            maybe_show_osd(state, message.as_str(), true, effects);
        },
        None => {
            assert(fx(*effects) =~= fx(*old(effects)) + Seq::empty());
        },
    }
}

/// Music that has just moved on to its next item goes on playing.
pub open spec fn music_effects(s: SessionView, now: u64) -> Seq<EffectView> {
    if music_override(s, now) {
        seq![EffectView::SetPaused(false)]
    } else {
        Seq::empty()
    }
}

/// Whether the player is known to be playing.
pub open spec fn player_plays(s: SessionView) -> bool {
    s.player_kind.is_some() && s.player_state.paused == Some(false)
}

/// Playback may start by itself: no music is playing, it is wanted or the
/// playlist has just moved on, the client controls the room, readiness is
/// told, everybody in the room is ready (with the same file where that is
/// asked for), there are users enough, and the player is not playing.
#[verifier::opaque]
pub open spec fn autoplay_ready(s: SessionView, now: u64) -> bool {
    &&& !playing_music(s.client)
    &&& (s.config.autoplay_enabled || just_advanced(s, now))
    &&& can_control(s.client)
    &&& readiness_supported(s, true)
    &&& all_in_room_ready(s.client, s.config.autoplay_require_same_filenames)
    &&& (s.config.autoplay_min_users <= 0 || room_count(s.client) >= s.config.autoplay_min_users
        || just_advanced(s, now))
    &&& !player_plays(s)
}

pub fn autoplay_conditions_met(state: &Session, now: u64, effects: &mut Vec<Effect>) -> (r: bool)
    ensures
        r == autoplay_ready(state@, now),
        fx(*final(effects)) == fx(*old(effects)) + music_effects(state@, now),
{
    proof {
        reveal(autoplay_ready);
    }
    if seamless_music_override(state, now) {
        emit(effects, Effect::SetPaused(false));
        assert(fx(*effects) =~= fx(*old(effects)) + music_effects(state@, now));
    } else {
        assert(fx(*effects) =~= fx(*old(effects)) + music_effects(state@, now));
    }
    if is_playing_music(state) {
        return false;
    }
    let recent = recently_advanced(state, now);
    if !state.config.autoplay_enabled && !recent {
        return false;
    }
    if !current_user_can_control(state) {
        return false;
    }
    if !is_readiness_supported(state, true) {
        return false;
    }
    if !are_all_users_in_room_ready(state, state.config.autoplay_require_same_filenames) {
        return false;
    }
    if state.config.autoplay_min_users > 0 {
        let count = users_in_room_count(state);
        if (count as u64) < (state.config.autoplay_min_users as u64) && !recent {
            return false;
        }
    }
    if state.player_kind.is_some() {
        match state.player_state.paused {
            Some(p) => {
                if !p {
                    return false;
                }
            },
            None => {},
        }
    }
    true
}

/// The countdown once it was seen whether playback may start by itself: it
/// begins with three seconds where it may and does not run yet, and it is
/// given up where it may not.
pub open spec fn autoplay_evaluated(a: AutoplayState, ready: bool) -> AutoplayState {
    if ready {
        if a.countdown_active {
            a
        } else {
            AutoplayState { countdown_active: true, countdown_remaining: AUTOPLAY_DELAY, ..a }
        }
    } else {
        AutoplayState { countdown_active: false, countdown_remaining: 0, ..a }
    }
}

pub open spec fn countdown_effects(a: AutoplayState, ready: bool) -> Seq<EffectView> {
    if ready && !a.countdown_active {
        seq![EffectView::StartAutoplayCountdown]
    } else {
        Seq::empty()
    }
}

fn evaluated(a: AutoplayState, ready: bool) -> (r: AutoplayState)
    ensures
        r == autoplay_evaluated(a, ready),
{
    if ready {
        if a.countdown_active {
            a
        } else {
            AutoplayState { countdown_active: true, countdown_remaining: AUTOPLAY_DELAY, ..a }
        }
    } else {
        AutoplayState { countdown_active: false, countdown_remaining: 0, ..a }
    }
}

fn emit_countdown(a: AutoplayState, ready: bool, effects: &mut Vec<Effect>)
    ensures
        fx(*final(effects)) == fx(*old(effects)) + countdown_effects(a, ready),
{
    if ready && !a.countdown_active {
        emit(effects, Effect::StartAutoplayCountdown);
        assert(fx(*effects) =~= fx(*old(effects)) + countdown_effects(a, ready));
    } else {
        assert(fx(*effects) =~= fx(*old(effects)) + countdown_effects(a, ready));
    }
}

/// Starts the countdown to playback where everything is ready for it, and
/// gives it up where not.
#[verifier::rlimit(40)]
pub fn evaluate_autoplay(state: &mut Session, now: u64, effects: &mut Vec<Effect>)
    ensures
        final(state)@ == (SessionView {
            autoplay: autoplay_evaluated(old(state)@.autoplay, autoplay_ready(old(state)@, now)),
            ..old(state)@
        }),
        final(state).wf() == old(state).wf(),
        fx(*final(effects)) == fx(*old(effects)) + music_effects(old(state)@, now)
            + countdown_effects(old(state)@.autoplay, autoplay_ready(old(state)@, now)),
{
    let ready = autoplay_conditions_met(state, now, effects);
    emit_countdown(state.autoplay, ready, effects);
    assert(fx(*effects) == fx(*old(effects)) + music_effects(old(state)@, now) + countdown_effects(
        old(state)@.autoplay,
        autoplay_ready(old(state)@, now),
    ));
    state.autoplay = evaluated(state.autoplay, ready);
    assert(state@ == (SessionView {
        autoplay: autoplay_evaluated(old(state)@.autoplay, autoplay_ready(old(state)@, now)),
        ..old(state)@
    }));
}

/// What a second of the countdown comes to.
#[derive(Clone, Copy, Debug, PartialEq, Eq, Structural)]
pub enum CountdownStep {
    /// The countdown is over or was given up.
    Stop,
    /// The countdown goes on.
    Wait,
    /// Playback starts.
    Play,
}

pub open spec fn countdown_step(a: AutoplayState, ready: bool) -> CountdownStep {
    if !a.countdown_active || !ready {
        CountdownStep::Stop
    } else if a.countdown_remaining <= 0 {
        CountdownStep::Play
    } else {
        CountdownStep::Wait
    }
}

pub open spec fn countdown_ticked(a: AutoplayState, ready: bool) -> AutoplayState {
    if !a.countdown_active {
        a
    } else if !ready {
        AutoplayState { countdown_active: false, countdown_remaining: 0, ..a }
    } else if a.countdown_remaining <= 0 {
        AutoplayState { countdown_active: false, ..a }
    } else {
        AutoplayState { countdown_remaining: (a.countdown_remaining - 1) as i32, ..a }
    }
}

pub open spec fn countdown_text(s: SessionView, remaining: int) -> Seq<char> {
    "All users ready ("@ + decimal(ready_shown(s)) + ") - autoplaying in "@ + decimal(
        remaining as nat,
    ) + "s"@
}

/// What a second of the countdown asks for: the seconds that are left over
/// the picture, or the start of playback.
pub open spec fn countdown_tick_effects(s: SessionView, now: u64) -> Seq<EffectView> {
    if !s.autoplay.countdown_active {
        Seq::empty()
    } else {
        music_effects(s, now) + (match countdown_step(s.autoplay, autoplay_ready(s, now)) {
            CountdownStep::Stop => Seq::empty(),
            CountdownStep::Play => seq![EffectView::SetPaused(false)],
            CountdownStep::Wait => if s.player_kind.is_some() {
                seq![
                    EffectView::ShowOsd {
                        text: countdown_text(s, s.autoplay.countdown_remaining - 1),
                        duration_ms: Some(1000),
                    },
                ]
            } else {
                Seq::empty()
            },
        })
    }
}

fn ticked(a: AutoplayState, ready: bool) -> (r: (AutoplayState, CountdownStep))
    ensures
        r.0 == countdown_ticked(a, ready),
        r.1 == (if a.countdown_active {
            countdown_step(a, ready)
        } else {
            CountdownStep::Stop
        }),
{
    if !a.countdown_active {
        (a, CountdownStep::Stop)
    } else if !ready {
        (AutoplayState { countdown_active: false, countdown_remaining: 0, ..a }, CountdownStep::Stop)
    } else if a.countdown_remaining <= 0 {
        (AutoplayState { countdown_active: false, ..a }, CountdownStep::Play)
    } else {
        (
            AutoplayState { countdown_remaining: a.countdown_remaining - 1, ..a },
            CountdownStep::Wait,
        )
    }
}

fn emit_countdown_tick(state: &Session, ready: bool, now: u64, effects: &mut Vec<Effect>)
    requires
        state@.autoplay.countdown_active,
        ready == autoplay_ready(state@, now),
    ensures
        fx(*final(effects)) == fx(*old(effects)) + (match countdown_step(state@.autoplay, ready) {
            CountdownStep::Stop => Seq::empty(),
            CountdownStep::Play => seq![EffectView::SetPaused(false)],
            CountdownStep::Wait => if state@.player_kind.is_some() {
                seq![
                    EffectView::ShowOsd {
                        text: countdown_text(state@, state@.autoplay.countdown_remaining - 1),
                        duration_ms: Some(1000),
                    },
                ]
            } else {
                Seq::empty()
            },
        }),
{
    if !ready {
        assert(fx(*effects) =~= fx(*old(effects)) + Seq::empty());
        return ;
    }
    if state.autoplay.countdown_remaining <= 0 {
        emit(effects, Effect::SetPaused(false));
        assert(fx(*effects) =~= fx(*old(effects)) + seq![EffectView::SetPaused(false)]);
        return ;
    }
    let remaining = state.autoplay.countdown_remaining - 1;
    if state.player_kind.is_some() {
        let count = from_chars(&decimal_chars(ready_user_count(state) as u64));
        let left = from_chars(&decimal_chars(remaining as u64));
        let message = crate::text::text5(
            "All users ready (",
            count.as_str(),
            ") - autoplaying in ",
            left.as_str(),
            "s",
        );
        emit(effects, Effect::ShowOsd { text: message, duration_ms: Some(1000) });
        assert(fx(*effects) =~= fx(*old(effects)) + seq![
            EffectView::ShowOsd {
                text: countdown_text(state@, remaining as int),
                duration_ms: Some(1000),
            },
        ]);
    } else {
        assert(fx(*effects) =~= fx(*old(effects)) + Seq::empty());
    }
}

fn countdown_tick_emit(state: &Session, now: u64, effects: &mut Vec<Effect>) -> (ready: bool)
    ensures
        state@.autoplay.countdown_active ==> ready == autoplay_ready(state@, now),
        fx(*final(effects)) == fx(*old(effects)) + countdown_tick_effects(state@, now),
{
    if !state.autoplay.countdown_active {
        assert(fx(*effects) =~= fx(*old(effects)) + Seq::empty());
        return false;
    }
    let ready = autoplay_conditions_met(state, now, effects);
    emit_countdown_tick(state, ready, now, effects);
    assert(fx(*effects) =~= fx(*old(effects)) + countdown_tick_effects(state@, now));
    ready
}

/// One second of the countdown to playback. Tells whether the countdown
/// goes on.
pub fn autoplay_tick(state: &mut Session, now: u64, effects: &mut Vec<Effect>) -> (r: CountdownStep)
    ensures
        r == (if old(state)@.autoplay.countdown_active {
            countdown_step(old(state)@.autoplay, autoplay_ready(old(state)@, now))
        } else {
            CountdownStep::Stop
        }),
        final(state)@ == (SessionView {
            autoplay: countdown_ticked(old(state)@.autoplay, autoplay_ready(old(state)@, now)),
            ..old(state)@
        }),
        final(state).wf() == old(state).wf(),
        fx(*final(effects)) == fx(*old(effects)) + countdown_tick_effects(old(state)@, now),
{
    let ready = countdown_tick_emit(state, now, effects);
    let (a, step) = ticked(state.autoplay, ready);
    state.autoplay = a;
    step
}

/// Takes the settings of automatic playback from the preferences.
pub fn update_autoplay_state(state: &mut Session)
    ensures
        final(state)@ == (SessionView {
            autoplay: AutoplayState {
                enabled: old(state)@.config.autoplay_enabled,
                min_users: old(state)@.config.autoplay_min_users,
                require_same_filenames: old(state)@.config.autoplay_require_same_filenames,
                unpause_action: old(state)@.config.unpause_action,
                countdown_active: old(state)@.config.autoplay_enabled
                    && old(state)@.autoplay.countdown_active,
                countdown_remaining: if old(state)@.config.autoplay_enabled {
                    old(state)@.autoplay.countdown_remaining
                } else {
                    0
                },
            },
            ..old(state)@
        }),
        final(state).wf() == old(state).wf(),
{
    let mut a = state.autoplay;
    a.enabled = state.config.autoplay_enabled;
    a.min_users = state.config.autoplay_min_users;
    a.require_same_filenames = state.config.autoplay_require_same_filenames;
    a.unpause_action = state.config.unpause_action;
    if !a.enabled {
        a.countdown_active = false;
        a.countdown_remaining = 0;
    }
    state.autoplay = a;
}

/// The timers once the warnings of the moment are known.
#[verifier::opaque]
pub open spec fn timers_seen(s: SessionView, w: RoomWarningView) -> WarningTimers {
    let not_ready = timer_seen(s.warning_timers.not_ready, w.not_ready.is_some());
    WarningTimers {
        alone: timer_seen(s.warning_timers.alone, w.alone),
        file_differences: timer_seen(
            s.warning_timers.file_differences,
            w.file_differences.is_some(),
        ),
        not_ready: if not_ready_timer_resets(s, w) {
            WarningTimerState { displayed_for: 0, ..not_ready }
        } else {
            not_ready
        },
    }
}

pub open spec fn timers_ticked(t: WarningTimers) -> WarningTimers {
    WarningTimers {
        alone: timer_ticked(t.alone),
        file_differences: timer_ticked(t.file_differences),
        not_ready: timer_ticked(t.not_ready),
    }
}

/// Whether warnings are shown over the picture.
pub open spec fn warnings_on_osd(s: SessionView) -> bool {
    s.config.show_osd && s.config.show_osd_warnings
}

/// The timers after a look at the room.
pub open spec fn timers_after(s: SessionView, w: RoomWarningView, osd_only: bool) -> WarningTimers {
    if warnings_on_osd(s) && osd_only {
        timers_ticked(timers_seen(s, w))
    } else {
        timers_seen(s, w)
    }
}

pub open spec fn shown_if(shown: bool, osd: Seq<EffectView>) -> Seq<EffectView> {
    if shown {
        osd
    } else {
        Seq::empty()
    }
}

/// What a look at the room asks for, once the warnings of the moment are
/// known: the news that the client is alone, and the warning over the
/// picture: once for each timer that shows on a tick of the clock, else
/// once where there is something to warn of or the last warning about
/// readiness has gone.
#[verifier::opaque]
pub open spec fn warning_effects(s: SessionView, w: RoomWarningView, osd_only: bool) -> Seq<
    EffectView,
> {
    let t = timers_seen(s, w);
    shown_if(!osd_only && w.alone && !s.warnings.alone, seq![EffectView::SystemMessage(alone_text())])
        + (if !warnings_on_osd(s) {
        Seq::empty()
    } else if osd_only {
        shown_if(timer_shows(t.alone), warning_osd(s, w)) + shown_if(
            timer_shows(t.file_differences),
            warning_osd(s, w),
        ) + shown_if(timer_shows(t.not_ready), warning_osd(s, w))
    } else {
        shown_if(
            w.alone || w.file_differences.is_some() || w.not_ready.is_some() || (
            s.warnings.not_ready.is_some() && w.not_ready.is_none()),
            warning_osd(s, w),
        )
    })
}

/// The warnings that are remembered after a look at the room: those of the
/// moment, but those from before while playback is about to start by itself.
pub open spec fn warnings_kept(s: SessionView, now: u64) -> RoomWarningView {
    if autoplay_ready(s, now) {
        s.warnings
    } else {
        room_warnings(s, now)
    }
}

/// The timers after a look at the room; unchanged while playback is about
/// to start by itself.
pub open spec fn timers_kept(s: SessionView, osd_only: bool, now: u64) -> WarningTimers {
    if autoplay_ready(s, now) {
        s.warning_timers
    } else {
        timers_after(s, room_warnings(s, now), osd_only)
    }
}

/// The session after a look at the room.
pub open spec fn warnings_updated(s: SessionView, osd_only: bool, now: u64) -> SessionView {
    SessionView {
        warnings: warnings_kept(s, now),
        warning_timers: timers_kept(s, osd_only, now),
        ..s
    }
}

/// What a look at the room asks for.
pub open spec fn update_warning_effects(s: SessionView, osd_only: bool, now: u64) -> Seq<
    EffectView,
> {
    music_effects(s, now) + (if autoplay_ready(s, now) {
        Seq::empty()
    } else {
        warning_effects(s, room_warnings(s, now), osd_only)
    })
}

fn seen_timers(state: &Session, w: &RoomWarningState) -> (r: WarningTimers)
    ensures
        r == timers_seen(state@, w@),
{
    proof {
        reveal(timers_seen);
    }
    let mut t = state.warning_timers;
    update_warning_timer_state(&mut t.alone, w.alone);
    update_warning_timer_state(&mut t.file_differences, w.file_differences.is_some());
    update_warning_timer_state(&mut t.not_ready, w.not_ready.is_some());
    if should_reset_not_ready_timer(state, w) {
        t.not_ready.displayed_for = 0;
    }
    t
}

fn show_if(shown: bool, state: &Session, w: &RoomWarningState, effects: &mut Vec<Effect>)
    ensures
        fx(*final(effects)) == fx(*old(effects)) + shown_if(shown, warning_osd(state@, w@)),
{
    if shown {
        show_room_warning_osd(state, w, effects);
    } else {
        assert(fx(*effects) =~= fx(*old(effects)) + Seq::empty());
    }
}

fn warn(state: &Session, w: &RoomWarningState, osd_only: bool, effects: &mut Vec<Effect>) -> (r:
    WarningTimers)
    ensures
        r == timers_after(state@, w@, osd_only),
        fx(*final(effects)) == fx(*old(effects)) + warning_effects(state@, w@, osd_only),
{
    proof {
        reveal(warning_effects);
    }
    let ghost e0 = fx(*effects);
    if !osd_only && w.alone && !state.room_warning_state.alone {
        emit(effects, Effect::SystemMessage(copy_str("You are currently by yourself in the room")));
    }
    let ghost e1 = fx(*effects);
    assert(e1 =~= e0 + shown_if(
        !osd_only && w.alone && !state@.warnings.alone,
        seq![EffectView::SystemMessage(alone_text())],
    ));
    let was_not_ready = state.room_warning_state.not_ready.is_some();
    let mut t = seen_timers(state, w);
    if state.config.show_osd && state.config.show_osd_warnings {
        if osd_only {
            let a = tick_warning_timer(&mut t.alone);
            show_if(a, state, w, effects);
            let b = tick_warning_timer(&mut t.file_differences);
            show_if(b, state, w, effects);
            let c = tick_warning_timer(&mut t.not_ready);
            show_if(c, state, w, effects);
        } else {
            show_if(
                w.alone || w.file_differences.is_some() || w.not_ready.is_some() || (was_not_ready
                    && w.not_ready.is_none()),
                state,
                w,
                effects,
            );
        }
    }
    assert(fx(*effects) =~= e0 + warning_effects(state@, w@, osd_only));
    t
}

fn clone_warnings(w: &RoomWarningState) -> (r: RoomWarningState)
    ensures
        r@ == w@,
{
    RoomWarningState {
        alone: w.alone,
        file_differences: clone_opt_text(&w.file_differences),
        not_ready: clone_opt_text(&w.not_ready),
    }
}

fn look_at_room(state: &Session, osd_only: bool, now: u64, effects: &mut Vec<Effect>) -> (r: (
    RoomWarningState,
    WarningTimers,
))
    ensures
        r.0@ == warnings_kept(state@, now),
        r.1 == timers_kept(state@, osd_only, now),
        fx(*final(effects)) == fx(*old(effects)) + update_warning_effects(state@, osd_only, now),
{
    if autoplay_conditions_met(state, now, effects) {
        assert(fx(*effects) =~= fx(*old(effects)) + update_warning_effects(state@, osd_only, now));
        return (clone_warnings(&state.room_warning_state), state.warning_timers);
    }
    let w = compute_room_warning_state(state, now);
    let t = warn(state, &w, osd_only, effects);
    assert(fx(*effects) =~= fx(*old(effects)) + update_warning_effects(state@, osd_only, now));
    (w, t)
}

/// Looks at the room and warns of what it finds: on a change of the room
/// (`osd_only` unset) or on a tick of the clock (`osd_only` set).
pub fn update_room_warnings(state: &mut Session, osd_only: bool, now: u64, effects: &mut Vec<Effect>)
    ensures
        final(state)@ == warnings_updated(old(state)@, osd_only, now),
        final(state).wf() == old(state).wf(),
        fx(*final(effects)) == fx(*old(effects)) + update_warning_effects(
            old(state)@,
            osd_only,
            now,
        ),
{
    let (w, t) = look_at_room(state, osd_only, now, effects);
    state.room_warning_state = w;
    state.warning_timers = t;
}

} // verus!
