//! Managed rooms: the passwords that operate them, and who is an operator.
use crate::messages::{
    ClientMessage, ClientMessageView, ControllerAuth, ControllerAuthView, NewControlledRoom,
    NewControlledRoomView,
};
use crate::reconcile::{notice, notice_effects};
use crate::session::{
    emit, fx, password_of, password_rooms, password_views, Effect, EffectView, RoomPassword,
    RoomPasswordView, Session, SessionView,
};
use crate::state::{user_named, with_user, ClientStateView, User, UserView};
use crate::text::{
    clone_opt_text, clone_texts, copy_str, first_index_of, index_from, index_of_text, opt_view,
    text2, text3, text5, texts_equal,
};
use crate::utils::{
    control_password, is_controlled_room, is_controlled_room_name, strip_control_password,
};
use vstd::prelude::*;

verus! {

/// The passwords with the one for `room` set.
pub open spec fn with_password(
    list: Seq<RoomPasswordView>,
    room: Seq<char>,
    password: Seq<char>,
) -> Seq<RoomPasswordView> {
    let i = first_index_of(password_rooms(list), room);
    if i >= 0 {
        list.update(i, RoomPasswordView { room, password })
    } else {
        list.push(RoomPasswordView { room, password })
    }
}

fn find_password(list: &Vec<RoomPassword>, room: &str) -> (r: Option<usize>)
    ensures
        match r {
            Some(i) => first_index_of(password_rooms(password_views(list@)), room@) == i && i
                < list@.len(),
            None => first_index_of(password_rooms(password_views(list@)), room@) == -1,
        },
{
    let ghost rooms = password_rooms(password_views(list@));
    let mut i: usize = 0;
    while i < list.len()
        invariant
            i <= list.len(),
            rooms == password_rooms(password_views(list@)),
            first_index_of(rooms, room@) == index_from(rooms, room@, i as int),
        decreases list.len() - i,
    {
        assert(rooms[i as int] == list@[i as int].room@);
        if texts_equal(&list[i].room, room) {
            return Some(i);
        }
        i = i + 1;
    }
    None
}

fn clone_passwords(list: &Vec<RoomPassword>) -> (r: Vec<RoomPassword>)
    ensures
        password_views(r@) == password_views(list@),
{
    let mut r: Vec<RoomPassword> = Vec::new();
    let mut i: usize = 0;
    while i < list.len()
        invariant
            i <= list.len(),
            r.len() == i,
            forall|j: int| 0 <= j < i ==> r@[j]@ == list@[j]@,
        decreases list.len() - i,
    {
        r.push(RoomPassword { room: list[i].room.clone(), password: list[i].password.clone() });
        i = i + 1;
    }
    assert(password_views(r@) =~= password_views(list@));
    r
}

fn passwords_with(list: &Vec<RoomPassword>, room: &str, password: &str) -> (r: Vec<RoomPassword>)
    ensures
        password_views(r@) == with_password(password_views(list@), room@, password@),
{
    let mut r = clone_passwords(list);
    let entry = RoomPassword { room: copy_str(room), password: copy_str(password) };
    match find_password(list, room) {
        Some(i) => {
            assert(first_index_of(password_rooms(password_views(r@)), room@) == i);
            let ghost before = password_views(r@);
            r.set(i, entry);
            assert(password_views(r@) =~= before.update(i as int, entry@));
        },
        None => {
            let ghost before = password_views(r@);
            r.push(entry);
            assert(password_views(r@) =~= before.push(entry@));
        },
    }
    r
}

/// The password kept for a room.
pub fn password_for(state: &Session, room: &str) -> (r: Option<String>)
    ensures
        opt_view(r) == password_of(state@.passwords, room@),
{
    match find_password(&state.controlled_room_passwords, room) {
        Some(i) => Some(state.controlled_room_passwords[i].password.clone()),
        None => None,
    }
}

/// The entry of the list of rooms that stands for a room and its password.
pub open spec fn room_entry(room: Seq<char>, password: Seq<char>) -> Seq<char> {
    room + ":"@ + password
}

/// Whether a room and its password are added to the list of known rooms:
/// the password is to be kept for later, the user lets rooms be kept, and
/// the entry is not yet in the list.
pub open spec fn saves_room(s: SessionView, room: Seq<char>, password: Seq<char>, persist: bool) -> bool {
    persist && s.config.autosave_joins_to_list && first_index_of(
        s.room_list,
        room_entry(room, control_password(password)),
    ) == -1
}

/// Whether a password is kept at all: it is not empty once it is stripped.
pub open spec fn keeps_password(password: Seq<char>) -> bool {
    control_password(password).len() > 0
}

pub open spec fn store_effects(s: SessionView, room: Seq<char>, password: Seq<char>, persist: bool) -> Seq<
    EffectView,
> {
    if keeps_password(password) && saves_room(s, room, password, persist) {
        seq![EffectView::SaveRoom { entry: room_entry(room, control_password(password)) }]
    } else {
        Seq::empty()
    }
}

pub open spec fn passwords_stored(s: SessionView, room: Seq<char>, password: Seq<char>) -> Seq<
    RoomPasswordView,
> {
    if keeps_password(password) {
        with_password(s.passwords, room, control_password(password))
    } else {
        s.passwords
    }
}

pub open spec fn rooms_stored(s: SessionView, room: Seq<char>, password: Seq<char>, persist: bool) -> Seq<
    Seq<char>,
> {
    if keeps_password(password) && saves_room(s, room, password, persist) {
        s.room_list.push(room_entry(room, control_password(password)))
    } else {
        s.room_list
    }
}

fn store_plan(
    state: &Session,
    room: &str,
    password: &str,
    persist: bool,
    effects: &mut Vec<Effect>,
) -> (r: (Vec<RoomPassword>, Vec<String>))
    ensures
        password_views(r.0@) == passwords_stored(state@, room@, password@),
        r.1.deep_view() == rooms_stored(state@, room@, password@, persist),
        fx(*final(effects)) == fx(*old(effects)) + store_effects(state@, room@, password@, persist),
{
    let stripped = strip_control_password(password);
    let mut rooms = clone_texts(state.room_list.as_slice());
    if stripped.as_str().unicode_len() == 0 {
        assert(fx(*effects) =~= fx(*old(effects)) + Seq::empty());
        return (clone_passwords(&state.controlled_room_passwords), rooms);
    }
    let passwords = passwords_with(&state.controlled_room_passwords, room, stripped.as_str());
    if !persist || !state.config.autosave_joins_to_list {
        assert(fx(*effects) =~= fx(*old(effects)) + Seq::empty());
        return (passwords, rooms);
    }
    let entry = text3(room, ":", stripped.as_str());
    if index_of_text(state.room_list.as_slice(), entry.as_str()).is_some() {
        assert(fx(*effects) =~= fx(*old(effects)) + Seq::empty());
        return (passwords, rooms);
    }
    emit(effects, Effect::SaveRoom { entry: entry.clone() });
    let ghost before = rooms.deep_view();
    rooms.push(entry);
    assert(rooms.deep_view() =~= before.push(entry@));
    assert(fx(*effects) =~= fx(*old(effects)) + store_effects(state@, room@, password@, persist));
    (passwords, rooms)
}

/// Keeps the password that operates a room, and the room among the known
/// rooms where that is wanted.
pub fn store_control_password(
    state: &mut Session,
    room: &str,
    password: &str,
    persist: bool,
    effects: &mut Vec<Effect>,
)
    ensures
        final(state)@ == (SessionView {
            passwords: passwords_stored(old(state)@, room@, password@),
            room_list: rooms_stored(old(state)@, room@, password@, persist),
            ..old(state)@
        }),
        final(state).wf() == old(state).wf(),
        fx(*final(effects)) == fx(*old(effects)) + store_effects(
            old(state)@,
            room@,
            password@,
            persist,
        ),
{
    let (passwords, rooms) = store_plan(state, room, password, persist, effects);
    state.controlled_room_passwords = passwords;
    state.room_list = rooms;
}

/// The request to operate a room, where there is a connection.
pub open spec fn auth_effects(s: SessionView, room: Seq<char>, password: Seq<char>) -> Seq<
    EffectView,
> {
    if s.connected {
        seq![EffectView::Send(ClientMessageView::ControllerAuth { room, password })]
    } else {
        Seq::empty()
    }
}

pub fn send_controller_auth(state: &Session, room: &str, password: &str, effects: &mut Vec<Effect>) -> (r:
    Result<(), String>)
    ensures
        match r {
            Ok(_) => state@.connected,
            Err(e) => !state@.connected && e@ == "Not connected to server"@,
        },
        fx(*final(effects)) == fx(*old(effects)) + auth_effects(state@, room@, password@),
{
    if !state.connected {
        assert(fx(*effects) =~= fx(*old(effects)) + Seq::empty());
        return Err(copy_str("Not connected to server"));
    }
    emit(
        effects,
        Effect::Send(
            ClientMessage::ControllerAuth { room: copy_str(room), password: copy_str(password) },
        ),
    );
    assert(fx(*effects) =~= fx(*old(effects)) + auth_effects(state@, room@, password@));
    Ok(())
}

/// The password with which the client asks to operate its room: the one
/// kept for the room, where the room is a managed one.
#[verifier::opaque]
pub open spec fn reidentify_password(s: SessionView) -> Option<Seq<char>> {
    if is_controlled_room_name(s.client.room) {
        password_of(s.passwords, s.client.room)
    } else {
        None
    }
}

#[verifier::opaque]
pub open spec fn reidentify_effects(s: SessionView) -> Seq<EffectView> {
    match reidentify_password(s) {
        Some(p) => seq![
            EffectView::SystemMessage(
                "Identifying as room operator with password '"@ + p + "'..."@,
            ),
        ] + auth_effects(s, s.client.room, p),
        None => Seq::empty(),
    }
}

fn reidentify_plan(state: &Session, effects: &mut Vec<Effect>) -> (r: Option<String>)
    ensures
        opt_view(r) == (match reidentify_password(state@) {
            Some(p) => Some(p),
            None => state@.last_control_password_attempt,
        }),
        fx(*final(effects)) == fx(*old(effects)) + reidentify_effects(state@),
{
    proof {
        reveal(reidentify_password);
        reveal(reidentify_effects);
    }
    let room = state.client_state.get_room();
    let kept = clone_opt_text(&state.last_control_password_attempt);
    if !is_controlled_room(room.as_str()) {
        assert(fx(*effects) =~= fx(*old(effects)) + Seq::empty());
        return kept;
    }
    let password = match password_for(state, room.as_str()) {
        Some(p) => p,
        None => {
            assert(fx(*effects) =~= fx(*old(effects)) + Seq::empty());
            return kept;
        },
    };
    emit(
        effects,
        Effect::SystemMessage(
            text3("Identifying as room operator with password '", password.as_str(), "'..."),
        ),
    );
    let ghost mid = fx(*effects);
    let _ = send_controller_auth(state, room.as_str(), password.as_str(), effects);
    assert(fx(*effects) =~= fx(*old(effects)) + reidentify_effects(state@));
    Some(password)
}

/// Asks to operate the room again with the password kept for it.
pub fn reidentify_as_controller(state: &mut Session, effects: &mut Vec<Effect>)
    ensures
        final(state)@ == (SessionView {
            last_control_password_attempt: match reidentify_password(old(state)@) {
                Some(p) => Some(p),
                None => old(state)@.last_control_password_attempt,
            },
            ..old(state)@
        }),
        final(state).wf() == old(state).wf(),
        fx(*final(effects)) == fx(*old(effects)) + reidentify_effects(old(state)@),
{
    let attempt = reidentify_plan(state, effects);
    state.last_control_password_attempt = attempt;
}

/// A user as they are known, or as a newcomer to a room is.
pub open spec fn user_or_new(c: ClientStateView, username: Seq<char>, room: Seq<char>) -> UserView {
    match user_named(c.users, username) {
        Some(u) => u,
        None => UserView {
            username,
            room,
            file: None,
            file_size: None,
            file_duration: None,
            is_ready: None,
            is_controller: false,
        },
    }
}

/// The user with their room and their standing as an operator set.
pub open spec fn with_controller_status(
    c: ClientStateView,
    username: Seq<char>,
    room: Option<Seq<char>>,
    is_controller: bool,
) -> UserView {
    let known = user_or_new(
        c,
        username,
        match room {
            Some(r) => r,
            None => c.room,
        },
    );
    UserView {
        room: match room {
            Some(r) => r,
            None => known.room,
        },
        is_controller,
        ..known
    }
}

/// Sets whether a user is an operator, and their room where it is given;
/// tells whether their standing has changed.
pub fn set_user_controller_status(
    state: &mut Session,
    username: &str,
    room: Option<&str>,
    is_controller: bool,
) -> (changed: bool)
    requires
        old(state).wf(),
    ensures
        final(state).wf(),
        changed == (user_or_new(old(state)@.client, username@, old(state)@.client.room).is_controller
            != is_controller),
        final(state)@ == (SessionView {
            client: ClientStateView {
                users: with_user(
                    old(state)@.client.users,
                    with_controller_status(
                        old(state)@.client,
                        username@,
                        opt_view(room),
                        is_controller,
                    ),
                ),
                ..old(state)@.client
            },
            ..old(state)@
        }),
{
    let (user, changed) = controller_status(state, username, room, is_controller);
    state.client_state.add_user(user);
    changed
}

fn controller_status(state: &Session, username: &str, room: Option<&str>, is_controller: bool) -> (r:
    (User, bool))
    ensures
        r.0@ == with_controller_status(state@.client, username@, opt_view(room), is_controller),
        r.1 == (user_or_new(state@.client, username@, state@.client.room).is_controller
            != is_controller),
{
    let mut user = match state.client_state.get_user(username) {
        Some(u) => u,
        None => User {
            username: copy_str(username),
            room: match room {
                Some(r) => copy_str(r),
                None => state.client_state.get_room(),
            },
            file: None,
            file_size: None,
            file_duration: None,
            is_ready: None,
            is_controller: false,
        },
    };
    match room {
        Some(r) => {
            user.room = copy_str(r);
        },
        None => {},
    }
    let changed = user.is_controller != is_controller;
    user.is_controller = is_controller;
    (user, changed)
}

/// The user that an answer to a request to operate a room is about.
pub open spec fn auth_user(s: SessionView, auth: ControllerAuthView) -> Seq<char> {
    match auth.user {
        Some(u) => u,
        None => s.client.username,
    }
}

/// The room that an answer to a request to operate a room is about.
pub open spec fn auth_room(s: SessionView, auth: ControllerAuthView) -> Seq<char> {
    match auth.room {
        Some(r) => r,
        None => s.client.room,
    }
}

/// The password that is kept once the client has become an operator: the
/// one it last tried.
pub open spec fn auth_password(s: SessionView, auth: ControllerAuthView) -> Seq<char> {
    if auth_user(s, auth) == s.client.username {
        match s.last_control_password_attempt {
            Some(p) => p,
            None => Seq::empty(),
        }
    } else {
        Seq::empty()
    }
}

/// The session after somebody has become an operator.
pub open spec fn operator_made(s: SessionView, auth: ControllerAuthView) -> SessionView {
    SessionView {
        client: ClientStateView {
            users: with_user(
                s.client.users,
                with_controller_status(s.client, auth_user(s, auth), Some(auth_room(s, auth)), true),
            ),
            ..s.client
        },
        passwords: passwords_stored(s, auth_room(s, auth), auth_password(s, auth)),
        room_list: rooms_stored(s, auth_room(s, auth), auth_password(s, auth), true),
        ..s
    }
}

pub open spec fn operator_effects(s: SessionView, auth: ControllerAuthView) -> Seq<EffectView> {
    (if auth_room(s, auth) == s.client.room {
        notice_effects(
            s,
            auth_user(s, auth) + " authenticated as a room operator"@,
            s.config.show_same_room_osd,
        )
    } else {
        Seq::empty()
    }) + store_effects(s, auth_room(s, auth), auth_password(s, auth), true) + (if !user_or_new(
        s.client,
        auth_user(s, auth),
        s.client.room,
    ).is_controller {
        seq![EffectView::EmitUserList]
    } else {
        Seq::empty()
    })
}

/// The session after the answer to a request to operate a room.
#[verifier::opaque]
pub open spec fn auth_handled(s: SessionView, auth: ControllerAuthView) -> SessionView {
    if auth.success == Some(true) {
        operator_made(s, auth)
    } else {
        s
    }
}

/// What the answer to a request to operate a room asks for: the news of a
/// new operator, or the complaint that the client has not become one.
#[verifier::opaque]
pub open spec fn auth_handled_effects(s: SessionView, auth: ControllerAuthView) -> Seq<EffectView> {
    match auth.success {
        Some(true) => operator_effects(s, auth),
        Some(false) => if auth_user(s, auth) == s.client.username {
            seq![
                EffectView::ErrorMessage(
                    auth_user(s, auth) + " failed to identify as a room operator."@,
                ),
            ]
        } else {
            Seq::empty()
        },
        None => Seq::empty(),
    }
}

struct Operator {
    username: String,
    room: String,
    password: String,
}

fn operator_of(state: &Session, auth: &ControllerAuth, effects: &mut Vec<Effect>) -> (r: Operator)
    ensures
        r.username@ == auth_user(state@, auth@),
        r.room@ == auth_room(state@, auth@),
        r.password@ == auth_password(state@, auth@),
        fx(*final(effects)) == fx(*old(effects)) + (if auth_room(state@, auth@)
            == state@.client.room {
            notice_effects(
                state@,
                auth_user(state@, auth@) + " authenticated as a room operator"@,
                state@.config.show_same_room_osd,
            )
        } else {
            Seq::empty()
        }),
{
    let me = state.client_state.get_username();
    let current_room = state.client_state.get_room();
    let username = match &auth.user {
        Some(u) => u.clone(),
        None => me.clone(),
    };
    let room = match &auth.room {
        Some(r) => r.clone(),
        None => current_room.clone(),
    };
    let password = if texts_equal(&username, me.as_str()) {
        match &state.last_control_password_attempt {
            Some(p) => p.clone(),
            None => String::new(),
        }
    } else {
        String::new()
    };
    if texts_equal(&room, current_room.as_str()) {
        let message = text2(username.as_str(), " authenticated as a room operator");
        notice(state, message, state.config.show_same_room_osd, effects);
    } else {
        assert(fx(*effects) =~= fx(*old(effects)) + Seq::empty());
    }
    Operator { username, room, password }
}

fn emit_user_list_if(changed: bool, effects: &mut Vec<Effect>)
    ensures
        fx(*final(effects)) == fx(*old(effects)) + (if changed {
            seq![EffectView::EmitUserList]
        } else {
            Seq::empty()
        }),
{
    if changed {
        emit(effects, Effect::EmitUserList);
        assert(fx(*effects) =~= fx(*old(effects)) + seq![EffectView::EmitUserList]);
    } else {
        assert(fx(*effects) =~= fx(*old(effects)) + Seq::empty());
    }
}

fn make_operator(state: &mut Session, auth: &ControllerAuth, effects: &mut Vec<Effect>)
    requires
        old(state).wf(),
        auth@.success == Some(true),
    ensures
        final(state).wf(),
        final(state)@ == operator_made(old(state)@, auth@),
        fx(*final(effects)) == fx(*old(effects)) + operator_effects(old(state)@, auth@),
{
    let ghost s0 = state@;
    let ghost e0 = fx(*effects);
    let op = operator_of(state, auth, effects);
    let ghost e1 = fx(*effects);
    let changed = set_user_controller_status(
        state,
        op.username.as_str(),
        Some(op.room.as_str()),
        true,
    );
    let ghost s1 = state@;
    assert(passwords_stored(s1, op.room@, op.password@) == passwords_stored(
        s0,
        op.room@,
        op.password@,
    ));
    assert(rooms_stored(s1, op.room@, op.password@, true) == rooms_stored(
        s0,
        op.room@,
        op.password@,
        true,
    ));
    assert(store_effects(s1, op.room@, op.password@, true) == store_effects(
        s0,
        op.room@,
        op.password@,
        true,
    ));
    store_control_password(state, op.room.as_str(), op.password.as_str(), true, effects);
    let ghost e2 = fx(*effects);
    emit_user_list_if(changed, effects);
    assert(fx(*effects) =~= e0 + operator_effects(s0, auth@));
}

/// Takes the answer to a request to operate a room.
pub fn handle_controller_auth(state: &mut Session, auth: &ControllerAuth, effects: &mut Vec<Effect>)
    requires
        old(state).wf(),
    ensures
        final(state).wf(),
        final(state)@ == auth_handled(old(state)@, auth@),
        fx(*final(effects)) == fx(*old(effects)) + auth_handled_effects(old(state)@, auth@),
{
    proof {
        reveal(auth_handled);
        reveal(auth_handled_effects);
    }
    match auth.success {
        Some(true) => {
            make_operator(state, auth, effects);
        },
        Some(false) => {
            let me = state.client_state.get_username();
            let username = match &auth.user {
                Some(u) => u.clone(),
                None => me.clone(),
            };
            if texts_equal(&username, me.as_str()) {
                emit(
                    effects,
                    Effect::ErrorMessage(
                        text2(username.as_str(), " failed to identify as a room operator."),
                    ),
                );
                assert(fx(*effects) =~= fx(*old(effects)) + auth_handled_effects(
                    old(state)@,
                    auth@,
                ));
            } else {
                assert(fx(*effects) =~= fx(*old(effects)) + Seq::empty());
            }
        },
        None => {
            assert(fx(*effects) =~= fx(*old(effects)) + Seq::empty());
        },
    }
}

/// What is said of a managed room that the server has made.
pub open spec fn new_room_text(room: Seq<char>, password: Seq<char>) -> Seq<char> {
    "Created managed room '"@ + room + "' with password '"@ + password
        + "'. Please save this information for future reference!\n\nIn managed rooms everyone is kept in sync with the room operator(s) who are the only ones who can pause, unpause, seek, and change the playlist.\n\nYou should ask regular viewers to join the room '"@
        + room + "' but the room operators can join the room '"@ + room + ":"@ + password
        + "' to automatically authenticate themselves."@
}

/// Whether a message names a new managed room: it gives name and password.
pub open spec fn names_new_room(room: NewControlledRoomView) -> bool {
    room.room_name.is_some() && room.password.is_some()
}

/// What a new managed room asks for: the news, the move into the room, the
/// request for the users, and the request to operate the room.
#[verifier::opaque]
pub open spec fn new_room_effects(s: SessionView, room: NewControlledRoomView) -> Seq<EffectView> {
    if !names_new_room(room) {
        Seq::empty()
    } else {
        let name = room.room_name.unwrap();
        let password = room.password.unwrap();
        seq![EffectView::SystemMessage(new_room_text(name, password))] + (if s.connected {
            seq![
                EffectView::Send(ClientMessageView::SetRoom { name }),
                EffectView::Send(ClientMessageView::RequestList),
            ]
        } else {
            Seq::empty()
        }) + (if keeps_password(password) {
            auth_effects(s, name, control_password(password))
        } else {
            Seq::empty()
        })
    }
}

fn new_room_plan(state: &Session, room: &NewControlledRoom, effects: &mut Vec<Effect>) -> (r: (
    String,
    Option<String>,
))
    ensures
        r.0@ == (if names_new_room(room@) {
            room@.room_name.unwrap()
        } else {
            state@.client.room
        }),
        opt_view(r.1) == (if names_new_room(room@) && keeps_password(room@.password.unwrap()) {
            Some(control_password(room@.password.unwrap()))
        } else {
            state@.last_control_password_attempt
        }),
        fx(*final(effects)) == fx(*old(effects)) + new_room_effects(state@, room@),
{
    proof {
        reveal(new_room_effects);
    }
    let kept = clone_opt_text(&state.last_control_password_attempt);
    let (name, password) = match (&room.room_name, &room.password) {
        (Some(n), Some(p)) => (n, p),
        _ => {
            assert(fx(*effects) =~= fx(*old(effects)) + Seq::empty());
            return (state.client_state.get_room(), kept);
        },
    };
    let entry = text3(name.as_str(), ":", password.as_str());
    let head = text5(
        "Created managed room '",
        name.as_str(),
        "' with password '",
        password.as_str(),
        "'. Please save this information for future reference!\n\nIn managed rooms everyone is kept in sync with the room operator(s) who are the only ones who can pause, unpause, seek, and change the playlist.\n\nYou should ask regular viewers to join the room '",
    );
    let message = text5(
        head.as_str(),
        name.as_str(),
        "' but the room operators can join the room '",
        entry.as_str(),
        "' to automatically authenticate themselves.",
    );
    assert(message@ =~= new_room_text(name@, password@));
    emit(effects, Effect::SystemMessage(message));
    if state.connected {
        emit(effects, Effect::Send(ClientMessage::SetRoom { name: name.clone() }));
        emit(effects, Effect::Send(ClientMessage::RequestList));
    }
    let stripped = strip_control_password(password.as_str());
    if stripped.as_str().unicode_len() == 0 {
        assert(fx(*effects) =~= fx(*old(effects)) + new_room_effects(state@, room@));
        return (name.clone(), kept);
    }
    let ghost mid = fx(*effects);
    let _ = send_controller_auth(state, name.as_str(), stripped.as_str(), effects);
    assert(fx(*effects) =~= fx(*old(effects)) + new_room_effects(state@, room@));
    (name.clone(), Some(stripped))
}

/// The session in a managed room that the server has made.
#[verifier::opaque]
pub open spec fn new_room_entered(s: SessionView, room: NewControlledRoomView) -> SessionView {
    SessionView {
        client: ClientStateView {
            room: if names_new_room(room) {
                room.room_name.unwrap()
            } else {
                s.client.room
            },
            ..s.client
        },
        last_control_password_attempt: if names_new_room(room) && keeps_password(
            room.password.unwrap(),
        ) {
            Some(control_password(room.password.unwrap()))
        } else {
            s.last_control_password_attempt
        },
        ..s
    }
}

/// Takes the news of a managed room that the server has made: the client
/// moves into it and asks to operate it.
pub fn handle_new_controlled_room(
    state: &mut Session,
    room: &NewControlledRoom,
    effects: &mut Vec<Effect>,
)
    ensures
        final(state)@ == new_room_entered(old(state)@, room@),
        final(state).wf() == old(state).wf(),
        fx(*final(effects)) == fx(*old(effects)) + new_room_effects(old(state)@, room@),
{
    proof {
        reveal(new_room_entered);
    }
    let (name, attempt) = new_room_plan(state, room, effects);
    state.client_state.set_room(name);
    state.last_control_password_attempt = attempt;
}

} // verus!
