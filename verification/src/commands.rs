//! What the user asks for: a line of chat, another room, readiness.
use crate::control::{
    passwords_stored, reidentify_as_controller, reidentify_effects, reidentify_password,
    rooms_stored, store_control_password, store_effects,
};
use crate::messages::{ClientMessage, ClientMessageView};
use crate::session::{emit, fx, Effect, EffectView, Session, SessionView};
use crate::state::{user_views, ClientStateView, User, UserView};
use crate::text::{
    append, copy_str, first_index_of, from_chars, index_of_text, join, opt_view, to_chars, trim,
    trimmed,
};
use crate::utils::{parse_controlled_room_input, room_and_password, truncate_text, truncated};
use vstd::prelude::*;

verus! {

/// What a line that the user has typed asks for, where it is a command.
#[derive(Debug)]
pub enum ChatCommand {
    /// Go to a room.
    Room(String),
    /// Show the users.
    List,
    /// Show what can be typed.
    Help,
    /// Be ready.
    Ready,
    /// Be not ready.
    Unready,
    /// Set another user ready.
    SetReady(String),
    /// Set another user not ready.
    SetNotReady(String),
    /// A command that is not known, with what to say of it.
    Unknown(String),
}

pub enum ChatCommandView {
    Room(Seq<char>),
    List,
    Help,
    Ready,
    Unready,
    SetReady(Seq<char>),
    SetNotReady(Seq<char>),
    Unknown(Seq<char>),
}

impl View for ChatCommand {
    type V = ChatCommandView;

    open spec fn view(&self) -> ChatCommandView {
        match self {
            ChatCommand::Room(r) => ChatCommandView::Room(r@),
            ChatCommand::List => ChatCommandView::List,
            ChatCommand::Help => ChatCommandView::Help,
            ChatCommand::Ready => ChatCommandView::Ready,
            ChatCommand::Unready => ChatCommandView::Unready,
            ChatCommand::SetReady(u) => ChatCommandView::SetReady(u@),
            ChatCommand::SetNotReady(u) => ChatCommandView::SetNotReady(u@),
            ChatCommand::Unknown(m) => ChatCommandView::Unknown(m@),
        }
    }
}

pub open spec fn outcome_view(r: Result<(), String>) -> Result<(), Seq<char>> {
    match r {
        Ok(_) => Ok(()),
        Err(e) => Err(e@),
    }
}

pub open spec fn text_outcome(r: Result<Option<String>, String>) -> Result<
    Option<Seq<char>>,
    Seq<char>,
> {
    match r {
        Ok(o) => Ok(opt_view(o)),
        Err(e) => Err(e@),
    }
}

/// The longest line of chat that the server takes.
pub open spec fn chat_limit(s: SessionView) -> usize {
    match s.features.max_chat_message_length {
        Some(n) => n,
        None => 150,
    }
}

/// A line that the user has typed, as it is sent: trimmed and cut to what
/// the server takes. A blank line is nothing; a line is refused where the
/// user or the server has no chat or there is no connection.
pub open spec fn chat_line(s: SessionView, message: Seq<char>) -> Result<
    Option<Seq<char>>,
    Seq<char>,
> {
    if trim(message).len() == 0 {
        Ok(None)
    } else if !s.config.chat_input_enabled {
        Err("Chat input is disabled"@)
    } else if !s.features.chat {
        Err("Chat is disabled by the server"@)
    } else if !s.connected {
        Err("Not connected to server"@)
    } else {
        Ok(Some(truncated(trim(message), chat_limit(s) as int)))
    }
}

pub fn prepare_chat_message(state: &Session, message: &str) -> (r: Result<Option<String>, String>)
    ensures
        text_outcome(r) == chat_line(state@, message@),
{
    let t = trimmed(&to_chars(message));
    if t.len() == 0 {
        return Ok(None);
    }
    if !state.config.chat_input_enabled {
        return Err(copy_str("Chat input is disabled"));
    }
    if !state.server_features.chat {
        return Err(copy_str("Chat is disabled by the server"));
    }
    let max_length = match state.server_features.max_chat_message_length {
        Some(n) => n,
        None => 150,
    };
    let line = truncate_text(from_chars(&t).as_str(), max_length);
    if !state.connected {
        return Err(copy_str("Not connected to server"));
    }
    Ok(Some(line))
}

/// The room that is gone to for what the user has typed.
pub open spec fn room_asked(room: Seq<char>) -> Seq<char> {
    room_and_password(room).0
}

pub open spec fn password_asked(room: Seq<char>) -> Seq<char> {
    match room_and_password(room).1 {
        Some(p) => p,
        None => Seq::empty(),
    }
}

/// The session with the room noted that the user goes to.
#[verifier::opaque]
pub open spec fn room_taken(s: SessionView, room: Seq<char>) -> SessionView {
    SessionView {
        passwords: passwords_stored(s, room_asked(room), password_asked(room)),
        room_list: rooms_stored(s, room_asked(room), password_asked(room), true),
        client: ClientStateView { room: room_asked(room), ..s.client },
        ..s
    }
}

/// The session after the user has gone to a room.
pub open spec fn room_joined(s: SessionView, room: Seq<char>) -> SessionView {
    if s.connected {
        SessionView {
            last_control_password_attempt: match reidentify_password(room_taken(s, room)) {
                Some(p) => Some(p),
                None => s.last_control_password_attempt,
            },
            ..room_taken(s, room)
        }
    } else {
        room_taken(s, room)
    }
}

/// What going to a room asks for: the password in what was typed is kept,
/// the server is told the room and asked for the users, and the client asks
/// to operate the room.
pub open spec fn room_joined_effects(s: SessionView, room: Seq<char>) -> Seq<EffectView> {
    store_effects(s, room_asked(room), password_asked(room), true) + (if s.connected {
        seq![
            EffectView::Send(ClientMessageView::SetRoom { name: room_asked(room) }),
            EffectView::Send(ClientMessageView::RequestList),
        ] + reidentify_effects(room_taken(s, room))
    } else {
        Seq::empty()
    })
}

fn take_room(state: &mut Session, room: &str, effects: &mut Vec<Effect>) -> (name: String)
    ensures
        final(state).wf() == old(state).wf(),
        final(state)@ == room_taken(old(state)@, room@),
        name@ == room_asked(room@),
        fx(*final(effects)) == fx(*old(effects)) + store_effects(
            old(state)@,
            room_asked(room@),
            password_asked(room@),
            true,
        ),
{
    let (name, control_password) = parse_controlled_room_input(room);
    let password = match control_password {
        Some(p) => p,
        None => String::new(),
    };
    store_control_password(state, name.as_str(), password.as_str(), true, effects);
    state.client_state.set_room(name.clone());
    assert(state@ == room_taken(old(state)@, room@)) by {
        reveal(room_taken);
    }
    name
}

fn announce_room(state: &mut Session, name: &String, effects: &mut Vec<Effect>)
    requires
        old(state)@.connected,
    ensures
        final(state).wf() == old(state).wf(),
        final(state)@ == (SessionView {
            last_control_password_attempt: match reidentify_password(old(state)@) {
                Some(p) => Some(p),
                None => old(state)@.last_control_password_attempt,
            },
            ..old(state)@
        }),
        fx(*final(effects)) == fx(*old(effects)) + seq![
            EffectView::Send(ClientMessageView::SetRoom { name: name@ }),
            EffectView::Send(ClientMessageView::RequestList),
        ] + reidentify_effects(old(state)@),
{
    emit(effects, Effect::Send(ClientMessage::SetRoom { name: name.clone() }));
    emit(effects, Effect::Send(ClientMessage::RequestList));
    let ghost mid = fx(*effects);
    reidentify_as_controller(state, effects);
    assert(fx(*effects) =~= fx(*old(effects)) + seq![
        EffectView::Send(ClientMessageView::SetRoom { name: name@ }),
        EffectView::Send(ClientMessageView::RequestList),
    ] + reidentify_effects(old(state)@));
}

/// Goes to the room that the user has typed; a control password in what
/// was typed is kept. Without a connection the room is noted and the
/// complaint is given.
pub fn join_room(state: &mut Session, room: &str, effects: &mut Vec<Effect>) -> (r: Result<(), String>)
    ensures
        final(state).wf() == old(state).wf(),
        final(state)@ == room_joined(old(state)@, room@),
        outcome_view(r) == (if old(state)@.connected {
            Ok(())
        } else {
            Err("Not connected to server"@)
        }),
        fx(*final(effects)) == fx(*old(effects)) + room_joined_effects(old(state)@, room@),
{
    let ghost e0 = fx(*effects);
    let connected = state.connected;
    let name = take_room(state, room, effects);
    assert(state@.connected == old(state)@.connected && state@.last_control_password_attempt
        == old(state)@.last_control_password_attempt) by {
        reveal(room_taken);
    }
    if connected {
        announce_room(state, &name, effects);
        assert(fx(*effects) =~= e0 + room_joined_effects(old(state)@, room@));
        Ok(())
    } else {
        assert(fx(*effects) =~= e0 + room_joined_effects(old(state)@, room@));
        Err(copy_str("Not connected to server"))
    }
}

/// One user as the list of users names them.
pub open spec fn user_entry(u: UserView) -> Seq<char> {
    u.username + " ("@ + u.room + ")"@
}

pub open spec fn user_entries(users: Seq<UserView>) -> Seq<Seq<char>> {
    Seq::new(users.len(), |i: int| user_entry(users[i]))
}

/// What is said of the users.
pub open spec fn users_text(users: Seq<UserView>) -> Seq<char> {
    "Users: "@ + join(user_entries(users), ", "@)
}

fn users_line(users: &Vec<User>) -> (r: String)
    ensures
        r@ == users_text(user_views(users@)),
{
    let ghost entries = user_entries(user_views(users@));
    let mut out: Vec<char> = Vec::new();
    let mut i: usize = 0;
    assert(entries.take(0) =~= Seq::<Seq<char>>::empty());
    while i < users.len()
        invariant
            i <= users.len(),
            entries == user_entries(user_views(users@)),
            out@ == join(entries.take(i as int), ", "@),
        decreases users.len() - i,
    {
        proof {
            assert(entries.take(i + 1).drop_last() =~= entries.take(i as int));
            assert(entries.take(i + 1).last() == user_entry(users@[i as int]@));
        }
        if i > 0 {
            append(&mut out, &to_chars(", "));
        }
        append(&mut out, &to_chars(users[i].username.as_str()));
        append(&mut out, &to_chars(" ("));
        append(&mut out, &to_chars(users[i].room.as_str()));
        append(&mut out, &to_chars(")"));
        assert(out@ =~= join(entries.take(i + 1), ", "@));
        i = i + 1;
    }
    assert(entries.take(users.len() as int) =~= entries);
    let mut line = to_chars("Users: ");
    append(&mut line, &out);
    from_chars(&line)
}

/// The longest room name that the server takes.
pub open spec fn room_limit(s: SessionView) -> usize {
    match s.features.max_room_name_length {
        Some(n) => n,
        None => 35,
    }
}

/// What a command or a line of chat comes to.
pub open spec fn chat_outcome(
    s: SessionView,
    message: Seq<char>,
    command: Option<ChatCommandView>,
) -> Result<(), Seq<char>> {
    match command {
        None => if s.connected {
            Ok(())
        } else {
            Err("Not connected to server"@)
        },
        Some(ChatCommandView::Room(_)) => if s.connected {
            Ok(())
        } else {
            Err("Not connected to server"@)
        },
        Some(ChatCommandView::List) => Ok(()),
        Some(ChatCommandView::Help) => Ok(()),
        Some(ChatCommandView::Ready) | Some(ChatCommandView::Unready) => if !s.features.readiness {
            Err("Ready state is not supported by the server"@)
        } else if !s.connected {
            Err("Not connected to server"@)
        } else {
            Ok(())
        },
        Some(ChatCommandView::SetReady(_)) | Some(ChatCommandView::SetNotReady(_)) => if
            !s.features.set_others_readiness {
            Err("Readiness override is not supported by the server"@)
        } else if !s.connected {
            Err("Not connected to server"@)
        } else {
            Ok(())
        },
        Some(ChatCommandView::Unknown(m)) => Err(m),
    }
}

/// The readiness that a command gives the client.
pub open spec fn ready_commanded(s: SessionView, command: Option<ChatCommandView>) -> Option<bool> {
    match command {
        Some(ChatCommandView::Ready) => if s.features.readiness {
            Some(true)
        } else {
            None
        },
        Some(ChatCommandView::Unready) => if s.features.readiness {
            Some(false)
        } else {
            None
        },
        _ => None,
    }
}

/// What a command or a line of chat asks for, a command to go to a room
/// left aside.
pub open spec fn chat_sent_effects(
    s: SessionView,
    message: Seq<char>,
    command: Option<ChatCommandView>,
    help: Seq<char>,
) -> Seq<EffectView> {
    match command {
        None => if s.connected {
            seq![EffectView::Send(ClientMessageView::Chat(message))]
        } else {
            Seq::empty()
        },
        Some(ChatCommandView::Room(_)) => Seq::empty(),
        Some(ChatCommandView::List) => seq![EffectView::SystemMessage(users_text(s.client.users))],
        Some(ChatCommandView::Help) => seq![EffectView::SystemMessage(help)],
        Some(ChatCommandView::Ready) => ready_command_effects(s, s.features.readiness, s.client.username, true),
        Some(ChatCommandView::Unready) => ready_command_effects(
            s,
            s.features.readiness,
            s.client.username,
            false,
        ),
        Some(ChatCommandView::SetReady(u)) => ready_command_effects(
            s,
            s.features.set_others_readiness,
            u,
            true,
        ),
        Some(ChatCommandView::SetNotReady(u)) => ready_command_effects(
            s,
            s.features.set_others_readiness,
            u,
            false,
        ),
        Some(ChatCommandView::Unknown(m)) => seq![EffectView::ErrorMessage(m)],
    }
}

pub open spec fn ready_command_effects(s: SessionView, supported: bool, username: Seq<char>, ready: bool) -> Seq<
    EffectView,
> {
    if supported && s.connected {
        seq![
            EffectView::Send(
                ClientMessageView::SetReady { username, is_ready: ready, manually_initiated: true },
            ),
        ]
    } else {
        Seq::empty()
    }
}

fn command_ready(
    state: &Session,
    supported: bool,
    unsupported: &str,
    username: String,
    ready: bool,
    effects: &mut Vec<Effect>,
) -> (r: Result<(), String>)
    ensures
        outcome_view(r) == (if !supported {
            Err(unsupported@)
        } else if !state@.connected {
            Err("Not connected to server"@)
        } else {
            Ok(())
        }),
        fx(*final(effects)) == fx(*old(effects)) + ready_command_effects(
            state@,
            supported,
            username@,
            ready,
        ),
{
    if !supported {
        assert(fx(*effects) =~= fx(*old(effects)) + Seq::empty());
        return Err(copy_str(unsupported));
    }
    if !state.connected {
        assert(fx(*effects) =~= fx(*old(effects)) + Seq::empty());
        return Err(copy_str("Not connected to server"));
    }
    emit(
        effects,
        Effect::Send(ClientMessage::SetReady { username, is_ready: ready, manually_initiated: true }),
    );
    assert(fx(*effects) =~= fx(*old(effects)) + ready_command_effects(
        state@,
        supported,
        username@,
        ready,
    ));
    Ok(())
}

fn chat_plan(
    state: &Session,
    message: &str,
    command: Option<&ChatCommand>,
    help: &str,
    effects: &mut Vec<Effect>,
) -> (r: (Option<bool>, Result<(), String>))
    requires
        !(opt_view(command) matches Some(ChatCommandView::Room(_))),
    ensures
        r.0 == ready_commanded(state@, opt_view(command)),
        outcome_view(r.1) == chat_outcome(state@, message@, opt_view(command)),
        fx(*final(effects)) == fx(*old(effects)) + chat_sent_effects(
            state@,
            message@,
            opt_view(command),
            help@,
        ),
{
    let command = match command {
        Some(c) => c,
        None => {
            if !state.connected {
                assert(fx(*effects) =~= fx(*old(effects)) + Seq::empty());
                return (None, Err(copy_str("Not connected to server")));
            }
            emit(effects, Effect::Send(ClientMessage::Chat(copy_str(message))));
            assert(fx(*effects) =~= fx(*old(effects)) + seq![
                EffectView::Send(ClientMessageView::Chat(message@)),
            ]);
            return (None, Ok(()));
        },
    };
    match command {
        ChatCommand::Room(_) => (None, Ok(())),
        ChatCommand::List => {
            let users = state.client_state.get_users();
            emit(effects, Effect::SystemMessage(users_line(&users)));
            assert(fx(*effects) =~= fx(*old(effects)) + seq![
                EffectView::SystemMessage(users_text(state@.client.users)),
            ]);
            (None, Ok(()))
        },
        ChatCommand::Help => {
            emit(effects, Effect::SystemMessage(copy_str(help)));
            assert(fx(*effects) =~= fx(*old(effects)) + seq![EffectView::SystemMessage(help@)]);
            (None, Ok(()))
        },
        ChatCommand::Ready => {
            let supported = state.server_features.readiness;
            let r = command_ready(
                state,
                supported,
                "Ready state is not supported by the server",
                state.client_state.get_username(),
                true,
                effects,
            );
            (
                if supported {
                    Some(true)
                } else {
                    None
                },
                r,
            )
        },
        ChatCommand::Unready => {
            let supported = state.server_features.readiness;
            let r = command_ready(
                state,
                supported,
                "Ready state is not supported by the server",
                state.client_state.get_username(),
                false,
                effects,
            );
            (
                if supported {
                    Some(false)
                } else {
                    None
                },
                r,
            )
        },
        ChatCommand::SetReady(u) => {
            let r = command_ready(
                state,
                state.server_features.set_others_readiness,
                "Readiness override is not supported by the server",
                u.clone(),
                true,
                effects,
            );
            (None, r)
        },
        ChatCommand::SetNotReady(u) => {
            let r = command_ready(
                state,
                state.server_features.set_others_readiness,
                "Readiness override is not supported by the server",
                u.clone(),
                false,
                effects,
            );
            (None, r)
        },
        ChatCommand::Unknown(m) => {
            emit(effects, Effect::ErrorMessage(m.clone()));
            assert(fx(*effects) =~= fx(*old(effects)) + seq![EffectView::ErrorMessage(m@)]);
            (None, Err(m.clone()))
        },
    }
}

/// The session after a command or a line of chat.
pub open spec fn chat_sent(s: SessionView, command: Option<ChatCommandView>) -> SessionView {
    match command {
        Some(ChatCommandView::Room(room)) => room_joined(
            s,
            truncated(room, room_limit(s) as int),
        ),
        _ => SessionView {
            client: ClientStateView {
                is_ready: match ready_commanded(s, command) {
                    Some(r) => r,
                    None => s.client.is_ready,
                },
                ..s.client
            },
            ..s
        },
    }
}

pub open spec fn chat_effects_of(
    s: SessionView,
    message: Seq<char>,
    command: Option<ChatCommandView>,
    help: Seq<char>,
) -> Seq<EffectView> {
    match command {
        Some(ChatCommandView::Room(room)) => room_joined_effects(
            s,
            truncated(room, room_limit(s) as int),
        ),
        _ => chat_sent_effects(s, message, command, help),
    }
}

fn set_ready_opt(state: &mut Session, ready: Option<bool>)
    ensures
        final(state).wf() == old(state).wf(),
        final(state)@ == (SessionView {
            client: ClientStateView {
                is_ready: match ready {
                    Some(r) => r,
                    None => old(state)@.client.is_ready,
                },
                ..old(state)@.client
            },
            ..old(state)@
        }),
{
    state.client_state.set_ready_if(ready);
}

/// Sends a line that the user has typed, or does what it commands.
/// `message` is the line as `prepare_chat_message` has made it, `command`
/// what it commands where it is a command, `help` what to show for the
/// command that asks what can be typed.
pub fn send_chat_message_inner(
    state: &mut Session,
    message: &str,
    command: Option<&ChatCommand>,
    help: &str,
    effects: &mut Vec<Effect>,
) -> (r: Result<(), String>)
    ensures
        final(state).wf() == old(state).wf(),
        final(state)@ == chat_sent(old(state)@, opt_view(command)),
        outcome_view(r) == chat_outcome(old(state)@, message@, opt_view(command)),
        fx(*final(effects)) == fx(*old(effects)) + chat_effects_of(
            old(state)@,
            message@,
            opt_view(command),
            help@,
        ),
{
    match command {
        Some(ChatCommand::Room(room)) => {
            let max_len = match state.server_features.max_room_name_length {
                Some(n) => n,
                None => 35,
            };
            let trimmed_room = truncate_text(room.as_str(), max_len);
            join_room(state, trimmed_room.as_str(), effects)
        },
        _ => {
            let (ready, r) = chat_plan(state, message, command, help, effects);
            set_ready_opt(state, ready);
            r
        },
    }
}

/// The session after the user has changed the room.
pub open spec fn room_changed(s: SessionView, room: Seq<char>) -> SessionView {
    if !s.connected {
        s
    } else {
        let s1 = room_joined(s, room);
        SessionView {
            room_list: if s.config.autosave_joins_to_list && first_index_of(
                s1.room_list,
                room_asked(room),
            ) == -1 {
                s1.room_list.push(room_asked(room))
            } else {
                s1.room_list
            },
            ..s1
        }
    }
}

pub open spec fn room_changed_effects(s: SessionView, room: Seq<char>) -> Seq<EffectView> {
    if !s.connected {
        Seq::empty()
    } else {
        room_joined_effects(s, room) + (if s.config.autosave_joins_to_list {
            seq![EffectView::SaveRoom { entry: room_asked(room) }]
        } else {
            Seq::empty()
        })
    }
}

fn rooms_with(state: &Session, name: &str, effects: &mut Vec<Effect>) -> (r: Vec<String>)
    ensures
        r.deep_view() == (if state@.config.autosave_joins_to_list && first_index_of(
            state@.room_list,
            name@,
        ) == -1 {
            state@.room_list.push(name@)
        } else {
            state@.room_list
        }),
        fx(*final(effects)) == fx(*old(effects)) + (if state@.config.autosave_joins_to_list {
            seq![EffectView::SaveRoom { entry: name@ }]
        } else {
            Seq::empty()
        }),
{
    let mut rooms = crate::text::clone_texts(state.room_list.as_slice());
    if !state.config.autosave_joins_to_list {
        assert(fx(*effects) =~= fx(*old(effects)) + Seq::empty());
        return rooms;
    }
    emit(effects, Effect::SaveRoom { entry: copy_str(name) });
    assert(fx(*effects) =~= fx(*old(effects)) + seq![EffectView::SaveRoom { entry: name@ }]);
    if index_of_text(state.room_list.as_slice(), name).is_none() {
        let ghost before = rooms.deep_view();
        let entry = copy_str(name);
        rooms.push(entry);
        assert(rooms.deep_view() =~= before.push(name@));
    }
    rooms
}

fn keep_room(state: &mut Session, name: &str, effects: &mut Vec<Effect>)
    ensures
        final(state).wf() == old(state).wf(),
        final(state)@ == (SessionView {
            room_list: if old(state)@.config.autosave_joins_to_list && first_index_of(
                old(state)@.room_list,
                name@,
            ) == -1 {
                old(state)@.room_list.push(name@)
            } else {
                old(state)@.room_list
            },
            ..old(state)@
        }),
        fx(*final(effects)) == fx(*old(effects)) + (if old(state)@.config.autosave_joins_to_list {
            seq![EffectView::SaveRoom { entry: name@ }]
        } else {
            Seq::empty()
        }),
{
    let rooms = rooms_with(state, name, effects);
    state.room_list = rooms;
}

/// Changes the room because the user asks for it.
pub fn change_room(state: &mut Session, room: &str, effects: &mut Vec<Effect>) -> (r: Result<
    (),
    String,
>)
    ensures
        final(state).wf() == old(state).wf(),
        final(state)@ == room_changed(old(state)@, room@),
        outcome_view(r) == (if old(state)@.connected {
            Ok(())
        } else {
            Err("Not connected to server"@)
        }),
        fx(*final(effects)) == fx(*old(effects)) + room_changed_effects(old(state)@, room@),
{
    if !state.connected {
        assert(fx(*effects) =~= fx(*old(effects)) + Seq::empty());
        return Err(copy_str("Not connected to server"));
    }
    let ghost e0 = fx(*effects);
    let ghost s0 = state@;
    let _ = join_room(state, room, effects);
    assert(state@.config == s0.config) by {
        reveal(room_taken);
    }
    let name = state.client_state.get_room();
    assert(name@ == room_asked(room@)) by {
        reveal(room_taken);
    }
    keep_room(state, name.as_str(), effects);
    assert(fx(*effects) =~= e0 + room_changed_effects(s0, room@));
    Ok(())
}

/// Sets the client's readiness because the user asks for it.
pub fn set_ready(state: &mut Session, is_ready: bool, effects: &mut Vec<Effect>) -> (r: Result<
    (),
    String,
>)
    ensures
        final(state).wf() == old(state).wf(),
        final(state)@ == (SessionView {
            client: ClientStateView {
                is_ready: if old(state)@.connected {
                    is_ready
                } else {
                    old(state)@.client.is_ready
                },
                ..old(state)@.client
            },
            ..old(state)@
        }),
        outcome_view(r) == (if old(state)@.connected {
            Ok(())
        } else {
            Err("Not connected to server"@)
        }),
        fx(*final(effects)) == fx(*old(effects)) + ready_command_effects(
            old(state)@,
            true,
            old(state)@.client.username,
            is_ready,
        ),
{
    let r = command_ready(
        state,
        true,
        "",
        state.client_state.get_username(),
        is_ready,
        effects,
    );
    let ready = if state.connected {
        Some(is_ready)
    } else {
        None
    };
    set_ready_opt(state, ready);
    r
}

} // verus!
