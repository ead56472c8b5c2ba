//! The messages of the server, each to its handler.
use crate::connection::{
    chat_effects, error_effects, error_handled, handle_chat, handle_error, handle_hello,
    handle_list, handle_tls_message, hello_handled, hello_handled_effects, list_effects,
    list_handled, tls_answer, tls_handled, tls_handled_effects,
};
use crate::messages::{
    listed_views, HelloMessage, HelloMessageView, ListedUser, ListedUserView, SetMessage,
    SetMessageView, StateMessage, StateMessageView,
};
use crate::player_loop::{
    file_update_effects, file_update_sent, is_placeholder_file, send_file_update, shows_placeholder,
};

use crate::protocol::{
    handle_state_message, latency_to_echo, state_message_effects, state_message_handled,
};
use crate::session::{fx, Effect, EffectView, Session, SessionView};
use crate::set_message::{handle_set_message, set_effects, set_handled};
use crate::text::opt_view;
use vstd::prelude::*;

verus! {

/// A message of the server.
#[derive(Debug)]
pub enum ServerMessage {
    Hello(HelloMessage),
    /// The users, or nothing where the message only asks for them.
    List(Option<Vec<ListedUser>>),
    Chat { username: Option<String>, message: String },
    State(StateMessage),
    Error(String),
    Update(SetMessage),
    /// The answer to the request to secure the connection.
    Tls(Option<String>),
}

pub enum ServerMessageView {
    Hello(HelloMessageView),
    List(Option<Seq<ListedUserView>>),
    Chat { username: Option<Seq<char>>, message: Seq<char> },
    State(StateMessageView),
    Error(Seq<char>),
    Update(SetMessageView),
    Tls(Option<Seq<char>>),
}

impl View for ServerMessage {
    type V = ServerMessageView;

    open spec fn view(&self) -> ServerMessageView {
        match self {
            ServerMessage::Hello(h) => ServerMessageView::Hello(h@),
            ServerMessage::List(l) => ServerMessageView::List(
                match l {
                    Some(users) => Some(listed_views(users@)),
                    None => None,
                },
            ),
            ServerMessage::Chat { username, message } => ServerMessageView::Chat {
                username: opt_view(*username),
                message: message@,
            },
            ServerMessage::State(s) => ServerMessageView::State(s@),
            ServerMessage::Error(e) => ServerMessageView::Error(e@),
            ServerMessage::Update(s) => ServerMessageView::Update(s@),
            ServerMessage::Tls(a) => ServerMessageView::Tls(opt_view(*a)),
        }
    }
}

/// What is known of the player and its file when a message arrives.
#[derive(Debug)]
pub struct PlayerContext {
    /// Where the player is and whether it is paused.
    pub local: Option<(i64, bool)>,
    /// Where the picture lies that stands for no file.
    pub placeholder_path: Option<String>,
    /// The file name of the player's path, where that names a file here.
    pub name_of_path: Option<String>,
    /// The size of the file at the player's path.
    pub size_on_disk: Option<u64>,
}

pub struct PlayerContextView {
    pub local: Option<(i64, bool)>,
    pub placeholder_path: Option<Seq<char>>,
    pub name_of_path: Option<Seq<char>>,
    pub size_on_disk: Option<u64>,
}

impl View for PlayerContext {
    type V = PlayerContextView;

    open spec fn view(&self) -> PlayerContextView {
        PlayerContextView {
            local: self.local,
            placeholder_path: opt_view(self.placeholder_path),
            name_of_path: opt_view(self.name_of_path),
            size_on_disk: self.size_on_disk,
        }
    }
}

/// Whether the file that the player has open is told to the server after
/// its greeting: there is a player and it shows a file of its own.
pub open spec fn announces_file(s: SessionView, c: PlayerContextView) -> bool {
    s.player_kind.is_some() && (s.player_state.filename.is_some() || s.player_state.path.is_some())
        && !shows_placeholder(s.player_state, c.placeholder_path)
}

/// The session after the server's greeting and what follows from it.
pub open spec fn greeted(s: SessionView, hello: HelloMessageView, c: PlayerContextView, now: u64) -> SessionView {
    let s1 = hello_handled(s, hello, now);
    if announces_file(s1, c) {
        file_update_sent(s1, s1.player_state, c.name_of_path, c.size_on_disk, now)
    } else {
        s1
    }
}

pub open spec fn greeted_effects(s: SessionView, hello: HelloMessageView, c: PlayerContextView, now: u64) -> Seq<
    EffectView,
> {
    let s1 = hello_handled(s, hello, now);
    hello_handled_effects(s, hello, now) + (if announces_file(s1, c) {
        file_update_effects(s1, s1.player_state, c.name_of_path, c.size_on_disk)
    } else {
        Seq::empty()
    })
}

fn opt_str(o: &Option<String>) -> (r: Option<&str>)
    ensures
        opt_view(r) == opt_view(*o),
{
    match o {
        Some(s) => Some(s.as_str()),
        None => None,
    }
}

fn announce_file(state: &mut Session, context: &PlayerContext, now: u64, effects: &mut Vec<Effect>)
    ensures
        final(state).wf() == old(state).wf(),
        final(state)@ == (if announces_file(old(state)@, context@) {
            file_update_sent(
                old(state)@,
                old(state)@.player_state,
                context@.name_of_path,
                context@.size_on_disk,
                now,
            )
        } else {
            old(state)@
        }),
        fx(*final(effects)) == fx(*old(effects)) + (if announces_file(old(state)@, context@) {
            file_update_effects(
                old(state)@,
                old(state)@.player_state,
                context@.name_of_path,
                context@.size_on_disk,
            )
        } else {
            Seq::empty()
        }),
{
    let ps = state.player_state.clone();
    if state.player_kind.is_some() && (ps.filename.is_some() || ps.path.is_some())
        && !is_placeholder_file(&ps, opt_str(&context.placeholder_path)) {
        let _ = send_file_update(
            state,
            &ps,
            opt_str(&context.name_of_path),
            context.size_on_disk,
            now,
            effects,
        );
    } else {
        assert(fx(*effects) =~= fx(*old(effects)) + Seq::empty());
    }
}

fn greet(
    state: &mut Session,
    hello: &HelloMessage,
    context: &PlayerContext,
    now: u64,
    effects: &mut Vec<Effect>,
)
    ensures
        final(state).wf() == old(state).wf(),
        final(state)@ == greeted(old(state)@, hello@, context@, now),
        fx(*final(effects)) == fx(*old(effects)) + greeted_effects(
            old(state)@,
            hello@,
            context@,
            now,
        ),
{
    let ghost e0 = fx(*effects);
    handle_hello(state, hello, now, effects);
    announce_file(state, context, now, effects);
    assert(fx(*effects) =~= e0 + greeted_effects(old(state)@, hello@, context@, now));
}

/// The session after a message of the server.
pub open spec fn message_handled(
    s: SessionView,
    m: ServerMessageView,
    c: PlayerContextView,
    wall_now: i64,
    now: u64,
) -> SessionView {
    match m {
        ServerMessageView::Hello(h) => greeted(s, h, c, now),
        ServerMessageView::List(l) => match l {
            Some(users) => list_handled(s, users, now),
            None => s,
        },
        ServerMessageView::Chat { username, message } => s,
        ServerMessageView::State(st) => state_message_handled(s, st, c.local, wall_now, now),
        ServerMessageView::Error(e) => error_handled(s, e),
        ServerMessageView::Update(set) => set_handled(s, set, now),
        ServerMessageView::Tls(a) => tls_handled(s, tls_answer(a)),
    }
}

/// What a message of the server asks for.
pub open spec fn message_effects(
    s: SessionView,
    m: ServerMessageView,
    c: PlayerContextView,
    wall_now: i64,
    now: u64,
) -> Seq<EffectView> {
    match m {
        ServerMessageView::Hello(h) => greeted_effects(s, h, c, now),
        ServerMessageView::List(l) => match l {
            Some(users) => list_effects(s, users, now),
            None => Seq::empty(),
        },
        ServerMessageView::Chat { username, message } => chat_effects(s, username, message),
        ServerMessageView::State(st) => state_message_effects(s, st, c.local, wall_now, now),
        ServerMessageView::Error(e) => error_effects(s, e),
        ServerMessageView::Update(set) => set_effects(s, set, now),
        ServerMessageView::Tls(a) => tls_handled_effects(s, tls_answer(a)),
    }
}

/// The time stamp of the server that is echoed after a message: that of a
/// `State` message.
pub open spec fn echo_after(m: ServerMessageView) -> Option<Option<i64>> {
    match m {
        ServerMessageView::State(st) => Some(latency_to_echo(st)),
        _ => None,
    }
}

/// Takes a message of the server. `wall_now` is the time of day as a time
/// stamp, `now` the reading of the monotonic clock. After a `State` message
/// the result holds the time stamp to echo in the reply, which is written
/// once the effects are done.
pub fn handle_server_message(
    state: &mut Session,
    message: &ServerMessage,
    context: &PlayerContext,
    wall_now: i64,
    now: u64,
    effects: &mut Vec<Effect>,
) -> (r: Option<Option<i64>>)
    requires
        old(state).wf(),
    ensures
        final(state).wf(),
        final(state)@ == message_handled(old(state)@, message@, context@, wall_now, now),
        r == echo_after(message@),
        fx(*final(effects)) == fx(*old(effects)) + message_effects(
            old(state)@,
            message@,
            context@,
            wall_now,
            now,
        ),
{
    match message {
        ServerMessage::Hello(h) => {
            greet(state, h, context, now, effects);
            None
        },
        ServerMessage::List(l) => {
            match l {
                Some(users) => {
                    handle_list(state, users, now, effects);
                },
                None => {
                    assert(fx(*effects) =~= fx(*old(effects)) + Seq::empty());
                },
            }
            None
        },
        ServerMessage::Chat { username, message } => {
            handle_chat(state, opt_str(username), message.as_str(), effects);
            None
        },
        ServerMessage::State(st) => Some(
            handle_state_message(state, st, context.local, wall_now, now, effects),
        ),
        ServerMessage::Error(e) => {
            handle_error(state, e.as_str(), effects);
            None
        },
        ServerMessage::Update(set) => {
            handle_set_message(state, set, now, effects);
            None
        },
        ServerMessage::Tls(a) => {
            handle_tls_message(state, opt_str(a), effects);
            None
        },
    }
}

} // verus!
