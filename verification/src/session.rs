//! One session with a server: everything that the client remembers, and
//! what it asks of the world around it.
//!
//! The functions of this library decide; they do not act. Each takes the
//! session and what has happened, changes the session, and adds to a list of
//! effects what is to be done: a message to send, a command for the player,
//! a line for the user. Times are readings of a monotonic clock in
//! milliseconds unless they are said to be time stamps.
use crate::config::{PlayerKind, UnpauseAction, UserPreferences};
use crate::messages::{ClientMessage, ClientMessageView, HelloMessage, HelloMessageView};
use crate::ping::{PingService, PingView};
use crate::playlist::{Playlist, PlaylistView};
use crate::properties::{PlayerState, PlayerStateView};
use crate::state::{ClientState, ClientStateView};
use crate::sync::{SyncEngine, SyncEngineView};
use crate::text::{first_index_of, opt_view};
use vstd::prelude::*;

verus! {

/// What is known of the security of the connection.
#[derive(Clone, Copy, Debug, PartialEq, Eq, Structural)]
pub enum TlsStatus {
    Unknown,
    Pending,
    Enabled,
    Unsupported,
}

/// Something to be done by whoever runs the session.
#[derive(Debug)]
pub enum Effect {
    /// Send a message to the server.
    Send(ClientMessage),
    /// Show a line from the client itself in the chat.
    SystemMessage(String),
    /// Show an error in the chat.
    ErrorMessage(String),
    /// Show a line of chat in the chat.
    ChatLine { username: Option<String>, message: String },
    /// Show a line of chat in the player.
    PlayerChat { username: Option<String>, message: String },
    /// Show a text over the picture; the time is in milliseconds.
    ShowOsd { text: String, duration_ms: Option<u64> },
    /// Go to a position.
    SetPosition(i64),
    /// Pause or play.
    SetPaused(bool),
    /// Play at a speed, in thousandths of the normal speed.
    SetSpeed(i64),
    /// Ask the player where it is and tell the session.
    PollPlayer,
    /// Go to the start of the file, and look again a little later.
    RewindPlayer,
    /// Pause the player because somebody has left.
    PauseForLeave,
    /// Open the file of that name.
    LoadMedia { name: String, reset_position: bool, suppress_update: bool },
    /// Tell the user interface the users.
    EmitUserList,
    /// Tell the user interface the playlist.
    EmitPlaylist,
    /// Tell the user interface how secure the connection is.
    EmitTlsStatus(TlsStatus),
    /// Tell the user interface whether there is a connection.
    EmitConnectionStatus { connected: bool },
    /// Tell the user interface the round trip.
    EmitPing { rtt: i64 },
    /// Take the connection for one that the server has accepted.
    MarkAuthenticated,
    /// Secure the connection.
    UpgradeTls,
    /// Close the connection.
    Disconnect,
    /// Begin to connect again.
    StartReconnect,
    /// Count down to the start of playback.
    StartAutoplayCountdown,
    /// Keep a room and its password among the known rooms.
    SaveRoom { entry: String },
}

pub enum EffectView {
    Send(ClientMessageView),
    SystemMessage(Seq<char>),
    ErrorMessage(Seq<char>),
    ChatLine { username: Option<Seq<char>>, message: Seq<char> },
    PlayerChat { username: Option<Seq<char>>, message: Seq<char> },
    ShowOsd { text: Seq<char>, duration_ms: Option<u64> },
    SetPosition(i64),
    SetPaused(bool),
    SetSpeed(i64),
    PollPlayer,
    RewindPlayer,
    PauseForLeave,
    LoadMedia { name: Seq<char>, reset_position: bool, suppress_update: bool },
    EmitUserList,
    EmitPlaylist,
    EmitTlsStatus(TlsStatus),
    EmitConnectionStatus { connected: bool },
    EmitPing { rtt: i64 },
    MarkAuthenticated,
    UpgradeTls,
    Disconnect,
    StartReconnect,
    StartAutoplayCountdown,
    SaveRoom { entry: Seq<char> },
}

impl View for Effect {
    type V = EffectView;

    open spec fn view(&self) -> EffectView {
        match self {
            Effect::Send(m) => EffectView::Send(m@),
            Effect::SystemMessage(t) => EffectView::SystemMessage(t@),
            Effect::ErrorMessage(t) => EffectView::ErrorMessage(t@),
            Effect::ChatLine { username, message } => EffectView::ChatLine {
                username: opt_view(*username),
                message: message@,
            },
            Effect::PlayerChat { username, message } => EffectView::PlayerChat {
                username: opt_view(*username),
                message: message@,
            },
            Effect::ShowOsd { text, duration_ms } => EffectView::ShowOsd {
                text: text@,
                duration_ms: *duration_ms,
            },
            Effect::SetPosition(p) => EffectView::SetPosition(*p),
            Effect::SetPaused(p) => EffectView::SetPaused(*p),
            Effect::SetSpeed(s) => EffectView::SetSpeed(*s),
            Effect::PollPlayer => EffectView::PollPlayer,
            Effect::RewindPlayer => EffectView::RewindPlayer,
            Effect::PauseForLeave => EffectView::PauseForLeave,
            Effect::LoadMedia { name, reset_position, suppress_update } => EffectView::LoadMedia {
                name: name@,
                reset_position: *reset_position,
                suppress_update: *suppress_update,
            },
            Effect::EmitUserList => EffectView::EmitUserList,
            Effect::EmitPlaylist => EffectView::EmitPlaylist,
            Effect::EmitTlsStatus(s) => EffectView::EmitTlsStatus(*s),
            Effect::EmitConnectionStatus { connected } => EffectView::EmitConnectionStatus {
                connected: *connected,
            },
            Effect::EmitPing { rtt } => EffectView::EmitPing { rtt: *rtt },
            Effect::MarkAuthenticated => EffectView::MarkAuthenticated,
            Effect::UpgradeTls => EffectView::UpgradeTls,
            Effect::Disconnect => EffectView::Disconnect,
            Effect::StartReconnect => EffectView::StartReconnect,
            Effect::StartAutoplayCountdown => EffectView::StartAutoplayCountdown,
            Effect::SaveRoom { entry } => EffectView::SaveRoom { entry: entry@ },
        }
    }
}

/// The effects in a list, as contracts speak of them.
pub open spec fn fx(effects: Vec<Effect>) -> Seq<EffectView> {
    Seq::new(effects@.len(), |i: int| effects@[i]@)
}

/// Adds an effect to the list.
pub fn emit(effects: &mut Vec<Effect>, effect: Effect)
    ensures
        fx(*final(effects)) == fx(*old(effects)).push(effect@),
{
    effects.push(effect);
    assert(fx(*effects) =~= fx(*old(effects)).push(effect@));
}

/// What the server can do and allows.
#[derive(Clone, Copy, Debug, PartialEq, Eq, Structural)]
pub struct ServerFeatures {
    pub feature_list: bool,
    pub shared_playlists: bool,
    pub chat: bool,
    pub readiness: bool,
    pub managed_rooms: bool,
    pub persistent_rooms: bool,
    pub set_others_readiness: bool,
    pub max_chat_message_length: Option<usize>,
    pub max_username_length: Option<usize>,
    pub max_room_name_length: Option<usize>,
    pub max_filename_length: Option<usize>,
}

impl Default for ServerFeatures {
    fn default() -> (r: Self)
        ensures
            r == no_features(),
    {
        ServerFeatures {
            feature_list: false,
            shared_playlists: false,
            chat: false,
            readiness: false,
            managed_rooms: false,
            persistent_rooms: false,
            set_others_readiness: false,
            max_chat_message_length: None,
            max_username_length: None,
            max_room_name_length: None,
            max_filename_length: None,
        }
    }
}

pub open spec fn no_features() -> ServerFeatures {
    ServerFeatures {
        feature_list: false,
        shared_playlists: false,
        chat: false,
        readiness: false,
        managed_rooms: false,
        persistent_rooms: false,
        set_others_readiness: false,
        max_chat_message_length: None,
        max_username_length: None,
        max_room_name_length: None,
        max_filename_length: None,
    }
}

/// The two counters of ignoring on the fly.
#[derive(Clone, Copy, Debug, PartialEq, Eq, Structural)]
pub struct IgnoringCounters {
    pub server: u16,
    pub client: u16,
}

/// What the player last showed: where it was and whether it was paused, and
/// whether its last change of position was a jump.
#[derive(Clone, Copy, Debug, PartialEq, Eq, Structural)]
pub struct LocalPlaybackState {
    pub position: Option<i64>,
    pub paused: Option<bool>,
    pub seeked: bool,
}

/// Whether to connect again, and how often it was tried.
#[derive(Clone, Copy, Debug, PartialEq, Eq, Structural)]
pub struct ReconnectState {
    pub enabled: bool,
    pub running: bool,
    pub attempts: u32,
}

/// Playback that starts by itself once everybody is ready.
#[derive(Clone, Copy, Debug, PartialEq, Eq, Structural)]
pub struct AutoplayState {
    pub enabled: bool,
    pub min_users: i32,
    pub require_same_filenames: bool,
    pub unpause_action: UnpauseAction,
    pub countdown_active: bool,
    pub countdown_remaining: i32,
}

/// One warning that is shown for a while.
#[derive(Clone, Copy, Debug, PartialEq, Eq, Structural)]
pub struct WarningTimerState {
    pub active: bool,
    pub displayed_for: u32,
}

/// The three warnings about the room.
#[derive(Clone, Copy, Debug, PartialEq, Eq, Structural)]
pub struct WarningTimers {
    pub alone: WarningTimerState,
    pub file_differences: WarningTimerState,
    pub not_ready: WarningTimerState,
}

/// What there is to warn of in the room.
#[derive(Debug)]
pub struct RoomWarningState {
    pub alone: bool,
    pub file_differences: Option<String>,
    pub not_ready: Option<String>,
}

pub struct RoomWarningView {
    pub alone: bool,
    pub file_differences: Option<Seq<char>>,
    pub not_ready: Option<Seq<char>>,
}

impl View for RoomWarningState {
    type V = RoomWarningView;

    open spec fn view(&self) -> RoomWarningView {
        RoomWarningView {
            alone: self.alone,
            file_differences: opt_view(self.file_differences),
            not_ready: opt_view(self.not_ready),
        }
    }
}

/// A managed room and the password that operates it.
#[derive(Debug)]
pub struct RoomPassword {
    pub room: String,
    pub password: String,
}

pub struct RoomPasswordView {
    pub room: Seq<char>,
    pub password: Seq<char>,
}

impl View for RoomPassword {
    type V = RoomPasswordView;

    open spec fn view(&self) -> RoomPasswordView {
        RoomPasswordView { room: self.room@, password: self.password@ }
    }
}

pub open spec fn password_views(list: Seq<RoomPassword>) -> Seq<RoomPasswordView> {
    Seq::new(list.len(), |i: int| list[i]@)
}

pub open spec fn password_rooms(list: Seq<RoomPasswordView>) -> Seq<Seq<char>> {
    Seq::new(list.len(), |i: int| list[i].room)
}

/// The password kept for a room, if there is one.
pub open spec fn password_of(list: Seq<RoomPasswordView>, room: Seq<char>) -> Option<Seq<char>> {
    let i = first_index_of(password_rooms(list), room);
    if i >= 0 {
        Some(list[i].password)
    } else {
        None
    }
}

/// The session.
pub struct Session {
    pub config: UserPreferences,
    pub client_state: ClientState,
    pub playlist: Playlist,
    pub sync_engine: SyncEngine,
    pub ping_service: PingService,
    pub server_features: ServerFeatures,
    pub ignoring_on_the_fly: IgnoringCounters,
    pub local_playback_state: LocalPlaybackState,
    pub player_kind: Option<PlayerKind>,
    pub player_state: PlayerState,
    pub connected: bool,
    pub authenticated: bool,
    pub manual_disconnect: bool,
    pub server_supports_tls: bool,
    pub client_supports_tls: bool,
    pub hello_sent: bool,
    pub last_hello: Option<HelloMessage>,
    pub reconnect_state: ReconnectState,
    pub has_reconnect_snapshot: bool,
    pub autoplay: AutoplayState,
    pub room_warning_state: RoomWarningState,
    pub warning_timers: WarningTimers,
    pub room_warning_task_running: bool,
    pub controlled_room_passwords: Vec<RoomPassword>,
    pub last_control_password_attempt: Option<String>,
    pub room_list: Vec<String>,
    pub last_seek_from_position: Option<i64>,
    pub last_latency_calculation: Option<i64>,
    pub had_first_playlist_index: bool,
    pub playlist_may_need_restoring: bool,
    pub suppress_next_file_update: bool,
    pub suppress_unpause_check: bool,
    pub last_global_update: Option<u64>,
    pub last_rewind_time: Option<u64>,
    pub last_advance_time: Option<u64>,
    pub last_updated_file_time: Option<u64>,
    pub last_paused_on_leave_time: Option<u64>,
    pub last_connect_time: Option<u64>,
}

pub struct SessionView {
    pub config: UserPreferences,
    pub client: ClientStateView,
    pub playlist: PlaylistView,
    pub engine: SyncEngineView,
    pub ping: PingView,
    pub features: ServerFeatures,
    pub ignoring: IgnoringCounters,
    pub local: LocalPlaybackState,
    pub player_kind: Option<PlayerKind>,
    pub player_state: PlayerStateView,
    pub connected: bool,
    pub authenticated: bool,
    pub manual_disconnect: bool,
    pub server_supports_tls: bool,
    pub client_supports_tls: bool,
    pub hello_sent: bool,
    pub last_hello: Option<HelloMessageView>,
    pub reconnect: ReconnectState,
    pub has_reconnect_snapshot: bool,
    pub autoplay: AutoplayState,
    pub warnings: RoomWarningView,
    pub warning_timers: WarningTimers,
    pub room_warning_task_running: bool,
    pub passwords: Seq<RoomPasswordView>,
    pub last_control_password_attempt: Option<Seq<char>>,
    pub room_list: Seq<Seq<char>>,
    pub last_seek_from_position: Option<i64>,
    pub last_latency_calculation: Option<i64>,
    pub had_first_playlist_index: bool,
    pub playlist_may_need_restoring: bool,
    pub suppress_next_file_update: bool,
    pub suppress_unpause_check: bool,
    pub last_global_update: Option<u64>,
    pub last_rewind_time: Option<u64>,
    pub last_advance_time: Option<u64>,
    pub last_updated_file_time: Option<u64>,
    pub last_paused_on_leave_time: Option<u64>,
    pub last_connect_time: Option<u64>,
}

impl View for Session {
    type V = SessionView;

    open spec fn view(&self) -> SessionView {
        SessionView {
            config: self.config,
            client: self.client_state@,
            playlist: self.playlist@,
            engine: self.sync_engine@,
            ping: self.ping_service@,
            features: self.server_features,
            ignoring: self.ignoring_on_the_fly,
            local: self.local_playback_state,
            player_kind: self.player_kind,
            player_state: self.player_state@,
            connected: self.connected,
            authenticated: self.authenticated,
            manual_disconnect: self.manual_disconnect,
            server_supports_tls: self.server_supports_tls,
            client_supports_tls: self.client_supports_tls,
            hello_sent: self.hello_sent,
            last_hello: opt_view(self.last_hello),
            reconnect: self.reconnect_state,
            has_reconnect_snapshot: self.has_reconnect_snapshot,
            autoplay: self.autoplay,
            warnings: self.room_warning_state@,
            warning_timers: self.warning_timers,
            room_warning_task_running: self.room_warning_task_running,
            passwords: password_views(self.controlled_room_passwords@),
            last_control_password_attempt: opt_view(self.last_control_password_attempt),
            room_list: self.room_list.deep_view(),
            last_seek_from_position: self.last_seek_from_position,
            last_latency_calculation: self.last_latency_calculation,
            had_first_playlist_index: self.had_first_playlist_index,
            playlist_may_need_restoring: self.playlist_may_need_restoring,
            suppress_next_file_update: self.suppress_next_file_update,
            suppress_unpause_check: self.suppress_unpause_check,
            last_global_update: self.last_global_update,
            last_rewind_time: self.last_rewind_time,
            last_advance_time: self.last_advance_time,
            last_updated_file_time: self.last_updated_file_time,
            last_paused_on_leave_time: self.last_paused_on_leave_time,
            last_connect_time: self.last_connect_time,
        }
    }
}

pub open spec fn no_timer() -> WarningTimerState {
    WarningTimerState { active: false, displayed_for: 0 }
}

pub open spec fn no_timers() -> WarningTimers {
    WarningTimers { alone: no_timer(), file_differences: no_timer(), not_ready: no_timer() }
}

pub open spec fn no_warnings() -> RoomWarningView {
    RoomWarningView { alone: false, file_differences: None, not_ready: None }
}

impl Session {
    /// The invariant of a session: those of its parts.
    pub open spec fn wf(&self) -> bool {
        &&& self.client_state.wf()
        &&& self.playlist.wf()
        &&& self.ping_service.wf()
    }

    /// A session that has not yet connected.
    pub fn new(config: UserPreferences) -> (r: Self)
        ensures
            r.wf(),
            r@.config == config,
            r@.client.users.len() == 0,
            r@.client.file.is_none(),
            r@.playlist.items.len() == 0,
            r@.playlist.current_index.is_none(),
            !r@.playlist.switch_to_new_item,
            r@.ignoring == (IgnoringCounters { server: 0, client: 0 }),
            r@.local == (LocalPlaybackState { position: None, paused: None, seeked: false }),
            r@.features == no_features(),
            !r@.engine.slowdown_active,
            r@.engine.behind_first_detected.is_none(),
            !r@.connected && !r@.authenticated && !r@.hello_sent,
            r@.reconnect == (ReconnectState { enabled: false, running: false, attempts: 0 }),
            r@.last_global_update.is_none(),
            r@.last_rewind_time.is_none(),
            r@.last_advance_time.is_none(),
            r@.warnings == no_warnings(),
            r@.warning_timers == no_timers(),
            r@.passwords.len() == 0,
            !r@.playlist_may_need_restoring,
            !r@.had_first_playlist_index,
            r@.player_kind.is_none(),
    {
        let r = Session {
            config,
            client_state: ClientState::new(),
            playlist: Playlist::new(),
            sync_engine: SyncEngine::new(),
            ping_service: PingService::new(),
            server_features: ServerFeatures::default(),
            ignoring_on_the_fly: IgnoringCounters { server: 0, client: 0 },
            local_playback_state: LocalPlaybackState { position: None, paused: None, seeked: false },
            player_kind: None,
            player_state: PlayerState::default(),
            connected: false,
            authenticated: false,
            manual_disconnect: false,
            server_supports_tls: true,
            client_supports_tls: false,
            hello_sent: false,
            last_hello: None,
            reconnect_state: ReconnectState { enabled: false, running: false, attempts: 0 },
            has_reconnect_snapshot: false,
            autoplay: AutoplayState {
                enabled: config.autoplay_enabled,
                min_users: config.autoplay_min_users,
                require_same_filenames: config.autoplay_require_same_filenames,
                unpause_action: config.unpause_action,
                countdown_active: false,
                countdown_remaining: 0,
            },
            room_warning_state: RoomWarningState {
                alone: false,
                file_differences: None,
                not_ready: None,
            },
            warning_timers: WarningTimers {
                alone: WarningTimerState { active: false, displayed_for: 0 },
                file_differences: WarningTimerState { active: false, displayed_for: 0 },
                not_ready: WarningTimerState { active: false, displayed_for: 0 },
            },
            room_warning_task_running: false,
            controlled_room_passwords: Vec::new(),
            last_control_password_attempt: None,
            room_list: Vec::new(),
            last_seek_from_position: None,
            last_latency_calculation: None,
            had_first_playlist_index: false,
            playlist_may_need_restoring: false,
            suppress_next_file_update: false,
            suppress_unpause_check: false,
            last_global_update: None,
            last_rewind_time: None,
            last_advance_time: None,
            last_updated_file_time: None,
            last_paused_on_leave_time: None,
            last_connect_time: None,
        };
        assert(r@.passwords =~= Seq::empty());
        r
    }
}

} // verus!
