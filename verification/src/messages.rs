//! The values that travel between client and server. Positions, durations
//! and time stamps are in milliseconds.
use crate::text::{clone_opt_text, opt_view};
use vstd::prelude::*;

verus! {

/// A file's size as it is announced: the number of bytes, or a hash of it.
#[derive(Debug)]
pub enum FileSizeInfo {
    Number(u64),
    Text(String),
}

pub enum FileSizeView {
    Number(u64),
    Text(Seq<char>),
}

impl View for FileSizeInfo {
    type V = FileSizeView;

    open spec fn view(&self) -> FileSizeView {
        match self {
            FileSizeInfo::Number(n) => FileSizeView::Number(*n),
            FileSizeInfo::Text(t) => FileSizeView::Text(t@),
        }
    }
}

impl Clone for FileSizeInfo {
    fn clone(&self) -> (r: Self)
        ensures
            r@ == self@,
    {
        match self {
            FileSizeInfo::Number(n) => FileSizeInfo::Number(*n),
            FileSizeInfo::Text(t) => FileSizeInfo::Text(t.clone()),
        }
    }
}

/// A state of playback: where, whether paused, whether reached by a seek,
/// and who set it.
#[derive(Debug)]
pub struct PlayState {
    pub position: i64,
    pub paused: bool,
    pub do_seek: Option<bool>,
    pub set_by: Option<String>,
}

pub struct PlayStateView {
    pub position: i64,
    pub paused: bool,
    pub do_seek: Option<bool>,
    pub set_by: Option<Seq<char>>,
}

impl View for PlayState {
    type V = PlayStateView;

    open spec fn view(&self) -> PlayStateView {
        PlayStateView {
            position: self.position,
            paused: self.paused,
            do_seek: self.do_seek,
            set_by: opt_view(self.set_by),
        }
    }
}

impl Clone for PlayState {
    fn clone(&self) -> (r: Self)
        ensures
            r@ == self@,
    {
        PlayState {
            position: self.position,
            paused: self.paused,
            do_seek: self.do_seek,
            set_by: clone_opt_text(&self.set_by),
        }
    }
}

/// The time stamps by which the two sides measure the round trip.
#[derive(Debug, Clone, Copy, PartialEq, Eq, Structural)]
pub struct PingInfo {
    pub latency_calculation: Option<i64>,
    pub client_latency_calculation: Option<i64>,
    pub client_rtt: Option<i64>,
    pub server_rtt: Option<i64>,
}

/// The two counters by which the sides acknowledge each other's changes.
#[derive(Debug, Clone, Copy, PartialEq, Eq, Structural)]
pub struct IgnoringInfo {
    pub server: Option<u16>,
    pub client: Option<u16>,
}

/// A `State` message.
#[derive(Debug)]
pub struct StateMessage {
    pub playstate: Option<PlayState>,
    pub ping: Option<PingInfo>,
    pub ignoring_on_the_fly: Option<IgnoringInfo>,
}

pub struct StateMessageView {
    pub playstate: Option<PlayStateView>,
    pub ping: Option<PingInfo>,
    pub ignoring_on_the_fly: Option<IgnoringInfo>,
}

impl View for StateMessage {
    type V = StateMessageView;

    open spec fn view(&self) -> StateMessageView {
        StateMessageView {
            playstate: opt_view(self.playstate),
            ping: self.ping,
            ignoring_on_the_fly: self.ignoring_on_the_fly,
        }
    }
}

/// What is told of a file.
#[derive(Debug)]
pub struct FileInfo {
    pub name: Option<String>,
    pub size: Option<FileSizeInfo>,
    pub duration: Option<i64>,
}

pub struct FileInfoView {
    pub name: Option<Seq<char>>,
    pub size: Option<FileSizeView>,
    pub duration: Option<i64>,
}

impl View for FileInfo {
    type V = FileInfoView;

    open spec fn view(&self) -> FileInfoView {
        FileInfoView {
            name: opt_view(self.name),
            size: opt_view(self.size),
            duration: self.duration,
        }
    }
}

/// What the server tells of one user in a `Set` message.
#[derive(Debug)]
pub struct UserUpdate {
    pub username: String,
    pub room: Option<String>,
    pub file: Option<FileInfo>,
    pub left: Option<bool>,
    pub is_ready: Option<bool>,
    pub controller: Option<bool>,
}

pub struct UserUpdateView {
    pub username: Seq<char>,
    pub room: Option<Seq<char>>,
    pub file: Option<FileInfoView>,
    pub left: Option<bool>,
    pub is_ready: Option<bool>,
    pub controller: Option<bool>,
}

impl View for UserUpdate {
    type V = UserUpdateView;

    open spec fn view(&self) -> UserUpdateView {
        UserUpdateView {
            username: self.username@,
            room: opt_view(self.room),
            file: opt_view(self.file),
            left: self.left,
            is_ready: self.is_ready,
            controller: self.controller,
        }
    }
}

/// A change of readiness.
#[derive(Debug)]
pub struct ReadyState {
    pub username: Option<String>,
    pub is_ready: Option<bool>,
    pub manually_initiated: Option<bool>,
    pub set_by: Option<String>,
}

pub struct ReadyStateView {
    pub username: Option<Seq<char>>,
    pub is_ready: Option<bool>,
    pub manually_initiated: Option<bool>,
    pub set_by: Option<Seq<char>>,
}

impl View for ReadyState {
    type V = ReadyStateView;

    open spec fn view(&self) -> ReadyStateView {
        ReadyStateView {
            username: opt_view(self.username),
            is_ready: self.is_ready,
            manually_initiated: self.manually_initiated,
            set_by: opt_view(self.set_by),
        }
    }
}

/// A change of the selected playlist item.
#[derive(Debug)]
pub struct PlaylistIndexUpdate {
    pub user: Option<String>,
    pub index: Option<usize>,
}

pub struct PlaylistIndexUpdateView {
    pub user: Option<Seq<char>>,
    pub index: Option<usize>,
}

impl View for PlaylistIndexUpdate {
    type V = PlaylistIndexUpdateView;

    open spec fn view(&self) -> PlaylistIndexUpdateView {
        PlaylistIndexUpdateView { user: opt_view(self.user), index: self.index }
    }
}

/// A change of the playlist.
#[derive(Debug)]
pub struct PlaylistChange {
    pub user: Option<String>,
    pub files: Vec<String>,
}

pub struct PlaylistChangeView {
    pub user: Option<Seq<char>>,
    pub files: Seq<Seq<char>>,
}

impl View for PlaylistChange {
    type V = PlaylistChangeView;

    open spec fn view(&self) -> PlaylistChangeView {
        PlaylistChangeView { user: opt_view(self.user), files: self.files.deep_view() }
    }
}

/// The answer to an attempt to become a room's operator.
#[derive(Debug)]
pub struct ControllerAuth {
    pub room: Option<String>,
    pub password: Option<String>,
    pub user: Option<String>,
    pub success: Option<bool>,
}

pub struct ControllerAuthView {
    pub room: Option<Seq<char>>,
    pub password: Option<Seq<char>>,
    pub user: Option<Seq<char>>,
    pub success: Option<bool>,
}

impl View for ControllerAuth {
    type V = ControllerAuthView;

    open spec fn view(&self) -> ControllerAuthView {
        ControllerAuthView {
            room: opt_view(self.room),
            password: opt_view(self.password),
            user: opt_view(self.user),
            success: self.success,
        }
    }
}

/// A managed room that the server has made.
#[derive(Debug)]
pub struct NewControlledRoom {
    pub room_name: Option<String>,
    pub password: Option<String>,
}

pub struct NewControlledRoomView {
    pub room_name: Option<Seq<char>>,
    pub password: Option<Seq<char>>,
}

impl View for NewControlledRoom {
    type V = NewControlledRoomView;

    open spec fn view(&self) -> NewControlledRoomView {
        NewControlledRoomView {
            room_name: opt_view(self.room_name),
            password: opt_view(self.password),
        }
    }
}

/// A `Set` message: any of its parts may be missing.
#[derive(Debug)]
pub struct SetMessage {
    pub room: Option<String>,
    pub file: Option<FileInfo>,
    pub user: Option<Vec<UserUpdate>>,
    pub ready: Option<ReadyState>,
    pub playlist_index: Option<PlaylistIndexUpdate>,
    pub playlist_change: Option<PlaylistChange>,
    pub controller_auth: Option<ControllerAuth>,
    pub new_controlled_room: Option<NewControlledRoom>,
}

pub struct SetMessageView {
    pub room: Option<Seq<char>>,
    pub file: Option<FileInfoView>,
    pub user: Option<Seq<UserUpdateView>>,
    pub ready: Option<ReadyStateView>,
    pub playlist_index: Option<PlaylistIndexUpdateView>,
    pub playlist_change: Option<PlaylistChangeView>,
    pub controller_auth: Option<ControllerAuthView>,
    pub new_controlled_room: Option<NewControlledRoomView>,
}

pub open spec fn update_views(updates: Seq<UserUpdate>) -> Seq<UserUpdateView> {
    Seq::new(updates.len(), |i: int| updates[i]@)
}

impl View for SetMessage {
    type V = SetMessageView;

    open spec fn view(&self) -> SetMessageView {
        SetMessageView {
            room: opt_view(self.room),
            file: opt_view(self.file),
            user: match self.user {
                Some(u) => Some(update_views(u@)),
                None => None,
            },
            ready: opt_view(self.ready),
            playlist_index: opt_view(self.playlist_index),
            playlist_change: opt_view(self.playlist_change),
            controller_auth: opt_view(self.controller_auth),
            new_controlled_room: opt_view(self.new_controlled_room),
        }
    }
}

/// What the server may switch on or off or limit.
#[derive(Debug, Clone, Copy, PartialEq, Eq, Structural)]
pub struct FeatureList {
    pub feature_list: Option<bool>,
    pub shared_playlists: Option<bool>,
    pub chat: Option<bool>,
    pub readiness: Option<bool>,
    pub managed_rooms: Option<bool>,
    pub persistent_rooms: Option<bool>,
    pub set_others_readiness: Option<bool>,
    pub max_chat_message_length: Option<usize>,
    pub max_username_length: Option<usize>,
    pub max_room_name_length: Option<usize>,
    pub max_filename_length: Option<usize>,
}

/// A `Hello` message.
#[derive(Debug)]
pub struct HelloMessage {
    pub username: String,
    pub password: Option<String>,
    pub room: Option<String>,
    pub version: String,
    pub realversion: String,
    pub features: Option<FeatureList>,
    pub motd: Option<String>,
}

pub struct HelloMessageView {
    pub username: Seq<char>,
    pub password: Option<Seq<char>>,
    pub room: Option<Seq<char>>,
    pub version: Seq<char>,
    pub realversion: Seq<char>,
    pub features: Option<FeatureList>,
    pub motd: Option<Seq<char>>,
}

impl View for HelloMessage {
    type V = HelloMessageView;

    open spec fn view(&self) -> HelloMessageView {
        HelloMessageView {
            username: self.username@,
            password: opt_view(self.password),
            room: opt_view(self.room),
            version: self.version@,
            realversion: self.realversion@,
            features: self.features,
            motd: opt_view(self.motd),
        }
    }
}

impl Clone for HelloMessage {
    fn clone(&self) -> (r: Self)
        ensures
            r@ == self@,
    {
        HelloMessage {
            username: self.username.clone(),
            password: clone_opt_text(&self.password),
            room: clone_opt_text(&self.room),
            version: self.version.clone(),
            realversion: self.realversion.clone(),
            features: self.features,
            motd: clone_opt_text(&self.motd),
        }
    }
}

/// A user as a `List` message names them.
#[derive(Debug)]
pub struct ListedUser {
    pub room: String,
    pub username: String,
    pub file: Option<FileInfo>,
    pub is_ready: Option<bool>,
    pub controller: Option<bool>,
}

pub struct ListedUserView {
    pub room: Seq<char>,
    pub username: Seq<char>,
    pub file: Option<FileInfoView>,
    pub is_ready: Option<bool>,
    pub controller: Option<bool>,
}

impl View for ListedUser {
    type V = ListedUserView;

    open spec fn view(&self) -> ListedUserView {
        ListedUserView {
            room: self.room@,
            username: self.username@,
            file: opt_view(self.file),
            is_ready: self.is_ready,
            controller: self.controller,
        }
    }
}

pub open spec fn listed_views(users: Seq<ListedUser>) -> Seq<ListedUserView> {
    Seq::new(users.len(), |i: int| users[i]@)
}

/// What the client sends to the server.
#[derive(Debug)]
pub enum ClientMessage {
    /// The request to secure the connection.
    StartTls,
    /// The greeting.
    Hello(HelloMessage),
    /// The request for the list of users.
    RequestList,
    /// The client's state of playback, the time stamp of the server that is
    /// echoed, the client's round trip, and the counters.
    State {
        playstate: Option<PlayState>,
        latency_calculation: Option<i64>,
        client_rtt: i64,
        ignoring_on_the_fly: Option<IgnoringInfo>,
    },
    /// A state of playback without time stamps or counters.
    BareState { state: PlayState },
    /// The room to be in.
    SetRoom { name: String },
    /// The file that is open.
    SetFile { file: FileInfo },
    /// The readiness of a user.
    SetReady { username: String, is_ready: bool, manually_initiated: bool },
    /// The selected playlist item.
    SetPlaylistIndex { user: Option<String>, index: usize },
    /// The playlist.
    SetPlaylistChange { user: Option<String>, files: Vec<String> },
    /// The attempt to become a room's operator.
    ControllerAuth { room: String, password: String },
    /// A line of chat.
    Chat(String),
}

pub enum ClientMessageView {
    StartTls,
    Hello(HelloMessageView),
    RequestList,
    State {
        playstate: Option<PlayStateView>,
        latency_calculation: Option<i64>,
        client_rtt: i64,
        ignoring_on_the_fly: Option<IgnoringInfo>,
    },
    BareState { state: PlayStateView },
    SetRoom { name: Seq<char> },
    SetFile { file: FileInfoView },
    SetReady { username: Seq<char>, is_ready: bool, manually_initiated: bool },
    SetPlaylistIndex { user: Option<Seq<char>>, index: usize },
    SetPlaylistChange { user: Option<Seq<char>>, files: Seq<Seq<char>> },
    ControllerAuth { room: Seq<char>, password: Seq<char> },
    Chat(Seq<char>),
}

impl View for ClientMessage {
    type V = ClientMessageView;

    open spec fn view(&self) -> ClientMessageView {
        match self {
            ClientMessage::StartTls => ClientMessageView::StartTls,
            ClientMessage::Hello(h) => ClientMessageView::Hello(h@),
            ClientMessage::RequestList => ClientMessageView::RequestList,
            ClientMessage::State {
                playstate,
                latency_calculation,
                client_rtt,
                ignoring_on_the_fly,
            } => ClientMessageView::State {
                playstate: opt_view(*playstate),
                latency_calculation: *latency_calculation,
                client_rtt: *client_rtt,
                ignoring_on_the_fly: *ignoring_on_the_fly,
            },
            ClientMessage::BareState { state } => ClientMessageView::BareState { state: state@ },
            ClientMessage::SetRoom { name } => ClientMessageView::SetRoom { name: name@ },
            ClientMessage::SetFile { file } => ClientMessageView::SetFile { file: file@ },
            ClientMessage::SetReady {
                username,
                is_ready,
                manually_initiated,
            } => ClientMessageView::SetReady {
                username: username@,
                is_ready: *is_ready,
                manually_initiated: *manually_initiated,
            },
            ClientMessage::SetPlaylistIndex { user, index } => ClientMessageView::SetPlaylistIndex {
                user: opt_view(*user),
                index: *index,
            },
            ClientMessage::SetPlaylistChange {
                user,
                files,
            } => ClientMessageView::SetPlaylistChange {
                user: opt_view(*user),
                files: files.deep_view(),
            },
            ClientMessage::ControllerAuth { room, password } => ClientMessageView::ControllerAuth {
                room: room@,
                password: password@,
            },
            ClientMessage::Chat(text) => ClientMessageView::Chat(text@),
        }
    }
}

} // verus!
