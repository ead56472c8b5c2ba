//! The life of a connection: what the server can do, the greeting, the
//! securing of the connection, and connecting again after a loss.
use crate::control::{
    passwords_stored, reidentify_as_controller, reidentify_effects, reidentify_password,
    rooms_stored, store_control_password, store_effects,
};
use crate::messages::{
    listed_views, ClientMessage, ClientMessageView, FeatureList, HelloMessage, HelloMessageView,
    ListedUser, ListedUserView,
};
use crate::state::{with_user, User, UserChange, UserChangeView, UserView};
use crate::users::{is_placeholder, is_placeholder_username};
use crate::utils::{parse_controlled_room_input, room_and_password, truncate_text, truncated};
use crate::warnings::{
    autoplay_evaluated, autoplay_ready, countdown_effects, evaluate_autoplay, music_effects,
    update_room_warnings, update_warning_effects, warnings_updated,
};

use crate::session::{
    emit, fx, no_timers, no_warnings, Effect, EffectView, ReconnectState, RoomWarningState,
    ServerFeatures, Session, SessionView, TlsStatus, WarningTimerState, WarningTimers,
};
use crate::state::ClientStateView;
use crate::text::{contains_sub, copy_str, has_sub, opt_view, text2, text3, to_chars};
use crate::utils::{at_least, version_meets_min, version_numbers};
use vstd::prelude::*;

verus! {

pub const CONTROLLED_ROOMS_MIN_VERSION: &'static str = "1.3.0";

pub const USER_READY_MIN_VERSION: &'static str = "1.3.0";

pub const SHARED_PLAYLIST_MIN_VERSION: &'static str = "1.4.0";

pub const CHAT_MIN_VERSION: &'static str = "1.5.0";

pub const FEATURE_LIST_MIN_VERSION: &'static str = "1.5.0";

pub const SET_OTHERS_READINESS_MIN_VERSION: &'static str = "1.7.2";

pub const FALLBACK_MAX_CHAT_MESSAGE_LENGTH: usize = 50;

pub const FALLBACK_MAX_USERNAME_LENGTH: usize = 16;

pub const FALLBACK_MAX_ROOM_NAME_LENGTH: usize = 35;

pub const FALLBACK_MAX_FILENAME_LENGTH: usize = 250;

/// How often the client tries to connect again.
pub const RECONNECT_RETRIES: u32 = 999;

/// The first wait before connecting again, in milliseconds.
pub const RECONNECT_BASE_DELAY: u64 = 100;

/// The wait doubles with every attempt up to this many times.
pub const RECONNECT_MAX_EXPONENT: u32 = 5;

/// A version is at least another.
pub open spec fn version_at_least(version: Seq<char>, min: Seq<char>) -> bool {
    at_least(version_numbers(version), version_numbers(min))
}

pub open spec fn or_else<T>(o: Option<T>, d: T) -> T {
    match o {
        Some(x) => x,
        None => d,
    }
}

/// What a server of a version can do where it does not say: managed rooms
/// and readiness from 1.3.0, shared playlists from 1.4.0, chat and the list
/// of features from 1.5.0, the readiness of others from 1.7.2.
pub open spec fn features_of_version(version: Seq<char>) -> ServerFeatures {
    ServerFeatures {
        feature_list: version_at_least(version, "1.5.0"@),
        shared_playlists: version_at_least(version, "1.4.0"@),
        chat: version_at_least(version, "1.5.0"@),
        readiness: version_at_least(version, "1.3.0"@),
        managed_rooms: version_at_least(version, "1.3.0"@),
        persistent_rooms: false,
        set_others_readiness: version_at_least(version, "1.7.2"@),
        max_chat_message_length: Some(FALLBACK_MAX_CHAT_MESSAGE_LENGTH),
        max_username_length: Some(FALLBACK_MAX_USERNAME_LENGTH),
        max_room_name_length: Some(FALLBACK_MAX_ROOM_NAME_LENGTH),
        max_filename_length: Some(FALLBACK_MAX_FILENAME_LENGTH),
    }
}

pub open spec fn limit_or(o: Option<usize>, d: Option<usize>) -> Option<usize> {
    match o {
        Some(x) => Some(x),
        None => d,
    }
}

/// What a server can do: what it says, and for what it does not say, what
/// its version can do.
pub open spec fn features_announced(version: Seq<char>, list: Option<FeatureList>) -> ServerFeatures {
    let base = features_of_version(version);
    match list {
        None => base,
        Some(l) => ServerFeatures {
            feature_list: or_else(l.feature_list, base.feature_list),
            shared_playlists: or_else(l.shared_playlists, base.shared_playlists),
            chat: or_else(l.chat, base.chat),
            readiness: or_else(l.readiness, base.readiness),
            managed_rooms: or_else(l.managed_rooms, base.managed_rooms),
            persistent_rooms: or_else(l.persistent_rooms, base.persistent_rooms),
            set_others_readiness: or_else(l.set_others_readiness, base.set_others_readiness),
            max_chat_message_length: limit_or(
                l.max_chat_message_length,
                base.max_chat_message_length,
            ),
            max_username_length: limit_or(l.max_username_length, base.max_username_length),
            max_room_name_length: limit_or(l.max_room_name_length, base.max_room_name_length),
            max_filename_length: limit_or(l.max_filename_length, base.max_filename_length),
        },
    }
}

/// The complaint about playlists that a server cannot or will not share.
pub open spec fn playlist_complaint(version: Seq<char>, list: Option<FeatureList>) -> Seq<
    EffectView,
> {
    if !version_at_least(version, "1.4.0"@) {
        seq![
            EffectView::ErrorMessage("Shared playlists require server version 1.4.0 or later"@),
        ]
    } else if !features_announced(version, list).shared_playlists {
        seq![EffectView::ErrorMessage("Shared playlists are disabled by the server"@)]
    } else {
        Seq::empty()
    }
}

fn flag(o: Option<bool>, d: bool) -> (r: bool)
    ensures
        r == or_else(o, d),
{
    match o {
        Some(x) => x,
        None => d,
    }
}

fn limit(o: Option<usize>, d: Option<usize>) -> (r: Option<usize>)
    ensures
        r == limit_or(o, d),
{
    match o {
        Some(x) => Some(x),
        None => d,
    }
}

fn announced(server_version: &str, feature_list: &Option<FeatureList>) -> (r: ServerFeatures)
    ensures
        r == features_announced(server_version@, *feature_list),
{
    let base = ServerFeatures {
        feature_list: version_meets_min(server_version, FEATURE_LIST_MIN_VERSION),
        shared_playlists: version_meets_min(server_version, SHARED_PLAYLIST_MIN_VERSION),
        chat: version_meets_min(server_version, CHAT_MIN_VERSION),
        readiness: version_meets_min(server_version, USER_READY_MIN_VERSION),
        managed_rooms: version_meets_min(server_version, CONTROLLED_ROOMS_MIN_VERSION),
        persistent_rooms: false,
        set_others_readiness: version_meets_min(server_version, SET_OTHERS_READINESS_MIN_VERSION),
        max_chat_message_length: Some(FALLBACK_MAX_CHAT_MESSAGE_LENGTH),
        max_username_length: Some(FALLBACK_MAX_USERNAME_LENGTH),
        max_room_name_length: Some(FALLBACK_MAX_ROOM_NAME_LENGTH),
        max_filename_length: Some(FALLBACK_MAX_FILENAME_LENGTH),
    };
    match feature_list {
        None => base,
        Some(l) => ServerFeatures {
            feature_list: flag(l.feature_list, base.feature_list),
            shared_playlists: flag(l.shared_playlists, base.shared_playlists),
            chat: flag(l.chat, base.chat),
            readiness: flag(l.readiness, base.readiness),
            managed_rooms: flag(l.managed_rooms, base.managed_rooms),
            persistent_rooms: flag(l.persistent_rooms, base.persistent_rooms),
            set_others_readiness: flag(l.set_others_readiness, base.set_others_readiness),
            max_chat_message_length: limit(l.max_chat_message_length, base.max_chat_message_length),
            max_username_length: limit(l.max_username_length, base.max_username_length),
            max_room_name_length: limit(l.max_room_name_length, base.max_room_name_length),
            max_filename_length: limit(l.max_filename_length, base.max_filename_length),
        },
    }
}

fn complain_about_playlists(
    server_version: &str,
    features: &ServerFeatures,
    Ghost(list): Ghost<Option<FeatureList>>,
    effects: &mut Vec<Effect>,
)
    requires
        *features == features_announced(server_version@, list),
    ensures
        fx(*final(effects)) == fx(*old(effects)) + playlist_complaint(server_version@, list),
{
    if !version_meets_min(server_version, SHARED_PLAYLIST_MIN_VERSION) {
        emit(
            effects,
            Effect::ErrorMessage(
                text3(
                    "Shared playlists require server version ",
                    SHARED_PLAYLIST_MIN_VERSION,
                    " or later",
                ),
            ),
        );
        proof {
            reveal_strlit("Shared playlists require server version ");
            reveal_strlit("1.4.0");
            reveal_strlit(" or later");
            reveal_strlit("Shared playlists require server version 1.4.0 or later");
            assert("Shared playlists require server version "@ + "1.4.0"@ + " or later"@
                =~= "Shared playlists require server version 1.4.0 or later"@);
        }
        assert(fx(*effects) =~= fx(*old(effects)) + playlist_complaint(server_version@, list));
    } else if !features.shared_playlists {
        emit(effects, Effect::ErrorMessage(copy_str("Shared playlists are disabled by the server")));
        assert(fx(*effects) =~= fx(*old(effects)) + playlist_complaint(server_version@, list));
    } else {
        assert(fx(*effects) =~= fx(*old(effects)) + playlist_complaint(server_version@, list));
    }
}

/// Notes what the server can do, from its version and from what it says.
pub fn update_server_features(
    state: &mut Session,
    server_version: &str,
    feature_list: Option<FeatureList>,
    effects: &mut Vec<Effect>,
)
    ensures
        final(state)@ == (SessionView {
            features: features_announced(server_version@, feature_list),
            ..old(state)@
        }),
        final(state).wf() == old(state).wf(),
        fx(*final(effects)) == fx(*old(effects)) + playlist_complaint(
            server_version@,
            feature_list,
        ),
{
    let features = announced(server_version, &feature_list);
    complain_about_playlists(server_version, &features, Ghost(feature_list), effects);
    state.server_features = features;
}

// ---------------------------------------------------------------------------
// Connecting again
// ---------------------------------------------------------------------------

pub open spec fn pow2(n: nat) -> nat
    decreases n,
{
    if n == 0 {
        1
    } else {
        2 * pow2((n - 1) as nat)
    }
}

pub open spec fn least(a: int, b: int) -> int {
    if a < b {
        a
    } else {
        b
    }
}

/// The wait after `attempt` failed attempts, in milliseconds: a tenth of a
/// second, doubled with every attempt up to five times.
pub open spec fn delay_after(attempt: u32) -> nat {
    100 * pow2(least(attempt as int, 5) as nat)
}

pub fn reconnect_delay(attempt: u32) -> (r: u64)
    ensures
        r == delay_after(attempt),
{
    let exponent = if attempt < RECONNECT_MAX_EXPONENT {
        attempt
    } else {
        RECONNECT_MAX_EXPONENT
    };
    proof {
        reveal_with_fuel(pow2, 6);
    }
    if exponent == 0 {
        100
    } else if exponent == 1 {
        200
    } else if exponent == 2 {
        400
    } else if exponent == 3 {
        800
    } else if exponent == 4 {
        1600
    } else {
        3200
    }
}

/// The wait before attempt number `n`, counted from 1.
pub open spec fn delay_before_attempt(n: u32) -> nat {
    delay_after(if n == 0 {
        0
    } else {
        (n - 1) as u32
    })
}

/// The waits before the attempts are a tenth of a second times two to the
/// power of the attempt's number less one, at most five.
pub proof fn lemma_backoff(n: u32)
    requires
        n >= 1,
    ensures
        delay_before_attempt(n) == 100 * pow2(least(n - 1, 5) as nat),
        100 <= delay_before_attempt(n) <= 3200,
{
    reveal_with_fuel(pow2, 6);
}

pub fn reset_reconnect_state(state: &mut Session)
    ensures
        final(state)@ == (SessionView {
            reconnect: ReconnectState { running: false, attempts: 0, ..old(state)@.reconnect },
            ..old(state)@
        }),
        final(state).wf() == old(state).wf(),
{
    let r = state.reconnect_state;
    state.reconnect_state = ReconnectState { enabled: r.enabled, running: false, attempts: 0 };
}

/// Whether connecting again begins: there is somewhere to connect to, it is
/// wanted, and it is not being done already.
pub open spec fn reconnect_begins(s: SessionView) -> bool {
    s.has_reconnect_snapshot && !s.reconnect.running && s.reconnect.enabled
}

pub fn start_reconnect_loop(state: &mut Session) -> (r: bool)
    ensures
        r == reconnect_begins(old(state)@),
        final(state)@ == (SessionView {
            reconnect: ReconnectState {
                running: old(state)@.reconnect.running || r,
                ..old(state)@.reconnect
            },
            ..old(state)@
        }),
        final(state).wf() == old(state).wf(),
{
    let r = state.reconnect_state;
    let begins = state.has_reconnect_snapshot && !r.running && r.enabled;
    state.reconnect_state = ReconnectState {
        enabled: r.enabled,
        running: r.running || begins,
        attempts: r.attempts,
    };
    begins
}

/// What an attempt to connect again comes to.
#[derive(Clone, Copy, Debug, PartialEq, Eq, Structural)]
pub enum ReconnectStep {
    /// There is nowhere to connect to: the attempts end.
    Stop,
    /// Too many attempts have failed: the attempts end for good.
    GiveUp,
    /// Wait for so many milliseconds, then connect.
    Wait(u64),
}

pub open spec fn next_attempt(r: ReconnectState) -> u32 {
    if r.attempts < u32::MAX {
        (r.attempts + 1) as u32
    } else {
        r.attempts
    }
}

pub open spec fn reconnect_step(s: SessionView) -> ReconnectStep {
    if !s.has_reconnect_snapshot {
        ReconnectStep::Stop
    } else if next_attempt(s.reconnect) > RECONNECT_RETRIES {
        ReconnectStep::GiveUp
    } else {
        ReconnectStep::Wait(delay_before_attempt(next_attempt(s.reconnect)) as u64)
    }
}

pub open spec fn reconnect_after_step(s: SessionView) -> ReconnectState {
    match reconnect_step(s) {
        ReconnectStep::Stop => ReconnectState { running: false, attempts: 0, ..s.reconnect },
        ReconnectStep::GiveUp => ReconnectState { enabled: false, running: false, attempts: 0 },
        ReconnectStep::Wait(_) => ReconnectState {
            attempts: next_attempt(s.reconnect),
            ..s.reconnect
        },
    }
}

/// Whether the attempt is the first after the connection was lost.
pub open spec fn first_attempt(s: SessionView) -> bool {
    s.has_reconnect_snapshot && next_attempt(s.reconnect) == 1
}

/// What an attempt says and does before it waits: the first tells of the
/// loss and may pause the player, the one too many tells of the failure.
pub open spec fn reconnect_effects(s: SessionView) -> Seq<EffectView> {
    (if first_attempt(s) {
        seq![
            EffectView::EmitTlsStatus(TlsStatus::Unknown),
            EffectView::SystemMessage("Connection with server lost, attempting to reconnect"@),
        ] + (if s.config.pause_on_leave {
            seq![EffectView::PauseForLeave]
        } else {
            Seq::empty()
        })
    } else {
        Seq::empty()
    }) + (if reconnect_step(s) == ReconnectStep::GiveUp {
        seq![EffectView::ErrorMessage("Connection with server failed"@)]
    } else {
        Seq::empty()
    })
}

fn reconnect_plan(state: &Session, effects: &mut Vec<Effect>) -> (r: (ReconnectStep, ReconnectState, bool))
    ensures
        r.0 == reconnect_step(state@),
        r.1 == reconnect_after_step(state@),
        r.2 == first_attempt(state@),
        fx(*final(effects)) == fx(*old(effects)) + reconnect_effects(state@),
{
    let rs = state.reconnect_state;
    if !state.has_reconnect_snapshot {
        assert(fx(*effects) =~= fx(*old(effects)) + reconnect_effects(state@));
        return (
            ReconnectStep::Stop,
            ReconnectState { enabled: rs.enabled, running: false, attempts: 0 },
            false,
        );
    }
    let attempt: u32 = if rs.attempts < u32::MAX {
        rs.attempts + 1
    } else {
        rs.attempts
    };
    if attempt == 1 {
        emit(effects, Effect::EmitTlsStatus(TlsStatus::Unknown));
        emit(
            effects,
            Effect::SystemMessage(copy_str("Connection with server lost, attempting to reconnect")),
        );
        if state.config.pause_on_leave {
            emit(effects, Effect::PauseForLeave);
        }
    }
    if attempt > RECONNECT_RETRIES {
        emit(effects, Effect::ErrorMessage(copy_str("Connection with server failed")));
        assert(fx(*effects) =~= fx(*old(effects)) + reconnect_effects(state@));
        return (
            ReconnectStep::GiveUp,
            ReconnectState { enabled: false, running: false, attempts: 0 },
            attempt == 1,
        );
    }
    assert(fx(*effects) =~= fx(*old(effects)) + reconnect_effects(state@));
    (
        ReconnectStep::Wait(reconnect_delay(attempt - 1)),
        ReconnectState { enabled: rs.enabled, running: rs.running, attempts: attempt },
        attempt == 1,
    )
}

/// One attempt to connect again, up to the wait before it. The first
/// attempt forgets the state of the room and arms the restoring of the
/// playlist.
pub fn reconnect_attempt(state: &mut Session, effects: &mut Vec<Effect>) -> (r: ReconnectStep)
    ensures
        r == reconnect_step(old(state)@),
        final(state)@ == (SessionView {
            reconnect: reconnect_after_step(old(state)@),
            last_global_update: if first_attempt(old(state)@) {
                None
            } else {
                old(state)@.last_global_update
            },
            playlist_may_need_restoring: first_attempt(old(state)@)
                || old(state)@.playlist_may_need_restoring,
            ..old(state)@
        }),
        final(state).wf() == old(state).wf(),
        fx(*final(effects)) == fx(*old(effects)) + reconnect_effects(old(state)@),
{
    let (step, after, first) = reconnect_plan(state, effects);
    let update = if first {
        None
    } else {
        state.last_global_update
    };
    let restore = first || state.playlist_may_need_restoring;
    state.reconnect_state = after;
    state.last_global_update = update;
    state.playlist_may_need_restoring = restore;
    step
}

/// Whether the attempt goes on after the wait: connecting again may have
/// been given up meanwhile.
pub fn reconnect_after_wait(state: &mut Session) -> (r: bool)
    ensures
        r == old(state)@.reconnect.enabled,
        final(state)@ == (SessionView {
            reconnect: if old(state)@.reconnect.enabled {
                old(state)@.reconnect
            } else {
                ReconnectState { running: false, attempts: 0, ..old(state)@.reconnect }
            },
            ..old(state)@
        }),
        final(state).wf() == old(state).wf(),
{
    let rs = state.reconnect_state;
    let after = if rs.enabled {
        rs
    } else {
        ReconnectState { enabled: rs.enabled, running: false, attempts: 0 }
    };
    state.reconnect_state = after;
    rs.enabled
}

/// What the end of a connection asks for: nothing where there was none or
/// the user has ended it, else the news, and connecting again where that is
/// wanted.
pub open spec fn closed_effects(s: SessionView) -> Seq<EffectView> {
    if !s.connected || s.manual_disconnect {
        Seq::empty()
    } else {
        seq![
            EffectView::EmitConnectionStatus { connected: false },
            EffectView::EmitTlsStatus(TlsStatus::Unknown),
        ] + (if s.reconnect.enabled {
            seq![EffectView::StartReconnect]
        } else {
            seq![EffectView::SystemMessage("Disconnected from server"@)]
        })
    }
}

fn closing(state: &Session, effects: &mut Vec<Effect>) -> (lost: bool)
    ensures
        lost == (state@.connected && !state@.manual_disconnect),
        fx(*final(effects)) == fx(*old(effects)) + closed_effects(state@),
{
    if !state.connected || state.manual_disconnect {
        assert(fx(*effects) =~= fx(*old(effects)) + closed_effects(state@));
        return false;
    }
    emit(effects, Effect::EmitConnectionStatus { connected: false });
    emit(effects, Effect::EmitTlsStatus(TlsStatus::Unknown));
    if state.reconnect_state.enabled {
        emit(effects, Effect::StartReconnect);
    } else {
        emit(effects, Effect::SystemMessage(copy_str("Disconnected from server")));
    }
    assert(fx(*effects) =~= fx(*old(effects)) + closed_effects(state@));
    true
}

fn warnings_or_none(lost: bool, w: &RoomWarningState) -> (r: RoomWarningState)
    ensures
        r@ == (if lost {
            no_warnings()
        } else {
            w@
        }),
{
    if lost {
        RoomWarningState { alone: false, file_differences: None, not_ready: None }
    } else {
        RoomWarningState {
            alone: w.alone,
            file_differences: crate::text::clone_opt_text(&w.file_differences),
            not_ready: crate::text::clone_opt_text(&w.not_ready),
        }
    }
}

fn timers_or_none(lost: bool, t: WarningTimers) -> (r: WarningTimers)
    ensures
        r == (if lost {
            no_timers()
        } else {
            t
        }),
{
    if lost {
        WarningTimers {
            alone: WarningTimerState { active: false, displayed_for: 0 },
            file_differences: WarningTimerState { active: false, displayed_for: 0 },
            not_ready: WarningTimerState { active: false, displayed_for: 0 },
        }
    } else {
        t
    }
}

/// The connection has ended. Where the user ended it, that is all; else the
/// warnings are forgotten and the client may connect again.
pub fn handle_connection_closed(state: &mut Session, effects: &mut Vec<Effect>)
    ensures
        final(state)@ == (SessionView {
            connected: false,
            authenticated: false,
            manual_disconnect: !old(state)@.connected && old(state)@.manual_disconnect,
            warnings: if old(state)@.connected && !old(state)@.manual_disconnect {
                no_warnings()
            } else {
                old(state)@.warnings
            },
            warning_timers: if old(state)@.connected && !old(state)@.manual_disconnect {
                no_timers()
            } else {
                old(state)@.warning_timers
            },
            room_warning_task_running: !(old(state)@.connected && !old(state)@.manual_disconnect)
                && old(state)@.room_warning_task_running,
            ..old(state)@
        }),
        final(state).wf() == old(state).wf(),
        fx(*final(effects)) == fx(*old(effects)) + closed_effects(old(state)@),
{
    let lost = closing(state, effects);
    let manual = !state.connected && state.manual_disconnect;
    let w = warnings_or_none(lost, &state.room_warning_state);
    let t = timers_or_none(lost, state.warning_timers);
    let running = !lost && state.room_warning_task_running;
    state.connected = false;
    state.authenticated = false;
    state.manual_disconnect = manual;
    state.room_warning_state = w;
    state.warning_timers = t;
    state.room_warning_task_running = running;
}

// ---------------------------------------------------------------------------
// Readiness and greeting
// ---------------------------------------------------------------------------

/// The announcement of the client's readiness, where the server knows
/// readiness and there is a connection.
pub open spec fn ready_send_effects(s: SessionView, is_ready: bool, manually_initiated: bool) -> Seq<
    EffectView,
> {
    if s.features.readiness && s.connected {
        seq![
            EffectView::Send(
                ClientMessageView::SetReady {
                    username: s.client.username,
                    is_ready,
                    manually_initiated,
                },
            ),
        ]
    } else {
        Seq::empty()
    }
}

pub(crate) fn ready_plan(state: &Session, is_ready: bool, manually_initiated: bool, effects: &mut Vec<Effect>) -> (r:
    (Option<bool>, Result<(), String>))
    ensures
        r.0 == (if state@.features.readiness {
            Some(is_ready)
        } else {
            None
        }),
        match r.1 {
            Ok(_) => !state@.features.readiness || state@.connected,
            Err(e) => state@.features.readiness && !state@.connected && e@
                == "Not connected to server"@,
        },
        fx(*final(effects)) == fx(*old(effects)) + ready_send_effects(
            state@,
            is_ready,
            manually_initiated,
        ),
{
    if !state.server_features.readiness {
        assert(fx(*effects) =~= fx(*old(effects)) + Seq::empty());
        return (None, Ok(()));
    }
    if !state.connected {
        assert(fx(*effects) =~= fx(*old(effects)) + Seq::empty());
        return (Some(is_ready), Err(copy_str("Not connected to server")));
    }
    emit(
        effects,
        Effect::Send(
            ClientMessage::SetReady {
                username: state.client_state.get_username(),
                is_ready,
                manually_initiated,
            },
        ),
    );
    assert(fx(*effects) =~= fx(*old(effects)) + ready_send_effects(
        state@,
        is_ready,
        manually_initiated,
    ));
    (Some(is_ready), Ok(()))
}

/// Sets the client's readiness and tells the server. Nothing happens where
/// the server does not know readiness.
pub fn send_ready_state(
    state: &mut Session,
    is_ready: bool,
    manually_initiated: bool,
    effects: &mut Vec<Effect>,
) -> (r: Result<(), String>)
    ensures
        final(state)@ == (SessionView {
            client: ClientStateView {
                is_ready: if old(state)@.features.readiness {
                    is_ready
                } else {
                    old(state)@.client.is_ready
                },
                ..old(state)@.client
            },
            ..old(state)@
        }),
        final(state).wf() == old(state).wf(),
        match r {
            Ok(_) => !old(state)@.features.readiness || old(state)@.connected,
            Err(e) => old(state)@.features.readiness && !old(state)@.connected && e@
                == "Not connected to server"@,
        },
        fx(*final(effects)) == fx(*old(effects)) + ready_send_effects(
            old(state)@,
            is_ready,
            manually_initiated,
        ),
{
    let (ready, r) = ready_plan(state, is_ready, manually_initiated, effects);
    state.client_state.set_ready_if(ready);
    r
}

/// Whether the greeting goes out now: it has not gone out, there is one,
/// and there is a connection.
pub open spec fn sends_hello(s: SessionView) -> bool {
    !s.hello_sent && s.last_hello.is_some() && s.connected
}

/// The session after the greeting was due.
#[verifier::opaque]
pub open spec fn hello_sent(s: SessionView) -> SessionView {
    SessionView {
        hello_sent: s.hello_sent || sends_hello(s),
        client: ClientStateView {
            is_ready: if sends_hello(s) && s.features.readiness {
                s.config.ready_at_start
            } else {
                s.client.is_ready
            },
            ..s.client
        },
        ..s
    }
}

/// The greeting, and after it the client's readiness at the start.
#[verifier::opaque]
pub open spec fn hello_effects(s: SessionView) -> Seq<EffectView> {
    if sends_hello(s) {
        seq![EffectView::Send(ClientMessageView::Hello(s.last_hello.unwrap()))]
            + ready_send_effects(s, s.config.ready_at_start, false)
    } else {
        Seq::empty()
    }
}

fn hello_plan(state: &Session, effects: &mut Vec<Effect>) -> (r: (bool, Option<bool>))
    ensures
        r.0 == (state@.hello_sent || sends_hello(state@)),
        r.1 == (if sends_hello(state@) && state@.features.readiness {
            Some(state@.config.ready_at_start)
        } else {
            None
        }),
        fx(*final(effects)) == fx(*old(effects)) + hello_effects(state@),
{
    proof {
        reveal(hello_effects);
    }
    if state.hello_sent {
        assert(fx(*effects) =~= fx(*old(effects)) + Seq::empty());
        return (true, None);
    }
    let hello = match &state.last_hello {
        Some(h) => h.clone(),
        None => {
            assert(fx(*effects) =~= fx(*old(effects)) + Seq::empty());
            return (false, None);
        },
    };
    if !state.connected {
        assert(fx(*effects) =~= fx(*old(effects)) + Seq::empty());
        return (false, None);
    }
    emit(effects, Effect::Send(ClientMessage::Hello(hello)));
    let ghost mid = fx(*effects);
    let (ready, _) = ready_plan(state, state.config.ready_at_start, false, effects);
    assert(fx(*effects) =~= fx(*old(effects)) + hello_effects(state@));
    (true, ready)
}

/// Sends the greeting once, and after it the client's readiness.
pub fn send_hello(state: &mut Session, effects: &mut Vec<Effect>)
    ensures
        final(state)@ == hello_sent(old(state)@),
        final(state).wf() == old(state).wf(),
        fx(*final(effects)) == fx(*old(effects)) + hello_effects(old(state)@),
{
    let (sent, ready) = hello_plan(state, effects);
    apply_hello(state, sent, ready);
    assert(state@ == hello_sent(old(state)@)) by {
        reveal(hello_sent);
    }
}

fn apply_hello(state: &mut Session, sent: bool, ready: Option<bool>)
    ensures
        final(state)@ == (SessionView {
            hello_sent: sent,
            client: ClientStateView {
                is_ready: match ready {
                    Some(r) => r,
                    None => old(state)@.client.is_ready,
                },
                ..old(state)@.client
            },
            ..old(state)@
        }),
        final(state).wf() == old(state).wf(),
{
    state.hello_sent = sent;
    state.client_state.set_ready_if(ready);
}

// ---------------------------------------------------------------------------
// Securing the connection
// ---------------------------------------------------------------------------

/// The server's answer to the request to secure the connection.
#[derive(Clone, Copy, Debug, PartialEq, Eq, Structural)]
pub enum TlsAnswer {
    /// The server secures the connection.
    Accepted,
    /// The server does not secure connections.
    Refused,
    /// Anything else.
    Other,
}

pub open spec fn tls_answer(answer: Option<Seq<char>>) -> TlsAnswer {
    match answer {
        Some(a) => if a == "true"@ {
            TlsAnswer::Accepted
        } else if a == "false"@ {
            TlsAnswer::Refused
        } else {
            TlsAnswer::Other
        },
        None => TlsAnswer::Other,
    }
}

pub fn read_tls_answer(answer: Option<&str>) -> (r: TlsAnswer)
    ensures
        r == tls_answer(opt_view(answer)),
{
    match answer {
        Some(a) => {
            let c = to_chars(a);
            if crate::text::same_chars(&c, &to_chars("true")) {
                TlsAnswer::Accepted
            } else if crate::text::same_chars(&c, &to_chars("false")) {
                TlsAnswer::Refused
            } else {
                TlsAnswer::Other
            }
        },
        None => TlsAnswer::Other,
    }
}

/// The session with the server known not to secure connections.
pub open spec fn tls_refused(s: SessionView) -> SessionView {
    hello_sent(SessionView { server_supports_tls: false, ..s })
}

pub open spec fn tls_refused_effects(s: SessionView) -> Seq<EffectView> {
    seq![EffectView::EmitTlsStatus(TlsStatus::Unsupported)] + hello_effects(
        SessionView { server_supports_tls: false, ..s },
    )
}

fn refuse_tls(state: &mut Session, effects: &mut Vec<Effect>)
    ensures
        final(state)@ == tls_refused(old(state)@),
        final(state).wf() == old(state).wf(),
        fx(*final(effects)) == fx(*old(effects)) + tls_refused_effects(old(state)@),
{
    emit(effects, Effect::EmitTlsStatus(TlsStatus::Unsupported));
    let ghost mid = fx(*effects);
    set_server_tls(state, false);
    send_hello(state, effects);
    assert(fx(*effects) =~= fx(*old(effects)) + tls_refused_effects(old(state)@));
}

fn set_server_tls(state: &mut Session, supported: bool)
    ensures
        final(state)@ == (SessionView { server_supports_tls: supported, ..old(state)@ }),
        final(state).wf() == old(state).wf(),
{
    state.server_supports_tls = supported;
}

/// The session after the server's answer to the request to secure the
/// connection. An answer without a connection counts for nothing.
#[verifier::opaque]
pub open spec fn tls_handled(s: SessionView, answer: TlsAnswer) -> SessionView {
    if s.connected && answer == TlsAnswer::Refused {
        tls_refused(s)
    } else {
        s
    }
}

/// What the server's answer asks for: the securing of the connection, or
/// the greeting over the open connection.
#[verifier::opaque]
pub open spec fn tls_handled_effects(s: SessionView, answer: TlsAnswer) -> Seq<EffectView> {
    if !s.connected {
        Seq::empty()
    } else {
        match answer {
            TlsAnswer::Accepted => seq![EffectView::UpgradeTls],
            TlsAnswer::Refused => tls_refused_effects(s),
            TlsAnswer::Other => Seq::empty(),
        }
    }
}

/// Takes the server's answer to the request to secure the connection.
pub fn handle_tls_message(state: &mut Session, answer: Option<&str>, effects: &mut Vec<Effect>)
    ensures
        final(state)@ == tls_handled(old(state)@, tls_answer(opt_view(answer))),
        final(state).wf() == old(state).wf(),
        fx(*final(effects)) == fx(*old(effects)) + tls_handled_effects(
            old(state)@,
            tls_answer(opt_view(answer)),
        ),
{
    proof {
        reveal(tls_handled);
        reveal(tls_handled_effects);
    }
    let a = read_tls_answer(answer);
    if !state.connected {
        assert(fx(*effects) =~= fx(*old(effects)) + Seq::empty());
        return ;
    }
    match a {
        TlsAnswer::Accepted => {
            emit(effects, Effect::UpgradeTls);
            assert(fx(*effects) =~= fx(*old(effects)) + seq![EffectView::UpgradeTls]);
        },
        TlsAnswer::Refused => {
            refuse_tls(state, effects);
        },
        TlsAnswer::Other => {
            assert(fx(*effects) =~= fx(*old(effects)) + Seq::empty());
        },
    }
}

/// What the end of the attempt to secure the connection asks for: the news
/// of how it went, and the greeting. `protocol` is the version of TLS that
/// was agreed on, where one was and is known.
#[verifier::opaque]
pub open spec fn tls_finished_effects(
    s: SessionView,
    secured: bool,
    protocol: Option<Seq<char>>,
) -> Seq<EffectView> {
    (if secured {
        seq![
            EffectView::EmitTlsStatus(TlsStatus::Enabled),
            EffectView::SystemMessage(
                "Secure connection established ("@ + (match protocol {
                    Some(p) => p,
                    None => "TLS"@,
                }) + ")"@,
            ),
        ]
    } else {
        seq![EffectView::EmitTlsStatus(TlsStatus::Unsupported)]
    }) + hello_effects(s)
}

/// Takes the end of the attempt to secure the connection.
pub fn tls_upgrade_finished(
    state: &mut Session,
    secured: bool,
    protocol: Option<&str>,
    effects: &mut Vec<Effect>,
)
    ensures
        final(state)@ == hello_sent(old(state)@),
        final(state).wf() == old(state).wf(),
        fx(*final(effects)) == fx(*old(effects)) + tls_finished_effects(
            old(state)@,
            secured,
            opt_view(protocol),
        ),
{
    proof {
        reveal(tls_finished_effects);
    }
    if secured {
        emit(effects, Effect::EmitTlsStatus(TlsStatus::Enabled));
        let name = match protocol {
            Some(p) => p,
            None => "TLS",
        };
        emit(effects, Effect::SystemMessage(text3("Secure connection established (", name, ")")));
    } else {
        emit(effects, Effect::EmitTlsStatus(TlsStatus::Unsupported));
    }
    let ghost mid = fx(*effects);
    send_hello(state, effects);
    assert(fx(*effects) =~= fx(*old(effects)) + tls_finished_effects(
        old(state)@,
        secured,
        opt_view(protocol),
    ));
}

// ---------------------------------------------------------------------------
// Errors and chat
// ---------------------------------------------------------------------------

/// An error that only says that the server does not secure connections:
/// it names `startTLS` and comes before the server has accepted the client.
pub open spec fn is_tls_error(s: SessionView, message: Seq<char>) -> bool {
    contains_sub(message, "startTLS"@) && !s.authenticated
}

/// The session after an error of the server: without security where that
/// is all the error says, else without the wish to connect again.
#[verifier::opaque]
pub open spec fn error_handled(s: SessionView, message: Seq<char>) -> SessionView {
    if is_tls_error(s, message) {
        tls_refused(s)
    } else {
        SessionView {
            reconnect: ReconnectState { enabled: false, running: false, ..s.reconnect },
            ..s
        }
    }
}

#[verifier::opaque]
pub open spec fn error_effects(s: SessionView, message: Seq<char>) -> Seq<EffectView> {
    if is_tls_error(s, message) {
        tls_refused_effects(s)
    } else {
        seq![EffectView::ErrorMessage(message)] + (if s.connected {
            seq![EffectView::Disconnect]
        } else {
            Seq::empty()
        })
    }
}

fn give_up(state: &mut Session, message: &str, effects: &mut Vec<Effect>)
    ensures
        final(state)@ == (SessionView {
            reconnect: ReconnectState {
                enabled: false,
                running: false,
                ..old(state)@.reconnect
            },
            ..old(state)@
        }),
        final(state).wf() == old(state).wf(),
        fx(*final(effects)) == fx(*old(effects)) + seq![EffectView::ErrorMessage(message@)] + (
        if old(state)@.connected {
            seq![EffectView::Disconnect]
        } else {
            Seq::empty()
        }),
{
    emit(effects, Effect::ErrorMessage(copy_str(message)));
    if state.connected {
        emit(effects, Effect::Disconnect);
        assert(fx(*effects) =~= fx(*old(effects)) + seq![EffectView::ErrorMessage(message@)]
            + seq![EffectView::Disconnect]);
    } else {
        assert(fx(*effects) =~= fx(*old(effects)) + seq![EffectView::ErrorMessage(message@)]
            + Seq::empty());
    }
    let r = state.reconnect_state;
    state.reconnect_state = ReconnectState { enabled: false, running: false, attempts: r.attempts };
}

/// Takes an error of the server.
pub fn handle_error(state: &mut Session, message: &str, effects: &mut Vec<Effect>)
    ensures
        final(state)@ == error_handled(old(state)@, message@),
        final(state).wf() == old(state).wf(),
        fx(*final(effects)) == fx(*old(effects)) + error_effects(old(state)@, message@),
{
    proof {
        reveal(error_handled);
        reveal(error_effects);
    }
    if has_sub(&to_chars(message), &to_chars("startTLS")) && !state.authenticated {
        refuse_tls(state, effects);
    } else {
        give_up(state, message, effects);
    }
}

/// What a line of chat asks for: it is shown in the player, where there is
/// one, and in the chat; nothing where the server or the user has no chat.
#[verifier::opaque]
pub open spec fn chat_effects(s: SessionView, username: Option<Seq<char>>, message: Seq<char>) -> Seq<
    EffectView,
> {
    if !s.features.chat || !s.config.chat_output_enabled {
        Seq::empty()
    } else {
        (if s.player_kind.is_some() {
            seq![EffectView::PlayerChat { username, message }]
        } else {
            Seq::empty()
        }) + seq![EffectView::ChatLine { username, message }]
    }
}

/// Takes a line of chat from the server.
pub fn handle_chat(state: &Session, username: Option<&str>, message: &str, effects: &mut Vec<Effect>)
    ensures
        fx(*final(effects)) == fx(*old(effects)) + chat_effects(
            state@,
            opt_view(username),
            message@,
        ),
{
    proof {
        reveal(chat_effects);
    }
    if !state.server_features.chat || !state.config.chat_output_enabled {
        assert(fx(*effects) =~= fx(*old(effects)) + Seq::empty());
        return ;
    }
    if state.player_kind.is_some() {
        emit(
            effects,
            Effect::PlayerChat { username: copy_opt(username), message: copy_str(message) },
        );
    }
    emit(effects, Effect::ChatLine { username: copy_opt(username), message: copy_str(message) });
    assert(fx(*effects) =~= fx(*old(effects)) + chat_effects(state@, opt_view(username), message@));
}

fn copy_opt(o: Option<&str>) -> (r: Option<String>)
    ensures
        opt_view(r) == opt_view(o),
{
    match o {
        Some(s) => Some(copy_str(s)),
        None => None,
    }
}

// ---------------------------------------------------------------------------
// The server's greeting and list
// ---------------------------------------------------------------------------

/// The session with the server's greeting noted: the client is accepted,
/// and the server's version and features are known.
#[verifier::opaque]
pub open spec fn hello_noted(s: SessionView, hello: HelloMessageView, now: u64) -> SessionView {
    SessionView {
        authenticated: true,
        client: ClientStateView { server_version: Some(hello.realversion), ..s.client },
        features: features_announced(hello.realversion, hello.features),
        last_connect_time: Some(now),
        ..s
    }
}

/// The session after the server's greeting.
pub open spec fn hello_handled(s: SessionView, hello: HelloMessageView, now: u64) -> SessionView {
    SessionView {
        last_control_password_attempt: match reidentify_password(hello_noted(s, hello, now)) {
            Some(p) => Some(p),
            None => s.last_control_password_attempt,
        },
        ..hello_noted(s, hello, now)
    }
}

/// What the server's greeting asks for: the complaint about playlists that
/// the server does not share, the welcome, the server's message of the day,
/// the request for the users, and the request to operate the room.
#[verifier::opaque]
pub open spec fn hello_handled_effects(s: SessionView, hello: HelloMessageView, now: u64) -> Seq<
    EffectView,
> {
    (if s.connected {
        seq![EffectView::MarkAuthenticated]
    } else {
        Seq::empty()
    }) + playlist_complaint(hello.realversion, hello.features) + seq![
        EffectView::SystemMessage("Hello "@ + hello.username + ","@),
    ] + (match hello.motd {
        Some(m) => seq![EffectView::SystemMessage(m)],
        None => Seq::empty(),
    }) + seq![EffectView::SystemMessage("Successfully connected to server"@)] + (if s.connected {
        seq![EffectView::Send(ClientMessageView::RequestList)]
    } else {
        Seq::empty()
    }) + reidentify_effects(hello_noted(s, hello, now))
}

fn note_hello(state: &mut Session, hello: &HelloMessage, now: u64, effects: &mut Vec<Effect>)
    ensures
        final(state)@ == hello_noted(old(state)@, hello@, now),
        final(state).wf() == old(state).wf(),
        fx(*final(effects)) == fx(*old(effects)) + playlist_complaint(
            hello@.realversion,
            hello@.features,
        ),
{
    state.authenticated = true;
    state.client_state.set_server_version(hello.realversion.clone());
    update_server_features(state, hello.realversion.as_str(), hello.features, effects);
    state.last_connect_time = Some(now);
    assert(state@ == hello_noted(old(state)@, hello@, now)) by {
        reveal(hello_noted);
    }
}

fn welcome(connected: bool, hello: &HelloMessage, effects: &mut Vec<Effect>)
    ensures
        fx(*final(effects)) == fx(*old(effects)) + seq![
            EffectView::SystemMessage("Hello "@ + hello@.username + ","@),
        ] + (match hello@.motd {
            Some(m) => seq![EffectView::SystemMessage(m)],
            None => Seq::empty(),
        }) + seq![EffectView::SystemMessage("Successfully connected to server"@)] + (if connected {
            seq![EffectView::Send(ClientMessageView::RequestList)]
        } else {
            Seq::empty()
        }),
{
    emit(effects, Effect::SystemMessage(text3("Hello ", hello.username.as_str(), ",")));
    match &hello.motd {
        Some(m) => {
            emit(effects, Effect::SystemMessage(m.clone()));
        },
        None => {},
    }
    emit(effects, Effect::SystemMessage(copy_str("Successfully connected to server")));
    if connected {
        emit(effects, Effect::Send(ClientMessage::RequestList));
    }
    assert(fx(*effects) =~= fx(*old(effects)) + seq![
        EffectView::SystemMessage("Hello "@ + hello@.username + ","@),
    ] + (match hello@.motd {
        Some(m) => seq![EffectView::SystemMessage(m)],
        None => Seq::empty(),
    }) + seq![EffectView::SystemMessage("Successfully connected to server"@)] + (if connected {
        seq![EffectView::Send(ClientMessageView::RequestList)]
    } else {
        Seq::empty()
    }));
}

fn emit_authenticated(connected: bool, effects: &mut Vec<Effect>)
    ensures
        fx(*final(effects)) == fx(*old(effects)) + (if connected {
            seq![EffectView::MarkAuthenticated]
        } else {
            Seq::empty()
        }),
{
    if connected {
        emit(effects, Effect::MarkAuthenticated);
        assert(fx(*effects) =~= fx(*old(effects)) + seq![EffectView::MarkAuthenticated]);
    } else {
        assert(fx(*effects) =~= fx(*old(effects)) + Seq::empty());
    }
}

/// Takes the server's greeting.
pub fn handle_hello(state: &mut Session, hello: &HelloMessage, now: u64, effects: &mut Vec<Effect>)
    ensures
        final(state)@ == hello_handled(old(state)@, hello@, now),
        final(state).wf() == old(state).wf(),
        fx(*final(effects)) == fx(*old(effects)) + hello_handled_effects(old(state)@, hello@, now),
{
    let ghost s0 = state@;
    let ghost e0 = fx(*effects);
    let connected = state.connected;
    emit_authenticated(connected, effects);
    note_hello(state, hello, now, effects);
    let ghost e1 = fx(*effects);
    welcome(connected, hello, effects);
    let ghost e2 = fx(*effects);
    assert(hello_noted(s0, hello@, now).last_control_password_attempt
        == s0.last_control_password_attempt) by {
        reveal(hello_noted);
    }
    reidentify_as_controller(state, effects);
    assert(fx(*effects) =~= e0 + hello_handled_effects(s0, hello@, now)) by {
        reveal(hello_handled_effects);
    }
}

/// The user that a `List` message names.
pub open spec fn listed_user(u: ListedUserView) -> UserView {
    UserView {
        username: u.username,
        room: u.room,
        file: match u.file {
            Some(f) => f.name,
            None => None,
        },
        file_size: match u.file {
            Some(f) => f.size,
            None => None,
        },
        file_duration: match u.file {
            Some(f) => f.duration,
            None => None,
        },
        is_ready: u.is_ready,
        is_controller: u.controller == Some(true),
    }
}

/// The users that a list names, without those that stand for nobody; a
/// user who is named twice is who they are named last.
pub open spec fn users_listed(list: Seq<ListedUserView>) -> Seq<UserView>
    decreases list.len(),
{
    if list.len() == 0 {
        Seq::empty()
    } else if is_placeholder(list.last().username) {
        users_listed(list.drop_last())
    } else {
        with_user(users_listed(list.drop_last()), listed_user(list.last()))
    }
}

fn user_of(u: &ListedUser) -> (r: User)
    ensures
        r@ == listed_user(u@),
{
    User {
        username: u.username.clone(),
        room: u.room.clone(),
        file: match &u.file {
            Some(f) => crate::text::clone_opt_text(&f.name),
            None => None,
        },
        file_size: match &u.file {
            Some(f) => crate::state::clone_opt_size(&f.size),
            None => None,
        },
        file_duration: match &u.file {
            Some(f) => f.duration,
            None => None,
        },
        is_ready: u.is_ready,
        is_controller: match u.controller {
            Some(c) => c,
            None => false,
        },
    }
}

fn listed_change(u: &ListedUser) -> (r: UserChange)
    ensures
        r@ == (if is_placeholder(u@.username) {
            UserChangeView::Keep
        } else {
            UserChangeView::Put(listed_user(u@))
        }),
{
    if is_placeholder_username(u.username.as_str()) {
        UserChange::Keep
    } else {
        UserChange::Put(user_of(u))
    }
}

fn take_list(state: &mut Session, list: &Vec<ListedUser>)
    requires
        old(state).wf(),
    ensures
        final(state).wf(),
        final(state)@ == (SessionView {
            client: ClientStateView {
                users: users_listed(listed_views(list@)),
                ..old(state)@.client
            },
            ..old(state)@
        }),
{
    let ghost s0 = state@;
    let ghost l = listed_views(list@);
    state.client_state.clear_users();
    let mut i: usize = 0;
    assert(l.take(0) =~= Seq::<ListedUserView>::empty());
    while i < list.len()
        invariant
            i <= list.len(),
            l == listed_views(list@),
            state.wf(),
            state@ == (SessionView {
                client: ClientStateView { users: users_listed(l.take(i as int)), ..s0.client },
                ..s0
            }),
        decreases list.len() - i,
    {
        proof {
            assert(l.take(i + 1).drop_last() =~= l.take(i as int));
            assert(l.take(i + 1).last() == list@[i as int]@);
        }
        let change = listed_change(&list[i]);
        state.client_state.change_user(change);
        i = i + 1;
    }
    assert(l.take(list.len() as int) =~= l);
}

/// The session with the users of a list in place of those known before.
pub open spec fn list_taken(s: SessionView, list: Seq<ListedUserView>) -> SessionView {
    SessionView { client: ClientStateView { users: users_listed(list), ..s.client }, ..s }
}

/// The session after a `List` message: the users are those of the list, it
/// has been seen whether playback may start by itself, and the room has
/// been looked at.
pub open spec fn list_handled(s: SessionView, list: Seq<ListedUserView>, now: u64) -> SessionView {
    let s1 = list_taken(s, list);
    let s2 = SessionView { autoplay: autoplay_evaluated(s1.autoplay, autoplay_ready(s1, now)), ..s1 };
    warnings_updated(s2, false, now)
}

pub open spec fn list_effects(s: SessionView, list: Seq<ListedUserView>, now: u64) -> Seq<
    EffectView,
> {
    let s1 = list_taken(s, list);
    let s2 = SessionView { autoplay: autoplay_evaluated(s1.autoplay, autoplay_ready(s1, now)), ..s1 };
    seq![EffectView::EmitUserList] + music_effects(s1, now) + countdown_effects(
        s1.autoplay,
        autoplay_ready(s1, now),
    ) + update_warning_effects(s2, false, now)
}

/// Takes the list of users from the server.
pub fn handle_list(state: &mut Session, list: &Vec<ListedUser>, now: u64, effects: &mut Vec<Effect>)
    requires
        old(state).wf(),
    ensures
        final(state).wf(),
        final(state)@ == list_handled(old(state)@, listed_views(list@), now),
        fx(*final(effects)) == fx(*old(effects)) + list_effects(
            old(state)@,
            listed_views(list@),
            now,
        ),
{
    let ghost s0 = state@;
    let ghost e0 = fx(*effects);
    take_list(state, list);
    emit(effects, Effect::EmitUserList);
    let ghost e1 = fx(*effects);
    evaluate_autoplay(state, now, effects);
    let ghost e2 = fx(*effects);
    update_room_warnings(state, false, now, effects);
    assert(fx(*effects) =~= e0 + list_effects(s0, listed_views(list@), now));
}

// ---------------------------------------------------------------------------
// Connecting and disconnecting
// ---------------------------------------------------------------------------

/// The room that the user has asked for, as it is joined: without the
/// control password and cut to the length that every server takes.
pub open spec fn room_to_join(room: Seq<char>) -> Seq<char> {
    truncated(room_and_password(room).0, FALLBACK_MAX_ROOM_NAME_LENGTH as int)
}

/// The name under which the user connects: cut to the length that every
/// server takes.
pub open spec fn name_to_use(username: Seq<char>) -> Seq<char> {
    truncated(username, FALLBACK_MAX_USERNAME_LENGTH as int)
}

/// The control password in what the user has typed for the room.
pub open spec fn typed_password(room: Seq<char>) -> Seq<char> {
    match room_and_password(room).1 {
        Some(p) => p,
        None => Seq::empty(),
    }
}

/// The session as it sets out to connect.
#[verifier::opaque]
pub open spec fn connect_begun(s: SessionView, room: Seq<char>) -> SessionView {
    if s.connected {
        s
    } else {
        SessionView {
            passwords: passwords_stored(s, room_to_join(room), typed_password(room)),
            room_list: rooms_stored(s, room_to_join(room), typed_password(room), true),
            reconnect: ReconnectState { enabled: true, running: false, attempts: 0 },
            manual_disconnect: false,
            server_supports_tls: true,
            has_reconnect_snapshot: true,
            ..s
        }
    }
}

#[verifier::opaque]
pub open spec fn connect_begun_effects(s: SessionView, target: Seq<char>, room: Seq<char>) -> Seq<
    EffectView,
> {
    seq![EffectView::SystemMessage("Attempting to connect to "@ + target)] + (if s.connected {
        Seq::empty()
    } else {
        store_effects(s, room_to_join(room), typed_password(room), true)
    })
}

fn arm_reconnect(state: &mut Session)
    ensures
        final(state)@ == (SessionView {
            reconnect: ReconnectState { enabled: true, running: false, attempts: 0 },
            manual_disconnect: false,
            server_supports_tls: true,
            has_reconnect_snapshot: true,
            ..old(state)@
        }),
        final(state).wf() == old(state).wf(),
{
    state.reconnect_state = ReconnectState { enabled: true, running: false, attempts: 0 };
    state.manual_disconnect = false;
    state.server_supports_tls = true;
    state.has_reconnect_snapshot = true;
}

fn begin(state: &mut Session, room: &str, password: &str, effects: &mut Vec<Effect>)
    ensures
        final(state)@ == (SessionView {
            passwords: passwords_stored(old(state)@, room@, password@),
            room_list: rooms_stored(old(state)@, room@, password@, true),
            reconnect: ReconnectState { enabled: true, running: false, attempts: 0 },
            manual_disconnect: false,
            server_supports_tls: true,
            has_reconnect_snapshot: true,
            ..old(state)@
        }),
        final(state).wf() == old(state).wf(),
        fx(*final(effects)) == fx(*old(effects)) + store_effects(
            old(state)@,
            room@,
            password@,
            true,
        ),
{
    store_control_password(state, room, password, true, effects);
    arm_reconnect(state);
}

/// Sets out to connect to the server named by `target` (host and port) as
/// `username` in `room`. Gives the name and the room to connect with, or the
/// complaint that there is a connection already.
pub fn begin_connect(
    state: &mut Session,
    target: &str,
    username: &str,
    room: &str,
    effects: &mut Vec<Effect>,
) -> (r: Result<(String, String), String>)
    ensures
        final(state)@ == connect_begun(old(state)@, room@),
        final(state).wf() == old(state).wf(),
        match r {
            Ok(names) => !old(state)@.connected && names.0@ == name_to_use(username@) && names.1@
                == room_to_join(room@),
            Err(e) => old(state)@.connected && e@ == "Already connected to a server"@,
        },
        fx(*final(effects)) == fx(*old(effects)) + connect_begun_effects(
            old(state)@,
            target@,
            room@,
        ),
{
    proof {
        reveal(connect_begun);
        reveal(connect_begun_effects);
    }
    emit(effects, Effect::SystemMessage(text2("Attempting to connect to ", target)));
    let ghost mid = fx(*effects);
    if state.connected {
        assert(fx(*effects) =~= fx(*old(effects)) + connect_begun_effects(
            old(state)@,
            target@,
            room@,
        ));
        return Err(copy_str("Already connected to a server"));
    }
    let (normalized_room, control_password) = parse_controlled_room_input(room);
    let room_name = truncate_text(normalized_room.as_str(), FALLBACK_MAX_ROOM_NAME_LENGTH);
    let password = match control_password {
        Some(p) => p,
        None => String::new(),
    };
    let name = truncate_text(username, FALLBACK_MAX_USERNAME_LENGTH);
    begin(state, room_name.as_str(), password.as_str(), effects);
    assert(fx(*effects) =~= fx(*old(effects)) + connect_begun_effects(old(state)@, target@, room@));
    Ok((name, room_name))
}

/// The greeting that the client sends.
pub open spec fn greeting(
    s: SessionView,
    username: Seq<char>,
    room: Seq<char>,
    password: Option<Seq<char>>,
) -> HelloMessageView {
    HelloMessageView {
        username,
        password,
        room: Some(room),
        version: "1.2.255"@,
        realversion: "1.7.5"@,
        features: Some(
            FeatureList {
                feature_list: Some(true),
                shared_playlists: Some(s.config.shared_playlist_enabled),
                chat: Some(true),
                readiness: Some(true),
                managed_rooms: Some(true),
                persistent_rooms: Some(true),
                set_others_readiness: Some(true),
                max_chat_message_length: None,
                max_username_length: None,
                max_room_name_length: None,
                max_filename_length: None,
            },
        ),
        motd: None,
    }
}

/// The session with a connection made and the greeting prepared.
#[verifier::opaque]
pub open spec fn connection_made(
    s: SessionView,
    username: Seq<char>,
    room: Seq<char>,
    password: Option<Seq<char>>,
    client_supports_tls: bool,
) -> SessionView {
    SessionView {
        last_hello: Some(greeting(s, username, room, password)),
        hello_sent: false,
        client_supports_tls,
        connected: true,
        authenticated: false,
        ..s
    }
}

/// The session after a connection was made: the securing of the connection
/// has been asked for, or the greeting has gone out.
pub open spec fn established(
    s: SessionView,
    username: Seq<char>,
    room: Seq<char>,
    password: Option<Seq<char>>,
    client_supports_tls: bool,
) -> SessionView {
    let s1 = connection_made(s, username, room, password, client_supports_tls);
    if client_supports_tls && s.server_supports_tls {
        s1
    } else {
        hello_sent(s1)
    }
}

#[verifier::opaque]
pub open spec fn established_effects(
    s: SessionView,
    username: Seq<char>,
    room: Seq<char>,
    password: Option<Seq<char>>,
    client_supports_tls: bool,
    reached: Option<Seq<char>>,
) -> Seq<EffectView> {
    let s1 = connection_made(s, username, room, password, client_supports_tls);
    (match reached {
        Some(r) => seq![EffectView::SystemMessage("Successfully reached "@ + r)],
        None => Seq::empty(),
    }) + (if client_supports_tls && s.server_supports_tls {
        seq![
            EffectView::SystemMessage("Attempting secure connection"@),
            EffectView::Send(ClientMessageView::StartTls),
            EffectView::EmitTlsStatus(TlsStatus::Pending),
        ]
    } else {
        seq![
            if !client_supports_tls {
                EffectView::SystemMessage("This client does not support TLS"@)
            } else {
                EffectView::ErrorMessage("This server does not support TLS"@)
            },
            EffectView::EmitTlsStatus(TlsStatus::Unsupported),
        ] + hello_effects(s1)
    })
}

fn make_connection(
    state: &mut Session,
    username: &str,
    room: &str,
    password: Option<&str>,
    client_supports_tls: bool,
)
    ensures
        final(state)@ == connection_made(
            old(state)@,
            username@,
            room@,
            opt_view(password),
            client_supports_tls,
        ),
        final(state).wf() == old(state).wf(),
{
    let hello = HelloMessage {
        username: copy_str(username),
        password: copy_opt(password),
        room: Some(copy_str(room)),
        version: copy_str("1.2.255"),
        realversion: copy_str("1.7.5"),
        features: Some(
            FeatureList {
                feature_list: Some(true),
                shared_playlists: Some(state.config.shared_playlist_enabled),
                chat: Some(true),
                readiness: Some(true),
                managed_rooms: Some(true),
                persistent_rooms: Some(true),
                set_others_readiness: Some(true),
                max_chat_message_length: None,
                max_username_length: None,
                max_room_name_length: None,
                max_filename_length: None,
            },
        ),
        motd: None,
    };
    assert(hello@ == greeting(state@, username@, room@, opt_view(password)));
    state.last_hello = Some(hello);
    state.hello_sent = false;
    state.client_supports_tls = client_supports_tls;
    state.connected = true;
    state.authenticated = false;
    assert(state@ == connection_made(
        old(state)@,
        username@,
        room@,
        opt_view(password),
        client_supports_tls,
    )) by {
        reveal(connection_made);
    }
}

fn emit_reached(reached: Option<&str>, effects: &mut Vec<Effect>)
    ensures
        fx(*final(effects)) == fx(*old(effects)) + (match opt_view(reached) {
            Some(r) => seq![EffectView::SystemMessage("Successfully reached "@ + r)],
            None => Seq::empty(),
        }),
{
    match reached {
        Some(r) => {
            emit(effects, Effect::SystemMessage(text2("Successfully reached ", r)));
            assert(fx(*effects) =~= fx(*old(effects)) + seq![
                EffectView::SystemMessage("Successfully reached "@ + r@),
            ]);
        },
        None => {
            assert(fx(*effects) =~= fx(*old(effects)) + Seq::empty());
        },
    }
}

/// Takes a connection that was made. `reached` is what to say of the server
/// that was reached, where that is to be said. The connection is secured
/// where both sides can do it, else the greeting goes out.
pub fn establish_connection(
    state: &mut Session,
    username: &str,
    room: &str,
    password: Option<&str>,
    client_supports_tls: bool,
    reached: Option<&str>,
    effects: &mut Vec<Effect>,
)
    ensures
        final(state)@ == established(
            old(state)@,
            username@,
            room@,
            opt_view(password),
            client_supports_tls,
        ),
        final(state).wf() == old(state).wf(),
        fx(*final(effects)) == fx(*old(effects)) + established_effects(
            old(state)@,
            username@,
            room@,
            opt_view(password),
            client_supports_tls,
            opt_view(reached),
        ),
{
    let ghost s0 = state@;
    let ghost e0 = fx(*effects);
    let server_supports_tls = state.server_supports_tls;
    emit_reached(reached, effects);
    let ghost e1 = fx(*effects);
    make_connection(state, username, room, password, client_supports_tls);
    if client_supports_tls && server_supports_tls {
        emit(effects, Effect::SystemMessage(copy_str("Attempting secure connection")));
        emit(effects, Effect::Send(ClientMessage::StartTls));
        emit(effects, Effect::EmitTlsStatus(TlsStatus::Pending));
        assert(fx(*effects) =~= e0 + established_effects(
            s0,
            username@,
            room@,
            opt_view(password),
            client_supports_tls,
            opt_view(reached),
        )) by {
            reveal(established_effects);
        }
    } else {
        if !client_supports_tls {
            emit(effects, Effect::SystemMessage(copy_str("This client does not support TLS")));
        } else {
            emit(effects, Effect::ErrorMessage(copy_str("This server does not support TLS")));
        }
        emit(effects, Effect::EmitTlsStatus(TlsStatus::Unsupported));
        let ghost e2 = fx(*effects);
        send_hello(state, effects);
        assert(fx(*effects) =~= e0 + established_effects(
            s0,
            username@,
            room@,
            opt_view(password),
            client_supports_tls,
            opt_view(reached),
        )) by {
            reveal(established_effects);
        }
    }
}

/// The session at the start of its work over a new connection. A
/// connection that was made again after a loss keeps the playlist to be
/// restored; any other starts without one.
#[verifier::opaque]
pub open spec fn connection_set_up(s: SessionView, username: Seq<char>, room: Seq<char>) -> SessionView {
    SessionView {
        client: ClientStateView { username, room, ..s.client },
        had_first_playlist_index: false,
        playlist_may_need_restoring: s.playlist_may_need_restoring && s.reconnect.running,
        last_advance_time: None,
        last_rewind_time: None,
        last_updated_file_time: None,
        last_paused_on_leave_time: None,
        last_global_update: None,
        autoplay: crate::session::AutoplayState {
            enabled: s.config.autoplay_enabled,
            min_users: s.config.autoplay_min_users,
            require_same_filenames: s.config.autoplay_require_same_filenames,
            unpause_action: s.config.unpause_action,
            countdown_active: s.config.autoplay_enabled && s.autoplay.countdown_active,
            countdown_remaining: if s.config.autoplay_enabled {
                s.autoplay.countdown_remaining
            } else {
                0
            },
        },
        room_warning_task_running: true,
        ..s
    }
}

/// Begins the work over a new connection.
pub fn finalize_connection_setup(
    state: &mut Session,
    username: &str,
    room: &str,
    effects: &mut Vec<Effect>,
)
    ensures
        final(state)@ == connection_set_up(old(state)@, username@, room@),
        final(state).wf() == old(state).wf(),
        fx(*final(effects)) == fx(*old(effects)) + seq![
            EffectView::EmitConnectionStatus { connected: true },
        ],
{
    state.client_state.set_username(copy_str(username));
    state.client_state.set_room(copy_str(room));
    state.had_first_playlist_index = false;
    state.playlist_may_need_restoring = state.playlist_may_need_restoring
        && state.reconnect_state.running;
    state.last_advance_time = None;
    state.last_rewind_time = None;
    state.last_updated_file_time = None;
    state.last_paused_on_leave_time = None;
    state.last_global_update = None;
    state.room_warning_task_running = true;
    crate::warnings::update_autoplay_state(state);
    emit(effects, Effect::EmitConnectionStatus { connected: true });
    assert(state@ == connection_set_up(old(state)@, username@, room@)) by {
        reveal(connection_set_up);
    }
    assert(fx(*effects) =~= fx(*old(effects)) + seq![
        EffectView::EmitConnectionStatus { connected: true },
    ]);
}

/// The session after the user has ended the connection: nothing of the
/// room, the playlist or the server is remembered.
#[verifier::opaque]
pub open spec fn disconnected(s: SessionView, now: u64) -> SessionView {
    SessionView {
        reconnect: ReconnectState { enabled: false, running: false, attempts: 0 },
        manual_disconnect: true,
        connected: false,
        authenticated: false,
        player_kind: None,
        client: ClientStateView { users: Seq::empty(), file: None, is_ready: false, ..s.client },
        playlist: crate::playlist::PlaylistView {
            items: Seq::empty(),
            current_index: None,
            last_index_change: Some(now),
            queued_index_filename: None,
            ..s.playlist
        },
        features: crate::session::no_features(),
        playlist_may_need_restoring: false,
        had_first_playlist_index: false,
        last_connect_time: None,
        last_rewind_time: None,
        last_advance_time: None,
        last_updated_file_time: None,
        last_paused_on_leave_time: None,
        autoplay: crate::session::AutoplayState {
            countdown_active: false,
            countdown_remaining: 0,
            ..s.autoplay
        },
        warnings: no_warnings(),
        warning_timers: no_timers(),
        room_warning_task_running: false,
        ..s
    }
}

pub open spec fn disconnect_effects(s: SessionView) -> Seq<EffectView> {
    (if s.connected {
        seq![EffectView::Disconnect]
    } else {
        Seq::empty()
    }) + seq![
        EffectView::EmitUserList,
        EffectView::EmitPlaylist,
        EffectView::EmitConnectionStatus { connected: false },
        EffectView::EmitTlsStatus(TlsStatus::Unknown),
    ]
}

fn forget_connection(state: &mut Session)
    ensures
        final(state).ping_service.wf() == old(state).ping_service.wf(),
        final(state)@ == (SessionView {
            reconnect: ReconnectState { enabled: false, running: false, attempts: 0 },
            manual_disconnect: true,
            connected: false,
            authenticated: false,
            player_kind: None,
            features: crate::session::no_features(),
            playlist_may_need_restoring: false,
            had_first_playlist_index: false,
            last_connect_time: None,
            last_rewind_time: None,
            last_advance_time: None,
            last_updated_file_time: None,
            last_paused_on_leave_time: None,
            autoplay: crate::session::AutoplayState {
                countdown_active: false,
                countdown_remaining: 0,
                ..old(state)@.autoplay
            },
            warnings: no_warnings(),
            warning_timers: no_timers(),
            room_warning_task_running: false,
            ..old(state)@
        }),
        final(state).wf() == old(state).wf(),
{
    let a = state.autoplay;
    state.reconnect_state = ReconnectState { enabled: false, running: false, attempts: 0 };
    state.manual_disconnect = true;
    state.connected = false;
    state.authenticated = false;
    state.player_kind = None;
    state.server_features = ServerFeatures::default();
    state.playlist_may_need_restoring = false;
    state.had_first_playlist_index = false;
    state.last_connect_time = None;
    state.last_rewind_time = None;
    state.last_advance_time = None;
    state.last_updated_file_time = None;
    state.last_paused_on_leave_time = None;
    state.autoplay = crate::session::AutoplayState {
        enabled: a.enabled,
        min_users: a.min_users,
        require_same_filenames: a.require_same_filenames,
        unpause_action: a.unpause_action,
        countdown_active: false,
        countdown_remaining: 0,
    };
    state.room_warning_state = RoomWarningState {
        alone: false,
        file_differences: None,
        not_ready: None,
    };
    state.warning_timers = timers_or_none(true, state.warning_timers);
    state.room_warning_task_running = false;
}

fn forget_room(state: &mut Session, now: u64)
    requires
        old(state).ping_service.wf(),
    ensures
        final(state).wf(),
        final(state)@ == (SessionView {
            client: ClientStateView {
                users: Seq::empty(),
                file: None,
                is_ready: false,
                ..old(state)@.client
            },
            playlist: crate::playlist::PlaylistView {
                items: Seq::empty(),
                current_index: None,
                last_index_change: Some(now),
                queued_index_filename: None,
                ..old(state)@.playlist
            },
            ..old(state)@
        }),
{
    state.client_state.clear_users();
    state.playlist.clear(now);
    state.client_state.set_file(None);
    state.client_state.set_ready(false);
}

/// Ends the connection because the user wants it.
pub fn disconnect_from_server(state: &mut Session, now: u64, effects: &mut Vec<Effect>)
    requires
        old(state).ping_service.wf(),
    ensures
        final(state).wf(),
        final(state)@ == disconnected(old(state)@, now),
        fx(*final(effects)) == fx(*old(effects)) + disconnect_effects(old(state)@),
{
    if state.connected {
        emit(effects, Effect::Disconnect);
    }
    emit(effects, Effect::EmitUserList);
    emit(effects, Effect::EmitPlaylist);
    emit(effects, Effect::EmitConnectionStatus { connected: false });
    emit(effects, Effect::EmitTlsStatus(TlsStatus::Unknown));
    assert(fx(*effects) =~= fx(*old(effects)) + disconnect_effects(old(state)@));
    forget_connection(state);
    forget_room(state, now);
    assert(state@ == disconnected(old(state)@, now)) by {
        reveal(disconnected);
    }
}

/// The list of rooms once a room was joined: the room in front where the
/// list did not hold it, else the list as it was.
pub open spec fn rooms_with(room_list: Seq<Seq<char>>, room: Seq<char>) -> Seq<Seq<char>> {
    if room_list.contains(room) {
        room_list
    } else {
        seq![room] + room_list
    }
}

/// Puts the room that was joined into the list of rooms.
pub fn autosaved_rooms(room_list: &Vec<String>, room: &str) -> (r: Vec<String>)
    ensures
        r.deep_view() == rooms_with(room_list.deep_view(), room@),
{
    proof {
        crate::text::lemma_first_index_of(room_list.deep_view(), room@);
    }
    match crate::text::index_of_text(room_list.as_slice(), room) {
        Some(_) => crate::text::clone_texts(room_list.as_slice()),
        None => {
            let mut r: Vec<String> = Vec::new();
            r.push(copy_str(room));
            let mut rest = crate::text::clone_texts(room_list.as_slice());
            let ghost a = r.deep_view();
            let ghost b = rest.deep_view();
            r.append(&mut rest);
            assert(r.deep_view() =~= a + b);
            assert(a =~= seq![room@]);
            r
        },
    }
}

} // verus!
