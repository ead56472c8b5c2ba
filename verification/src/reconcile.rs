//! The synchronisation controller: how the player is brought in line with
//! the state of playback that the server announces.
use crate::config::{PlayerKind};
use crate::messages::{PlayState, PlayStateView};
use crate::session::{emit, fx, Effect, EffectView, Session, SessionView};
use crate::state::{user_named, ClientStateView};
use crate::sync::{
    adjusted_position, SyncEngineView, FASTFORWARD_BEHIND_THRESHOLD, FASTFORWARD_EXTRA_TIME,
    FASTFORWARD_RESET_THRESHOLD,
};
use crate::text::{copy_str, text2, text3, text5, texts_equal};
use crate::time::{
    add_ms, elapsed, elapsed_ms, format_seconds, format_time, magnitude, sat_add, sat_sub,
    seconds_text, sub_ms, time_code,
};
use crate::utils::{is_controlled_room, is_controlled_room_name};
use vstd::prelude::*;

verus! {

/// How long after a rewind a seek is left out.
pub const IGNORE_SEEK_AFTER_REWIND: u64 = 1000;

/// Only seeks past this position are left out after a rewind.
pub const IGNORE_SEEK_AFTER_REWIND_POSITION_THRESHOLD: i64 = 5000;

/// Players of these kinds cannot change their speed.
pub open spec fn supports_speed(kind: PlayerKind) -> bool {
    kind != PlayerKind::MpcHc && kind != PlayerKind::MpcBe
}

pub fn player_supports_speed(kind: PlayerKind) -> (r: bool)
    ensures
        r == supports_speed(kind),
{
    !(kind == PlayerKind::MpcHc || kind == PlayerKind::MpcBe)
}

/// Whether the user may change playback in the room: always where the room
/// is not managed, else where the user is an operator.
pub open spec fn can_control(client: ClientStateView) -> bool {
    !is_controlled_room_name(client.room) || (match user_named(client.users, client.username) {
        Some(u) => u.is_controller,
        None => false,
    })
}

pub fn current_user_can_control(state: &Session) -> (r: bool)
    ensures
        r == can_control(state@.client),
{
    let room = state.client_state.get_room();
    if !is_controlled_room(room.as_str()) {
        return true;
    }
    let username = state.client_state.get_username();
    match state.client_state.get_user(username.as_str()) {
        Some(user) => user.is_controller,
        None => false,
    }
}

/// A client that lets others slow down with it is always fast-forwarded;
/// another only where it cannot control the room.
pub open spec fn allows_fastforward(s: SessionView) -> bool {
    s.config.dont_slow_down_with_me || !can_control(s.client)
}

pub fn should_allow_fastforward(state: &Session) -> (r: bool)
    ensures
        r == allows_fastforward(state@),
{
    if state.config.dont_slow_down_with_me {
        return true;
    }
    !current_user_can_control(state)
}

/// Whether a seek to `position` is left out because the player was just
/// rewound: within a second of the rewind, for a position past five seconds.
pub open spec fn ignores_seek(last_rewind_time: Option<u64>, position: int, now: u64) -> bool {
    match last_rewind_time {
        Some(t) => elapsed(now, t) < IGNORE_SEEK_AFTER_REWIND && position
            > IGNORE_SEEK_AFTER_REWIND_POSITION_THRESHOLD,
        None => false,
    }
}

pub fn should_ignore_seek_after_rewind(state: &Session, position: i64, now: u64) -> (r: bool)
    ensures
        r == ignores_seek(state@.last_rewind_time, position as int, now),
{
    match state.last_rewind_time {
        Some(t) => elapsed_ms(now, t) < IGNORE_SEEK_AFTER_REWIND && position
            > IGNORE_SEEK_AFTER_REWIND_POSITION_THRESHOLD,
        None => false,
    }
}

/// The command that moves the player to `position`, unless it is left out.
pub open spec fn seek_effects(last_rewind_time: Option<u64>, position: int, now: u64) -> Seq<
    EffectView,
> {
    if ignores_seek(last_rewind_time, position, now) {
        Seq::empty()
    } else {
        seq![EffectView::SetPosition(position as i64)]
    }
}

/// Moves the player to `position` unless it was just rewound; tells whether
/// it did.
pub fn try_set_position(state: &Session, position: i64, now: u64, effects: &mut Vec<Effect>) -> (r:
    bool)
    ensures
        r == !ignores_seek(state@.last_rewind_time, position as int, now),
        fx(*final(effects)) == fx(*old(effects)) + seek_effects(
            state@.last_rewind_time,
            position as int,
            now,
        ),
{
    if should_ignore_seek_after_rewind(state, position, now) {
        assert(fx(*effects) =~= fx(*old(effects)) + Seq::empty());
        return false;
    }
    emit(effects, Effect::SetPosition(position));
    assert(fx(*effects) =~= fx(*old(effects)) + seq![EffectView::SetPosition(position)]);
    true
}

/// A text over the picture, where the user wants such texts, this one is
/// allowed and there is a player.
pub open spec fn osd_effects(s: SessionView, message: Seq<char>, allow: bool) -> Seq<EffectView> {
    if allow && s.config.show_osd && s.player_kind.is_some() {
        seq![EffectView::ShowOsd { text: message, duration_ms: Some(s.config.osd_duration) }]
    } else {
        Seq::empty()
    }
}

pub fn maybe_show_osd(state: &Session, message: &str, allow: bool, effects: &mut Vec<Effect>)
    ensures
        fx(*final(effects)) == fx(*old(effects)) + osd_effects(state@, message@, allow),
{
    if !allow || !state.config.show_osd || state.player_kind.is_none() {
        assert(fx(*effects) =~= fx(*old(effects)) + Seq::empty());
        return ;
    }
    emit(
        effects,
        Effect::ShowOsd { text: copy_str(message), duration_ms: Some(state.config.osd_duration) },
    );
    assert(fx(*effects) =~= fx(*old(effects)) + osd_effects(state@, message@, allow));
}

/// A line for the chat and, where it is allowed, the same text over the
/// picture.
pub open spec fn notice_effects(s: SessionView, message: Seq<char>, allow_osd: bool) -> Seq<
    EffectView,
> {
    seq![EffectView::SystemMessage(message)] + osd_effects(s, message, allow_osd)
}

pub fn notice(state: &Session, message: String, allow_osd: bool, effects: &mut Vec<Effect>)
    ensures
        fx(*final(effects)) == fx(*old(effects)) + notice_effects(state@, message@, allow_osd),
{
    let copy = message.clone();
    emit(effects, Effect::SystemMessage(message));
    maybe_show_osd(state, copy.as_str(), allow_osd, effects);
    assert(fx(*effects) =~= fx(*old(effects)) + notice_effects(state@, message@, allow_osd));
}

/// What one round of synchronisation looks at.
pub struct Round {
    /// The session before the round, with the new state of the room noted.
    pub s: SessionView,
    /// Whether a state of the room had been noted before.
    pub had_last_global: bool,
    /// Whether the room was paused before.
    pub previous_paused: bool,
    /// Who set the state, `Unknown` where nobody is named.
    pub actor: Seq<char>,
    /// Whether the state was reached by a seek.
    pub do_seek: bool,
    /// Whether the room is paused.
    pub paused: bool,
    /// The position of the room now.
    pub target: int,
    /// The position of the player.
    pub local_position: int,
    /// Whether the player is paused.
    pub local_paused: bool,
    /// The time of the round.
    pub now: u64,
}

impl Round {
    /// How far the player is ahead of the room.
    pub open spec fn diff(self) -> int {
        sat_sub(self.local_position, self.target)
    }

    pub open spec fn by_me(self) -> bool {
        self.actor == self.s.client.username
    }

    pub open spec fn seek(self, position: int) -> Seq<EffectView> {
        seek_effects(self.s.last_rewind_time, position, self.now)
    }

    pub open spec fn seeks(self, position: int) -> bool {
        !ignores_seek(self.s.last_rewind_time, position, self.now)
    }

    /// The first state of a session with a file open: the player takes the
    /// room's position and pause.
    pub open spec fn init_applies(self) -> bool {
        !self.had_last_global && self.s.client.file.is_some()
    }

    #[verifier::opaque]
    pub open spec fn init_effects(self) -> Seq<EffectView> {
        if self.init_applies() {
            self.seek(self.target) + seq![EffectView::SetPaused(self.paused)]
        } else {
            Seq::empty()
        }
    }

    /// The position from which a seek is said to have started.
    pub open spec fn jump_origin(self) -> int {
        if self.by_me() {
            match self.s.last_seek_from_position {
                Some(p) => p as int,
                None => self.local_position,
            }
        } else {
            self.local_position
        }
    }

    pub open spec fn jump_text(self) -> Seq<char> {
        self.actor + " jumped from "@ + seconds_text(self.jump_origin()) + " to "@ + time_code(
            self.target,
        )
    }

    /// A seek by somebody else moves the player; any seek is told.
    #[verifier::opaque]
    pub open spec fn jump_effects(self) -> Seq<EffectView> {
        if self.do_seek {
            (if self.by_me() {
                Seq::empty()
            } else {
                self.seek(self.target)
            }) + notice_effects(self.s, self.jump_text(), self.s.config.show_same_room_osd)
        } else {
            Seq::empty()
        }
    }

    pub open spec fn jump_moves(self) -> bool {
        self.do_seek && !self.by_me() && self.seeks(self.target)
    }

    /// A player that is too far ahead of somebody else is set back.
    pub open spec fn rewind_applies(self) -> bool {
        self.diff() > self.s.config.seek_threshold_rewind && !self.do_seek
            && self.s.config.rewind_on_desync && !self.by_me()
    }

    #[verifier::opaque]
    pub open spec fn rewind_effects(self) -> Seq<EffectView> {
        if self.rewind_applies() {
            self.seek(self.target) + notice_effects(
                self.s,
                "Rewinded due to time difference with "@ + self.actor,
                self.s.config.show_same_room_osd,
            )
        } else {
            Seq::empty()
        }
    }

    pub open spec fn fastforward_watched(self) -> bool {
        self.s.config.fastforward_on_desync && allows_fastforward(self.s)
    }

    pub open spec fn behind(self) -> bool {
        self.diff() < -FASTFORWARD_BEHIND_THRESHOLD && !self.do_seek
    }

    /// The player has been behind for longer than the fast-forward threshold
    /// exceeds the threshold for being behind, and is behind by more than the
    /// fast-forward threshold.
    #[verifier::opaque]
    pub open spec fn fastforward_due(self) -> bool {
        self.fastforward_watched() && self.behind() && (match self.s.engine.behind_first_detected {
            Some(start) => elapsed(self.now, start) > self.s.config.seek_threshold_fastforward
                - FASTFORWARD_BEHIND_THRESHOLD && self.diff()
                < -self.s.config.seek_threshold_fastforward,
            None => false,
        })
    }

    pub open spec fn fastforward_target(self) -> int {
        sat_add(self.target, FASTFORWARD_EXTRA_TIME as int)
    }

    #[verifier::opaque]
    pub open spec fn fastforward_effects(self) -> Seq<EffectView> {
        if self.fastforward_due() && !self.by_me() {
            self.seek(self.fastforward_target()) + notice_effects(
                self.s,
                "Fast-forwarded due to time difference with "@ + self.actor,
                self.s.config.show_same_room_osd,
            )
        } else {
            Seq::empty()
        }
    }

    /// Since when the player counts as behind after the round.
    #[verifier::opaque]
    pub open spec fn behind_marker(self) -> Option<u64> {
        if !self.fastforward_watched() {
            self.s.engine.behind_first_detected
        } else if !self.behind() {
            None
        } else if self.s.engine.behind_first_detected.is_none() {
            Some(self.now)
        } else if self.fastforward_due() {
            Some(
                if self.now as int + FASTFORWARD_RESET_THRESHOLD > u64::MAX {
                    u64::MAX
                } else {
                    (self.now + FASTFORWARD_RESET_THRESHOLD) as u64
                },
            )
        } else {
            self.s.engine.behind_first_detected
        }
    }

    pub open spec fn speed_watched(self) -> bool {
        (match self.s.player_kind {
            Some(k) => supports_speed(k),
            None => false,
        }) && !self.do_seek && !self.paused && self.s.config.slow_on_desync
    }

    /// A playing player that is off by more than the slowdown threshold and
    /// not yet slowed is slowed down.
    #[verifier::opaque]
    pub open spec fn slowdown_due(self) -> bool {
        self.speed_watched() && magnitude(self.diff()) > self.s.config.slowdown_threshold
            && !self.s.engine.slowdown_active
    }

    /// A slowed player that is off by less than the reset threshold returns
    /// to the normal speed.
    #[verifier::opaque]
    pub open spec fn speed_reset_due(self) -> bool {
        self.speed_watched() && !(magnitude(self.diff()) > self.s.config.slowdown_threshold
            && !self.s.engine.slowdown_active) && self.s.engine.slowdown_active && magnitude(
            self.diff(),
        ) < self.s.config.slowdown_reset_threshold
    }

    #[verifier::opaque]
    pub open spec fn speed_effects(self) -> Seq<EffectView> {
        if self.slowdown_due() && !self.by_me() {
            seq![EffectView::SetSpeed(self.s.config.slowdown_rate)] + notice_effects(
                self.s,
                "Slowing down due to time difference with "@ + self.actor,
                self.s.config.show_slowdown_osd,
            )
        } else if self.speed_reset_due() {
            seq![EffectView::SetSpeed(1000)] + notice_effects(
                self.s,
                "Reverting speed back to normal"@,
                self.s.config.show_slowdown_osd,
            )
        } else {
            Seq::empty()
        }
    }

    #[verifier::opaque]
    pub open spec fn slowdown_after(self) -> bool {
        if self.slowdown_due() && !self.by_me() {
            true
        } else if self.speed_reset_due() {
            false
        } else {
            self.s.engine.slowdown_active
        }
    }

    /// The room's pause differs from what it was, or from the player's.
    pub open spec fn pause_changed(self) -> bool {
        self.paused != self.previous_paused || self.paused != self.local_paused
    }

    #[verifier::opaque]
    pub open spec fn pause_effects(self) -> Seq<EffectView> {
        if !self.pause_changed() {
            Seq::empty()
        } else if self.paused {
            (if self.by_me() {
                Seq::empty()
            } else {
                self.seek(self.target)
            }) + seq![EffectView::SetPaused(true)] + notice_effects(
                self.s,
                self.actor + " paused at "@ + time_code(self.target),
                self.s.config.show_same_room_osd,
            )
        } else {
            seq![EffectView::SetPaused(false)] + notice_effects(
                self.s,
                self.actor + " unpaused"@,
                self.s.config.show_same_room_osd,
            )
        }
    }

    /// Whether the round has given the player a command.
    #[verifier::opaque]
    pub open spec fn commands_player(self) -> bool {
        self.init_applies() || self.jump_moves() || (self.rewind_applies() && self.seeks(
            self.target,
        )) || (self.fastforward_due() && !self.by_me() && self.seeks(self.fastforward_target()))
            || (self.slowdown_due() && !self.by_me()) || self.speed_reset_due()
            || self.pause_changed()
    }

    /// Everything that the round asks for, in order: the first alignment,
    /// the seek, the rewind, the fast-forward, the speed, the pause; and a
    /// look at the player where it was given a command.
    pub open spec fn effects(self) -> Seq<EffectView> {
        self.init_effects() + self.jump_effects() + self.rewind_effects()
            + self.fastforward_effects() + self.speed_effects() + self.pause_effects() + (
        if self.commands_player() {
            seq![EffectView::PollPlayer]
        } else {
            Seq::empty()
        })
    }

    /// The session after the round.
    pub open spec fn session_after(self) -> SessionView {
        SessionView {
            engine: SyncEngineView {
                slowdown_active: self.slowdown_after(),
                behind_first_detected: self.behind_marker(),
            },
            last_seek_from_position: if self.do_seek {
                None
            } else {
                self.s.last_seek_from_position
            },
            ..self.s
        }
    }
}

/// The session with a state of the room noted at time `now`.
pub open spec fn with_global_state(s: SessionView, playstate: PlayStateView, age: int, now: u64) -> SessionView {
    SessionView {
        last_global_update: Some(now),
        client: ClientStateView {
            global_state: crate::state::GlobalPlayStateView {
                position: adjusted_position(playstate.position as int, playstate.paused, age) as i64,
                paused: playstate.paused,
                set_by: playstate.set_by,
            },
            ..s.client
        },
        ..s
    }
}

/// The round that a state of the room opens for a player at a position.
pub open spec fn round_of(
    s: SessionView,
    playstate: PlayStateView,
    age: int,
    local: (i64, bool),
    now: u64,
) -> Round {
    Round {
        s: with_global_state(s, playstate, age, now),
        had_last_global: s.last_global_update.is_some(),
        previous_paused: s.client.global_state.paused,
        actor: match playstate.set_by {
            Some(name) => name,
            None => "Unknown"@,
        },
        do_seek: playstate.do_seek == Some(true),
        paused: playstate.paused,
        target: adjusted_position(playstate.position as int, playstate.paused, age),
        local_position: local.0 as int,
        local_paused: local.1,
        now,
    }
}

/// Whether a round takes place: there is a player and its state is known.
pub open spec fn round_happens(s: SessionView, local: Option<(i64, bool)>) -> bool {
    s.player_kind.is_some() && local.is_some()
}

/// The session after a state of the room has arrived.
pub open spec fn reconciled(
    s: SessionView,
    playstate: PlayStateView,
    age: int,
    local: Option<(i64, bool)>,
    now: u64,
) -> SessionView {
    if round_happens(s, local) {
        round_of(s, playstate, age, local.unwrap(), now).session_after()
    } else {
        with_global_state(s, playstate, age, now)
    }
}

/// What is asked for after a state of the room has arrived.
pub open spec fn reconcile_effects(
    s: SessionView,
    playstate: PlayStateView,
    age: int,
    local: Option<(i64, bool)>,
    now: u64,
) -> Seq<EffectView> {
    if round_happens(s, local) {
        round_of(s, playstate, age, local.unwrap(), now).effects()
    } else {
        Seq::empty()
    }
}

/// What a round looks at, as the code holds it.
struct RoundData {
    actor: String,
    by_me: bool,
    do_seek: bool,
    paused: bool,
    target: i64,
    local_position: i64,
    local_paused: bool,
    diff: i64,
    had_last_global: bool,
    previous_paused: bool,
    now: u64,
}

impl RoundData {
    spec fn models(&self, r: Round) -> bool {
        &&& self.actor@ == r.actor
        &&& self.by_me == r.by_me()
        &&& self.do_seek == r.do_seek
        &&& self.paused == r.paused
        &&& self.target == r.target
        &&& self.local_position == r.local_position
        &&& self.local_paused == r.local_paused
        &&& self.diff == r.diff()
        &&& self.had_last_global == r.had_last_global
        &&& self.previous_paused == r.previous_paused
        &&& self.now == r.now
    }
}

fn rule_init(state: &Session, d: &RoundData, Ghost(r): Ghost<Round>, effects: &mut Vec<Effect>) -> (changed:
    bool)
    requires
        d.models(r),
        state@ == r.s,
    ensures
        changed == r.init_applies(),
        fx(*final(effects)) == fx(*old(effects)) + r.init_effects(),
{
    proof {
        reveal(Round::init_effects);
    }
    if !d.had_last_global && state.client_state.get_file().is_some() {
        try_set_position(state, d.target, d.now, effects);
        emit(effects, Effect::SetPaused(d.paused));
        assert(fx(*effects) =~= fx(*old(effects)) + r.init_effects());
        true
    } else {
        assert(fx(*effects) =~= fx(*old(effects)) + r.init_effects());
        false
    }
}

fn rule_jump(state: &Session, d: &RoundData, Ghost(r): Ghost<Round>, effects: &mut Vec<Effect>) -> (changed:
    bool)
    requires
        d.models(r),
        state@ == r.s,
    ensures
        changed == r.jump_moves(),
        fx(*final(effects)) == fx(*old(effects)) + r.jump_effects(),
{
    proof {
        reveal(Round::jump_effects);
    }
    if !d.do_seek {
        assert(fx(*effects) =~= fx(*old(effects)) + r.jump_effects());
        return false;
    }
    let mut changed = false;
    let from_position = if d.by_me {
        match state.last_seek_from_position {
            Some(p) => p,
            None => d.local_position,
        }
    } else {
        changed = try_set_position(state, d.target, d.now, effects);
        d.local_position
    };
    let message = text5(
        d.actor.as_str(),
        " jumped from ",
        format_seconds(from_position).as_str(),
        " to ",
        format_time(d.target).as_str(),
    );
    assert(message@ == r.jump_text());
    notice(state, message, state.config.show_same_room_osd, effects);
    assert(fx(*effects) =~= fx(*old(effects)) + r.jump_effects());
    changed
}

fn rule_rewind(state: &Session, d: &RoundData, Ghost(r): Ghost<Round>, effects: &mut Vec<Effect>) -> (changed:
    bool)
    requires
        d.models(r),
        state@ == r.s,
    ensures
        changed == (r.rewind_applies() && r.seeks(r.target)),
        fx(*final(effects)) == fx(*old(effects)) + r.rewind_effects(),
{
    proof {
        reveal(Round::rewind_effects);
    }
    if d.diff > state.config.seek_threshold_rewind && !d.do_seek && state.config.rewind_on_desync
        && !d.by_me {
        let changed = try_set_position(state, d.target, d.now, effects);
        let message = text2("Rewinded due to time difference with ", d.actor.as_str());
        notice(state, message, state.config.show_same_room_osd, effects);
        assert(fx(*effects) =~= fx(*old(effects)) + r.rewind_effects());
        changed
    } else {
        assert(fx(*effects) =~= fx(*old(effects)) + r.rewind_effects());
        false
    }
}

fn saturating_later(now: u64, by: u64) -> (r: u64)
    ensures
        r == (if now as int + by > u64::MAX {
            u64::MAX
        } else {
            (now + by) as u64
        }),
{
    if now > u64::MAX - by {
        u64::MAX
    } else {
        now + by
    }
}

fn rule_fastforward(
    state: &Session,
    d: &RoundData,
    Ghost(r): Ghost<Round>,
    effects: &mut Vec<Effect>,
) -> (out: (bool, Option<u64>))
    requires
        d.models(r),
        state@ == r.s,
    ensures
        out.0 == (r.fastforward_due() && !r.by_me() && r.seeks(r.fastforward_target())),
        out.1 == r.behind_marker(),
        fx(*final(effects)) == fx(*old(effects)) + r.fastforward_effects(),
{
    proof {
        reveal(Round::fastforward_effects);
        reveal(Round::fastforward_due);
        reveal(Round::behind_marker);
    }
    let current = state.sync_engine.behind_first_detected();
    if !(state.config.fastforward_on_desync && should_allow_fastforward(state)) {
        assert(fx(*effects) =~= fx(*old(effects)) + r.fastforward_effects());
        return (false, current);
    }
    if !(d.diff < -FASTFORWARD_BEHIND_THRESHOLD && !d.do_seek) {
        assert(fx(*effects) =~= fx(*old(effects)) + r.fastforward_effects());
        return (false, None);
    }
    let start = match current {
        Some(start) => start,
        None => {
            assert(fx(*effects) =~= fx(*old(effects)) + r.fastforward_effects());
            return (false, Some(d.now));
        },
    };
    let duration_behind = elapsed_ms(d.now, start);
    let wait: i64 = sub_ms(state.config.seek_threshold_fastforward, FASTFORWARD_BEHIND_THRESHOLD);
    let due = (wait < 0 || duration_behind > wait as u64) && d.diff < sub_ms(
        0,
        state.config.seek_threshold_fastforward,
    );
    assert(due == r.fastforward_due());
    if !due {
        assert(fx(*effects) =~= fx(*old(effects)) + r.fastforward_effects());
        return (false, current);
    }
    let marker = Some(saturating_later(d.now, FASTFORWARD_RESET_THRESHOLD));
    if d.by_me {
        assert(fx(*effects) =~= fx(*old(effects)) + r.fastforward_effects());
        return (false, marker);
    }
    let position = add_ms(d.target, FASTFORWARD_EXTRA_TIME);
    let changed = try_set_position(state, position, d.now, effects);
    let message = text2("Fast-forwarded due to time difference with ", d.actor.as_str());
    notice(state, message, state.config.show_same_room_osd, effects);
    assert(fx(*effects) =~= fx(*old(effects)) + r.fastforward_effects());
    (changed, marker)
}

fn beyond(diff: i64, threshold: i64) -> (r: bool)
    ensures
        r == (magnitude(diff as int) > threshold),
{
    diff > threshold || (diff as i128) < -(threshold as i128)
}

fn within(diff: i64, threshold: i64) -> (r: bool)
    ensures
        r == (magnitude(diff as int) < threshold),
{
    diff < threshold && (diff as i128) > -(threshold as i128)
}

fn rule_speed(state: &Session, d: &RoundData, Ghost(r): Ghost<Round>, effects: &mut Vec<Effect>) -> (out:
    (bool, bool))
    requires
        d.models(r),
        state@ == r.s,
    ensures
        out.0 == ((r.slowdown_due() && !r.by_me()) || r.speed_reset_due()),
        out.1 == r.slowdown_after(),
        fx(*final(effects)) == fx(*old(effects)) + r.speed_effects(),
{
    proof {
        reveal(Round::speed_effects);
        reveal(Round::slowdown_due);
        reveal(Round::speed_reset_due);
        reveal(Round::slowdown_after);
    }
    let active = state.sync_engine.is_slowdown_active();
    let supported = match state.player_kind {
        Some(kind) => player_supports_speed(kind),
        None => false,
    };
    if !(supported && !d.do_seek && !d.paused && state.config.slow_on_desync) {
        assert(fx(*effects) =~= fx(*old(effects)) + r.speed_effects());
        return (false, active);
    }
    if beyond(d.diff, state.config.slowdown_threshold) && !active {
        if !d.by_me {
            emit(effects, Effect::SetSpeed(state.config.slowdown_rate));
            let message = text2("Slowing down due to time difference with ", d.actor.as_str());
            notice(state, message, state.config.show_slowdown_osd, effects);
            assert(fx(*effects) =~= fx(*old(effects)) + r.speed_effects());
            return (true, true);
        }
        assert(fx(*effects) =~= fx(*old(effects)) + r.speed_effects());
        return (false, active);
    }
    if active && within(d.diff, state.config.slowdown_reset_threshold) {
        emit(effects, Effect::SetSpeed(1000));
        notice(
            state,
            copy_str("Reverting speed back to normal"),
            state.config.show_slowdown_osd,
            effects,
        );
        assert(fx(*effects) =~= fx(*old(effects)) + r.speed_effects());
        return (true, false);
    }
    assert(fx(*effects) =~= fx(*old(effects)) + r.speed_effects());
    (false, active)
}

fn rule_pause(state: &Session, d: &RoundData, Ghost(r): Ghost<Round>, effects: &mut Vec<Effect>) -> (changed:
    bool)
    requires
        d.models(r),
        state@ == r.s,
    ensures
        changed == r.pause_changed(),
        fx(*final(effects)) == fx(*old(effects)) + r.pause_effects(),
{
    proof {
        reveal(Round::pause_effects);
    }
    if !(d.paused != d.previous_paused || d.paused != d.local_paused) {
        assert(fx(*effects) =~= fx(*old(effects)) + r.pause_effects());
        return false;
    }
    if d.paused {
        if !d.by_me {
            try_set_position(state, d.target, d.now, effects);
        }
        emit(effects, Effect::SetPaused(true));
        let message = text3(d.actor.as_str(), " paused at ", format_time(d.target).as_str());
        notice(state, message, state.config.show_same_room_osd, effects);
    } else {
        emit(effects, Effect::SetPaused(false));
        let message = text2(d.actor.as_str(), " unpaused");
        notice(state, message, state.config.show_same_room_osd, effects);
    }
    assert(fx(*effects) =~= fx(*old(effects)) + r.pause_effects());
    true
}

fn run_round(state: &Session, d: &RoundData, Ghost(r): Ghost<Round>, effects: &mut Vec<Effect>) -> (out:
    (Option<u64>, bool))
    requires
        d.models(r),
        state@ == r.s,
    ensures
        out.0 == r.behind_marker(),
        out.1 == r.slowdown_after(),
        fx(*final(effects)) == fx(*old(effects)) + r.effects(),
{
    proof {
        reveal(Round::commands_player);
    }
    let ghost e0 = fx(*effects);
    let c1 = rule_init(state, d, Ghost(r), effects);
    let c2 = rule_jump(state, d, Ghost(r), effects);
    let ghost e2 = fx(*effects);
    assert(e2 =~= e0 + (r.init_effects() + r.jump_effects()));
    let c3 = rule_rewind(state, d, Ghost(r), effects);
    let (c4, marker) = rule_fastforward(state, d, Ghost(r), effects);
    let ghost e4 = fx(*effects);
    assert(e4 =~= e2 + (r.rewind_effects() + r.fastforward_effects()));
    let (c5, slowed) = rule_speed(state, d, Ghost(r), effects);
    let c6 = rule_pause(state, d, Ghost(r), effects);
    let ghost e6 = fx(*effects);
    assert(e6 =~= e4 + (r.speed_effects() + r.pause_effects()));
    let changed = c1 || c2 || c3 || c4 || c5 || c6;
    assert(changed == r.commands_player());
    if changed {
        emit(effects, Effect::PollPlayer);
    }
    let ghost tail = if r.commands_player() {
        seq![EffectView::PollPlayer]
    } else {
        Seq::<EffectView>::empty()
    };
    assert(fx(*effects) =~= e6 + tail);
    assert(fx(*effects) =~= e0 + r.effects());
    (marker, slowed)
}

/// Notes a state of the room; tells whether one had been noted before, whether
/// the room was paused before, and where the room is now.
fn note_global_state(state: &mut Session, playstate: &PlayState, message_age: i64, now: u64) -> (out:
    (bool, bool, i64))
    requires
        old(state).wf(),
    ensures
        final(state).wf(),
        final(state)@ == with_global_state(old(state)@, playstate@, message_age as int, now),
        out.0 == old(state)@.last_global_update.is_some(),
        out.1 == old(state)@.client.global_state.paused,
        out.2 == adjusted_position(playstate@.position as int, playstate@.paused, message_age as int),
{
    let had_last_global = state.last_global_update.is_some();
    state.last_global_update = Some(now);
    let target = if !playstate.paused {
        add_ms(playstate.position, message_age)
    } else {
        playstate.position
    };
    let previous = state.client_state.get_global_state();
    state.client_state.set_global_state(
        target,
        playstate.paused,
        crate::text::clone_opt_text(&playstate.set_by),
    );
    (had_last_global, previous.paused, target)
}

fn finish_round(state: &mut Session, do_seek: bool, marker: Option<u64>, slowed: bool)
    ensures
        final(state)@ == (SessionView {
            engine: SyncEngineView { slowdown_active: slowed, behind_first_detected: marker },
            last_seek_from_position: if do_seek {
                None
            } else {
                old(state)@.last_seek_from_position
            },
            ..old(state)@
        }),
        final(state).wf() == old(state).wf(),
{
    if do_seek {
        state.last_seek_from_position = None;
    }
    state.sync_engine.set_slowdown_active(slowed);
    state.sync_engine.set_behind_first_detected(marker);
}

fn round_data(
    state: &Session,
    playstate: &PlayState,
    noted: (bool, bool, i64),
    local: (i64, bool),
    now: u64,
    Ghost(r): Ghost<Round>,
) -> (d: RoundData)
    requires
        state@ == r.s,
        r.actor == (match playstate@.set_by {
            Some(name) => name,
            None => "Unknown"@,
        }),
        r.do_seek == (playstate@.do_seek == Some(true)),
        r.paused == playstate@.paused,
        r.had_last_global == noted.0,
        r.previous_paused == noted.1,
        r.target == noted.2,
        r.local_position == local.0,
        r.local_paused == local.1,
        r.now == now,
    ensures
        d.models(r),
{
    let actor = match &playstate.set_by {
        Some(name) => name.clone(),
        None => copy_str("Unknown"),
    };
    let me = state.client_state.get_username();
    let by_me = texts_equal(&actor, me.as_str());
    RoundData {
        actor,
        by_me,
        do_seek: match playstate.do_seek {
            Some(b) => b,
            None => false,
        },
        paused: playstate.paused,
        target: noted.2,
        local_position: local.0,
        local_paused: local.1,
        diff: sub_ms(local.0, noted.2),
        had_last_global: noted.0,
        previous_paused: noted.1,
        now,
    }
}

/// Takes a state of playback from the server that arrived at time `now`,
/// `message_age` milliseconds after it was sent. `local` is where the player
/// is and whether it is paused, where that is known.
///
/// The state is noted as the state of the room. Then the player is brought
/// in line: aligned at the first state of a session, moved after a seek,
/// rewound or fast-forwarded where it has drifted too far, slowed down or
/// set back to normal speed, and paused or unpaused.
pub fn apply_global_state(
    state: &mut Session,
    playstate: &PlayState,
    message_age: i64,
    local: Option<(i64, bool)>,
    now: u64,
    effects: &mut Vec<Effect>,
)
    requires
        old(state).wf(),
    ensures
        final(state).wf(),
        final(state)@ == reconciled(old(state)@, playstate@, message_age as int, local, now),
        fx(*final(effects)) == fx(*old(effects)) + reconcile_effects(
            old(state)@,
            playstate@,
            message_age as int,
            local,
            now,
        ),
{
    let noted = note_global_state(state, playstate, message_age, now);
    let l = match local {
        Some(l) => l,
        None => {
            assert(fx(*effects) =~= fx(*old(effects)) + Seq::empty());
            return ;
        },
    };
    if state.player_kind.is_none() {
        assert(fx(*effects) =~= fx(*old(effects)) + Seq::empty());
        return ;
    }
    let ghost r = round_of(old(state)@, playstate@, message_age as int, l, now);
    let d = round_data(state, playstate, noted, l, now, Ghost(r));
    let (marker, slowed) = run_round(state, &d, Ghost(r), effects);
    finish_round(state, d.do_seek, marker, slowed);
}

/// A player that is where the room is and paused as the room is, in a round
/// without a seek, is given no command and nothing is said, where the round
/// is not the first with a file open, the room's pause is what it was, the
/// player is not slowed down and no threshold is negative.
pub proof fn lemma_in_sync_round_is_silent(r: Round)
    requires
        r.diff() == 0,
        r.local_paused == r.paused,
        !r.do_seek,
        !r.init_applies(),
        r.previous_paused == r.paused,
        !r.s.engine.slowdown_active,
        r.s.config.seek_threshold_rewind >= 0,
        r.s.config.slowdown_threshold >= 0,
    ensures
        r.effects() == Seq::<EffectView>::empty(),
        r.session_after().engine.slowdown_active == false,
{
    reveal(Round::init_effects);
    reveal(Round::jump_effects);
    reveal(Round::rewind_effects);
    reveal(Round::fastforward_effects);
    reveal(Round::fastforward_due);
    reveal(Round::speed_effects);
    reveal(Round::slowdown_due);
    reveal(Round::speed_reset_due);
    reveal(Round::slowdown_after);
    reveal(Round::pause_effects);
    reveal(Round::commands_player);
    assert(r.effects() =~= Seq::<EffectView>::empty());
}

} // verus!
