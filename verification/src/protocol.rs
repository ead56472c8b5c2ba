//! The exchange of `State` messages: the counters by which each side tells
//! the other which changes it has seen, the round trip, and the reply.
use crate::messages::{
    ClientMessage, ClientMessageView, IgnoringInfo, PingInfo, PlayState, PlayStateView,
    StateMessage, StateMessageView,
};
use crate::ping::{PingService, PingView};
use crate::reconcile::{apply_global_state, reconcile_effects, reconciled};
use crate::session::{
    emit, fx, Effect, EffectView, IgnoringCounters, LocalPlaybackState, Session, SessionView,
};
use crate::text::{copy_str, opt_view};
use crate::time::{magnitude, sat_sub, sub_ms};
use crate::warnings::{update_room_warnings, update_warning_effects, warnings_updated};
use vstd::prelude::*;

verus! {

/// A change of position by more than this is a jump.
pub const SEEK_THRESHOLD: i64 = 1000;

/// The counters after the server's counters have arrived: a counter of the
/// server is taken over and ends the wait for an acknowledgement; the echo
/// of the client's own counter ends the wait too; any other echo is left
/// aside.
pub open spec fn acknowledged(c: IgnoringCounters, info: IgnoringInfo) -> IgnoringCounters {
    match info.server {
        Some(n) => IgnoringCounters { server: n, client: 0 },
        None => match info.client {
            Some(k) => if k == c.client {
                IgnoringCounters { client: 0, ..c }
            } else {
                c
            },
            None => c,
        },
    }
}

fn acknowledge(c: IgnoringCounters, info: &IgnoringInfo) -> (r: IgnoringCounters)
    ensures
        r == acknowledged(c, *info),
{
    match info.server {
        Some(n) => IgnoringCounters { server: n, client: 0 },
        None => match info.client {
            Some(k) => if k == c.client {
                IgnoringCounters { client: 0, server: c.server }
            } else {
                c
            },
            None => c,
        },
    }
}

pub fn update_ignoring_on_the_fly(state: &mut Session, ignoring: &IgnoringInfo)
    ensures
        final(state)@ == (SessionView {
            ignoring: acknowledged(old(state)@.ignoring, *ignoring),
            ..old(state)@
        }),
        final(state).wf() == old(state).wf(),
{
    state.ignoring_on_the_fly = acknowledge(state.ignoring_on_the_fly, ignoring);
}

/// While the client waits for the acknowledgement of a change of its own,
/// the states that the server sends are left aside.
pub open spec fn ignores_server(c: IgnoringCounters) -> bool {
    c.client != 0
}

impl LocalPlaybackState {
    /// Where the player was and whether it was paused, once both are known.
    pub open spec fn known(self) -> Option<(i64, bool)> {
        match (self.position, self.paused) {
            (Some(p), Some(q)) => Some((p, q)),
            _ => None,
        }
    }

    pub fn current(&self) -> (r: Option<(i64, bool)>)
        ensures
            r == self.known(),
    {
        match (self.position, self.paused) {
            (Some(p), Some(q)) => Some((p, q)),
            _ => None,
        }
    }

    /// The user has paused or unpaused the player: its pause differs from
    /// what it was and from the room's.
    pub open spec fn pause_changes(self, paused: bool, global_paused: bool) -> bool {
        match self.paused {
            Some(p) => p != paused && global_paused != paused,
            None => false,
        }
    }

    /// The user has jumped: the position is more than a second away from
    /// where the player was and from where the room is.
    pub open spec fn jumps(self, position: int, global_position: int) -> bool {
        match self.position {
            Some(p) => magnitude(sat_sub(p as int, position)) > SEEK_THRESHOLD && magnitude(
                sat_sub(global_position, position),
            ) > SEEK_THRESHOLD,
            None => false,
        }
    }

    /// Takes what the player shows; tells whether the user has paused or
    /// unpaused it, and whether the user has jumped.
    pub fn update_from_player(
        &mut self,
        position: i64,
        paused: bool,
        global_position: i64,
        global_paused: bool,
    ) -> (r: (bool, bool))
        ensures
            r.0 == old(self).pause_changes(paused, global_paused),
            r.1 == old(self).jumps(position as int, global_position as int),
            *final(self) == (LocalPlaybackState {
                position: Some(position),
                paused: Some(paused),
                seeked: r.1,
            }),
    {
        let pause_change = match self.paused {
            Some(p) => p != paused && global_paused != paused,
            None => false,
        };
        let seeked = match self.position {
            Some(p) => far(sub_ms(p, position)) && far(sub_ms(global_position, position)),
            None => false,
        };
        self.position = Some(position);
        self.paused = Some(paused);
        self.seeked = seeked;
        (pause_change, seeked)
    }

    /// A jump of the user has not yet reached the room.
    pub open spec fn seek_pending(self, position: int, global_position: int) -> bool {
        self.seeked && magnitude(sat_sub(position, global_position)) > SEEK_THRESHOLD
    }

    pub fn compute_seeked(&self, position: i64, global_position: i64) -> (r: bool)
        ensures
            r == self.seek_pending(position as int, global_position as int),
    {
        self.seeked && far(sub_ms(position, global_position))
    }
}

fn far(diff: i64) -> (r: bool)
    ensures
        r == (magnitude(diff as int) > SEEK_THRESHOLD),
{
    diff > SEEK_THRESHOLD || diff < -SEEK_THRESHOLD
}

/// The state of playback that the client reports: nothing before the first
/// state of the room or before the player was seen, else where the player is
/// (where the room is, for a client that the others need not wait for) and
/// whether it is paused, marked as a seek while a jump is pending.
pub open spec fn local_playstate(s: SessionView) -> Option<PlayStateView> {
    if s.last_global_update.is_none() {
        None
    } else {
        match s.local.known() {
            Some((local_position, local_paused)) => {
                let position = if s.config.dont_slow_down_with_me {
                    s.client.global_state.position
                } else {
                    local_position
                };
                Some(
                    PlayStateView {
                        position,
                        paused: local_paused,
                        do_seek: if s.local.seek_pending(
                            position as int,
                            s.client.global_state.position as int,
                        ) {
                            Some(true)
                        } else {
                            None
                        },
                        set_by: None,
                    },
                )
            },
            None => None,
        }
    }
}

pub fn build_local_playstate(state: &Session) -> (r: Option<PlayState>)
    ensures
        opt_view(r) == local_playstate(state@),
{
    if state.last_global_update.is_none() {
        return None;
    }
    let global = state.client_state.get_global_state();
    let (local_position, local_paused) = match state.local_playback_state.current() {
        Some(l) => l,
        None => {
            return None;
        },
    };
    let position = if state.config.dont_slow_down_with_me {
        global.position
    } else {
        local_position
    };
    let do_seek = if state.local_playback_state.compute_seeked(position, global.position) {
        Some(true)
    } else {
        None
    };
    Some(PlayState { position, paused: local_paused, do_seek, set_by: None })
}

/// The client's counter after a message: one more for a change of state,
/// never past the largest number.
pub open spec fn client_counter_after(c: IgnoringCounters, state_change: bool) -> u16 {
    if state_change && c.client < u16::MAX {
        (c.client + 1) as u16
    } else {
        c.client
    }
}

/// The counters after a `State` message was written: the server's counter
/// has been echoed and is dropped.
pub open spec fn counters_after_send(c: IgnoringCounters, state_change: bool) -> IgnoringCounters {
    IgnoringCounters { server: 0, client: client_counter_after(c, state_change) }
}

pub open spec fn nonzero(n: u16) -> Option<u16> {
    if n != 0 {
        Some(n)
    } else {
        None
    }
}

/// The counters that a `State` message carries: those that are not 0.
pub open spec fn counters_sent(c: IgnoringCounters, state_change: bool) -> Option<IgnoringInfo> {
    let client = client_counter_after(c, state_change);
    if c.server != 0 || client != 0 {
        Some(IgnoringInfo { server: nonzero(c.server), client: nonzero(client) })
    } else {
        None
    }
}

/// The `State` message that is written: it carries the state of playback
/// unless the client waits for an acknowledgement that the server has not
/// given.
pub open spec fn state_message(
    s: SessionView,
    playstate: Option<PlayStateView>,
    latency_calculation: Option<i64>,
    state_change: bool,
) -> ClientMessageView {
    ClientMessageView::State {
        playstate: if s.ignoring.client == 0 || s.ignoring.server != 0 {
            playstate
        } else {
            None
        },
        latency_calculation,
        client_rtt: s.ping.rtt as i64,
        ignoring_on_the_fly: counters_sent(s.ignoring, state_change),
    }
}

pub open spec fn state_send_effects(
    s: SessionView,
    playstate: Option<PlayStateView>,
    latency_calculation: Option<i64>,
    state_change: bool,
) -> Seq<EffectView> {
    if s.connected {
        seq![EffectView::Send(state_message(s, playstate, latency_calculation, state_change))]
    } else {
        Seq::empty()
    }
}

fn nonzero_of(n: u16) -> (r: Option<u16>)
    ensures
        r == nonzero(n),
{
    if n != 0 {
        Some(n)
    } else {
        None
    }
}

pub(crate) fn write_state(
    state: &Session,
    playstate: Option<PlayState>,
    latency_calculation: Option<i64>,
    state_change: bool,
    effects: &mut Vec<Effect>,
) -> (r: (IgnoringCounters, Result<(), String>))
    ensures
        r.0 == counters_after_send(state@.ignoring, state_change),
        match r.1 {
            Ok(_) => state@.connected,
            Err(e) => !state@.connected && e@ == "Not connected"@,
        },
        fx(*final(effects)) == fx(*old(effects)) + state_send_effects(
            state@,
            opt_view(playstate),
            latency_calculation,
            state_change,
        ),
{
    let c = state.ignoring_on_the_fly;
    let playstate = if c.client == 0 || c.server != 0 {
        playstate
    } else {
        None
    };
    let client: u16 = if state_change && c.client < u16::MAX {
        c.client + 1
    } else {
        c.client
    };
    let ignoring_info = if c.server != 0 || client != 0 {
        Some(IgnoringInfo { server: nonzero_of(c.server), client: nonzero_of(client) })
    } else {
        None
    };
    let after = IgnoringCounters { server: 0, client };
    if !state.connected {
        assert(fx(*effects) =~= fx(*old(effects)) + Seq::empty());
        return (after, Err(copy_str("Not connected")));
    }
    emit(
        effects,
        Effect::Send(
            ClientMessage::State {
                playstate,
                latency_calculation,
                client_rtt: state.ping_service.get_rtt(),
                ignoring_on_the_fly: ignoring_info,
            },
        ),
    );
    assert(fx(*effects) =~= fx(*old(effects)) + state_send_effects(
        state@,
        opt_view(playstate),
        latency_calculation,
        state_change,
    ));
    (after, Ok(()))
}

/// Writes a `State` message. A change of state raises the client's counter;
/// the server's counter is echoed once.
pub fn send_state_message(
    state: &mut Session,
    playstate: Option<PlayState>,
    latency_calculation: Option<i64>,
    state_change: bool,
    effects: &mut Vec<Effect>,
) -> (r: Result<(), String>)
    ensures
        final(state)@ == (SessionView {
            ignoring: counters_after_send(old(state)@.ignoring, state_change),
            ..old(state)@
        }),
        final(state).wf() == old(state).wf(),
        match r {
            Ok(_) => old(state)@.connected,
            Err(e) => !old(state)@.connected && e@ == "Not connected"@,
        },
        fx(*final(effects)) == fx(*old(effects)) + state_send_effects(
            old(state)@,
            opt_view(playstate),
            latency_calculation,
            state_change,
        ),
{
    let (after, r) = write_state(state, playstate, latency_calculation, state_change, effects);
    state.ignoring_on_the_fly = after;
    r
}

/// Answers the server with the client's state of playback.
pub fn send_state_reply(
    state: &mut Session,
    latency_calculation: Option<i64>,
    effects: &mut Vec<Effect>,
)
    ensures
        final(state)@ == (SessionView {
            ignoring: counters_after_send(old(state)@.ignoring, false),
            ..old(state)@
        }),
        final(state).wf() == old(state).wf(),
        fx(*final(effects)) == fx(*old(effects)) + state_send_effects(
            old(state)@,
            local_playstate(old(state)@),
            latency_calculation,
            false,
        ),
{
    let playstate = build_local_playstate(state);
    let _ = send_state_message(state, playstate, latency_calculation, false, effects);
}

/// After `k` changes of state in a row, none acknowledged, the client's
/// counter stands at `k`.
pub open spec fn after_changes(c: IgnoringCounters, k: nat) -> IgnoringCounters
    decreases k,
{
    if k == 0 {
        c
    } else {
        counters_after_send(after_changes(c, (k - 1) as nat), true)
    }
}

pub proof fn lemma_counter_counts_changes(k: nat)
    requires
        k <= u16::MAX,
    ensures
        after_changes(IgnoringCounters { server: 0, client: 0 }, k).client == k,
        after_changes(IgnoringCounters { server: 0, client: 0 }, k).server == 0,
        k > 0 ==> ignores_server(after_changes(IgnoringCounters { server: 0, client: 0 }, k)),
    decreases k,
{
    if k > 0 {
        lemma_counter_counts_changes((k - 1) as nat);
    }
}

/// A message of the server acknowledges nothing: it carries no counter of
/// the server and does not echo the client's.
pub open spec fn acknowledges_nothing(c: IgnoringCounters, info: Option<IgnoringInfo>) -> bool {
    match info {
        Some(i) => i.server.is_none() && i.client != Some(c.client),
        None => true,
    }
}

pub open spec fn counters_received(c: IgnoringCounters, info: Option<IgnoringInfo>) -> IgnoringCounters {
    match info {
        Some(i) => acknowledged(c, i),
        None => c,
    }
}

/// The counters after a run of messages of the server.
pub open spec fn after_messages(c: IgnoringCounters, infos: Seq<Option<IgnoringInfo>>) -> IgnoringCounters
    decreases infos.len(),
{
    if infos.len() == 0 {
        c
    } else {
        counters_received(after_messages(c, infos.drop_last()), infos.last())
    }
}

/// While no message of the server acknowledges the client's changes, the
/// state of every one of them is left aside, however many arrive.
pub proof fn lemma_unacknowledged_are_ignored(c: IgnoringCounters, infos: Seq<Option<IgnoringInfo>>)
    requires
        ignores_server(c),
        forall|i: int| 0 <= i < infos.len() ==> acknowledges_nothing(c, #[trigger] infos[i]),
    ensures
        after_messages(c, infos) == c,
        forall|i: int|
            0 <= i <= infos.len() ==> ignores_server(#[trigger] after_messages(c, infos.take(i))),
    decreases infos.len(),
{
    if infos.len() > 0 {
        lemma_unacknowledged_are_ignored(c, infos.drop_last());
        assert forall|i: int| 0 <= i <= infos.len() implies ignores_server(
            #[trigger] after_messages(c, infos.take(i)),
        ) by {
            if i < infos.len() {
                assert(infos.take(i) =~= infos.drop_last().take(i));
            } else {
                assert(infos.take(i) =~= infos);
            }
        }
    } else {
        assert forall|i: int| 0 <= i <= infos.len() implies ignores_server(
            #[trigger] after_messages(c, infos.take(i)),
        ) by {
            assert(infos.take(i) =~= infos);
        }
    }
}

/// The echo of the client's counter, or a counter of the server, ends the
/// wait: the states of the server count again.
pub proof fn lemma_acknowledgement_resumes(c: IgnoringCounters, info: IgnoringInfo)
    requires
        info.server.is_some() || info.client == Some(c.client),
    ensures
        !ignores_server(acknowledged(c, info)),
{
}

/// The session after a state of the room has arrived and the room has been
/// looked at.
pub open spec fn state_updated(
    s: SessionView,
    playstate: PlayStateView,
    age: int,
    local: Option<(i64, bool)>,
    now: u64,
) -> SessionView {
    warnings_updated(reconciled(s, playstate, age, local, now), false, now)
}

pub open spec fn state_update_effects(
    s: SessionView,
    playstate: PlayStateView,
    age: int,
    local: Option<(i64, bool)>,
    now: u64,
) -> Seq<EffectView> {
    reconcile_effects(s, playstate, age, local, now) + update_warning_effects(
        reconciled(s, playstate, age, local, now),
        false,
        now,
    )
}

/// Takes a state of playback from the server: brings the player in line
/// with it and looks at the room.
pub fn handle_state_update(
    state: &mut Session,
    playstate: &PlayState,
    message_age: i64,
    local: Option<(i64, bool)>,
    now: u64,
    effects: &mut Vec<Effect>,
)
    requires
        old(state).wf(),
    ensures
        final(state).wf(),
        final(state)@ == state_updated(old(state)@, playstate@, message_age as int, local, now),
        fx(*final(effects)) == fx(*old(effects)) + state_update_effects(
            old(state)@,
            playstate@,
            message_age as int,
            local,
            now,
        ),
{
    apply_global_state(state, playstate, message_age, local, now, effects);
    let ghost mid = fx(*effects);
    update_room_warnings(state, false, now, effects);
    assert(fx(*effects) =~= fx(*old(effects)) + state_update_effects(
        old(state)@,
        playstate@,
        message_age as int,
        local,
        now,
    ));
}

/// The sample of the round trip that a message carries, if it carries one.
pub open spec fn ping_sample(ping: Option<PingInfo>) -> Option<(i64, i64)> {
    match ping {
        Some(p) => match (p.client_latency_calculation, p.server_rtt) {
            (Some(t), Some(r)) => Some((t, r)),
            _ => None,
        },
        None => None,
    }
}

/// The measure of the round trip after a message.
pub open spec fn ping_after(p: PingView, ping: Option<PingInfo>, wall_now: i64) -> PingView {
    match ping_sample(ping) {
        Some((t, r)) => p.received(t as int, r as int, wall_now as int),
        None => p,
    }
}

/// How old a message is taken to be: as old as the forward delay after its
/// sample, not old at all where it carries none.
pub open spec fn message_age(p: PingView, ping: Option<PingInfo>, wall_now: i64) -> int {
    match ping_sample(ping) {
        Some(_) => ping_after(p, ping, wall_now).fd,
        None => 0,
    }
}

pub open spec fn ping_effects(p: PingView, ping: Option<PingInfo>, wall_now: i64) -> Seq<
    EffectView,
> {
    match ping_sample(ping) {
        Some(_) => seq![EffectView::EmitPing { rtt: ping_after(p, ping, wall_now).rtt as i64 }],
        None => Seq::empty(),
    }
}

fn sample_of(ping: &Option<PingInfo>) -> (r: Option<(i64, i64)>)
    ensures
        r == ping_sample(*ping),
{
    match ping {
        Some(p) => match (p.client_latency_calculation, p.server_rtt) {
            (Some(t), Some(r)) => Some((t, r)),
            _ => None,
        },
        None => None,
    }
}

fn measure(service: PingService, ping: &Option<PingInfo>, wall_now: i64, effects: &mut Vec<Effect>) -> (r:
    (PingService, i64))
    requires
        service.wf(),
    ensures
        r.0.wf(),
        r.0@ == ping_after(service@, *ping, wall_now),
        r.1 == message_age(service@, *ping, wall_now),
        fx(*final(effects)) == fx(*old(effects)) + ping_effects(service@, *ping, wall_now),
{
    let ghost before = service@;
    let mut service = service;
    match sample_of(ping) {
        Some((t, r)) => {
            service.receive_message(t, r, wall_now);
            emit(effects, Effect::EmitPing { rtt: service.get_rtt() });
            assert(fx(*effects) =~= fx(*old(effects)) + ping_effects(before, *ping, wall_now));
            (service, service.get_last_forward_delay())
        },
        None => {
            assert(fx(*effects) =~= fx(*old(effects)) + Seq::empty());
            (service, 0)
        },
    }
}

/// The session with the counters and the round trip of a message noted.
pub open spec fn message_noted(s: SessionView, m: StateMessageView, wall_now: i64) -> SessionView {
    SessionView {
        ignoring: counters_received(s.ignoring, m.ignoring_on_the_fly),
        ping: ping_after(s.ping, m.ping, wall_now),
        last_latency_calculation: match m.ping {
            Some(p) => p.latency_calculation,
            None => s.last_latency_calculation,
        },
        ..s
    }
}

fn note_message(state: &mut Session, message: &StateMessage, wall_now: i64, effects: &mut Vec<Effect>) -> (age:
    i64)
    requires
        old(state).wf(),
    ensures
        final(state).wf(),
        final(state)@ == message_noted(old(state)@, message@, wall_now),
        age == message_age(old(state)@.ping, message@.ping, wall_now),
        fx(*final(effects)) == fx(*old(effects)) + ping_effects(
            old(state)@.ping,
            message@.ping,
            wall_now,
        ),
{
    let counters = match &message.ignoring_on_the_fly {
        Some(i) => acknowledge(state.ignoring_on_the_fly, i),
        None => state.ignoring_on_the_fly,
    };
    let (service, age) = measure(state.ping_service, &message.ping, wall_now, effects);
    let latency = match &message.ping {
        Some(p) => p.latency_calculation,
        None => state.last_latency_calculation,
    };
    state.ignoring_on_the_fly = counters;
    state.ping_service = service;
    state.last_latency_calculation = latency;
    age
}

/// Whether the state of playback in a message is taken: there is one, and
/// the client does not wait for an acknowledgement.
pub open spec fn takes_playstate(s: SessionView, m: StateMessageView) -> bool {
    m.playstate.is_some() && !ignores_server(counters_received(s.ignoring, m.ignoring_on_the_fly))
}

/// The session after a `State` message.
pub open spec fn state_message_handled(
    s: SessionView,
    m: StateMessageView,
    local: Option<(i64, bool)>,
    wall_now: i64,
    now: u64,
) -> SessionView {
    if takes_playstate(s, m) {
        state_updated(
            message_noted(s, m, wall_now),
            m.playstate.unwrap(),
            message_age(s.ping, m.ping, wall_now),
            local,
            now,
        )
    } else {
        message_noted(s, m, wall_now)
    }
}

pub open spec fn state_message_effects(
    s: SessionView,
    m: StateMessageView,
    local: Option<(i64, bool)>,
    wall_now: i64,
    now: u64,
) -> Seq<EffectView> {
    ping_effects(s.ping, m.ping, wall_now) + (if takes_playstate(s, m) {
        state_update_effects(
            message_noted(s, m, wall_now),
            m.playstate.unwrap(),
            message_age(s.ping, m.ping, wall_now),
            local,
            now,
        )
    } else {
        Seq::empty()
    })
}

/// The time stamp of the server that the reply echoes.
pub open spec fn latency_to_echo(m: StateMessageView) -> Option<i64> {
    match m.ping {
        Some(p) => p.latency_calculation,
        None => None,
    }
}

/// Takes a `State` message of the server. `local` is where the player is
/// and whether it is paused, where that is known; `wall_now` is the time of
/// day as a time stamp, `now` the reading of the monotonic clock.
///
/// The counters and the round trip are noted. The state of playback is
/// taken unless the client waits for an acknowledgement. The result is the
/// time stamp for the reply, which is written once the effects are done.
pub fn handle_state_message(
    state: &mut Session,
    message: &StateMessage,
    local: Option<(i64, bool)>,
    wall_now: i64,
    now: u64,
    effects: &mut Vec<Effect>,
) -> (r: Option<i64>)
    requires
        old(state).wf(),
    ensures
        final(state).wf(),
        final(state)@ == state_message_handled(old(state)@, message@, local, wall_now, now),
        r == latency_to_echo(message@),
        fx(*final(effects)) == fx(*old(effects)) + state_message_effects(
            old(state)@,
            message@,
            local,
            wall_now,
            now,
        ),
{
    let age = note_message(state, message, wall_now, effects);
    let ghost mid = fx(*effects);
    let active = state.ignoring_on_the_fly.client != 0;
    match &message.playstate {
        Some(playstate) => {
            if !active {
                handle_state_update(state, playstate, age, local, now, effects);
            }
        },
        None => {},
    }
    assert(fx(*effects) =~= fx(*old(effects)) + state_message_effects(
        old(state)@,
        message@,
        local,
        wall_now,
        now,
    ));
    match &message.ping {
        Some(p) => p.latency_calculation,
        None => None,
    }
}

} // verus!
