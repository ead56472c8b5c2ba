//! The plain synchronisation engine: what to do to a player so that it
//! follows the room. Positions and thresholds are in milliseconds.
use crate::time::{add_ms, magnitude, sat_add, sat_sub, sub_ms};
use vstd::prelude::*;

verus! {

/// A player that is ahead of the room by more than this is set back to
/// where the room is.
pub const SEEK_THRESHOLD_REWIND: i64 = 4000;

/// A player that is behind the room by more than this is moved forward.
pub const SEEK_THRESHOLD_FASTFORWARD: i64 = 5000;

/// A playing player that is off by more than this is slowed down.
pub const SLOWDOWN_THRESHOLD: i64 = 1500;

/// A slowed player that is off by less than this returns to normal speed.
pub const SLOWDOWN_RESET_THRESHOLD: i64 = 500;

/// The speed of a slowed player, in thousandths of the normal speed.
pub const SLOWDOWN_RATE: u32 = 950;

/// A player that has been behind by more than this is watched.
pub const FASTFORWARD_BEHIND_THRESHOLD: i64 = 1750;

/// How far past the room's position a fast-forward lands.
pub const FASTFORWARD_EXTRA_TIME: i64 = 250;

/// How long after a fast-forward the next one waits.
pub const FASTFORWARD_RESET_THRESHOLD: u64 = 3000;

/// What to do to the player.
#[derive(Debug, Clone, Copy, PartialEq, Eq, Structural)]
pub enum SyncAction {
    /// Nothing.
    NoAction,
    /// Go to a position.
    Seek(i64),
    /// Pause or play.
    SetPaused(bool),
    /// Play at the slowed speed.
    Slowdown,
    /// Play at the normal speed.
    ResetSpeed,
}

/// The engine: whether the player is slowed down, and since when it has been
/// behind.
pub struct SyncEngine {
    slowdown_active: bool,
    behind_first_detected: Option<u64>,
}

pub struct SyncEngineView {
    pub slowdown_active: bool,
    pub behind_first_detected: Option<u64>,
}

impl View for SyncEngine {
    type V = SyncEngineView;

    closed spec fn view(&self) -> SyncEngineView {
        SyncEngineView {
            slowdown_active: self.slowdown_active,
            behind_first_detected: self.behind_first_detected,
        }
    }
}

/// The room's position when a message of the given age arrives: the
/// position it names, later by the age where the room is playing.
pub open spec fn adjusted_position(global_position: int, global_paused: bool, age: int) -> int {
    if !global_paused {
        sat_add(global_position, age)
    } else {
        global_position
    }
}

/// The player is too far ahead of the room; `diff` is how far it is ahead.
pub open spec fn rewinds(diff: int) -> bool {
    diff > SEEK_THRESHOLD_REWIND
}

/// The player is too far behind the room.
pub open spec fn fastforwards(diff: int) -> bool {
    diff < -SEEK_THRESHOLD_FASTFORWARD
}

/// Where a player lands that is moved forward: a little past the room.
pub open spec fn fastforward_target(target: int) -> int {
    sat_add(target, FASTFORWARD_EXTRA_TIME as int)
}

/// What follows from the positions, where the player is paused as the
/// room is; `diff` is how far the player is ahead of the room. A player
/// too far ahead goes back to the room's position, one too far behind goes
/// a little past it. Short of that, a playing player that is off by more
/// than the slowdown threshold is slowed down, once, and a slowed player
/// that is off by less than the reset threshold returns to normal speed.
pub open spec fn position_actions(
    slowdown_active: bool,
    diff: int,
    target: int,
    global_paused: bool,
) -> Seq<SyncAction> {
    if rewinds(diff) {
        seq![SyncAction::Seek(target as i64)]
    } else if fastforwards(diff) {
        seq![SyncAction::Seek(fastforward_target(target) as i64)]
    } else if !global_paused && magnitude(diff) > SLOWDOWN_THRESHOLD {
        if slowdown_active {
            Seq::empty()
        } else {
            seq![SyncAction::Slowdown]
        }
    } else if slowdown_active && magnitude(diff) < SLOWDOWN_RESET_THRESHOLD {
        seq![SyncAction::ResetSpeed]
    } else {
        Seq::empty()
    }
}

/// Whether the player is slowed down afterwards: not after a seek or a
/// return to normal speed, and always after a slowdown.
pub open spec fn slowdown_after(
    slowdown_active: bool,
    diff: int,
    global_paused: bool,
) -> bool {
    if rewinds(diff) || fastforwards(diff) {
        false
    } else if !global_paused && magnitude(diff) > SLOWDOWN_THRESHOLD {
        true
    } else if slowdown_active && magnitude(diff) < SLOWDOWN_RESET_THRESHOLD {
        false
    } else {
        slowdown_active
    }
}

/// What brings the pause of the player in line with the room's: a player
/// that is to pause goes to the room's position first, a player that is to
/// play just plays.
pub open spec fn pause_actions(target: int, global_paused: bool) -> Seq<SyncAction> {
    if global_paused {
        seq![SyncAction::Seek(target as i64), SyncAction::SetPaused(true)]
    } else {
        seq![SyncAction::SetPaused(false)]
    }
}

/// The actions of one round. A player whose pause differs from the room's
/// is brought in line with the room's pause; else its position is judged.
/// A round without anything to do yields the one action `NoAction`.
pub open spec fn sync_actions(
    slowdown_active: bool,
    local_position: int,
    local_paused: bool,
    global_position: int,
    global_paused: bool,
    message_age: int,
) -> Seq<SyncAction> {
    let target = adjusted_position(global_position, global_paused, message_age);
    let diff = sat_sub(local_position, target);
    let found = if local_paused != global_paused {
        pause_actions(target, global_paused)
    } else {
        position_actions(slowdown_active, diff, target, global_paused)
    };
    if found.len() == 0 {
        seq![SyncAction::NoAction]
    } else {
        found
    }
}

impl SyncEngine {
    pub fn new() -> (r: Self)
        ensures
            r@ == (SyncEngineView { slowdown_active: false, behind_first_detected: None }),
    {
        Self { slowdown_active: false, behind_first_detected: None }
    }

    /// The actions that bring the player in line with the room.
    pub fn calculate_sync_actions(
        &mut self,
        local_position: i64,
        local_paused: bool,
        global_position: i64,
        global_paused: bool,
        message_age: i64,
    ) -> (r: Vec<SyncAction>)
        ensures
            r@ == sync_actions(
                old(self)@.slowdown_active,
                local_position as int,
                local_paused,
                global_position as int,
                global_paused,
                message_age as int,
            ),
            final(self)@ == (SyncEngineView {
                slowdown_active: if local_paused != global_paused {
                    old(self)@.slowdown_active
                } else {
                    slowdown_after(
                        old(self)@.slowdown_active,
                        sat_sub(
                            local_position as int,
                            adjusted_position(
                                global_position as int,
                                global_paused,
                                message_age as int,
                            ),
                        ),
                        global_paused,
                    )
                },
                ..old(self)@
            }),
    {
        let mut actions: Vec<SyncAction> = Vec::new();
        let target = if !global_paused {
            add_ms(global_position, message_age)
        } else {
            global_position
        };
        let diff = sub_ms(local_position, target);
        if local_paused != global_paused {
            if global_paused {
                actions.push(SyncAction::Seek(target));
            }
            actions.push(SyncAction::SetPaused(global_paused));
        } else if diff > SEEK_THRESHOLD_REWIND {
            actions.push(SyncAction::Seek(target));
            self.slowdown_active = false;
        } else if diff < -SEEK_THRESHOLD_FASTFORWARD {
            actions.push(SyncAction::Seek(add_ms(target, FASTFORWARD_EXTRA_TIME)));
            self.slowdown_active = false;
        } else if !global_paused && (diff > SLOWDOWN_THRESHOLD || diff < -SLOWDOWN_THRESHOLD) {
            if !self.slowdown_active {
                actions.push(SyncAction::Slowdown);
                self.slowdown_active = true;
            }
        } else if self.slowdown_active && diff < SLOWDOWN_RESET_THRESHOLD && diff
            > -SLOWDOWN_RESET_THRESHOLD {
            actions.push(SyncAction::ResetSpeed);
            self.slowdown_active = false;
        }
        if actions.len() == 0 {
            actions.push(SyncAction::NoAction);
        }
        assert(actions@ =~= sync_actions(
            old(self)@.slowdown_active,
            local_position as int,
            local_paused,
            global_position as int,
            global_paused,
            message_age as int,
        ));
        actions
    }

    pub fn reset_slowdown(&mut self)
        ensures
            final(self)@ == (SyncEngineView { slowdown_active: false, ..old(self)@ }),
    {
        self.slowdown_active = false;
    }

    pub fn is_slowdown_active(&self) -> (r: bool)
        ensures
            r == self@.slowdown_active,
    {
        self.slowdown_active
    }

    pub fn set_slowdown_active(&mut self, active: bool)
        ensures
            final(self)@ == (SyncEngineView { slowdown_active: active, ..old(self)@ }),
    {
        self.slowdown_active = active;
    }

    /// Since when the player has been behind the room.
    pub fn behind_first_detected(&self) -> (r: Option<u64>)
        ensures
            r == self@.behind_first_detected,
    {
        self.behind_first_detected
    }

    pub fn set_behind_first_detected(&mut self, marker: Option<u64>)
        ensures
            final(self)@ == (SyncEngineView { behind_first_detected: marker, ..old(self)@ }),
    {
        self.behind_first_detected = marker;
    }
}

impl Default for SyncEngine {
    fn default() -> (r: Self)
        ensures
            r@ == (SyncEngineView { slowdown_active: false, behind_first_detected: None }),
    {
        Self::new()
    }
}

/// A player that is where the room is, paused as the room is and not slowed
/// down, is left alone and stays as it is.
pub proof fn lemma_in_sync_no_action(position: int, paused: bool)
    requires
        i64::MIN <= position <= i64::MAX,
    ensures
        sync_actions(false, position, paused, position, paused, 0) == seq![SyncAction::NoAction],
        slowdown_after(false, 0, paused) == false,
{
    assert(sat_sub(position, adjusted_position(position, paused, 0)) == 0) by {
        if !paused {
            assert(sat_add(position, 0) == crate::time::clamp(position));
        }
    }
}

/// A player that plays while the room is paused goes to the room's
/// position and is then paused; a player that is paused while the room
/// plays just plays. Nothing else is done in such a round.
pub proof fn lemma_pause_is_aligned(
    slowdown_active: bool,
    local_position: int,
    local_paused: bool,
    global_position: int,
    global_paused: bool,
    message_age: int,
)
    requires
        local_paused != global_paused,
    ensures
        sync_actions(
            slowdown_active,
            local_position,
            local_paused,
            global_position,
            global_paused,
            message_age,
        ) == (if global_paused {
            seq![SyncAction::Seek(global_position as i64), SyncAction::SetPaused(true)]
        } else {
            seq![SyncAction::SetPaused(false)]
        }),
{
}

/// A player that is ahead of the room by more than the rewind threshold,
/// and paused as the room is, is set back to where the room is and is no
/// longer slowed down.
pub proof fn lemma_ahead_is_set_back(
    slowdown_active: bool,
    local_position: int,
    global_position: int,
    paused: bool,
    message_age: int,
)
    requires
        sat_sub(local_position, adjusted_position(global_position, paused, message_age))
            > SEEK_THRESHOLD_REWIND,
    ensures
        sync_actions(slowdown_active, local_position, paused, global_position, paused, message_age)
            == seq![
            SyncAction::Seek(adjusted_position(global_position, paused, message_age) as i64),
        ],
        slowdown_after(
            slowdown_active,
            sat_sub(local_position, adjusted_position(global_position, paused, message_age)),
            paused,
        ) == false,
{
}

} // verus!

