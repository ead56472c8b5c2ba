//! What the player says over its socket, and what becomes of it.
use crate::events::{event_named, MpvPlayerEvent, MpvPlayerEventView};
use crate::properties::{PlayerState, PlayerStateView, PropertyId, PropertyValue, PropertyValueView};
use crate::text::{copy_str, opt_view, texts_equal};
use std::collections::HashMap;
use vstd::prelude::*;

verus! {

/// An event as the player reports it.
#[derive(Debug)]
pub struct MpvEvent {
    pub event: String,
    /// The number under which a property is observed.
    pub id: Option<u64>,
    pub data: Option<PropertyValue>,
    /// The line of a log message.
    pub text: Option<String>,
    /// Why a file has ended.
    pub reason: Option<String>,
}

pub struct MpvEventView {
    pub event: Seq<char>,
    pub id: Option<u64>,
    pub data: Option<PropertyValueView>,
    pub text: Option<Seq<char>>,
    pub reason: Option<Seq<char>>,
}

impl View for MpvEvent {
    type V = MpvEventView;

    open spec fn view(&self) -> MpvEventView {
        MpvEventView {
            event: self.event@,
            id: self.id,
            data: opt_view(self.data),
            text: opt_view(self.text),
            reason: opt_view(self.reason),
        }
    }
}

/// The property that is observed under a number.
pub open spec fn property_of(id: u64) -> Option<PropertyId> {
    if id == 1 {
        Some(PropertyId::TimePos)
    } else if id == 2 {
        Some(PropertyId::Pause)
    } else if id == 3 {
        Some(PropertyId::Filename)
    } else if id == 4 {
        Some(PropertyId::Duration)
    } else if id == 5 {
        Some(PropertyId::Path)
    } else if id == 6 {
        Some(PropertyId::Speed)
    } else {
        None
    }
}

/// The property whose change an event reports, with the value: a change
/// without a value reports that the property has none.
pub open spec fn change_of(e: MpvEventView) -> Option<(PropertyId, PropertyValueView)> {
    if e.event != "property-change"@ {
        None
    } else {
        match e.id {
            Some(id) => match property_of(id) {
                Some(p) => Some(
                    (
                        p,
                        match e.data {
                            Some(v) => v,
                            None => PropertyValueView::Null,
                        },
                    ),
                ),
                None => None,
            },
            None => None,
        }
    }
}

/// What is known of the player after an event: a change of a property is
/// taken over, anything else changes nothing.
pub open spec fn after_event(s: PlayerStateView, e: MpvEventView) -> PlayerStateView {
    match change_of(e) {
        Some((p, v)) => s.updated(p, v),
        None => s,
    }
}

/// Whether an event reports a position.
pub open spec fn reports_position(e: MpvEventView) -> bool {
    match change_of(e) {
        Some((p, v)) => p == PropertyId::TimePos && v != PropertyValueView::Null,
        None => false,
    }
}

/// What an event hands on to the rest of the client: a line of the log, or
/// the event by its name; nothing for a change of a property, nor for a log
/// message without a line.
pub open spec fn handed_on(e: MpvEventView) -> Option<MpvPlayerEventView> {
    if e.event == "property-change"@ {
        None
    } else if e.event == "log-message"@ {
        match e.text {
            Some(t) => Some(MpvPlayerEventView::LogMessage(t)),
            None => None,
        }
    } else {
        Some(event_named(e.event, e.reason))
    }
}

/// What came of an event.
pub struct EventOutcome {
    /// The event that the rest of the client is to see, if any.
    pub event: Option<MpvPlayerEvent>,
    /// The event has reported a position: the time of the last report is
    /// now.
    pub position_seen: bool,
}

fn is_null(v: &PropertyValue) -> (r: bool)
    ensures
        r == (v@ == PropertyValueView::Null),
{
    match v {
        PropertyValue::Null => true,
        _ => false,
    }
}

/// Takes an event of the player.
pub fn handle_event(state: &mut PlayerState, event: &MpvEvent) -> (r: EventOutcome)
    ensures
        final(state)@ == after_event(old(state)@, event@),
        r.position_seen == reports_position(event@),
        opt_view(r.event) == handed_on(event@),
{
    if texts_equal(&event.event, "property-change") {
        let mut seen = false;
        match event.id {
            Some(id) => {
                match PropertyId::from_u64(id) {
                    Some(p) => {
                        assert(property_of(id) == Some(p));
                        match &event.data {
                            Some(v) => {
                                seen = p == PropertyId::TimePos && !is_null(v);
                                state.update_property(p, v);
                            },
                            None => {
                                state.update_property(p, &PropertyValue::Null);
                            },
                        }
                    },
                    None => {
                        assert(property_of(id).is_none());
                    },
                }
            },
            None => {},
        }
        return EventOutcome { event: None, position_seen: seen };
    }
    if texts_equal(&event.event, "log-message") {
        let line = match &event.text {
            Some(t) => Some(MpvPlayerEvent::LogMessage(copy_str(t.as_str()))),
            None => None,
        };
        return EventOutcome { event: line, position_seen: false };
    }
    let reason: Option<&str> = match &event.reason {
        Some(r) => Some(r.as_str()),
        None => None,
    };
    let named = MpvPlayerEvent::from_event_name(event.event.as_str(), reason);
    EventOutcome { event: Some(named), position_seen: false }
}

/// Whether the answer to a request reports a failure: an error that is
/// neither empty nor `success`.
pub fn response_failed(error: &str) -> (r: bool)
    ensures
        r == (error@.len() > 0 && error@ != "success"@),
{
    proof {
        reveal_strlit("success");
    }
    error.unicode_len() > 0 && !texts_equal(&copy_str(error), "success")
}

/// The requests that wait for their answers, each under its number, with
/// what is kept for the answer.
pub struct PendingRequests<T> {
    next: u64,
    waiting: HashMap<u64, T>,
}

pub struct PendingRequestsView<T> {
    pub next: u64,
    pub waiting: Map<u64, T>,
}

impl<T> View for PendingRequests<T> {
    type V = PendingRequestsView<T>;

    closed spec fn view(&self) -> PendingRequestsView<T> {
        PendingRequestsView { next: self.next, waiting: self.waiting@ }
    }
}

/// Every number that waits was given out.
pub open spec fn requests_valid<T>(v: PendingRequestsView<T>) -> bool {
    forall|id: u64| #[trigger] v.waiting.contains_key(id) ==> id < v.next
}

impl<T> PendingRequests<T> {
    /// Every number that waits was given out.
    pub open spec fn wf(&self) -> bool {
        requests_valid(self@)
    }

    /// No request waits; the first number is 1.
    pub fn new() -> (r: PendingRequests<T>)
        ensures
            r.wf(),
            r@.next == 1,
            r@.waiting == Map::<u64, T>::empty(),
    {
        PendingRequests { next: 1, waiting: HashMap::new() }
    }

    /// Gives the next number to a request that now waits for its answer,
    /// and keeps `kept` for the answer; no number where the numbers are
    /// used up, and then nothing is kept.
    pub fn register(&mut self, kept: T) -> (id: Option<u64>)
        ensures
            old(self).wf() ==> final(self).wf(),
            id == (if old(self)@.next < u64::MAX {
                Some(old(self)@.next)
            } else {
                None
            }),
            final(self)@ == (match id {
                Some(n) => PendingRequestsView {
                    next: (n + 1) as u64,
                    waiting: old(self)@.waiting.insert(n, kept),
                },
                None => old(self)@,
            }),
    {
        broadcast use vstd::std_specs::hash::group_hash_axioms;

        let id = self.next;
        if id == u64::MAX {
            return None;
        }
        self.next = id + 1;
        let _ = self.waiting.insert(id, kept);
        proof {
            assert(self@.waiting == old(self)@.waiting.insert(id, kept));
            if old(self).wf() {
                assert(requests_valid(old(self)@));
                assert forall|k: u64| #[trigger] self@.waiting.contains_key(k) implies k
                    < self@.next by {
                    if k != id {
                        assert(old(self)@.waiting.contains_key(k));
                    }
                }
            }
        }
        Some(id)
    }

    /// Takes the answer with a number: gives what was kept for it where a
    /// request waited for it, which then waits no longer.
    pub fn settle(&mut self, request_id: Option<u64>) -> (kept: Option<T>)
        ensures
            old(self).wf() ==> final(self).wf(),
            final(self)@.next == old(self)@.next,
            kept == (match request_id {
                Some(id) => if old(self)@.waiting.contains_key(id) {
                    Some(old(self)@.waiting[id])
                } else {
                    None
                },
                None => None,
            }),
            final(self)@.waiting == (match request_id {
                Some(id) => old(self)@.waiting.remove(id),
                None => old(self)@.waiting,
            }),
    {
        broadcast use vstd::std_specs::hash::group_hash_axioms;

        let kept = match request_id {
            Some(id) => self.waiting.remove(&id),
            None => None,
        };
        proof {
            if old(self).wf() {
                assert(requests_valid(old(self)@));
                assert forall|k: u64| #[trigger] self@.waiting.contains_key(k) implies k
                    < self@.next by {
                    assert(old(self)@.waiting.contains_key(k));
                }
            }
        }
        kept
    }

    /// How many requests wait.
    pub fn waiting_count(&self) -> (r: usize)
        ensures
            r == self@.waiting.len(),
    {
        broadcast use vstd::std_specs::hash::group_hash_axioms;

        self.waiting.len()
    }
}

/// The properties that a refresh asks for, in this order.
pub fn refreshed_properties() -> (r: Vec<PropertyId>)
    ensures
        r@ == seq![
            PropertyId::TimePos,
            PropertyId::Pause,
            PropertyId::Filename,
            PropertyId::Duration,
            PropertyId::Path,
            PropertyId::Speed,
        ],
{
    let mut r: Vec<PropertyId> = Vec::new();
    r.push(PropertyId::TimePos);
    r.push(PropertyId::Pause);
    r.push(PropertyId::Filename);
    r.push(PropertyId::Duration);
    r.push(PropertyId::Path);
    r.push(PropertyId::Speed);
    r
}

/// What the answer to a refresh has shown.
#[derive(Clone, Copy, Debug, PartialEq, Eq, Structural)]
pub struct RefreshNote {
    /// The player has not told the duration: it is to be asked for the
    /// length.
    pub duration_missing: bool,
    /// The player has told a position.
    pub position_seen: bool,
}

/// What is known of the player after it has answered for a property: the
/// value that it gave; nothing new where it gave none.
pub open spec fn after_answer(s: PlayerStateView, p: PropertyId, data: Option<PropertyValueView>) -> PlayerStateView {
    match data {
        Some(v) => s.updated(p, v),
        None => s,
    }
}

/// What the answer for a property shows.
pub open spec fn answer_note(p: PropertyId, data: Option<PropertyValueView>) -> RefreshNote {
    RefreshNote {
        duration_missing: p == PropertyId::Duration && (data.is_none() || data
            == Some(PropertyValueView::Null)),
        position_seen: p == PropertyId::TimePos && data.is_some() && data != Some(
            PropertyValueView::Null,
        ),
    }
}

/// Takes the answer of the player for one property.
pub fn apply_refreshed(state: &mut PlayerState, property: PropertyId, data: Option<&PropertyValue>) -> (r:
    RefreshNote)
    ensures
        final(state)@ == after_answer(old(state)@, property, opt_view(data)),
        r == answer_note(property, opt_view(data)),
{
    match data {
        Some(v) => {
            let null = is_null(v);
            state.update_property(property, v);
            RefreshNote {
                duration_missing: property == PropertyId::Duration && null,
                position_seen: property == PropertyId::TimePos && !null,
            }
        },
        None => RefreshNote {
            duration_missing: property == PropertyId::Duration,
            position_seen: false,
        },
    }
}

/// What is known of the player once it was asked for the length in place
/// of the duration: the length where it gave one, else a duration of 0.
pub open spec fn after_length(s: PlayerStateView, data: Option<PropertyValueView>) -> PlayerStateView {
    match data {
        Some(v) if v != PropertyValueView::Null => s.updated(PropertyId::Duration, v),
        _ => PlayerStateView { duration: Some(0i64), ..s },
    }
}

/// Takes the answer of the player for the length.
pub fn apply_length(state: &mut PlayerState, data: Option<&PropertyValue>)
    ensures
        final(state)@ == after_length(old(state)@, opt_view(data)),
{
    match data {
        Some(v) => {
            if is_null(v) {
                state.duration = Some(0);
            } else {
                state.update_property(PropertyId::Duration, v);
            }
        },
        None => {
            state.duration = Some(0);
        },
    }
}

} // verus!
