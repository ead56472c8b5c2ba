//! The properties of a player that are watched, and the state read from them.
use crate::text::{clone_opt_text, opt_view};
use vstd::prelude::*;

verus! {

/// The properties of mpv that are observed, each with its number.
#[derive(Debug, Clone, Copy, PartialEq, Eq, Hash, Structural)]
pub enum PropertyId {
    TimePos,
    Pause,
    Filename,
    Duration,
    Path,
    Speed,
}

pub open spec fn property_number(id: PropertyId) -> u64 {
    match id {
        PropertyId::TimePos => 1,
        PropertyId::Pause => 2,
        PropertyId::Filename => 3,
        PropertyId::Duration => 4,
        PropertyId::Path => 5,
        PropertyId::Speed => 6,
    }
}

pub open spec fn property_text(id: PropertyId) -> Seq<char> {
    match id {
        PropertyId::TimePos => "time-pos"@,
        PropertyId::Pause => "pause"@,
        PropertyId::Filename => "filename"@,
        PropertyId::Duration => "duration"@,
        PropertyId::Path => "path"@,
        PropertyId::Speed => "speed"@,
    }
}

impl PropertyId {
    pub fn as_u64(self) -> (r: u64)
        ensures
            r == property_number(self),
    {
        match self {
            PropertyId::TimePos => 1,
            PropertyId::Pause => 2,
            PropertyId::Filename => 3,
            PropertyId::Duration => 4,
            PropertyId::Path => 5,
            PropertyId::Speed => 6,
        }
    }

    pub fn from_u64(id: u64) -> (r: Option<Self>)
        ensures
            match r {
                Some(p) => property_number(p) == id,
                None => id == 0 || id > 6,
            },
    {
        if id == 1 {
            Some(Self::TimePos)
        } else if id == 2 {
            Some(Self::Pause)
        } else if id == 3 {
            Some(Self::Filename)
        } else if id == 4 {
            Some(Self::Duration)
        } else if id == 5 {
            Some(Self::Path)
        } else if id == 6 {
            Some(Self::Speed)
        } else {
            None
        }
    }

    pub fn property_name(self) -> (r: &'static str)
        ensures
            r@ == property_text(self),
    {
        match self {
            PropertyId::TimePos => "time-pos",
            PropertyId::Pause => "pause",
            PropertyId::Filename => "filename",
            PropertyId::Duration => "duration",
            PropertyId::Path => "path",
            PropertyId::Speed => "speed",
        }
    }
}

/// Every property number stands for the property that has it.
pub proof fn lemma_property_number_round_trip(id: PropertyId)
    ensures
        1 <= property_number(id) <= 6,
        forall|other: PropertyId| property_number(other) == property_number(id) ==> other == id,
{
}

/// The value of a property as the player reports it. A number is given in
/// thousandths: a position of 1.5 seconds as 1500, the normal speed as 1000.
#[derive(Debug)]
pub enum PropertyValue {
    Null,
    Bool(bool),
    Number(i64),
    Text(String),
    Other,
}

pub enum PropertyValueView {
    Null,
    Bool(bool),
    Number(i64),
    Text(Seq<char>),
    Other,
}

impl View for PropertyValue {
    type V = PropertyValueView;

    open spec fn view(&self) -> PropertyValueView {
        match self {
            PropertyValue::Null => PropertyValueView::Null,
            PropertyValue::Bool(b) => PropertyValueView::Bool(*b),
            PropertyValue::Number(n) => PropertyValueView::Number(*n),
            PropertyValue::Text(t) => PropertyValueView::Text(t@),
            PropertyValue::Other => PropertyValueView::Other,
        }
    }
}

impl PropertyValueView {
    pub open spec fn number(self) -> Option<i64> {
        match self {
            PropertyValueView::Number(n) => Some(n),
            _ => None,
        }
    }

    pub open spec fn boolean(self) -> Option<bool> {
        match self {
            PropertyValueView::Bool(b) => Some(b),
            _ => None,
        }
    }

    pub open spec fn text(self) -> Option<Seq<char>> {
        match self {
            PropertyValueView::Text(t) => Some(t),
            _ => None,
        }
    }
}

/// What is known of a player. Position and duration are in milliseconds,
/// the speed in thousandths of the normal speed.
#[derive(Debug)]
pub struct PlayerState {
    pub position: Option<i64>,
    pub paused: Option<bool>,
    pub filename: Option<String>,
    pub duration: Option<i64>,
    pub path: Option<String>,
    pub speed: Option<i64>,
}

pub struct PlayerStateView {
    pub position: Option<i64>,
    pub paused: Option<bool>,
    pub filename: Option<Seq<char>>,
    pub duration: Option<i64>,
    pub path: Option<Seq<char>>,
    pub speed: Option<i64>,
}

impl View for PlayerState {
    type V = PlayerStateView;

    open spec fn view(&self) -> PlayerStateView {
        PlayerStateView {
            position: self.position,
            paused: self.paused,
            filename: opt_view(self.filename),
            duration: self.duration,
            path: opt_view(self.path),
            speed: self.speed,
        }
    }
}

impl Clone for PlayerState {
    fn clone(&self) -> (r: Self)
        ensures
            r@ == self@,
    {
        PlayerState {
            position: self.position,
            paused: self.paused,
            filename: clone_opt_text(&self.filename),
            duration: self.duration,
            path: clone_opt_text(&self.path),
            speed: self.speed,
        }
    }
}

impl Default for PlayerState {
    fn default() -> (r: Self)
        ensures
            r@ == (PlayerStateView {
                position: None,
                paused: Some(true),
                filename: None,
                duration: None,
                path: None,
                speed: Some(1000),
            }),
    {
        Self {
            position: None,
            paused: Some(true),
            filename: None,
            duration: None,
            path: None,
            speed: Some(1000),
        }
    }
}

impl PlayerStateView {
    /// The state after a property was reported: the value where it is of the
    /// property's kind, nothing where it is not.
    pub open spec fn updated(self, id: PropertyId, value: PropertyValueView) -> PlayerStateView {
        match id {
            PropertyId::TimePos => PlayerStateView { position: value.number(), ..self },
            PropertyId::Pause => PlayerStateView { paused: value.boolean(), ..self },
            PropertyId::Filename => PlayerStateView { filename: value.text(), ..self },
            PropertyId::Duration => PlayerStateView { duration: value.number(), ..self },
            PropertyId::Path => PlayerStateView { path: value.text(), ..self },
            PropertyId::Speed => PlayerStateView { speed: value.number(), ..self },
        }
    }
}

fn number_of(value: &PropertyValue) -> (r: Option<i64>)
    ensures
        r == value@.number(),
{
    match value {
        PropertyValue::Number(n) => Some(*n),
        _ => None,
    }
}

fn boolean_of(value: &PropertyValue) -> (r: Option<bool>)
    ensures
        r == value@.boolean(),
{
    match value {
        PropertyValue::Bool(b) => Some(*b),
        _ => None,
    }
}

fn text_of(value: &PropertyValue) -> (r: Option<String>)
    ensures
        opt_view(r) == value@.text(),
{
    match value {
        PropertyValue::Text(t) => Some(t.clone()),
        _ => None,
    }
}

impl PlayerState {
    pub fn update_property(&mut self, property_id: PropertyId, value: &PropertyValue)
        ensures
            final(self)@ == old(self)@.updated(property_id, value@),
    {
        match property_id {
            PropertyId::TimePos => {
                self.position = number_of(value);
            },
            PropertyId::Pause => {
                self.paused = boolean_of(value);
            },
            PropertyId::Filename => {
                self.filename = text_of(value);
            },
            PropertyId::Duration => {
                self.duration = number_of(value);
            },
            PropertyId::Path => {
                self.path = text_of(value);
            },
            PropertyId::Speed => {
                self.speed = number_of(value);
            },
        }
    }
}

} // verus!
