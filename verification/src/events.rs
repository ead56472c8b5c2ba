//! The events of an mpv player that matter here.
use crate::text::{copy_str, opt_view, same_chars, to_chars};
use vstd::prelude::*;

verus! {

/// Why a file stopped playing.
#[derive(Debug, Clone, PartialEq, Eq)]
pub enum EndFileReason {
    /// The end of the file was reached.
    Eof,
    /// Playback was stopped.
    Stop,
    /// The player quit.
    Quit,
    /// Something went wrong.
    Error,
    /// Another file took over.
    Redirect,
    /// A reason that is not known here.
    Unknown(String),
}

pub enum EndFileReasonView {
    Eof,
    Stop,
    Quit,
    Error,
    Redirect,
    Unknown(Seq<char>),
}

impl View for EndFileReason {
    type V = EndFileReasonView;

    open spec fn view(&self) -> EndFileReasonView {
        match self {
            EndFileReason::Eof => EndFileReasonView::Eof,
            EndFileReason::Stop => EndFileReasonView::Stop,
            EndFileReason::Quit => EndFileReasonView::Quit,
            EndFileReason::Error => EndFileReasonView::Error,
            EndFileReason::Redirect => EndFileReasonView::Redirect,
            EndFileReason::Unknown(s) => EndFileReasonView::Unknown(s@),
        }
    }
}

/// An event of the player.
#[derive(Debug, Clone, PartialEq, Eq)]
pub enum MpvPlayerEvent {
    /// A file has been loaded.
    FileLoaded,
    /// Playback has started again.
    PlaybackRestart,
    /// Playback of a file has ended.
    EndFile { reason: EndFileReason },
    /// A seek is done.
    SeekCompleted,
    /// A property has changed.
    PropertyChange,
    /// A line of the player's log.
    LogMessage(String),
    /// An event that is not known here.
    Unknown(String),
}

pub enum MpvPlayerEventView {
    FileLoaded,
    PlaybackRestart,
    EndFile { reason: EndFileReasonView },
    SeekCompleted,
    PropertyChange,
    LogMessage(Seq<char>),
    Unknown(Seq<char>),
}

impl View for MpvPlayerEvent {
    type V = MpvPlayerEventView;

    open spec fn view(&self) -> MpvPlayerEventView {
        match self {
            MpvPlayerEvent::FileLoaded => MpvPlayerEventView::FileLoaded,
            MpvPlayerEvent::PlaybackRestart => MpvPlayerEventView::PlaybackRestart,
            MpvPlayerEvent::EndFile { reason } => MpvPlayerEventView::EndFile { reason: reason@ },
            MpvPlayerEvent::SeekCompleted => MpvPlayerEventView::SeekCompleted,
            MpvPlayerEvent::PropertyChange => MpvPlayerEventView::PropertyChange,
            MpvPlayerEvent::LogMessage(s) => MpvPlayerEventView::LogMessage(s@),
            MpvPlayerEvent::Unknown(s) => MpvPlayerEventView::Unknown(s@),
        }
    }
}

/// The reason that a name stands for.
pub open spec fn end_reason(s: Seq<char>) -> EndFileReasonView {
    if s == "eof"@ {
        EndFileReasonView::Eof
    } else if s == "stop"@ {
        EndFileReasonView::Stop
    } else if s == "quit"@ {
        EndFileReasonView::Quit
    } else if s == "error"@ {
        EndFileReasonView::Error
    } else if s == "redirect"@ {
        EndFileReasonView::Redirect
    } else {
        EndFileReasonView::Unknown(s)
    }
}

/// The event that a name stands for; the end of a file carries its reason,
/// `none` where none is given.
pub open spec fn event_named(name: Seq<char>, reason: Option<Seq<char>>) -> MpvPlayerEventView {
    if name == "file-loaded"@ {
        MpvPlayerEventView::FileLoaded
    } else if name == "playback-restart"@ {
        MpvPlayerEventView::PlaybackRestart
    } else if name == "end-file"@ {
        MpvPlayerEventView::EndFile {
            reason: match reason {
                Some(r) => end_reason(r),
                None => EndFileReasonView::Unknown("none"@),
            },
        }
    } else if name == "seek"@ {
        MpvPlayerEventView::SeekCompleted
    } else if name == "property-change"@ {
        MpvPlayerEventView::PropertyChange
    } else {
        MpvPlayerEventView::Unknown(name)
    }
}

fn is_text(s: &Vec<char>, literal: &str) -> (r: bool)
    ensures
        r == (s@ == literal@),
{
    same_chars(s, &to_chars(literal))
}

impl EndFileReason {
    pub fn from_str(s: &str) -> (r: Self)
        ensures
            r@ == end_reason(s@),
    {
        let c = to_chars(s);
        if is_text(&c, "eof") {
            Self::Eof
        } else if is_text(&c, "stop") {
            Self::Stop
        } else if is_text(&c, "quit") {
            Self::Quit
        } else if is_text(&c, "error") {
            Self::Error
        } else if is_text(&c, "redirect") {
            Self::Redirect
        } else {
            Self::Unknown(copy_str(s))
        }
    }
}

impl MpvPlayerEvent {
    pub fn from_event_name(name: &str, reason: Option<&str>) -> (r: Self)
        ensures
            r@ == event_named(name@, opt_view(reason)),
    {
        let c = to_chars(name);
        if is_text(&c, "file-loaded") {
            Self::FileLoaded
        } else if is_text(&c, "playback-restart") {
            Self::PlaybackRestart
        } else if is_text(&c, "end-file") {
            let end_reason = match reason {
                Some(r) => EndFileReason::from_str(r),
                None => EndFileReason::Unknown(copy_str("none")),
            };
            Self::EndFile { reason: end_reason }
        } else if is_text(&c, "seek") {
            Self::SeekCompleted
        } else if is_text(&c, "property-change") {
            Self::PropertyChange
        } else {
            Self::Unknown(copy_str(name))
        }
    }
}

} // verus!
