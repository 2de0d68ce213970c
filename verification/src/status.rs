//! What the player daemon reports of the playback.
use crate::song::QueuePlace;
use crate::span::{whole_millis, Span};
use crate::text::{format_time, time_text};
use vstd::prelude::*;

verus! {

/// The state of the playback.
#[derive(Clone, Copy, Debug, PartialEq, Eq, Structural)]
pub enum State {
    Stop,
    Play,
    Pause,
}

/// The status of the daemon, as far as the player shows it.
#[derive(Clone, Copy, Debug, PartialEq, Eq)]
pub struct Status {
    /// The volume, from 0 to 100, or -1 where it cannot be set.
    pub volume: i8,
    /// Whether the queue starts over at its end.
    pub repeat: bool,
    /// Whether the queue is played in random order.
    pub random: bool,
    /// Whether a song is being played.
    pub state: State,
    /// The place of the current song.
    pub song: Option<QueuePlace>,
    /// The time played of the current song, and its whole length, to the second.
    pub time: Option<(Span, Span)>,
    /// The time played of the current song, to the millisecond.
    pub elapsed: Option<Span>,
    /// The length of the current song.
    pub duration: Option<Span>,
}

/// The status of a daemon that does not tell: stopped, silent, with no song.
impl Default for Status {
    fn default() -> (status: Status)
        ensures
            status == blank_status(),
    {
        Status {
            volume: 0,
            repeat: false,
            random: false,
            state: State::Stop,
            song: None,
            time: None,
            elapsed: None,
            duration: None,
        }
    }
}

/// The status of a daemon that does not tell.
pub open spec fn blank_status() -> Status {
    Status {
        volume: 0,
        repeat: false,
        random: false,
        state: State::Stop,
        song: None,
        time: None,
        elapsed: None,
        duration: None,
    }
}

impl Status {
    /// The position of the current song.
    pub open spec fn position(&self) -> Option<u32> {
        match self.song {
            Some(place) => Some(place.pos),
            None => None,
        }
    }

    /// The span that counts as the length of the current song.
    pub open spec fn length(&self) -> Option<Span> {
        match (self.duration, self.time) {
            (Some(length), _) => Some(length),
            (None, Some(time)) => Some(time.1),
            (None, None) => None,
        }
    }

    /// The span that counts as the time played. A daemon that does not report it to the
    /// millisecond leaves the length of the song in its place.
    pub open spec fn played(&self) -> Option<Span> {
        match (self.elapsed, self.time) {
            (Some(elapsed), _) => Some(elapsed),
            (None, Some(time)) => Some(time.1),
            (None, None) => None,
        }
    }

    /// The span at which the seek bar stands.
    pub open spec fn sought(&self) -> Option<Span> {
        match (self.elapsed, self.time) {
            (Some(elapsed), _) => Some(elapsed),
            (None, Some(time)) => Some(time.0),
            (None, None) => None,
        }
    }

    /// The position of the current song.
    pub fn song_position(&self) -> (position: Option<u32>)
        ensures
            position == self.position(),
    {
        match self.song {
            Some(place) => Some(place.pos),
            None => None,
        }
    }

    /// The span to show as the length of the current song.
    pub fn song_length(&self) -> (length: Option<Span>)
        ensures
            length == self.length(),
    {
        match (self.duration, self.time) {
            (Some(length), _) => Some(length),
            (None, Some(time)) => Some(time.1),
            (None, None) => None,
        }
    }

    /// The span to show as the time played.
    pub fn time_played(&self) -> (played: Option<Span>)
        ensures
            played == self.played(),
    {
        match (self.elapsed, self.time) {
            (Some(elapsed), _) => Some(elapsed),
            (None, Some(time)) => Some(time.1),
            (None, None) => None,
        }
    }

    /// The span to set the seek bar to.
    pub fn seek_position(&self) -> (sought: Option<Span>)
        ensures
            sought == self.sought(),
    {
        match (self.elapsed, self.time) {
            (Some(elapsed), _) => Some(elapsed),
            (None, Some(time)) => Some(time.0),
            (None, None) => None,
        }
    }
}

/// The milliseconds of a span, none if there is no span.
pub open spec fn millis_or_zero(span: Option<Span>) -> int {
    match span {
        Some(span) => whole_millis(span@),
        None => 0,
    }
}

/// The text of a span, empty if there is no span.
pub open spec fn text_or_empty(span: Option<Span>) -> Seq<char> {
    match span {
        Some(span) => time_text(span@),
        None => Seq::empty(),
    }
}

/// The milliseconds of a span for an adjustment of the display.
pub fn display_millis(span: Option<Span>) -> (millis: i64)
    ensures
        millis == millis_or_zero(span),
{
    match span {
        Some(span) => {
            proof {
                use_type_invariant(&span);
            }
            span.num_milliseconds()
        },
        None => 0,
    }
}

/// The text of a span for a label of the display.
pub fn display_time(span: Option<Span>) -> (text: String)
    ensures
        text@ == text_or_empty(span),
{
    match span {
        Some(span) => format_time(span),
        None => String::new(),
    }
}

} // verus!
