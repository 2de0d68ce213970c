//! What the player knows of the playback, and how it changes.
use crate::message::Msg;
use crate::song::Song;
use crate::span::{in_range, whole_millis, Span, NANOS_PER_MILLI};
use crate::status::{blank_status, State, Status};
use crate::text::{format_time, time_text};
use vstd::prelude::*;

verus! {

/// What the player knows of the playback.
#[derive(Debug)]
pub struct Model {
    /// The status that the daemon reported last.
    pub status: Status,
    /// When it did so: a reading of the precise clock, in nanoseconds.
    pub status_updated: u64,
    /// The song that the daemon named last.
    pub current_song: Option<Song>,
    /// The position of the current song before the last report.
    pub last_song_position: Option<u32>,
    /// Whether the connection that waits for changes is still to be put to use.
    pub idle: bool,
}

/// The status that a reply stands for: a failed query tells nothing.
pub open spec fn reported_status<E>(reply: Result<Status, E>) -> Status {
    match reply {
        Ok(status) => status,
        Err(_) => blank_status(),
    }
}

/// The song that a reply stands for: a failed query names none.
pub open spec fn reported_song<E>(reply: Result<Option<Song>, E>) -> Option<Song> {
    match reply {
        Ok(song) => song,
        Err(_) => None,
    }
}

/// The position in a list of thirty-two bits, read as a signed index of as many bits.
pub open spec fn as_index(position: int) -> int {
    if position < 0x8000_0000 {
        position
    } else {
        position - 0x1_0000_0000
    }
}

/// The nanoseconds from one reading of the clock to another. The clock is a counter of sixty-four
/// bits that starts over: of the two ways round, the shorter one counts, and it is negative where
/// it leads backwards.
pub open spec fn ticks_between(start: u64, end: u64) -> int {
    let ahead = (end - start) % 0x1_0000_0000_0000_0000;
    if ahead < 0x8000_0000_0000_0000 {
        ahead
    } else {
        ahead - 0x1_0000_0000_0000_0000
    }
}

/// The nanoseconds from one reading of the clock to another.
fn time_between(start: u64, end: u64) -> (nanos: i64)
    ensures
        nanos == ticks_between(start, end),
{
    let ahead: u64 = end.wrapping_sub(start);
    assert(ahead < 0x8000_0000_0000_0000u64 ==> ahead as i64 == ahead) by (bit_vector);
    assert(ahead >= 0x8000_0000_0000_0000u64 ==> ahead as i64 == ahead - 0x1_0000_0000_0000_0000)
        by (bit_vector);
    #[verifier::truncate]
    (ahead as i64)
}

/// What a tick of the clock changes on the display.
#[derive(Debug)]
pub struct Progress {
    /// Where the seek bar stands, in milliseconds.
    pub seek_value: i64,
    /// The time played.
    pub elapsed: String,
}

/// How to listen for changes.
#[derive(Clone, Copy, Debug, PartialEq, Eq, Structural)]
pub struct Listen {
    /// How often to look for news, in milliseconds.
    pub poll_millis: u64,
}

impl Model {
    /// Whether the current song is known to have changed with the last report.
    pub open spec fn song_changed(&self) -> bool {
        match (self.status.position(), self.last_song_position) {
            (Some(position), Some(last)) => last != position,
            _ => false,
        }
    }

    /// The nanoseconds played at the reading `now` of the clock.
    pub open spec fn played_at(&self, now: u64) -> int {
        self.status.played()->0@ + ticks_between(self.status_updated, now)
    }

    /// Whether the time played can be told at the reading `now`: the daemon has reported one,
    /// and with the time since then it is still a span.
    pub open spec fn can_tick(&self, now: u64) -> bool {
        self.status.state == State::Play ==> {
            &&& self.status.played() is Some
            &&& in_range(self.played_at(now))
        }
    }

    /// The model at the start, from the daemon's first replies and the reading of the clock
    /// between them.
    pub fn new<E>(
        status: Result<Status, E>,
        now: u64,
        current_song: Result<Option<Song>, E>,
    ) -> (model: Model)
        ensures
            model.status == reported_status(status),
            model.status_updated == now,
            model.current_song == reported_song(current_song),
            model.last_song_position is None,
            model.idle,
    {
        Model {
            status: match status {
                Ok(status) => status,
                Err(_) => Status::default(),
            },
            status_updated: now,
            current_song: match current_song {
                Ok(song) => song,
                Err(_) => None,
            },
            last_song_position: None,
            idle: true,
        }
    }

    /// Takes in a round of replies of the daemon. The position that was current so far is kept
    /// as the last one.
    pub fn refresh<E>(
        &mut self,
        status: Result<Status, E>,
        now: u64,
        current_song: Result<Option<Song>, E>,
    )
        ensures
            final(self).last_song_position == old(self).status.position(),
            final(self).status == reported_status(status),
            final(self).status_updated == now,
            final(self).current_song == reported_song(current_song),
            final(self).idle == old(self).idle,
    {
        self.last_song_position = self.status.song_position();
        self.status = match status {
            Ok(status) => status,
            Err(_) => Status::default(),
        };
        self.status_updated = now;
        self.current_song = match current_song {
            Ok(song) => song,
            Err(_) => None,
        };
    }

    /// Whether the current song has changed with the last report.
    pub fn has_song_changed(&self) -> (changed: bool)
        ensures
            changed == self.song_changed(),
    {
        match (self.status.song_position(), self.last_song_position) {
            (Some(position), Some(last)) => last != position,
            _ => false,
        }
    }

    /// The row of the list to scroll to, if there is a current song.
    pub fn scroll_to_current_song(&self) -> (row: Option<i32>)
        ensures
            row is Some <==> self.status.song is Some,
            row matches Some(row) ==> row == as_index(self.status.song->0.pos as int),
    {
        match self.status.song {
            Some(place) => {
                let pos = place.pos;
                assert(pos < 0x8000_0000u32 ==> pos as i32 == pos) by (bit_vector);
                assert(pos >= 0x8000_0000u32 ==> pos as i32 == pos - 0x1_0000_0000) by (bit_vector);
                Some(#[verifier::truncate] (pos as i32))
            },
            None => None,
        }
    }

    /// Whether the time played can be told at the reading `now` of the clock.
    pub fn is_time_known(&self, now: u64) -> (known: bool)
        ensures
            known == self.can_tick(now),
    {
        match (self.status.state, self.status.time_played()) {
            (State::Play, Some(played)) => {
                let since: i64 = time_between(self.status_updated, now);
                let elapsed: i128 = played.total() + since as i128;
                let lowest: i128 = i64::MIN as i128 * NANOS_PER_MILLI as i128;
                let highest: i128 = i64::MAX as i128 * NANOS_PER_MILLI as i128;
                lowest <= elapsed && elapsed <= highest
            },
            (State::Play, None) => false,
            _ => true,
        }
    }

    /// What the display shows at the reading `now` of the clock, while a song is played.
    pub fn tick(&self, now: u64) -> (progress: Option<Progress>)
        requires
            self.can_tick(now),
        ensures
            progress is Some <==> self.status.state == State::Play,
            progress matches Some(p) ==> {
                &&& p.seek_value == whole_millis(self.played_at(now))
                &&& p.elapsed@ == time_text(self.played_at(now))
            },
    {
        match self.status.state {
            State::Play => {
                let since = Span::nanoseconds(time_between(self.status_updated, now));
                let played = self.status.time_played().unwrap();
                proof {
                    use_type_invariant(&played);
                }
                let elapsed = played.followed_by(&since);
                Some(Progress {
                    seek_value: elapsed.num_milliseconds(),
                    elapsed: format_time(elapsed),
                })
            },
            _ => None,
        }
    }

    /// Puts the waiting connection to use when asked to start listening.
    pub fn update_command<P>(&mut self, event: &Msg<P>) -> (listen: Option<Listen>)
        requires
            *event is StartListening ==> old(self).idle,
        ensures
            *event is StartListening ==> {
                &&& listen == Some(Listen { poll_millis: 30 })
                &&& *final(self) == (Model { idle: false, ..*old(self) })
            },
            !(*event is StartListening) ==> listen is None && *final(self) == *old(self),
    {
        match event {
            Msg::StartListening => {
                self.idle = false;
                Some(Listen { poll_millis: 30 })
            },
            _ => None,
        }
    }
}

} // verus!
