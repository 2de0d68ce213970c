//! What holds of times on the display, read back from their text.
use crate::model::{Model, Progress};
use crate::span::Span;
use crate::status::{display_millis, display_time, State, Status};
use crate::text::{decimal, decimal_nat, digit, format_time, two_wide};
use vstd::prelude::*;

verus! {

/// The number that a run of digits stands for.
pub open spec fn number(digits: Seq<char>) -> int
    decreases digits.len(),
{
    if digits.len() == 0 {
        0
    } else {
        number(digits.drop_last()) * 10 + (digits.last() as int - '0' as int)
    }
}

/// Whether `text` is made of digits that stand for `n`.
pub open spec fn reads(text: Seq<char>, n: int) -> bool {
    &&& text.len() > 0
    &&& forall|i: int| 0 <= i < text.len() ==> '0' <= #[trigger] text[i] <= '9'
    &&& number(text) == n
}

/// Whether `text` shows `s` seconds, forwards: two digits of minutes and two of seconds; from an
/// hour on, the hours and a colon in front of them.
pub open spec fn is_clock(text: Seq<char>, s: int) -> bool {
    let start = text.len() - 5;
    &&& start >= 0
    &&& reads(text.subrange(start, start + 2), (s / 60) % 60)
    &&& text[start + 2] == ':'
    &&& reads(text.subrange(start + 3, start + 5), s % 60)
    &&& s < 3600 ==> start == 0
    &&& s >= 3600 ==> {
        &&& start >= 2
        &&& text[0] != '0'
        &&& reads(text.subrange(0, start - 1), s / 3600)
        &&& text[start - 1] == ':'
    }
}

/// Whether `text` shows `n` on a clock that runs backwards: behind a minus sign, and two zeros
/// for none.
pub open spec fn is_backward_field(text: Seq<char>, n: int) -> bool {
    if n == 0 {
        text == seq!['0', '0']
    } else {
        text.len() >= 2 && text[0] == '-' && text[1] != '0' && reads(text.skip(1), n)
    }
}

/// Whether `text` shows `s` seconds, backwards: minutes and seconds, each with its own sign.
pub open spec fn is_backward_clock(text: Seq<char>, s: int) -> bool {
    exists|i: int|
        0 <= i < text.len() && #[trigger] text[i] == ':' && is_backward_field(text.take(i), s / 60)
            && is_backward_field(text.skip(i + 1), s % 60)
}

/// Whether `text` shows a span of `nanos` nanoseconds, the part of a second left out.
pub open spec fn shows_time(text: Seq<char>, nanos: int) -> bool {
    if nanos >= 0 {
        is_clock(text, nanos / 1_000_000_000)
    } else {
        is_backward_clock(text, (-nanos) / 1_000_000_000)
    }
}

/// Whether `count` is how many whole units of `unit` nanoseconds there are in `nanos`.
pub open spec fn counts(count: int, nanos: int, unit: int) -> bool {
    if nanos >= 0 {
        count * unit <= nanos < (count + 1) * unit
    } else {
        (count - 1) * unit < nanos <= count * unit
    }
}

/// Read back from its text, a time is the time it was made from: each field stands in its place
/// and holds its number.
pub proof fn law_time_reads_back(dur: Span, text: String)
    requires
        call_ensures(format_time, (dur,), text),
    ensures
        shows_time(text@, dur@),
{
    lemma_time_text(dur@);
}

/// The text of so many seconds and nanoseconds shows that many seconds.
pub proof fn law_seconds_read_back(secs: i64, nanos: i32, span: Option<Span>, text: String)
    requires
        call_ensures(Span::new, (secs, nanos), span),
        span is Some,
        call_ensures(format_time, (span->0,), text),
    ensures
        secs >= 0 && nanos >= 0 ==> is_clock(text@, secs as int),
        secs <= 0 && nanos <= 0 && secs + nanos < 0 ==> is_backward_clock(text@, -secs),
{
    lemma_time_text(span->0@);
    let s: int = secs as int;
    let n: int = nanos as int;
    assert(secs >= 0 && nanos >= 0 ==> (s * 1_000_000_000 + n) / 1_000_000_000 == s);
    assert(secs <= 0 && nanos <= 0 ==> (-(s * 1_000_000_000 + n)) / 1_000_000_000 == -s);
}

/// Seconds and nanoseconds make a span exactly where they run in one direction, the nanoseconds
/// are less than a second, and the milliseconds of the whole fit in sixty-four bits.
pub proof fn law_span_is_made(secs: i64, nanos: i32, span: Option<Span>)
    requires
        call_ensures(Span::new, (secs, nanos), span),
    ensures
        span is Some <==> {
            &&& -1_000_000_000 < nanos < 1_000_000_000
            &&& !(secs > 0 && nanos < 0)
            &&& !(secs < 0 && nanos > 0)
            &&& secs * 1_000_000_000 + nanos <= 9_223_372_036_854_775_807 * 1_000_000
            &&& secs * 1_000_000_000 + nanos >= -9_223_372_036_854_775_808 * 1_000_000
        },
        span matches Some(span) ==> span@ == secs * 1_000_000_000 + nanos,
{
}

/// A label shows the time of a span, and nothing where there is none.
pub proof fn law_time_label(span: Option<Span>, text: String)
    requires
        call_ensures(display_time, (span,), text),
    ensures
        match span {
            Some(span) => shows_time(text@, span@),
            None => text@.len() == 0,
        },
{
    if span is Some {
        lemma_time_text(span->0@);
    }
}

/// A bar stands at the whole milliseconds of a span, and at zero where there is none.
pub proof fn law_millis(span: Option<Span>, millis: i64)
    requires
        call_ensures(display_millis, (span,), millis),
    ensures
        match span {
            Some(span) => counts(millis as int, span@, 1_000_000),
            None => millis == 0,
        },
{
    if span is Some {
        lemma_counts(span->0@);
    }
}

/// A tick adds the time since the report to the time played, whatever else was reported: the bar
/// stands at the milliseconds of the sum, and the label shows its seconds. Without a time played
/// to the millisecond, the length of the song takes its place. `since` is the distance between
/// the two readings of the clock, whose count of sixty-four bits may have started over.
pub proof fn law_tick_adds_time_since_report(
    model: Model,
    now: u64,
    since: int,
    progress: Option<Progress>,
)
    requires
        call_ensures(Model::tick, (&model, now), progress),
        model.status.state == State::Play,
        i64::MIN <= since <= i64::MAX,
        since == now - model.status_updated || since == now - model.status_updated
            + 0x1_0000_0000_0000_0000 || since == now - model.status_updated
            - 0x1_0000_0000_0000_0000,
    ensures
        progress is Some,
        model.status.elapsed matches Some(elapsed) ==> {
            &&& counts(progress->0.seek_value as int, elapsed@ + since, 1_000_000)
            &&& shows_time(progress->0.elapsed@, elapsed@ + since)
        },
        model.status.time matches Some((_, length)) ==> (model.status.elapsed is None ==> {
            &&& counts(progress->0.seek_value as int, length@ + since, 1_000_000)
            &&& shows_time(progress->0.elapsed@, length@ + since)
        }),
{
    lemma_between(model.status_updated, now, since);
    lemma_time_text(model.played_at(now));
    lemma_counts(model.played_at(now));
}

/// Between two ticks as much time passes on the display as on the clock: the milliseconds shown
/// differ by those that passed, but for one that the rounding takes or gives.
pub proof fn law_time_passes(
    model: Model,
    now: u64,
    later: u64,
    first: Option<Progress>,
    second: Option<Progress>,
)
    requires
        call_ensures(Model::tick, (&model, now), first),
        call_ensures(Model::tick, (&model, later), second),
        model.status.state == State::Play,
        model.status.elapsed is Some,
        model.status.elapsed->0@ >= 0,
        model.status_updated <= now <= later,
        later - model.status_updated <= i64::MAX,
    ensures
        model.played_at(later) - model.played_at(now) == later - now,
        (second->0.seek_value - first->0.seek_value - 1) * 1_000_000 < later - now,
        (second->0.seek_value - first->0.seek_value + 1) * 1_000_000 > later - now,
{
    law_tick_adds_time_since_report(model, now, now - model.status_updated, first);
    law_tick_adds_time_since_report(model, later, later - model.status_updated, second);
    lemma_between(model.status_updated, now, now - model.status_updated);
    lemma_between(model.status_updated, later, later - model.status_updated);
}

/// Where nothing is played, a tick changes nothing.
pub proof fn law_only_playing_ticks(model: Model, now: u64, progress: Option<Progress>)
    requires
        call_ensures(Model::tick, (&model, now), progress),
        model.status.state != State::Play,
    ensures
        progress is None,
{
}

/// While a song is played, the time can be told exactly where the daemon has reported one and the
/// sum with the time since then has its milliseconds in sixty-four bits.
pub proof fn law_time_is_known(model: Model, now: u64, since: int, known: bool)
    requires
        call_ensures(Model::is_time_known, (&model, now), known),
        i64::MIN <= since <= i64::MAX,
        since == now - model.status_updated || since == now - model.status_updated
            + 0x1_0000_0000_0000_0000 || since == now - model.status_updated
            - 0x1_0000_0000_0000_0000,
    ensures
        model.status.state != State::Play ==> known,
        model.status.state == State::Play ==> (known <==> match (
            model.status.elapsed,
            model.status.time,
        ) {
            (Some(elapsed), _) => -9_223_372_036_854_775_808 * 1_000_000 <= elapsed@ + since
                <= 9_223_372_036_854_775_807 * 1_000_000,
            (None, Some(time)) => -9_223_372_036_854_775_808 * 1_000_000 <= time.1@ + since
                <= 9_223_372_036_854_775_807 * 1_000_000,
            (None, None) => false,
        }),
{
    lemma_between(model.status_updated, now, since);
}

/// Wherever the time is known, the clock can tick.
pub proof fn law_known_time_ticks(model: Model, now: u64, known: bool)
    requires
        call_ensures(Model::is_time_known, (&model, now), known),
        known,
    ensures
        call_requires(Model::tick, (&model, now)),
{
}

/// The length of the song, the time played and the place of the seek bar come from the report:
/// to the millisecond where it has them so, else from the coarse times.
pub proof fn law_times_of_report(
    status: Status,
    length: Option<Span>,
    played: Option<Span>,
    sought: Option<Span>,
)
    requires
        call_ensures(Status::song_length, (&status,), length),
        call_ensures(Status::time_played, (&status,), played),
        call_ensures(Status::seek_position, (&status,), sought),
    ensures
        status.duration is Some ==> length == status.duration,
        status.elapsed is Some ==> played == status.elapsed && sought == status.elapsed,
        status.time matches Some(time) ==> {
            &&& status.duration is None ==> length == Some(time.1)
            &&& status.elapsed is None ==> played == Some(time.1) && sought == Some(time.0)
        },
        status.time is None ==> {
            &&& status.duration is None ==> length is None
            &&& status.elapsed is None ==> played is None && sought is None
        },
{
}

proof fn lemma_between(start: u64, end: u64, since: int)
    requires
        i64::MIN <= since <= i64::MAX,
        since == end - start || since == end - start + 0x1_0000_0000_0000_0000 || since == end
            - start - 0x1_0000_0000_0000_0000,
    ensures
        crate::model::ticks_between(start, end) == since,
{
}

pub(crate) proof fn lemma_counts(nanos: int)
    ensures
        counts(crate::span::whole_millis(nanos), nanos, 1_000_000),
{
}

proof fn lemma_decimal_reads(n: nat)
    ensures
        reads(decimal_nat(n), n as int),
        n >= 1 ==> decimal_nat(n)[0] != '0',
        n < 10 ==> decimal_nat(n).len() == 1,
        10 <= n < 100 ==> decimal_nat(n).len() == 2,
    decreases n,
{
    reveal_with_fuel(number, 3);
    if n >= 10 {
        lemma_decimal_reads(n / 10);
        assert(decimal_nat(n).drop_last() =~= decimal_nat(n / 10));
    } else {
        assert(decimal_nat(n) =~= seq![digit(n as int)]);
        assert(decimal_nat(n).drop_last() =~= Seq::<char>::empty());
    }
}

proof fn lemma_two_wide_reads(n: int)
    requires
        0 <= n < 60,
    ensures
        two_wide(n).len() == 2,
        reads(two_wide(n), n),
{
    reveal_with_fuel(number, 3);
    lemma_decimal_reads(n as nat);
    if n < 10 {
        let text = two_wide(n);
        assert(text =~= seq!['0', digit(n)]);
        assert(text.drop_last() =~= seq!['0']);
        assert(text.drop_last().drop_last() =~= Seq::<char>::empty());
    }
}

proof fn lemma_backward_field(n: int)
    requires
        n >= 0,
    ensures
        is_backward_field(two_wide(-n), n),
{
    lemma_decimal_reads(n as nat);
    let text = two_wide(-n);
    if n == 0 {
        assert(text =~= seq!['0', '0']);
    } else {
        assert(text =~= seq!['-'] + decimal_nat(n as nat));
        assert(text.skip(1) =~= decimal_nat(n as nat));
    }
}

pub(crate) proof fn lemma_time_text(nanos: int)
    ensures
        shows_time(crate::text::time_text(nanos), nanos),
{
    let text = crate::text::time_text(nanos);
    let colon = seq![':'];
    if nanos >= 0 {
        let s: int = nanos / 1_000_000_000;
        let (m, sec): (int, int) = ((s / 60) % 60, s % 60);
        lemma_two_wide_reads(m);
        lemma_two_wide_reads(sec);
        let tail = two_wide(m) + colon + two_wide(sec);
        if s >= 3600 {
            let h: int = s / 3600;
            lemma_decimal_reads(h as nat);
            let front = decimal(h);
            assert(text =~= front + colon + tail);
            assert(text.subrange(0, front.len() as int) =~= front);
        } else {
            assert(text =~= tail);
        }
        let start: int = text.len() - 5;
        assert(text.subrange(start, start + 2) =~= two_wide(m));
        assert(text.subrange(start + 3, start + 5) =~= two_wide(sec));
    } else {
        let s: int = (-nanos) / 1_000_000_000;
        let (m, sec): (int, int) = (s / 60, s % 60);
        lemma_backward_field(m);
        lemma_backward_field(sec);
        let front = two_wide(-m);
        assert(text =~= front + colon + two_wide(-sec));
        let i: int = front.len() as int;
        assert(text[i] == ':');
        assert(text.take(i) =~= front);
        assert(text.skip(i + 1) =~= two_wide(-sec));
    }
}

} // verus!
