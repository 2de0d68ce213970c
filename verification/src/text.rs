//! Numbers and times as text.
use crate::span::{whole_hours, whole_minutes, whole_seconds, Span};
use vstd::prelude::*;

verus! {

/// The digit that stands for `d`.
pub open spec fn digit(d: int) -> char
    recommends
        0 <= d < 10,
{
    (48 + d) as char
}

/// `n` in decimal notation, without leading zeros.
pub open spec fn decimal_nat(n: nat) -> Seq<char>
    decreases n,
{
    if n < 10 {
        seq![digit(n as int)]
    } else {
        decimal_nat(n / 10).push(digit((n % 10) as int))
    }
}

/// `n` in decimal notation, with a minus sign where it is negative.
pub open spec fn decimal(n: int) -> Seq<char> {
    if n < 0 {
        seq!['-'] + decimal_nat((-n) as nat)
    } else {
        decimal_nat(n as nat)
    }
}

/// `n` in decimal notation, filled up with a zero to two characters at least.
pub open spec fn two_wide(n: int) -> Seq<char> {
    if 0 <= n < 10 {
        seq!['0'] + decimal(n)
    } else {
        decimal(n)
    }
}

/// A span of `nanos` nanoseconds as hours, minutes and seconds; the hours are left out unless
/// there is a whole one.
pub open spec fn time_text(nanos: int) -> Seq<char> {
    let hours = whole_hours(nanos);
    let minutes = whole_minutes(nanos);
    let seconds = whole_seconds(nanos) - minutes * 60;
    if hours > 0 {
        decimal(hours) + seq![':'] + two_wide(minutes - hours * 60) + seq![':'] + two_wide(seconds)
    } else {
        two_wide(minutes) + seq![':'] + two_wide(seconds)
    }
}

fn digit_text(d: u64) -> (text: &'static str)
    requires
        d < 10,
    ensures
        text@ == seq![digit(d as int)],
{
    proof {
        reveal_strlit("0");
        reveal_strlit("1");
        reveal_strlit("2");
        reveal_strlit("3");
        reveal_strlit("4");
        reveal_strlit("5");
        reveal_strlit("6");
        reveal_strlit("7");
        reveal_strlit("8");
        reveal_strlit("9");
    }
    let text = match d {
        0 => "0",
        1 => "1",
        2 => "2",
        3 => "3",
        4 => "4",
        5 => "5",
        6 => "6",
        7 => "7",
        8 => "8",
        _ => "9",
    };
    assert(text@ =~= seq![digit(d as int)]);
    text
}

fn format_nat(n: u64) -> (text: String)
    ensures
        text@ == decimal_nat(n as nat),
    decreases n,
{
    if n < 10 {
        digit_text(n).to_owned()
    } else {
        let mut text = format_nat(n / 10);
        text.append(digit_text(n % 10));
        assert(text@ =~= decimal_nat((n / 10) as nat).push(digit((n % 10) as int)));
        text
    }
}

/// `n` in decimal notation.
fn format_int(n: i64) -> (text: String)
    ensures
        text@ == decimal(n as int),
{
    if n < 0 {
        let magnitude: u64 = (-(n + 1)) as u64 + 1;
        let mut text = "-".to_owned();
        proof {
            reveal_strlit("-");
            assert(text@ =~= seq!['-']);
        }
        text.append(format_nat(magnitude).as_str());
        text
    } else {
        format_nat(n as u64)
    }
}

/// `n` in decimal notation, two characters wide at least.
fn format_two_wide(n: i64) -> (text: String)
    ensures
        text@ == two_wide(n as int),
{
    if 0 <= n && n < 10 {
        let mut text = "0".to_owned();
        proof {
            reveal_strlit("0");
            assert(text@ =~= seq!['0']);
        }
        text.append(format_int(n).as_str());
        text
    } else {
        format_int(n)
    }
}

/// A span of time for the display: `MM:SS`, with the hours in front where there are any.
pub fn format_time(dur: Span) -> (text: String)
    ensures
        text@ == time_text(dur@),
{
    proof {
        use_type_invariant(&dur);
        reveal_strlit(":");
        assert(":"@ =~= seq![':']);
    }
    let hours: i64 = dur.num_hours();
    let minutes: i64 = dur.num_minutes();
    let seconds: i64 = dur.num_seconds();
    if hours > 0 {
        let mut text = format_int(hours);
        text.append(":");
        text.append(format_two_wide(minutes - hours * 60).as_str());
        text.append(":");
        text.append(format_two_wide(seconds - minutes * 60).as_str());
        text
    } else {
        let mut text = format_two_wide(minutes);
        text.append(":");
        text.append(format_two_wide(seconds - minutes * 60).as_str());
        text
    }
}

/// The displayed fields are those of a clock: less than sixty seconds, and less than sixty
/// minutes beside the hours; a span that does not run backwards shows no negative field.
pub proof fn law_time_fields(nanos: int)
    ensures
        ({
            let hours = whole_hours(nanos);
            let minutes = whole_minutes(nanos);
            let seconds = whole_seconds(nanos) - minutes * 60;
            &&& -60 < seconds < 60
            &&& -60 < minutes - hours * 60 < 60
            &&& nanos >= 0 ==> hours >= 0 && minutes - hours * 60 >= 0 && seconds >= 0
            &&& whole_seconds(nanos) == hours * 3600 + (minutes - hours * 60) * 60 + seconds
        }),
{
}

/// The text of a time tells how many whole seconds it lasts: no two different counts of whole
/// seconds are displayed alike.
pub proof fn law_time_text_tells_seconds(a: int, b: int)
    requires
        time_text(a) == time_text(b),
    ensures
        whole_seconds(a) == whole_seconds(b),
{
    let colon = seq![':'];
    let (ha, ma) = (whole_hours(a), whole_minutes(a));
    let (hb, mb) = (whole_hours(b), whole_minutes(b));
    let (sa, sb) = (whole_seconds(a) - ma * 60, whole_seconds(b) - mb * 60);
    let (ra, rb) = (
        two_wide(ma - ha * 60) + colon + two_wide(sa),
        two_wide(mb - hb * 60) + colon + two_wide(sb),
    );
    lemma_plain(ha);
    lemma_plain(hb);
    lemma_plain(ma);
    lemma_plain(mb);
    lemma_plain(ma - ha * 60);
    lemma_plain(mb - hb * 60);
    lemma_plain(sa);
    lemma_plain(sb);
    if ha > 0 {
        assert(time_text(a) =~= decimal(ha) + colon + ra);
    }
    if hb > 0 {
        assert(time_text(b) =~= decimal(hb) + colon + rb);
    }
    if ha > 0 && hb > 0 {
        lemma_split(decimal(ha), ra, decimal(hb), rb);
        lemma_split(two_wide(ma - ha * 60), two_wide(sa), two_wide(mb - hb * 60), two_wide(sb));
        lemma_decimal_injective(ha, hb);
        lemma_two_wide_injective(ma - ha * 60, mb - hb * 60);
        lemma_two_wide_injective(sa, sb);
    } else if ha > 0 {
        lemma_split(decimal(ha), ra, two_wide(mb), two_wide(sb));
        assert(ra[two_wide(ma - ha * 60).len() as int] == ':');
        assert(two_wide(sb).contains(':'));
    } else if hb > 0 {
        lemma_split(two_wide(ma), two_wide(sa), decimal(hb), rb);
        assert(rb[two_wide(mb - hb * 60).len() as int] == ':');
        assert(two_wide(sa).contains(':'));
    } else {
        lemma_split(two_wide(ma), two_wide(sa), two_wide(mb), two_wide(sb));
        lemma_two_wide_injective(ma, mb);
        lemma_two_wide_injective(sa, sb);
    }
}

proof fn lemma_decimal_nat(n: nat)
    ensures
        decimal_nat(n).len() >= 1,
        n >= 10 ==> decimal_nat(n).len() >= 2,
        n >= 1 ==> decimal_nat(n)[0] != '0',
        forall|i: int|
            0 <= i < decimal_nat(n).len() ==> '0' <= #[trigger] decimal_nat(n)[i] <= '9',
    decreases n,
{
    if n >= 10 {
        lemma_decimal_nat(n / 10);
    }
}

/// No number holds a colon.
proof fn lemma_plain(n: int)
    ensures
        !decimal(n).contains(':'),
        !two_wide(n).contains(':'),
{
    lemma_decimal_nat(n as nat);
    lemma_decimal_nat((-n) as nat);
}

proof fn lemma_decimal_nat_injective(a: nat, b: nat)
    requires
        decimal_nat(a) == decimal_nat(b),
    ensures
        a == b,
    decreases a,
{
    lemma_decimal_nat(a);
    lemma_decimal_nat(b);
    assert(decimal_nat(a).last() == digit((a % 10) as int));
    assert(decimal_nat(b).last() == digit((b % 10) as int));
    if a >= 10 {
        assert(decimal_nat(a).drop_last() =~= decimal_nat(a / 10));
        assert(decimal_nat(b).drop_last() =~= decimal_nat(b / 10));
        lemma_decimal_nat_injective(a / 10, b / 10);
    }
}

proof fn lemma_decimal_injective(a: int, b: int)
    requires
        decimal(a) == decimal(b),
    ensures
        a == b,
{
    let (pa, pb) = (
        if a < 0 { (-a) as nat } else { a as nat },
        if b < 0 { (-b) as nat } else { b as nat },
    );
    lemma_decimal_nat(pa);
    lemma_decimal_nat(pb);
    if a < 0 {
        assert(decimal(a)[0] == '-');
        assert(decimal(a).drop_first() =~= decimal_nat(pa));
    } else {
        assert(decimal(a)[0] == decimal_nat(pa)[0]);
    }
    if b < 0 {
        assert(decimal(b)[0] == '-');
        assert(decimal(b).drop_first() =~= decimal_nat(pb));
    } else {
        assert(decimal(b)[0] == decimal_nat(pb)[0]);
    }
    lemma_decimal_nat_injective(pa, pb);
}

proof fn lemma_two_wide_injective(a: int, b: int)
    requires
        two_wide(a) == two_wide(b),
    ensures
        a == b,
{
    lemma_two_wide_start(a);
    lemma_two_wide_start(b);
    if 0 <= a < 10 {
        assert(two_wide(a).drop_first() =~= decimal(a));
        assert(two_wide(b).drop_first() =~= decimal(b));
    }
    lemma_decimal_injective(a, b);
}

/// A zero in front is there to fill up.
proof fn lemma_two_wide_start(n: int)
    ensures
        two_wide(n).len() > 0,
        two_wide(n)[0] == '0' <==> 0 <= n < 10,
{
    if n < 0 {
        assert(two_wide(n)[0] == '-');
    } else if n >= 10 {
        lemma_decimal_nat(n as nat);
    }
}

/// A text is parted in one way only at its first colon.
proof fn lemma_split(a: Seq<char>, b: Seq<char>, c: Seq<char>, d: Seq<char>)
    requires
        a + seq![':'] + b == c + seq![':'] + d,
        !a.contains(':'),
        !c.contains(':'),
    ensures
        a == c,
        b == d,
{
    let left = a + seq![':'] + b;
    let right = c + seq![':'] + d;
    assert(left[a.len() as int] == ':');
    assert(right[c.len() as int] == ':');
    if a.len() < c.len() {
        assert(c[a.len() as int] == ':');
    }
    if c.len() < a.len() {
        assert(a[c.len() as int] == ':');
    }
    assert(a =~= left.take(a.len() as int));
    assert(c =~= right.take(c.len() as int));
    assert(b =~= left.skip(a.len() as int + 1));
    assert(d =~= right.skip(c.len() as int + 1));
}

} // verus!
