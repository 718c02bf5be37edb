//! Time of day with nanosecond resolution, wrapping at midnight.
//!
//! The arithmetic is done by `chrono`; the contracts below say what it
//! computes in terms of the number of nanoseconds since midnight.

use chrono::NaiveTime;
use chrono::TimeDelta;
use chrono::Timelike;
use vstd::arithmetic::div_mod::*;
use vstd::prelude::*;

verus! {

pub const SECONDS_PER_DAY: u32 = 86_400;

pub const NANOS_PER_SECOND: u32 = 1_000_000_000;

pub const NANOS_PER_MILLI: u32 = 1_000_000;

pub const MILLIS_PER_DAY: i64 = 86_400_000;

pub const NANOS_PER_DAY: i64 = 86_400_000_000_000;

/// A time of day: whole seconds since midnight and nanoseconds within the
/// second. Leap seconds have no representation.
#[derive(Clone, Copy, Debug, PartialEq, Eq, Structural)]
pub struct TimeOfDay {
    secs: u32,
    nanos: u32,
}

impl View for TimeOfDay {
    type V = int;

    /// Nanoseconds since midnight.
    closed spec fn view(&self) -> int {
        self.secs * NANOS_PER_SECOND + self.nanos
    }
}

/// What `chrono::NaiveTime::parse_from_str` reads from `text` under the
/// strftime pattern `format`: the seconds since midnight and the nanoseconds
/// within the second, or `None` where it reports an error.
pub uninterp spec fn parsed_time(text: Seq<char>, format: Seq<char>) -> Option<(u32, u32)>;

/// The decimal digit `d` as a character.
pub open spec fn digit_char(d: int) -> char {
    seq!['0', '1', '2', '3', '4', '5', '6', '7', '8', '9'][d]
}

/// `HH:MM:SS` for the time `nanos` nanoseconds after midnight.
pub open spec fn clock_text(nanos: int) -> Seq<char> {
    let secs = nanos / (NANOS_PER_SECOND as int);
    let hour = secs / 3600;
    let minute = secs / 60 % 60;
    let second = secs % 60;
    seq![
        digit_char(hour / 10),
        digit_char(hour % 10),
        ':',
        digit_char(minute / 10),
        digit_char(minute % 10),
        ':',
        digit_char(second / 10),
        digit_char(second % 10),
    ]
}

/// `.mmm`: the milliseconds within the second, three digits.
pub open spec fn millis_text(nanos: int) -> Seq<char> {
    let millis = nanos % (NANOS_PER_SECOND as int) / (NANOS_PER_MILLI as int);
    seq!['.', digit_char(millis / 100), digit_char(millis / 10 % 10), digit_char(millis % 10)]
}

/// `a / b` rounded toward zero, for positive `b`.
pub open spec fn quotient_toward_zero(a: int, b: int) -> int {
    if a >= 0 {
        a / b
    } else {
        -((-a) / b)
    }
}

/// Nanoseconds since midnight after moving `start` by `millis` milliseconds
/// and discarding whole days.
pub open spec fn shifted(start: int, millis: int) -> int {
    (start + millis * NANOS_PER_MILLI) % (NANOS_PER_DAY as int)
}

/// A time that is moved lies within the day, and is a whole number of
/// milliseconds if it was one before.
pub proof fn lemma_shifted_range(start: int, millis: int)
    ensures
        0 <= shifted(start, millis) < NANOS_PER_DAY,
        start % (NANOS_PER_MILLI as int) == 0 ==> shifted(start, millis) % (NANOS_PER_MILLI as int)
            == 0,
{
    let sum = start + millis * NANOS_PER_MILLI;
    let day = NANOS_PER_DAY as int;
    lemma_fundamental_div_mod(sum, day);
    lemma_mod_bound(sum, day);
    if start % (NANOS_PER_MILLI as int) == 0 {
        lemma_fundamental_div_mod(start, NANOS_PER_MILLI as int);
        let whole = start / (NANOS_PER_MILLI as int) + millis - (sum / day) * MILLIS_PER_DAY;
        assert(sum % day == (NANOS_PER_MILLI as int) * whole + 0) by (nonlinear_arith)
            requires
                sum == start + millis * 1_000_000,
                start == 1_000_000 * (start / 1_000_000),
                sum == day * (sum / day) + sum % day,
                day == 86_400_000_000_000,
                whole == start / 1_000_000 + millis - (sum / day) * 86_400_000,
        ;
        lemma_fundamental_div_mod_converse(sum % day, NANOS_PER_MILLI as int, whole, 0);
    }
}

/// Moving a time twice is moving it once by the sum.
pub proof fn lemma_shifted_twice(start: int, first: int, second: int)
    ensures
        shifted(shifted(start, first), second) == shifted(start, first + second),
{
    let day = NANOS_PER_DAY as int;
    let once = start + first * NANOS_PER_MILLI;
    let more = second * NANOS_PER_MILLI;
    lemma_add_mod_noop(once, more, day);
    lemma_add_mod_noop(once % day, more, day);
    lemma_mod_twice(once, day);
    assert(once + more == start + (first + second) * NANOS_PER_MILLI) by (nonlinear_arith)
        requires
            once == start + first * NANOS_PER_MILLI,
            more == second * NANOS_PER_MILLI,
    ;
}

/// A time within the day that is moved by anything but whole days ends up
/// somewhere else: ahead of where it was by the milliseconds moved, counted
/// round the clock.
pub proof fn lemma_shifted_moves(start: int, millis: int)
    requires
        0 <= start < NANOS_PER_DAY,
    ensures
        (shifted(start, millis) - start) % (NANOS_PER_DAY as int) == (millis * NANOS_PER_MILLI) % (
        NANOS_PER_DAY as int),
        millis % (MILLIS_PER_DAY as int) != 0 ==> shifted(start, millis) != start,
        millis % (MILLIS_PER_DAY as int) == 0 ==> shifted(start, millis) == start,
{
    let day = NANOS_PER_DAY as int;
    let moved = millis * NANOS_PER_MILLI;
    let sum = start + moved;
    lemma_fundamental_div_mod(sum, day);
    lemma_mod_bound(sum, day);
    lemma_mod_multiples_vanish(-(sum / day), moved, day);
    assert(shifted(start, millis) - start == day * (-(sum / day)) + moved) by (nonlinear_arith)
        requires
            sum == day * (sum / day) + shifted(start, millis),
            sum == start + moved,
    ;
    lemma_fundamental_div_mod(millis, MILLIS_PER_DAY as int);
    lemma_mod_bound(millis, MILLIS_PER_DAY as int);
    let days = millis / (MILLIS_PER_DAY as int);
    let rest = millis % (MILLIS_PER_DAY as int);
    assert(moved == day * days + rest * 1_000_000) by (nonlinear_arith)
        requires
            millis == 86_400_000 * days + rest,
            moved == millis * 1_000_000,
            day == 86_400_000_000_000,
    ;
    lemma_fundamental_div_mod_converse(moved, day, days, rest * 1_000_000);
    if rest == 0 {
        lemma_small_mod(start as nat, day as nat);
        lemma_mod_multiples_vanish(days, start, day);
        assert(sum == day * days + start);
    } else {
        lemma_small_mod(0, day as nat);
        assert((shifted(start, millis) - start) % day != 0);
    }
}

impl TimeOfDay {
    /// Both fields are in range: less than a day of seconds, less than a
    /// second of nanoseconds.
    pub closed spec fn wf(self) -> bool {
        self.secs < SECONDS_PER_DAY && self.nanos < NANOS_PER_SECOND
    }

    /// The seconds field.
    pub closed spec fn spec_seconds(self) -> int {
        self.secs as int
    }

    /// The nanoseconds field.
    pub closed spec fn spec_nanosecond(self) -> int {
        self.nanos as int
    }

    /// A well-formed time lies within one day, and its view splits into the
    /// two fields.
    pub proof fn lemma_view_bounds(self)
        requires
            self.wf(),
        ensures
            0 <= self@ < NANOS_PER_DAY,
            self@ == self.spec_seconds() * NANOS_PER_SECOND + self.spec_nanosecond(),
            0 <= self.spec_seconds() < SECONDS_PER_DAY,
            0 <= self.spec_nanosecond() < NANOS_PER_SECOND,
            self.spec_seconds() == self@ / (NANOS_PER_SECOND as int),
            self.spec_nanosecond() == self@ % (NANOS_PER_SECOND as int),
    {
        lemma_fundamental_div_mod_converse(
            self@,
            NANOS_PER_SECOND as int,
            self.secs as int,
            self.nanos as int,
        );
    }

    /// Two well-formed times with the same view are the same time.
    pub proof fn lemma_view_injective(self, other: TimeOfDay)
        requires
            self.wf(),
            other.wf(),
            self@ == other@,
        ensures
            self == other,
    {
        self.lemma_view_bounds();
        other.lemma_view_bounds();
    }

    /// Midnight.
    pub fn midnight() -> (t: TimeOfDay)
        ensures
            t.wf(),
            t@ == 0,
    {
        TimeOfDay { secs: 0, nanos: 0 }
    }

    /// The time with the given fields, if they are in range.
    pub fn from_parts(secs: u32, nanos: u32) -> (r: Option<TimeOfDay>)
        ensures
            r is Some <==> secs < SECONDS_PER_DAY && nanos < NANOS_PER_SECOND,
            r matches Some(t) ==> t.wf() && t@ == secs * NANOS_PER_SECOND + nanos
                && t.spec_seconds() == secs && t.spec_nanosecond() == nanos,
    {
        if secs < SECONDS_PER_DAY && nanos < NANOS_PER_SECOND {
            Some(TimeOfDay { secs, nanos })
        } else {
            None
        }
    }

    /// Whole seconds since midnight.
    pub fn seconds(&self) -> (s: u32)
        ensures
            s == self.spec_seconds(),
    {
        self.secs
    }

    /// Nanoseconds within the second.
    pub fn nanosecond(&self) -> (n: u32)
        ensures
            n == self.spec_nanosecond(),
    {
        self.nanos
    }
}

/// Calls `chrono::NaiveTime::parse_from_str` and hands back the two fields of
/// the time it read. Nothing is claimed of the result beyond its name.
#[verifier::external_body]
fn chrono_parse(text: &str, format: &str) -> (r: Option<(u32, u32)>)
    ensures
        r == parsed_time(text@, format@),
{
    match NaiveTime::parse_from_str(text, format) {
        Ok(t) => Some((t.num_seconds_from_midnight(), t.nanosecond())),
        Err(_) => None,
    }
}

/// Calls `chrono::NaiveTime::overflowing_add_signed` with
/// `chrono::TimeDelta::milliseconds(millis)` and keeps the time of day.
/// Claimed: away from leap seconds the sum is taken on nanoseconds since
/// midnight, modulo one day. `TimeDelta::milliseconds` refuses `i64::MIN`.
#[verifier::external_body]
fn chrono_add_millis(t: TimeOfDay, millis: i64) -> (r: TimeOfDay)
    requires
        t.wf(),
        millis > i64::MIN,
    ensures
        r.wf(),
        r@ == shifted(t@, millis as int),
{
    let start = NaiveTime::from_num_seconds_from_midnight_opt(t.secs, t.nanos).unwrap();
    let (end, _) = start.overflowing_add_signed(TimeDelta::milliseconds(millis));
    TimeOfDay { secs: end.num_seconds_from_midnight(), nanos: end.nanosecond() }
}

/// Calls `chrono::NaiveTime::signed_duration_since` and reads the difference
/// with `chrono::TimeDelta::num_milliseconds`. Claimed: away from leap
/// seconds that is the difference in nanoseconds, divided by a million and
/// rounded toward zero.
#[verifier::external_body]
fn chrono_millis_between(later: TimeOfDay, earlier: TimeOfDay) -> (r: i64)
    requires
        later.wf(),
        earlier.wf(),
    ensures
        r == quotient_toward_zero(later@ - earlier@, NANOS_PER_MILLI as int),
{
    let a = NaiveTime::from_num_seconds_from_midnight_opt(later.secs, later.nanos).unwrap();
    let b = NaiveTime::from_num_seconds_from_midnight_opt(earlier.secs, earlier.nanos).unwrap();
    a.signed_duration_since(b).num_milliseconds()
}

/// Calls `chrono::NaiveTime::format` and collects what it displays. Claimed,
/// for the two patterns the widget uses: `%H`, `%M` and `%S` print two
/// zero-padded digits each, `%.3f` a dot and three digits of milliseconds.
/// Other patterns are left out: a malformed one makes the call panic.
#[verifier::external_body]
fn chrono_format(t: TimeOfDay, format: &str) -> (r: String)
    requires
        t.wf(),
        format@ == "%H:%M:%S"@ || format@ == "%H:%M:%S%.3f"@,
    ensures
        format@ == "%H:%M:%S"@ ==> r@ == clock_text(t@),
        format@ == "%H:%M:%S%.3f"@ ==> r@ == clock_text(t@) + millis_text(t@),
{
    let time = NaiveTime::from_num_seconds_from_midnight_opt(t.secs, t.nanos).unwrap();
    time.format(format).to_string()
}

impl TimeOfDay {
    /// What the fields of a parsed time stand for: the time, unless a field
    /// is out of range or the text does not parse.
    pub open spec fn spec_parse(text: Seq<char>, format: Seq<char>) -> Option<int> {
        match parsed_time(text, format) {
            Some((secs, nanos)) => if secs < SECONDS_PER_DAY && nanos < NANOS_PER_SECOND {
                Some(secs * NANOS_PER_SECOND + nanos)
            } else {
                None
            },
            None => None,
        }
    }

    /// Reads a time of day written in the strftime pattern `format`.
    pub fn parse_from_str(text: &str, format: &str) -> (r: Option<TimeOfDay>)
        ensures
            r is Some <==> Self::spec_parse(text@, format@) is Some,
            r matches Some(t) ==> t.wf() && Some(t@) == Self::spec_parse(text@, format@),
    {
        match chrono_parse(text, format) {
            Some((secs, nanos)) => Self::from_parts(secs, nanos),
            None => None,
        }
    }

    /// The time `millis` milliseconds later (earlier where negative),
    /// wrapping at midnight in either direction.
    pub fn wrapping_add_millis(self, millis: i64) -> (r: TimeOfDay)
        requires
            self.wf(),
        ensures
            r.wf(),
            r@ == shifted(self@, millis as int),
    {
        if millis == i64::MIN {
            proof {
                lemma_shifted_twice(self@, -i64::MAX as int, -1);
            }
            let most: TimeOfDay = chrono_add_millis(self, -i64::MAX);
            chrono_add_millis(most, -1)
        } else {
            chrono_add_millis(self, millis)
        }
    }

    /// Whole milliseconds from `earlier` to `self`, rounded toward zero;
    /// negative where `self` is the earlier of the two.
    pub fn millis_since(self, earlier: TimeOfDay) -> (r: i64)
        requires
            self.wf(),
            earlier.wf(),
        ensures
            r == quotient_toward_zero(self@ - earlier@, NANOS_PER_MILLI as int),
            -MILLIS_PER_DAY < r < MILLIS_PER_DAY,
    {
        proof {
            self.lemma_view_bounds();
            earlier.lemma_view_bounds();
        }
        chrono_millis_between(self, earlier)
    }

    /// The time as `HH:MM:SS`.
    pub fn format_seconds(&self) -> (r: String)
        requires
            self.wf(),
        ensures
            r@ == clock_text(self@),
    {
        chrono_format(*self, "%H:%M:%S")
    }

    /// The time as `HH:MM:SS.mmm`.
    pub fn format_millis(&self) -> (r: String)
        requires
            self.wf(),
        ensures
            r@ == clock_text(self@) + millis_text(self@),
    {
        chrono_format(*self, "%H:%M:%S%.3f")
    }
}

} // verus!
