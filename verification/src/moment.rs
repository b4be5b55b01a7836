//! Instants in Coordinated Universal Time.

use vstd::prelude::*;

verus! {

/// An instant: `secs` seconds and `nanos` nanoseconds after 1970-01-01T00:00:00Z.
#[derive(Clone, Copy, Debug, PartialEq, Eq, Structural)]
pub struct Moment {
    pub secs: i64,
    pub nanos: u32,
}

impl Moment {
    /// `self` lies strictly before `other`.
    pub open spec fn precedes(self, other: Moment) -> bool {
        self.secs < other.secs || (self.secs == other.secs && self.nanos < other.nanos)
    }

    /// Whether `self` lies strictly before `other`.
    pub fn before(self, other: Moment) -> (r: bool)
        ensures
            r == self.precedes(other),
    {
        self.secs < other.secs || (self.secs == other.secs && self.nanos < other.nanos)
    }

    /// The later of two instants.
    pub open spec fn latest(self, other: Moment) -> Moment {
        if self.precedes(other) {
            other
        } else {
            self
        }
    }

    /// The later of two instants.
    pub fn later(self, other: Moment) -> (r: Moment)
        ensures
            r == self.latest(other),
    {
        if self.before(other) {
            other
        } else {
            self
        }
    }

    /// The nanoseconds since 1970-01-01T00:00:00Z.
    pub open spec fn total_nanos(self) -> int {
        self.secs * 1_000_000_000 + self.nanos
    }

    /// The nanoseconds since 1970-01-01T00:00:00Z.
    pub fn as_nanos(self) -> (r: i128)
        ensures
            r == self.total_nanos(),
    {
        self.secs as i128 * 1_000_000_000 + self.nanos as i128
    }
}

impl Moment {
    /// The seconds since the day began.
    pub open spec fn second_of_day(self) -> int {
        self.secs as int % 86_400
    }

    /// The seconds since the day began.
    pub fn day_second(self) -> (r: u128)
        ensures
            r == self.second_of_day(),
    {
        let days: i128 = 0x1_0000_0000_0000;
        let shifted: i128 = self.secs as i128 + 86_400 * days;
        (shifted as u128) % 86_400
    }

    /// The nanoseconds from `earlier` to `self`. A leap second that one of the two lies in counts
    /// where the other comes later, respectively earlier, in the day.
    pub open spec fn since(self, earlier: Moment) -> int {
        let apart = self.total_nanos() - earlier.total_nanos();
        if self.second_of_day() > earlier.second_of_day() && earlier.nanos >= 1_000_000_000 {
            apart + 1_000_000_000
        } else if self.second_of_day() < earlier.second_of_day() && self.nanos >= 1_000_000_000 {
            apart - 1_000_000_000
        } else {
            apart
        }
    }

    /// The nanoseconds from `earlier` to `self`.
    pub fn nanos_since(self, earlier: Moment) -> (r: i128)
        ensures
            r == self.since(earlier),
    {
        let apart: i128 = self.as_nanos() - earlier.as_nanos();
        let a = self.day_second();
        let b = earlier.day_second();
        if a > b && earlier.nanos >= 1_000_000_000 {
            apart + 1_000_000_000
        } else if a < b && self.nanos >= 1_000_000_000 {
            apart - 1_000_000_000
        } else {
            apart
        }
    }

    /// `self` lies more than `seconds` before `other`. What follows a leap second by whole seconds
    /// lies in none.
    pub open spec fn precedes_by(self, seconds: int, other: Moment) -> bool {
        let nanos = self.nanos as int % 1_000_000_000;
        self.secs + seconds < other.secs || (self.secs + seconds == other.secs && nanos
            < other.nanos)
    }

    /// Whether `self` lies more than `seconds` before `other`.
    pub fn before_by(self, seconds: i64, other: Moment) -> (r: bool)
        requires
            seconds > 0,
        ensures
            r == self.precedes_by(seconds as int, other),
    {
        let then: i128 = self.secs as i128 + seconds as i128;
        let other_secs: i128 = other.secs as i128;
        then < other_secs || (then == other_secs && self.nanos % 1_000_000_000 < other.nanos)
    }
}

/// The time from one instant to another is that back, the other way round.
pub proof fn time_back_is_the_same(a: Moment, b: Moment)
    ensures
        a.since(b) == -b.since(a),
        a.since(a) == 0,
{
}

/// The order of instants is that of their distances from the epoch, as long as the
/// nanoseconds stay below a second.
pub proof fn precedes_is_the_order_of_nanos(a: Moment, b: Moment)
    requires
        a.nanos < 1_000_000_000,
        b.nanos < 1_000_000_000,
    ensures
        a.precedes(b) <==> a.total_nanos() < b.total_nanos(),
        b.since(a) == b.total_nanos() - a.total_nanos(),
{
}

/// Of two instants the one in the later second comes later, and within a second the one with more
/// nanoseconds does; no instant comes before itself, and of two that differ one comes first.
pub proof fn later_seconds_come_later(a: Moment, b: Moment)
    ensures
        a.secs < b.secs ==> a.precedes(b),
        a.secs == b.secs && a.nanos < b.nanos ==> a.precedes(b),
        !(a.precedes(b) && b.precedes(a)),
        a != b ==> a.precedes(b) || b.precedes(a),
        !a.precedes(a),
{
}

/// The later of two instants is one of them, and neither comes after it.
pub proof fn the_later_instant_is_one_of_the_two(a: Moment, b: Moment)
    ensures
        a.latest(b) == a || a.latest(b) == b,
        !a.latest(b).precedes(a),
        !a.latest(b).precedes(b),
{
}

/// An instant lies more than some seconds before another exactly where the other comes after it,
/// with those seconds added to it.
pub proof fn to_precede_by_seconds_is_to_precede_with_them_added(a: Moment, seconds: int, b: Moment)
    requires
        a.nanos < 1_000_000_000,
    ensures
        b.secs > a.secs + seconds ==> a.precedes_by(seconds, b),
        b.secs < a.secs + seconds ==> !a.precedes_by(seconds, b),
        b.secs == a.secs + seconds ==> (a.precedes_by(seconds, b) <==> b.nanos > a.nanos),
{
}

/// The seconds of a day are counted from its midnight in UTC, also before 1970.
pub proof fn days_begin_at_midnight(t: Moment, day: int, second: int)
    requires
        t.secs == day * 86_400 + second,
        0 <= second < 86_400,
    ensures
        t.second_of_day() == second,
{
    vstd::arithmetic::div_mod::lemma_fundamental_div_mod_converse(
        t.secs as int,
        86_400,
        day,
        second,
    );
}

/// Between two instants outside leap seconds lie as many nanoseconds as their seconds and fractions
/// say; a leap second that the earlier one lies in counts where the later one comes later in the day.
pub proof fn leap_seconds_count_within_their_day(a: Moment, b: Moment)
    ensures
        a.nanos < 1_000_000_000 && b.nanos < 1_000_000_000 ==> a.since(b) == (a.secs - b.secs)
            * 1_000_000_000 + a.nanos - b.nanos,
        a.second_of_day() > b.second_of_day() && b.nanos >= 1_000_000_000 ==> a.since(b) == (a.secs
            - b.secs + 1) * 1_000_000_000 + a.nanos - b.nanos,
        a.second_of_day() == b.second_of_day() ==> a.since(b) == (a.secs - b.secs) * 1_000_000_000
            + a.nanos - b.nanos,
{
}

} // verus!
