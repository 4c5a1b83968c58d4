//! Moments in UTC and how they are written.

use vstd::prelude::*;

verus! {

/// A moment: whole seconds since 1970 began in UTC, and nanoseconds.
#[derive(Clone, Copy, Debug, PartialEq, Eq, Structural)]
pub struct Moment {
    pub seconds: i64,
    pub nanos: u32,
}

/// The last second that has a calendar date: the end of the year 262142.
pub const LAST_SECOND: i64 = 8_210_266_876_799;

/// What `chrono` writes for a moment in RFC 3339.
pub uninterp spec fn rfc3339_form(seconds: i64, nanos: u32) -> Seq<char>;

impl Moment {
    /// A moment from 1970 on that has a calendar date.
    pub open spec fn valid(self) -> bool {
        0 <= self.seconds <= LAST_SECOND && self.nanos < 1_000_000_000
    }

    /// Whether the moment so many seconds later has a calendar date too.
    pub open spec fn reaches(self, seconds: int) -> bool {
        self.valid() && 0 <= seconds && self.seconds + seconds <= LAST_SECOND
    }

    /// The moment so many seconds later.
    pub open spec fn later(self, seconds: int) -> Moment {
        Moment { seconds: (self.seconds + seconds) as i64, nanos: self.nanos }
    }

    /// The moment in RFC 3339.
    pub open spec fn text(self) -> Seq<char> {
        rfc3339_form(self.seconds, self.nanos)
    }
}

/// `chrono::Utc::now` reads the system's clock. What it gives back is not before
/// 1970 began and has a calendar date; which moment it is depends on the clock.
/// On a clock that is set outside these bounds it panics.
#[verifier::external_body]
fn utc_now() -> (now: (i64, u32))
    ensures
        0 <= now.0 <= LAST_SECOND,
        now.1 < 1_000_000_000,
{
    let now = chrono::Utc::now();
    (now.timestamp(), now.timestamp_subsec_nanos())
}

/// `chrono::DateTime::to_rfc3339` writes a moment in UTC. It depends on the
/// moment alone.
#[verifier::external_body]
fn rfc3339_text(seconds: i64, nanos: u32) -> (text: String)
    requires
        0 <= seconds <= LAST_SECOND,
        nanos < 1_000_000_000,
    ensures
        text@ == rfc3339_form(seconds, nanos),
{
    chrono::DateTime::from_timestamp(seconds, nanos).unwrap().to_rfc3339()
}

impl Moment {
    /// The present moment.
    pub fn now() -> (now: Moment)
        ensures
            now.valid(),
    {
        let (seconds, nanos) = utc_now();
        Moment { seconds, nanos }
    }

    /// The moment so many seconds later, in RFC 3339.
    pub fn text_after(&self, seconds: i64) -> (text: String)
        requires
            self.reaches(seconds as int),
        ensures
            text@ == self.later(seconds as int).text(),
    {
        rfc3339_text(self.seconds + seconds, self.nanos)
    }
}

/// A later moment is so many seconds later, to the nanosecond, and is written as
/// that moment.
pub proof fn law_later_by_so_many_seconds(moment: Moment, seconds: int)
    requires
        moment.reaches(seconds),
    ensures
        moment.later(seconds).seconds == moment.seconds + seconds,
        moment.later(seconds).nanos == moment.nanos,
        moment.later(seconds).valid(),
        moment.text() == rfc3339_form(moment.seconds, moment.nanos),
{
}

/// A moment reaches another if neither lies before 1970 or after the last second
/// with a calendar date, and its nanoseconds are less than a second.
pub proof fn law_moments_with_a_date(moment: Moment, seconds: int)
    ensures
        moment.valid() <==> 0 <= moment.seconds <= 8_210_266_876_799 && moment.nanos
            < 1_000_000_000,
        seconds >= 0 ==> (moment.reaches(seconds) <==> moment.valid() && moment.seconds + seconds
            <= 8_210_266_876_799),
{
}

} // verus!
