//! Wall-clock times in the Asia/Seoul zone, in which every event is reported.
use vstd::prelude::*;
use chrono::{Datelike, TimeZone, Timelike};
use chrono_tz::Asia::Seoul;

verus! {

/// A Seoul wall-clock time to the second.
#[derive(Clone, Copy, PartialEq, Eq, Structural, Debug)]
pub struct Timestamp {
    pub year: i32,
    pub month: u8,
    pub day: u8,
    pub hour: u8,
    pub minute: u8,
    pub second: u8,
}

/// The fields of a time as plain integers, year first.
pub type TimeFields = (int, int, int, int, int, int);

/// The time that chrono reads from `text` laid out as `format`, as a Seoul
/// wall-clock time, or `None` where it does not read one.
pub uninterp spec fn seoul_time(text: Seq<char>, format: Seq<char>) -> Option<TimeFields>;

/// The Seoul wall-clock time of the instant that chrono reads from `text` laid
/// out as `format` (which carries its own UTC offset), or `None`.
pub uninterp spec fn seoul_time_of_instant(text: Seq<char>, format: Seq<char>) -> Option<
    TimeFields,
>;

impl Timestamp {
    pub open spec fn fields(self) -> TimeFields {
        (
            self.year as int,
            self.month as int,
            self.day as int,
            self.hour as int,
            self.minute as int,
            self.second as int,
        )
    }

    /// The ranges that chrono documents for its date and time fields.
    pub open spec fn wf(self) -> bool {
        1 <= self.month <= 12 && 1 <= self.day <= 31 && self.hour < 24 && self.minute < 60
            && self.second < 60
    }
}

/// `a` is no later than `b`.
pub open spec fn time_le(a: Timestamp, b: Timestamp) -> bool {
    a.year < b.year || (a.year == b.year && (a.month < b.month || (a.month == b.month && (a.day
        < b.day || (a.day == b.day && (a.hour < b.hour || (a.hour == b.hour && (a.minute
        < b.minute || (a.minute == b.minute && a.second <= b.second)))))))))
}

/// Whether `a` is no later than `b`.
pub fn no_later(a: &Timestamp, b: &Timestamp) -> (r: bool)
    ensures
        r == time_le(*a, *b),
{
    if a.year != b.year {
        a.year < b.year
    } else if a.month != b.month {
        a.month < b.month
    } else if a.day != b.day {
        a.day < b.day
    } else if a.hour != b.hour {
        a.hour < b.hour
    } else if a.minute != b.minute {
        a.minute < b.minute
    } else {
        a.second <= b.second
    }
}

/// `time_le` orders all times.
pub proof fn lemma_time_le_total(a: Timestamp, b: Timestamp)
    ensures
        time_le(a, b) || time_le(b, a),
        time_le(a, b) && time_le(b, a) ==> a == b,
{
}

/// `time_le` is transitive.
pub proof fn lemma_time_le_trans(a: Timestamp, b: Timestamp, c: Timestamp)
    requires
        time_le(a, b),
        time_le(b, c),
    ensures
        time_le(a, c),
{
}

/// Relies on chrono's `TimeZone::datetime_from_str` on the Asia/Seoul zone of
/// chrono-tz: reads `text` laid out as `format` as a Seoul wall-clock time.
#[verifier::external_body]
pub(crate) fn read_seoul_time(text: &str, format: &str) -> (r: Option<Timestamp>)
    ensures
        r matches Some(t) ==> t.wf() && seoul_time(text@, format@) == Some(t.fields()),
        r is None ==> seoul_time(text@, format@) is None,
{
    #[allow(deprecated)]
    let t = Seoul.datetime_from_str(text, format).ok()?;
    Some(Timestamp {
        year: t.year(),
        month: t.month() as u8,
        day: t.day() as u8,
        hour: t.hour() as u8,
        minute: t.minute() as u8,
        second: t.second() as u8,
    })
}

/// Relies on chrono's `DateTime::parse_from_str`, which reads an instant with
/// its UTC offset, and on chrono-tz's `from_utc_datetime` for Asia/Seoul,
/// which gives that instant's Seoul wall-clock time.
#[verifier::external_body]
pub(crate) fn read_instant_in_seoul(text: &str, format: &str) -> (r: Option<Timestamp>)
    ensures
        r matches Some(t) ==> t.wf() && seoul_time_of_instant(text@, format@) == Some(t.fields()),
        r is None ==> seoul_time_of_instant(text@, format@) is None,
{
    let instant = chrono::DateTime::parse_from_str(text, format).ok()?;
    let t = Seoul.from_utc_datetime(&instant.naive_utc());
    Some(Timestamp {
        year: t.year(),
        month: t.month() as u8,
        day: t.day() as u8,
        hour: t.hour() as u8,
        minute: t.minute() as u8,
        second: t.second() as u8,
    })
}

} // verus!
