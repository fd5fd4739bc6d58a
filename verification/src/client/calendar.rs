//! The proleptic Gregorian calendar as used for WS-Security `Created`
//! timestamps: leap years, month offsets, and the UTC reading of a count of
//! seconds since the Unix epoch.

use vstd::prelude::*;
use crate::text::{push_zero_padded, zero_padded};
use crate::trusted::{duration_since_unix_epoch, system_time_now, whole_seconds};

verus! {

/// Whether `year` is a leap year of the Gregorian calendar.
pub open spec fn is_leap_year(year: int) -> bool {
    (year % 4 == 0 && year % 100 != 0) || year % 400 == 0
}

/// The number of days of `year`.
pub open spec fn year_length(year: int) -> int {
    if is_leap_year(year) {
        366
    } else {
        365
    }
}

/// The number of days of `month` (1 = January, ..., 12 = December) in a leap
/// or a common year.
pub open spec fn month_length(month: int, leap: bool) -> int {
    if month == 2 {
        if leap {
            29
        } else {
            28
        }
    } else if month == 4 || month == 6 || month == 9 || month == 11 {
        30
    } else {
        31
    }
}

/// The days of the year that precede the first day of `month`; zero for a
/// number outside 1..=12.
pub open spec fn days_before(month: int, leap: bool) -> int
    decreases month,
{
    if month <= 1 || month > 12 {
        0
    } else {
        days_before(month - 1, leap) + month_length(month - 1, leap)
    }
}

/// The days from 1970-01-01 to the first day of `year` (for `year >= 1970`).
pub open spec fn days_before_year(year: int) -> int
    decreases year - 1970,
{
    if year <= 1970 {
        0
    } else {
        days_before_year(year - 1) + year_length(year - 1)
    }
}

/// The twelve month offsets, written out.
pub proof fn lemma_days_before_values(leap: bool)
    ensures
        days_before(1, leap) == 0,
        days_before(2, leap) == 31,
        days_before(3, leap) == if leap { 60int } else { 59int },
        days_before(4, leap) == if leap { 91int } else { 90int },
        days_before(5, leap) == if leap { 121int } else { 120int },
        days_before(6, leap) == if leap { 152int } else { 151int },
        days_before(7, leap) == if leap { 182int } else { 181int },
        days_before(8, leap) == if leap { 213int } else { 212int },
        days_before(9, leap) == if leap { 244int } else { 243int },
        days_before(10, leap) == if leap { 274int } else { 273int },
        days_before(11, leap) == if leap { 305int } else { 304int },
        days_before(12, leap) == if leap { 335int } else { 334int },
        days_before(12, leap) + month_length(12, leap) == if leap { 366int } else { 365int },
{
    reveal_with_fuel(days_before, 13);
}

/// Month offsets grow by the length of each month: the months of a year tile
/// it without gap or overlap.
pub proof fn lemma_months_tile_year(month: int, leap: bool)
    requires
        1 <= month <= 12,
    ensures
        days_before(month, leap) >= 0,
        month < 12 ==> days_before(month + 1, leap) == days_before(month, leap) + month_length(
            month,
            leap,
        ),
        days_before(month, leap) + month_length(month, leap) <= if leap { 366int } else { 365int },
        month == 12 ==> days_before(month, leap) + month_length(month, leap) == if leap {
            366int
        } else {
            365int
        },
{
    lemma_days_before_values(leap);
}

/// Whether `year` is a leap year: divisible by 4 and not by 100, or by 400.
pub fn is_leap(year: i64) -> (leap: bool)
    ensures
        leap == is_leap_year(year as int),
        leap <==> (year as int) % 4 == 0 && ((year as int) % 100 != 0 || (year as int) % 400 == 0),
{
    (year % 4 == 0 && year % 100 != 0) || (year % 400 == 0)
}

/// The number of days of the year that precede the first day of `month`
/// (1 = January), in a leap year when `leap` holds; 0 for a number outside
/// 1..=12.
pub fn days_before_month(month: i64, leap: bool) -> (days: i64)
    ensures
        days == days_before(month as int, leap),
{
    proof {
        lemma_days_before_values(leap);
    }
    match month {
        1 => 0,
        2 => 31,
        3 => if leap {
            60
        } else {
            59
        },
        4 => if leap {
            91
        } else {
            90
        },
        5 => if leap {
            121
        } else {
            120
        },
        6 => if leap {
            152
        } else {
            151
        },
        7 => if leap {
            182
        } else {
            181
        },
        8 => if leap {
            213
        } else {
            212
        },
        9 => if leap {
            244
        } else {
            243
        },
        10 => if leap {
            274
        } else {
            273
        },
        11 => if leap {
            305
        } else {
            304
        },
        12 => if leap {
            335
        } else {
            334
        },
        _ => 0,
    }
}

/// The month (1..=12) of the zero-based day of the year `doy`: the first month
/// whose successor starts after `doy`, December when there is none (so 1 for a
/// negative `doy` and 12 for one past the end of the year).
pub fn month_from_day_of_year(doy: i64, leap: bool) -> (month: i64)
    ensures
        1 <= month <= 12,
        month < 12 ==> doy < days_before(month + 1, leap),
        forall|m: int| 2 <= m <= month ==> doy >= #[trigger] days_before(m, leap),
        0 <= doy < (if leap { 366int } else { 365int }) ==> days_before(month as int, leap) <= doy
            < days_before(month as int, leap) + month_length(month as int, leap),
{
    proof {
        lemma_days_before_values(leap);
    }
    let mut m: i64 = 1;
    while m <= 12
        invariant
            1 <= m <= 13,
            forall|k: int| 2 <= k <= m ==> doy >= #[trigger] days_before(k, leap),
        decreases 13 - m,
    {
        if doy < days_before_month(m + 1, leap) {
            proof {
                if m > 1 {
                    assert(doy >= days_before(m as int, leap));
                }
            }
            return m;
        }
        m = m + 1;
    }
    proof {
        assert(doy >= days_before(12, leap));
    }
    12
}

/// A UTC calendar reading: date and time of day, to the second.
#[derive(Debug, Clone, Copy, PartialEq, Eq)]
pub struct CivilTime {
    pub year: u64,
    pub month: u64,
    pub day: u64,
    pub hour: u64,
    pub minute: u64,
    pub second: u64,
}

impl CivilTime {
    /// `self` is the UTC reading of the instant `secs` seconds after
    /// 1970-01-01T00:00:00Z.
    pub open spec fn reads(self, secs: int) -> bool {
        let days = secs / 86400;
        let time_of_day = secs % 86400;
        let leap = is_leap_year(self.year as int);
        let doy = days - days_before_year(self.year as int);
        &&& secs >= 0
        &&& self.year >= 1970
        &&& 0 <= doy < year_length(self.year as int)
        &&& 1 <= self.month <= 12
        &&& days_before(self.month as int, leap) <= doy < days_before(self.month as int, leap)
            + month_length(self.month as int, leap)
        &&& self.day == doy - days_before(self.month as int, leap) + 1
        &&& self.hour == time_of_day / 3600
        &&& self.minute == (time_of_day % 3600) / 60
        &&& self.second == time_of_day % 60
    }

    /// The seconds since 1970-01-01T00:00:00Z that the reading denotes.
    pub open spec fn seconds_since_epoch(self) -> int {
        let leap = is_leap_year(self.year as int);
        (days_before_year(self.year as int) + days_before(self.month as int, leap) + self.day - 1)
            * 86400 + self.hour * 3600 + self.minute * 60 + self.second
    }

    /// The reading as `YYYY-MM-DDTHH:MM:SSZ` (the year padded to at least four
    /// digits, every other field to two).
    pub open spec fn iso8601(self) -> Seq<char> {
        zero_padded(self.year as nat, 4) + seq!['-'] + zero_padded(self.month as nat, 2) + seq![
            '-',
        ] + zero_padded(self.day as nat, 2) + seq!['T'] + zero_padded(self.hour as nat, 2) + seq![
            ':',
        ] + zero_padded(self.minute as nat, 2) + seq![':'] + zero_padded(self.second as nat, 2)
            + seq!['Z']
    }

    /// Renders the reading as `YYYY-MM-DDTHH:MM:SSZ`.
    pub fn to_iso8601(&self) -> (text: String)
        ensures
            text@ == self.iso8601(),
    {
        let mut out = String::new();
        push_zero_padded(&mut out, self.year, 4);
        out.append("-");
        push_zero_padded(&mut out, self.month, 2);
        out.append("-");
        push_zero_padded(&mut out, self.day, 2);
        out.append("T");
        push_zero_padded(&mut out, self.hour, 2);
        out.append(":");
        push_zero_padded(&mut out, self.minute, 2);
        out.append(":");
        push_zero_padded(&mut out, self.second, 2);
        out.append("Z");
        proof {
            reveal_strlit("-");
            reveal_strlit("T");
            reveal_strlit(":");
            reveal_strlit("Z");
            assert(out@ =~= self.iso8601());
        }
        out
    }
}

/// Every year has at least 365 days, so years are at least that far apart.
proof fn lemma_days_before_year_lower(year: int)
    requires
        year >= 1970,
    ensures
        days_before_year(year) >= 365 * (year - 1970),
    decreases year - 1970,
{
    if year > 1970 {
        lemma_days_before_year_lower(year - 1);
    }
}

/// Year starts grow strictly: a later year starts after every day of an
/// earlier one.
pub proof fn lemma_days_before_year_monotone(y1: int, y2: int)
    requires
        1970 <= y1 < y2,
    ensures
        days_before_year(y1) + year_length(y1) <= days_before_year(y2),
    decreases y2 - y1,
{
    if y2 > y1 + 1 {
        lemma_days_before_year_monotone(y1, y2 - 1);
    }
}

/// A reading names a real calendar date and a time of day: the month is
/// 1..=12, the day lies within that month, and hour, minute and second are in
/// range.
pub proof fn lemma_reading_in_range(t: CivilTime, secs: int)
    requires
        t.reads(secs),
    ensures
        1 <= t.month <= 12,
        1 <= t.day <= month_length(t.month as int, is_leap_year(t.year as int)),
        t.hour < 24,
        t.minute < 60,
        t.second < 60,
{
}

/// A reading denotes exactly the instant it was read from.
pub proof fn lemma_reading_denotes_instant(t: CivilTime, secs: int)
    requires
        t.reads(secs),
    ensures
        t.seconds_since_epoch() == secs,
{
    let days = secs / 86400;
    let tod = secs % 86400;
    assert(secs == days * 86400 + tod);
    assert(tod == (tod / 3600) * 3600 + (tod % 3600) / 60 * 60 + tod % 60) by (nonlinear_arith)
        requires
            0 <= tod < 86400,
    ;
}

/// Each instant has exactly one reading.
pub proof fn lemma_reading_unique(t1: CivilTime, t2: CivilTime, secs: int)
    requires
        t1.reads(secs),
        t2.reads(secs),
    ensures
        t1 == t2,
{
    let days = secs / 86400;
    if t1.year < t2.year {
        lemma_days_before_year_monotone(t1.year as int, t2.year as int);
    } else if t2.year < t1.year {
        lemma_days_before_year_monotone(t2.year as int, t1.year as int);
    }
    assert(t1.year == t2.year);
    let leap = is_leap_year(t1.year as int);
    lemma_days_before_values(leap);
    assert(t1.month == t2.month);
}

/// The Gregorian rule: a year has 366 days exactly when it is divisible by 4
/// and is not a century year, unless that century is divisible by 400; every
/// other year has 365 days.
pub proof fn lemma_gregorian_year_length(year: int)
    ensures
        year_length(year) == 366 <==> year % 4 == 0 && (year % 100 != 0 || year % 400 == 0),
        year_length(year) == 365 <==> !(year % 4 == 0 && (year % 100 != 0 || year % 400 == 0)),
{
}

/// February 29 is read only in a year that the Gregorian rule makes a leap
/// year, and February never has a 30th day.
pub proof fn lemma_february_29_only_in_leap_years(t: CivilTime, secs: int)
    requires
        t.reads(secs),
    ensures
        t.month == 2 ==> t.day <= 29,
        t.month == 2 && t.day == 29 ==> t.year % 4 == 0 && (t.year % 100 != 0 || t.year % 400
            == 0),
{
    lemma_reading_in_range(t, secs);
}

/// Midnight (UTC) at the start of February 29 of `year`.
pub open spec fn leap_day_midnight(year: int) -> CivilTime {
    CivilTime { year: year as u64, month: 2, day: 29, hour: 0, minute: 0, second: 0 }
}

/// Every year from 1970 on that the Gregorian rule makes a leap year has a
/// February 29: midnight of that day is the reading of an instant.
pub proof fn lemma_leap_years_have_february_29(year: int)
    requires
        1970 <= year <= u64::MAX,
        year % 4 == 0 && (year % 100 != 0 || year % 400 == 0),
    ensures
        exists|secs: int| #[trigger] leap_day_midnight(year).reads(secs),
{
    let t = leap_day_midnight(year);
    let days = days_before_year(year) + 59;
    lemma_days_before_year_lower(year);
    let secs = days * 86400;
    assert(secs / 86400 == days && secs % 86400 == 0) by (nonlinear_arith)
        requires
            secs == days * 86400,
            days >= 0,
    ;
    lemma_days_before_values(true);
    assert(t.reads(secs));
}

/// The number of days of `year`, 365 or 366.
fn days_in_year(year: i64) -> (days: i64)
    ensures
        days == year_length(year as int),
{
    if is_leap(year) {
        366
    } else {
        365
    }
}

/// The UTC calendar reading of the instant `secs` seconds after the Unix epoch.
pub fn civil_from_unix(secs: u64) -> (t: CivilTime)
    ensures
        t.reads(secs as int),
{
    let days_since_epoch = secs / 86400;
    let time_of_day = secs % 86400;
    let hours = time_of_day / 3600;
    let minutes = (time_of_day % 3600) / 60;
    let seconds = time_of_day % 60;

    let mut y: i64 = 1970;
    let mut d: i64 = days_since_epoch as i64;
    while d >= days_in_year(y)
        invariant
            days_since_epoch == secs / 86400,
            days_since_epoch <= u64::MAX / 86400,
            1970 <= y,
            0 <= d,
            d == days_since_epoch - days_before_year(y as int),
            days_before_year(y as int) >= 365 * (y - 1970),
        decreases d,
    {
        d = d - days_in_year(y);
        y = y + 1;
        proof {
            lemma_days_before_year_lower(y as int);
        }
    }
    let leap = is_leap(y);
    let m = month_from_day_of_year(d, leap);
    let day = d - days_before_month(m, leap) + 1;
    proof {
        lemma_months_tile_year(m as int, leap);
    }
    CivilTime {
        year: y as u64,
        month: m as u64,
        day: day as u64,
        hour: hours,
        minute: minutes,
        second: seconds,
    }
}

/// The UTC time `secs` seconds after the Unix epoch as `YYYY-MM-DDTHH:MM:SSZ`.
pub fn format_unix_timestamp(secs: u64) -> (text: String)
    ensures
        exists|t: CivilTime| t.reads(secs as int) && text@ == t.iso8601(),
{
    let t = civil_from_unix(secs);
    t.to_iso8601()
}

/// The current UTC time as `YYYY-MM-DDTHH:MM:SSZ`, read from the system clock
/// (the epoch itself when the clock reads earlier than the epoch). The clock
/// reading has no name in the contracts, so which instant was read is left
/// unsaid: the text is the reading of some instant.
pub fn chrono_countdown() -> (text: String)
    ensures
        exists|secs: int, t: CivilTime| t.reads(secs) && text@ == t.iso8601(),
{
    let reading = system_time_now();
    let now = match duration_since_unix_epoch(&reading) {
        Some(elapsed) => whole_seconds(&elapsed),
        None => 0,
    };
    let text = format_unix_timestamp(now);
    proof {
        let t = choose|t: CivilTime| t.reads(now as int) && text@ == t.iso8601();
        assert(t.reads(now as int) && text@ == t.iso8601());
    }
    text
}

} // verus!
