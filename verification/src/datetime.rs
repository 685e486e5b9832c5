//! Calendar date-times as plain values (the `Timestamp` columns of the tables).
use vstd::prelude::*;

verus! {

/// A calendar date and time of day without time zone.
#[derive(Clone, Copy, Debug, PartialEq, Eq)]
pub struct DateTime {
    pub year: i32,
    pub month: u32,
    pub day: u32,
    pub hour: u32,
    pub minute: u32,
    pub second: u32,
    pub nanosecond: u32,
}

/// Smallest year of a calendar date.
pub const MIN_YEAR: i32 = -262143;

/// Largest year of a calendar date.
pub const MAX_YEAR: i32 = 262142;

/// Leap years of the proleptic Gregorian calendar.
pub open spec fn is_leap_year(y: int) -> bool {
    y % 4 == 0 && (y % 100 != 0 || y % 400 == 0)
}

/// Number of days of a month (1..=12) in a year.
pub open spec fn days_in_month(y: int, m: int) -> int {
    if m == 2 {
        if is_leap_year(y) {
            29
        } else {
            28
        }
    } else if m == 4 || m == 6 || m == 9 || m == 11 {
        30
    } else {
        31
    }
}

/// A year, month and day that name an existing calendar date in range.
pub open spec fn valid_date(y: int, m: int, d: int) -> bool {
    &&& MIN_YEAR <= y <= MAX_YEAR
    &&& 1 <= m <= 12
    &&& 1 <= d <= days_in_month(y, m)
}

/// Whether `year-month-day` is an existing date.
pub fn is_valid_date(year: i32, month: u32, day: u32) -> (r: bool)
    ensures
        r == valid_date(year as int, month as int, day as int),
{
    if year < MIN_YEAR || year > MAX_YEAR || month < 1 || month > 12 || day < 1 {
        return false;
    }
    let leap = year % 4 == 0 && (year % 100 != 0 || year % 400 == 0);
    assert(leap == is_leap_year(year as int)) by {
        assert((year % 4 == 0) == ((year as int) % 4 == 0));
        assert((year % 100 == 0) == ((year as int) % 100 == 0));
        assert((year % 400 == 0) == ((year as int) % 400 == 0));
    }
    let dim: u32 = if month == 2 {
        if leap {
            29
        } else {
            28
        }
    } else if month == 4 || month == 6 || month == 9 || month == 11 {
        30
    } else {
        31
    };
    day <= dim
}

/// The first moment of a day.
pub open spec fn midnight(y: i32, m: u32, d: u32) -> DateTime {
    DateTime { year: y, month: m, day: d, hour: 0, minute: 0, second: 0, nanosecond: 0 }
}

/// `NaiveDate::from_ymd(y, m, d).and_hms(0, 0, 0)`, or `None` where that date
/// does not exist.
pub fn date_at_midnight(year: i32, month: u32, day: u32) -> (r: Option<DateTime>)
    ensures
        r == (if valid_date(year as int, month as int, day as int) {
            Some(midnight(year, month, day))
        } else {
            None
        }),
{
    if is_valid_date(year, month, day) {
        Some(DateTime { year, month, day, hour: 0, minute: 0, second: 0, nanosecond: 0 })
    } else {
        None
    }
}

/// `a` comes no later than `b` (lexicographic on the fields).
pub open spec fn dt_le(a: DateTime, b: DateTime) -> bool {
    if a.year != b.year {
        a.year < b.year
    } else if a.month != b.month {
        a.month < b.month
    } else if a.day != b.day {
        a.day < b.day
    } else if a.hour != b.hour {
        a.hour < b.hour
    } else if a.minute != b.minute {
        a.minute < b.minute
    } else if a.second != b.second {
        a.second < b.second
    } else {
        a.nanosecond <= b.nanosecond
    }
}

/// `dt_le` orders every two date-times and is transitive.
pub proof fn lemma_dt_le_order()
    ensures
        forall|a: DateTime, b: DateTime| #[trigger] dt_le(a, b) || dt_le(b, a),
        forall|a: DateTime, b: DateTime, c: DateTime| #[trigger] dt_le(a, b) && #[trigger] dt_le(b, c) ==> dt_le(a, c),
{
}

/// Whether `a` comes no later than `b`.
pub fn dt_not_after(a: &DateTime, b: &DateTime) -> (r: bool)
    ensures
        r == dt_le(*a, *b),
{
    if a.year != b.year {
        a.year < b.year
    } else if a.month != b.month {
        a.month < b.month
    } else if a.day != b.day {
        a.day < b.day
    } else if a.hour != b.hour {
        a.hour < b.hour
    } else if a.minute != b.minute {
        a.minute < b.minute
    } else if a.second != b.second {
        a.second < b.second
    } else {
        a.nanosecond <= b.nanosecond
    }
}

/// Two date-times fall on the same calendar day.
pub open spec fn same_day(a: DateTime, b: DateTime) -> bool {
    a.year == b.year && a.month == b.month && a.day == b.day
}

/// The order of date-times is total and transitive.
pub proof fn lemma_dt_le_total_transitive(a: DateTime, b: DateTime, c: DateTime)
    ensures
        dt_le(a, b) || dt_le(b, a),
        dt_le(a, b) && dt_le(b, c) ==> dt_le(a, c),
        dt_le(a, a),
{
}

/// Days from 1970-01-01 to the given day of the proleptic Gregorian
/// calendar (negative before it), counted in 400-year eras of 146097 days
/// from March 1st of year 0.
pub open spec fn civil_days(y: int, m: int, d: int) -> int {
    let y2 = if m <= 2 {
        y - 1
    } else {
        y
    };
    let era = y2 / 400;
    let yoe = y2 - era * 400;
    let mp = if m > 2 {
        m - 3
    } else {
        m + 9
    };
    let doy = (153 * mp + 2) / 5 + d - 1;
    let doe = yoe * 365 + yoe / 4 - yoe / 100 + doy;
    era * 146097 + doe - 719468
}

/// Seconds from 1970-01-01 00:00:00 to the date-time, read as UTC; the
/// fraction of a second is dropped (a Unix timestamp).
pub open spec fn unix_seconds_of(t: DateTime) -> int {
    civil_days(t.year as int, t.month as int, t.day as int) * 86400 + t.hour * 3600 + t.minute * 60
        + t.second
}

/// The Unix timestamp of a date-time, where it fits in an `i64`.
pub fn unix_seconds(t: DateTime) -> (r: Option<i64>)
    ensures
        match r {
            Some(x) => x == unix_seconds_of(t),
            None => unix_seconds_of(t) < i64::MIN || unix_seconds_of(t) > i64::MAX,
        },
{
    let m = t.month as i128;
    let y2: i128 = if m <= 2 {
        t.year as i128 - 1
    } else {
        t.year as i128
    };
    let era: i128 = if y2 >= 0 {
        y2 / 400
    } else {
        let q = (399 - y2) / 400;
        proof {
            let rr = (399 - y2) % 400;
            assert(399 - y2 == 400 * q + rr) by (nonlinear_arith)
                requires
                    q == (399 - y2) / 400,
                    rr == (399 - y2) % 400,
                    399 - y2 >= 0,
            ;
            vstd::arithmetic::div_mod::lemma_fundamental_div_mod_converse(
                y2 as int,
                400,
                -q as int,
                399 - rr as int,
            );
        }
        -q
    };
    assert(era == y2 / 400);
    let yoe: i128 = y2 - era * 400;
    assert(0 <= yoe < 400) by {
        vstd::arithmetic::div_mod::lemma_fundamental_div_mod(y2 as int, 400);
    }
    let mp: i128 = if m > 2 {
        m - 3
    } else {
        m + 9
    };
    assert(0 <= mp <= 4294967295 + 9);
    assert(0 <= 153 * mp + 2 <= 153 * 4294967304 + 2) by (nonlinear_arith)
        requires
            0 <= mp <= 4294967304,
    ;
    let doy: i128 = (153 * mp + 2) / 5 + t.day as i128 - 1;
    assert(-1 <= doy <= 153 * 4294967304 + 2 + 4294967295);
    let doe: i128 = yoe * 365 + yoe / 4 - yoe / 100 + doy;
    assert(-5368710 <= era <= 5368710);
    assert(-800000000000 <= era * 146097 <= 800000000000) by (nonlinear_arith)
        requires
            -5368710 <= era <= 5368710,
    ;
    let days: i128 = era * 146097 + doe - 719468;
    assert(days == civil_days(t.year as int, t.month as int, t.day as int));
    assert(-2000000000000 <= days <= 2000000000000);
    assert(-200000000000000000 <= days * 86400 <= 200000000000000000) by (nonlinear_arith)
        requires
            -2000000000000 <= days <= 2000000000000,
    ;
    let secs: i128 = days * 86400 + t.hour as i128 * 3600 + t.minute as i128 * 60 + t.second as i128;
    if secs < i64::MIN as i128 || secs > i64::MAX as i128 {
        None
    } else {
        Some(secs as i64)
    }
}

} // verus!
