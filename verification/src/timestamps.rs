//! Dates and times as text.
use vstd::prelude::*;
use vstd::string::*;

use crate::number::{parse_i64, parsed_signed};
use crate::scan::{before, cut_last, pieces, position, split, split_once, up_to, without_last};
use crate::text::texts;

verus! {

/// A date and a time.
pub struct Moment {
    pub year: int,
    pub month: int,
    pub day: int,
    pub hour: int,
    pub minute: int,
    pub second: int,
}

/// The quotient without its fraction.
pub open spec fn cut_quotient(a: int, b: int) -> int {
    if a >= 0 {
        a / b
    } else {
        -((-a) / b)
    }
}

/// How many days a date is after the first day of 1970. The year is taken to begin in
/// March, so that a leap day is the last of its year.
pub open spec fn day_number(year: int, month: int, day: int) -> int {
    let y = if month <= 2 {
        year - 1
    } else {
        year
    };
    let m = if month > 2 {
        month - 3
    } else {
        month + 9
    };
    let of_era = y % 400;
    (y / 400) * 146097 + of_era * 365 + of_era / 4 - of_era / 100 + cut_quotient(153 * m + 2, 5)
        + day - 1 - 719468
}

/// How many seconds a moment is after the start of 1970.
pub open spec fn second_number(t: Moment) -> int {
    day_number(t.year, t.month, t.day) * 86400 + t.hour * 3600 + t.minute * 60 + t.second
}

/// The part of a text that is read: without a fraction of a second and without a time
/// zone after it.
pub open spec fn moment_head(s: Seq<char>) -> Seq<char> {
    up_to(without_last(without_last(without_last(up_to(s, '.'), 'Z'), '+'), '-'), '+')
}

/// The moment that a date and a time tell. Seconds that cannot be read are none.
pub open spec fn moment_of(date: Seq<Seq<char>>, time: Seq<Seq<char>>) -> Option<Moment> {
    if date.len() < 3 || time.len() < 2 {
        None
    } else {
        match (
            parsed_signed(date[0]),
            parsed_signed(date[1]),
            parsed_signed(date[2]),
            parsed_signed(time[0]),
            parsed_signed(time[1]),
        ) {
            (Some(year), Some(month), Some(day), Some(hour), Some(minute)) => Some(
                Moment {
                    year,
                    month,
                    day,
                    hour,
                    minute,
                    second: if time.len() > 2 && parsed_signed(time[2]) is Some {
                        parsed_signed(time[2])->0
                    } else {
                        0
                    },
                },
            ),
            _ => None,
        }
    }
}

/// The moment that a text tells, such as `2026-04-26T18:30:45.123Z`.
pub open spec fn told_moment(s: Seq<char>) -> Option<Moment> {
    let head = moment_head(s);
    let i = position(head, 'T') as int;
    if i < head.len() {
        moment_of(pieces(head.take(i), '-'), pieces(head.skip(i + 1), ':'))
    } else {
        None
    }
}

/// The seconds that a text tells; `None` before 1970, and beyond what can be counted.
pub open spec fn told_seconds(s: Seq<char>) -> Option<u64> {
    match told_moment(s) {
        Some(t) => if 0 <= second_number(t) <= i64::MAX {
            Some(second_number(t) as u64)
        } else {
            None
        },
        None => None,
    }
}

fn cut_divide(a: i128, b: i128) -> (r: i128)
    requires
        -0x1_0000_0000_0000_0000_0000_0000 <= a <= 0x1_0000_0000_0000_0000_0000_0000,
        0 < b,
    ensures
        r == cut_quotient(a as int, b as int),
{
    if a >= 0 {
        let q: u128 = a as u128 / b as u128;
        assert(q <= a) by (nonlinear_arith)
            requires
                q == a / b,
                a >= 0,
                b > 0,
        ;
        q as i128
    } else {
        let n: u128 = (-a) as u128;
        let q: u128 = n / b as u128;
        assert(q <= n) by (nonlinear_arith)
            requires
                q == n / b as u128,
                b > 0,
        ;
        -(q as i128)
    }
}

fn count_seconds(year: i64, month: i64, day: i64, hour: i64, minute: i64, second: i64) -> (r:
    Option<u64>)
    ensures
        r == ({
            let n = second_number(
                Moment {
                    year: year as int,
                    month: month as int,
                    day: day as int,
                    hour: hour as int,
                    minute: minute as int,
                    second: second as int,
                },
            );
            if 0 <= n <= i64::MAX {
                Some(n as u64)
            } else {
                None
            }
        }),
{
    let y: i128 = if month <= 2 {
        year as i128 - 1
    } else {
        year as i128
    };
    let m: i128 = if month > 2 {
        month as i128 - 3
    } else {
        month as i128 + 9
    };
    let era: i128 = if y >= 0 {
        cut_divide(y, 400)
    } else {
        cut_divide(y - 399, 400)
    };
    assert(era == y as int / 400);
    let of_era: i128 = y - era * 400;
    assert(of_era == y as int % 400);
    let doy: i128 = cut_divide(153 * m + 2, 5) + day as i128 - 1;
    let days: i128 = era * 146097 + of_era * 365 + cut_divide(of_era, 4) - cut_divide(of_era, 100)
        + doy - 719468;
    let n: i128 = days * 86400 + hour as i128 * 3600 + minute as i128 * 60 + second as i128;
    if 0 <= n && n <= i64::MAX as i128 {
        Some(n as u64)
    } else {
        None
    }
}

/// The seconds that a text tells.
pub fn parse_iso8601_to_unix(s: Option<&str>) -> (r: Option<u64>)
    ensures
        r == (match s {
            Some(x) => told_seconds(x@),
            None => None,
        }),
{
    let s: &str = match s {
        Some(x) => x,
        None => return None,
    };
    let head: String = before(s, '.');
    let head: String = cut_last(head.as_str(), 'Z');
    let head: String = cut_last(head.as_str(), '+');
    let head: String = cut_last(head.as_str(), '-');
    let head: String = before(head.as_str(), '+');
    let (date, time): (String, String) = match split_once(head.as_str(), 'T') {
        Some(p) => p,
        None => return None,
    };
    let date: Vec<String> = split(date.as_str(), '-');
    let time: Vec<String> = split(time.as_str(), ':');
    let ghost d = texts(date@);
    let ghost t = texts(time@);
    if date.len() < 3 || time.len() < 2 {
        return None;
    }
    assert(d[0] == date@[0]@ && d[1] == date@[1]@ && d[2] == date@[2]@);
    assert(t[0] == time@[0]@ && t[1] == time@[1]@);
    let year: Option<i64> = parse_i64(date[0].as_str());
    let month: Option<i64> = parse_i64(date[1].as_str());
    let day: Option<i64> = parse_i64(date[2].as_str());
    let hour: Option<i64> = parse_i64(time[0].as_str());
    let minute: Option<i64> = parse_i64(time[1].as_str());
    let second: i64 = if time.len() > 2 {
        assert(t[2] == time@[2]@);
        match parse_i64(time[2].as_str()) {
            Some(n) => n,
            None => 0,
        }
    } else {
        0
    };
    match (year, month, day, hour, minute) {
        (Some(year), Some(month), Some(day), Some(hour), Some(minute)) => count_seconds(
            year,
            month,
            day,
            hour,
            minute,
            second,
        ),
        _ => None,
    }
}

// ---------------------------------------------------------------------------
// The calendar
// ---------------------------------------------------------------------------

/// A year with a leap day.
pub open spec fn is_leap(year: int) -> bool {
    year % 4 == 0 && (year % 100 != 0 || year % 400 == 0)
}

/// The number of days of a month.
pub open spec fn month_days(year: int, month: int) -> int {
    if month == 2 {
        if is_leap(year) {
            29
        } else {
            28
        }
    } else if month == 4 || month == 6 || month == 9 || month == 11 {
        30
    } else {
        31
    }
}

/// The days are counted as the calendar has them: the first of January 1970 is day
/// zero, and each day is counted one after the day before it, through all months and
/// years.
pub proof fn days_follow_the_calendar(year: int, month: int, day: int)
    requires
        1 <= month <= 12,
        1 <= day <= month_days(year, month),
    ensures
        day_number(1970, 1, 1) == 0,
        day < month_days(year, month) ==> day_number(year, month, day + 1) == day_number(
            year,
            month,
            day,
        ) + 1,
        day == month_days(year, month) && month < 12 ==> day_number(year, month + 1, 1)
            == day_number(year, month, day) + 1,
        day == month_days(year, month) && month == 12 ==> day_number(year + 1, 1, 1) == day_number(
            year,
            month,
            day,
        ) + 1,
{
    if month == 2 && day == month_days(year, 2) {
        february_ends(year);
    }
}

proof fn february_ends(year: int)
    ensures
        day_number(year, 3, 1) == day_number(year, 2, month_days(year, 2)) + 1,
{
    let a = (year - 1) % 400;
    let e = (year - 1) / 400;
    if a == 399 {
        assert(year % 400 == 0);
        assert(year / 400 == e + 1);
    } else {
        assert(year % 400 == a + 1);
        assert(year / 400 == e);
        let b = a + 1;
        assert(year % 100 == b % 100);
        assert(year % 4 == b % 4);
        assert(b / 4 == a / 4 + if b % 4 == 0 {
            1int
        } else {
            0
        });
        assert(b / 100 == a / 100 + if b % 100 == 0 {
            1int
        } else {
            0
        });
    }
}

} // verus!
