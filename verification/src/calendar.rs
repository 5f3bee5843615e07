use vstd::prelude::*;

use crate::errors::AppError;

verus! {

/// A calendar date. The engine validates dates against the Gregorian
/// calendar and keeps years within the four digits of the `YYYY-MM-DD`
/// boundary format.
#[derive(Debug, Clone, Copy, PartialEq, Eq, Structural)]
pub struct Date {
    pub year: u32,
    pub month: u32,
    pub day: u32,
}

pub open spec fn is_leap_year(y: int) -> bool {
    (y % 4 == 0 && y % 100 != 0) || y % 400 == 0
}

pub open spec fn days_in_month(y: int, m: int) -> int {
    if m == 2 {
        if is_leap_year(y) {
            29
        } else {
            28
        }
    } else if m == 4 || m == 6 || m == 9 || m == 11 {
        30
    } else {
        31
    }
}

impl Date {
    /// A valid Gregorian calendar date with a four-digit year.
    pub open spec fn wf(self) -> bool {
        self.year <= 9999 && 1 <= self.month <= 12 && 1 <= self.day <= days_in_month(
            self.year as int,
            self.month as int,
        )
    }

    /// The zero-based count of calendar months since month 1 of year 0.
    pub open spec fn month_ordinal(self) -> int {
        self.year * 12 + (self.month - 1)
    }

    /// The first day of this date's month.
    pub fn month_start(&self) -> (r: Date)
        ensures
            r == (Date { year: self.year, month: self.month, day: 1 }),
            self.wf() ==> r.wf(),
    {
        Date { year: self.year, month: self.month, day: 1 }
    }
}

/// The signed number of whole calendar months from `start_month` to
/// `target_month`; days are ignored. Negative when the target lies before
/// the start.
pub fn months_between(start_month: Date, target_month: Date) -> (r: i64)
    requires
        start_month.year <= 9999,
        target_month.year <= 9999,
    ensures
        r == target_month.month_ordinal() - start_month.month_ordinal(),
{
    let years: i64 = target_month.year as i64 - start_month.year as i64;
    let months: i64 = target_month.month as i64 - start_month.month as i64;
    years * 12 + months
}

pub open spec fn char_is_digit(c: char) -> bool {
    48 <= (c as u32) <= 57
}

pub open spec fn digit_val(c: char) -> int {
    (c as u32) - 48
}

/// The date denoted by a period identifier of the exact shape `YYYY-MM`,
/// taken as the first of the month; `None` when the text is not such an
/// identifier.
pub open spec fn period_of_str(s: Seq<char>) -> Option<Date> {
    if s.len() == 7 && char_is_digit(s[0]) && char_is_digit(s[1]) && char_is_digit(s[2])
        && char_is_digit(s[3]) && s[4] == '-' && char_is_digit(s[5]) && char_is_digit(s[6]) {
        let y = digit_val(s[0]) * 1000 + digit_val(s[1]) * 100 + digit_val(s[2]) * 10 + digit_val(
            s[3],
        );
        let m = digit_val(s[5]) * 10 + digit_val(s[6]);
        if 1 <= m <= 12 {
            Some(Date { year: y as u32, month: m as u32, day: 1 })
        } else {
            None
        }
    } else {
        None
    }
}

/// The date denoted by text of the exact shape `YYYY-MM-DD`, which must be
/// a valid calendar date; `None` otherwise.
pub open spec fn date_of_str(s: Seq<char>) -> Option<Date> {
    if s.len() == 10 && char_is_digit(s[0]) && char_is_digit(s[1]) && char_is_digit(s[2])
        && char_is_digit(s[3]) && s[4] == '-' && char_is_digit(s[5]) && char_is_digit(s[6]) && s[7]
        == '-' && char_is_digit(s[8]) && char_is_digit(s[9]) {
        let y = digit_val(s[0]) * 1000 + digit_val(s[1]) * 100 + digit_val(s[2]) * 10 + digit_val(
            s[3],
        );
        let m = digit_val(s[5]) * 10 + digit_val(s[6]);
        let d = digit_val(s[8]) * 10 + digit_val(s[9]);
        if 1 <= m <= 12 && 1 <= d <= days_in_month(y, m) {
            Some(Date { year: y as u32, month: m as u32, day: d as u32 })
        } else {
            None
        }
    } else {
        None
    }
}

fn digit_at(s: &str, i: usize) -> (r: Option<u32>)
    requires
        i < s@.len(),
    ensures
        match r {
            Some(d) => char_is_digit(s@[i as int]) && d == digit_val(s@[i as int]),
            None => !char_is_digit(s@[i as int]),
        },
{
    let c = s.get_char(i);
    let v = c as u32;
    if 48 <= v && v <= 57 {
        Some(v - 48)
    } else {
        None
    }
}

fn days_in_month_exec(y: u32, m: u32) -> (r: u32)
    ensures
        r == days_in_month(y as int, m as int),
{
    if m == 2 {
        if (y % 4 == 0 && y % 100 != 0) || y % 400 == 0 {
            29
        } else {
            28
        }
    } else if m == 4 || m == 6 || m == 9 || m == 11 {
        30
    } else {
        31
    }
}

/// Parses a period identifier `YYYY-MM` into the first day of that month.
/// Rejects any other shape with `InvalidInput`.
pub fn parse_period(period_ym: &str) -> (r: Result<Date, AppError>)
    ensures
        match r {
            Ok(d) => period_of_str(period_ym@) == Some(d) && d.wf() && d.day == 1,
            Err(e) => period_of_str(period_ym@) is None && e == AppError::InvalidInput,
        },
{
    if period_ym.unicode_len() != 7 {
        return Err(AppError::InvalidInput);
    }
    if period_ym.get_char(4) != '-' {
        return Err(AppError::InvalidInput);
    }
    let d0 = match digit_at(period_ym, 0) {
        Some(d) => d,
        None => { return Err(AppError::InvalidInput) },
    };
    let d1 = match digit_at(period_ym, 1) {
        Some(d) => d,
        None => { return Err(AppError::InvalidInput) },
    };
    let d2 = match digit_at(period_ym, 2) {
        Some(d) => d,
        None => { return Err(AppError::InvalidInput) },
    };
    let d3 = match digit_at(period_ym, 3) {
        Some(d) => d,
        None => { return Err(AppError::InvalidInput) },
    };
    let m0 = match digit_at(period_ym, 5) {
        Some(d) => d,
        None => { return Err(AppError::InvalidInput) },
    };
    let m1 = match digit_at(period_ym, 6) {
        Some(d) => d,
        None => { return Err(AppError::InvalidInput) },
    };
    let y = d0 * 1000 + d1 * 100 + d2 * 10 + d3;
    let m = m0 * 10 + m1;
    if m < 1 || m > 12 {
        return Err(AppError::InvalidInput);
    }
    Ok(Date { year: y, month: m, day: 1 })
}

/// Parses a calendar date `YYYY-MM-DD`, validated against the Gregorian
/// calendar. Rejects any other shape with `InvalidInput`.
pub fn parse_date_ymd(value: &str) -> (r: Result<Date, AppError>)
    ensures
        match r {
            Ok(d) => date_of_str(value@) == Some(d) && d.wf(),
            Err(e) => date_of_str(value@) is None && e == AppError::InvalidInput,
        },
{
    if value.unicode_len() != 10 {
        return Err(AppError::InvalidInput);
    }
    if value.get_char(4) != '-' || value.get_char(7) != '-' {
        return Err(AppError::InvalidInput);
    }
    let d0 = match digit_at(value, 0) {
        Some(d) => d,
        None => { return Err(AppError::InvalidInput) },
    };
    let d1 = match digit_at(value, 1) {
        Some(d) => d,
        None => { return Err(AppError::InvalidInput) },
    };
    let d2 = match digit_at(value, 2) {
        Some(d) => d,
        None => { return Err(AppError::InvalidInput) },
    };
    let d3 = match digit_at(value, 3) {
        Some(d) => d,
        None => { return Err(AppError::InvalidInput) },
    };
    let m0 = match digit_at(value, 5) {
        Some(d) => d,
        None => { return Err(AppError::InvalidInput) },
    };
    let m1 = match digit_at(value, 6) {
        Some(d) => d,
        None => { return Err(AppError::InvalidInput) },
    };
    let g0 = match digit_at(value, 8) {
        Some(d) => d,
        None => { return Err(AppError::InvalidInput) },
    };
    let g1 = match digit_at(value, 9) {
        Some(d) => d,
        None => { return Err(AppError::InvalidInput) },
    };
    let y = d0 * 1000 + d1 * 100 + d2 * 10 + d3;
    let m = m0 * 10 + m1;
    let d = g0 * 10 + g1;
    if m < 1 || m > 12 {
        return Err(AppError::InvalidInput);
    }
    if d < 1 || d > days_in_month_exec(y, m) {
        return Err(AppError::InvalidInput);
    }
    Ok(Date { year: y, month: m, day: d })
}

/// The canonical UTC timestamp of the first instant of a period: the
/// period identifier followed by `-01T00:00:00Z`.
pub fn period_first_instant(period_ym: &str) -> (r: String)
    ensures
        r@ == period_ym@ + "-01T00:00:00Z"@,
{
    let s = String::from_str(period_ym);
    s.concat("-01T00:00:00Z")
}

} // verus!
