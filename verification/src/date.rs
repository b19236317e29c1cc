//! Calendar days in the proleptic Gregorian calendar.
//!
//! A [`Date`] is held as its day number (January 1 of year 1 is day 1), the
//! numbering that `chrono` uses for `NaiveDate::num_days_from_ce`.

use chrono::Datelike;
use vstd::prelude::*;

verus! {

/// First year that `chrono::NaiveDate` can represent.
pub const MIN_YEAR: i32 = -262143;

/// Last year that `chrono::NaiveDate` can represent.
pub const MAX_YEAR: i32 = 262142;

/// Day number of January 1 of [`MIN_YEAR`] (`chrono::NaiveDate::MIN`).
pub const MIN_DAY: i32 = -95746129;

/// Day number of December 31 of [`MAX_YEAR`] (`chrono::NaiveDate::MAX`).
pub const MAX_DAY: i32 = 95745399;

/// Leap years of the Gregorian calendar.
pub open spec fn is_leap_year(year: int) -> bool {
    year % 4 == 0 && (year % 100 != 0 || year % 400 == 0)
}

/// Number of days of `month` (1 to 12) in `year`.
pub open spec fn days_in_month(year: int, month: int) -> int {
    if month == 2 {
        if is_leap_year(year) { 29 } else { 28 }
    } else if month == 4 || month == 6 || month == 9 || month == 11 {
        30
    } else {
        31
    }
}

/// Days of all years before `year`, counted from January 1 of year 1.
/// Negative for years before year 1.
pub open spec fn days_before_year(year: int) -> int {
    let p = year - 1;
    365 * p + p / 4 - p / 100 + p / 400
}

/// Days of the months of `year` that come before `month`.
pub open spec fn days_before_month(year: int, month: int) -> int {
    let common: int = if month <= 1 { 0 }
        else if month == 2 { 31 }
        else if month == 3 { 59 }
        else if month == 4 { 90 }
        else if month == 5 { 120 }
        else if month == 6 { 151 }
        else if month == 7 { 181 }
        else if month == 8 { 212 }
        else if month == 9 { 243 }
        else if month == 10 { 273 }
        else if month == 11 { 304 }
        else { 334 };
    if month > 2 && is_leap_year(year) { common + 1 } else { common }
}

/// The day number of a calendar date, or `None` where the date does not
/// exist or lies outside the years that `chrono` represents.
pub open spec fn gregorian_day_number(year: int, month: int, day: int) -> Option<int> {
    if MIN_YEAR <= year <= MAX_YEAR && 1 <= month <= 12 && 1 <= day <= days_in_month(year, month) {
        Some(days_before_year(year) + days_before_month(year, month) + day)
    } else {
        None
    }
}

/// Day number of January 1 of `year`.
pub open spec fn new_year_day(year: int) -> int {
    days_before_year(year) + 1
}

/// The months of the Gregorian calendar: January, March, May, July, August,
/// October and December have 31 days; April, June, September and November
/// 30; February 29 in a leap year and 28 otherwise. A leap year is divisible
/// by 4, except for years divisible by 100 but not by 400.
pub proof fn law_month_lengths(year: int)
    ensures
        days_in_month(year, 1) == 31,
        days_in_month(year, 2) == if year % 4 == 0 && (year % 100 != 0 || year % 400 == 0) {
            29int
        } else {
            28int
        },
        days_in_month(year, 3) == 31,
        days_in_month(year, 4) == 30,
        days_in_month(year, 5) == 31,
        days_in_month(year, 6) == 30,
        days_in_month(year, 7) == 31,
        days_in_month(year, 8) == 31,
        days_in_month(year, 9) == 30,
        days_in_month(year, 10) == 31,
        days_in_month(year, 11) == 30,
        days_in_month(year, 12) == 31,
{
}

/// Day numbers count the days one by one: January 1 of year 1 is day 1, and
/// the day after any date (in the same month, in the next month, or on
/// January 1 of the next year) has the next number.
pub proof fn law_days_follow_each_other(year: int, month: int, day: int)
    requires
        gregorian_day_number(year, month, day) is Some,
    ensures
        gregorian_day_number(1, 1, 1) == Some(1int),
        gregorian_day_number(year, 1, 1) == Some(new_year_day(year)),
        day < days_in_month(year, month) ==> gregorian_day_number(year, month, day + 1)
            == Some(gregorian_day_number(year, month, day)->Some_0 + 1),
        day == days_in_month(year, month) && month < 12 ==> gregorian_day_number(year, month + 1, 1)
            == Some(gregorian_day_number(year, month, day)->Some_0 + 1),
        day == days_in_month(year, month) && month == 12 && year < MAX_YEAR
            ==> gregorian_day_number(year + 1, 1, 1) == Some(
            gregorian_day_number(year, month, day)->Some_0 + 1,
        ),
{
    lemma_year_length(year);
    assert(days_before_year(1) == 0);
}

/// Moving from `x` to `x + 1` raises `x / d` by one exactly when `d` divides `x + 1`.
proof fn lemma_div_step(x: int, d: int)
    requires
        d > 0,
    ensures
        (x + 1) / d - x / d == if (x + 1) % d == 0 { 1int } else { 0int },
{
    let q = x / d;
    let r = x % d;
    vstd::arithmetic::div_mod::lemma_fundamental_div_mod(x, d);
    vstd::arithmetic::div_mod::lemma_mod_bound(x, d);
    assert(x == q * d + r) by (nonlinear_arith)
        requires
            x == d * q + r,
    ;
    if r + 1 == d {
        assert(x + 1 == (q + 1) * d + 0) by (nonlinear_arith)
            requires
                x == q * d + r,
                r + 1 == d,
        ;
        vstd::arithmetic::div_mod::lemma_fundamental_div_mod_converse(x + 1, d, q + 1, 0);
    } else {
        assert(x + 1 == q * d + (r + 1));
        vstd::arithmetic::div_mod::lemma_fundamental_div_mod_converse(x + 1, d, q, r + 1);
    }
}

/// Consecutive years differ by the length of the earlier one.
pub proof fn lemma_year_length(year: int)
    ensures
        days_before_year(year + 1) - days_before_year(year) == if is_leap_year(year) {
            366int
        } else {
            365int
        },
{
    let p = year - 1;
    lemma_div_step(p, 4);
    lemma_div_step(p, 100);
    lemma_div_step(p, 400);
    assert(year % 400 == 0 ==> year % 100 == 0) by {
        if year % 400 == 0 {
            vstd::arithmetic::div_mod::lemma_fundamental_div_mod(year, 400);
            let k = year / 400;
            assert(year == (4 * k) * 100 + 0) by (nonlinear_arith)
                requires
                    year == 400 * k + 0,
            ;
            vstd::arithmetic::div_mod::lemma_fundamental_div_mod_converse(year, 100, 4 * k, 0);
        }
    }
    assert(year % 100 == 0 ==> year % 4 == 0) by {
        if year % 100 == 0 {
            vstd::arithmetic::div_mod::lemma_fundamental_div_mod(year, 100);
            let k = year / 100;
            assert(year == (25 * k) * 4 + 0) by (nonlinear_arith)
                requires
                    year == 100 * k + 0,
            ;
            vstd::arithmetic::div_mod::lemma_fundamental_div_mod_converse(year, 4, 25 * k, 0);
        }
    }
}

/// Years that come later start later: each year has at least 365 days.
pub proof fn lemma_days_before_year_grows(a: int, b: int)
    requires
        a <= b,
    ensures
        days_before_year(a) + 365 * (b - a) <= days_before_year(b),
    decreases b - a,
{
    if a < b {
        lemma_days_before_year_grows(a, b - 1);
        lemma_year_length(b - 1);
    }
}

/// `chrono::NaiveDate::from_ymd_opt` followed by `Datelike::num_days_from_ce`.
///
/// Claimed: `from_ymd_opt` gives a date exactly for existing calendar dates of
/// the years `MIN_YEAR..=MAX_YEAR` (its documentation and range constants), and
/// `num_days_from_ce` numbers days in the proleptic Gregorian calendar with
/// January 1 of year 1 as day 1 (its documentation); every such day lies
/// between `NaiveDate::MIN` and `NaiveDate::MAX`.
#[verifier::external_body]
fn calendar_day_number(year: i32, month: u32, day: u32) -> (r: Option<i32>)
    ensures
        match r {
            Some(n) => gregorian_day_number(year as int, month as int, day as int) == Some(
                n as int,
            ) && MIN_DAY <= n <= MAX_DAY,
            None => gregorian_day_number(year as int, month as int, day as int) is None,
        },
{
    match chrono::NaiveDate::from_ymd_opt(year, month, day) {
        Some(date) => Some(date.num_days_from_ce()),
        None => None,
    }
}

/// `chrono::NaiveDate::from_num_days_from_ce_opt`, unwrapped, followed by
/// `Datelike::year`, `month` and `day`.
///
/// Claimed: `from_num_days_from_ce_opt` gives a date for every day number
/// between those of `NaiveDate::MIN` and `NaiveDate::MAX` (its source), so the
/// unwrap does not panic, and that date is the one whose `num_days_from_ce`
/// is `day` (its documentation). Its year, month and day are therefore the
/// calendar date whose day number is `day`.
#[verifier::external_body]
fn calendar_date_of_day_number(day: i32) -> (r: (i32, u32, u32))
    requires
        MIN_DAY <= day <= MAX_DAY,
    ensures
        gregorian_day_number(r.0 as int, r.1 as int, r.2 as int) == Some(day as int),
{
    let date = chrono::NaiveDate::from_num_days_from_ce_opt(day).unwrap();
    (date.year(), date.month(), date.day())
}

/// A calendar day that `chrono::NaiveDate` can represent.
#[derive(Clone, Copy, Debug, PartialEq, Eq)]
pub struct Date {
    day: i32,
}

impl View for Date {
    type V = int;

    /// The day number of this date.
    closed spec fn view(&self) -> int {
        self.day as int
    }
}

impl Date {
    #[verifier::type_invariant]
    closed spec fn in_range(self) -> bool {
        MIN_DAY <= self.day <= MAX_DAY
    }

    /// The date of a calendar day, or `None` where the day does not exist or
    /// lies outside the years `MIN_YEAR..=MAX_YEAR`.
    pub fn from_ymd_opt(year: i32, month: u32, day: u32) -> (r: Option<Date>)
        ensures
            match r {
                Some(d) => gregorian_day_number(year as int, month as int, day as int) == Some(
                    d@,
                ),
                None => gregorian_day_number(year as int, month as int, day as int) is None,
            },
    {
        match calendar_day_number(year, month, day) {
            Some(n) => Some(Date { day: n }),
            None => None,
        }
    }

    /// The year, month and day of this date.
    pub fn ymd(&self) -> (r: (i32, u32, u32))
        ensures
            gregorian_day_number(r.0 as int, r.1 as int, r.2 as int) == Some(self@),
    {
        proof {
            use_type_invariant(self);
        }
        calendar_date_of_day_number(self.day)
    }

    /// The date `days` days later, or `None` past `chrono::NaiveDate::MAX`.
    pub fn checked_add_days(self, days: u64) -> (r: Option<Date>)
        ensures
            MIN_DAY <= self@ <= MAX_DAY,
            r is Some <==> self@ + days <= MAX_DAY,
            r matches Some(d) ==> d@ == self@ + days,
    {
        proof {
            use_type_invariant(&self);
        }
        let room = (MAX_DAY as i64 - self.day as i64) as u64;
        if days <= room {
            Some(Date { day: (self.day as i64 + days as i64) as i32 })
        } else {
            None
        }
    }

    /// The date `days` days earlier, or `None` before `chrono::NaiveDate::MIN`.
    pub fn checked_sub_days(self, days: u64) -> (r: Option<Date>)
        ensures
            MIN_DAY <= self@ <= MAX_DAY,
            r is Some <==> MIN_DAY <= self@ - days,
            r matches Some(d) ==> d@ == self@ - days,
    {
        proof {
            use_type_invariant(&self);
        }
        let room = (self.day as i64 - MIN_DAY as i64) as u64;
        if days <= room {
            Some(Date { day: (self.day as i64 - days as i64) as i32 })
        } else {
            None
        }
    }

    /// Signed number of days from `earlier` to this date.
    pub fn days_since(self, earlier: Date) -> (r: i64)
        ensures
            r == self@ - earlier@,
    {
        proof {
            use_type_invariant(&self);
            use_type_invariant(&earlier);
        }
        self.day as i64 - earlier.day as i64
    }
}

} // verus!
