//! Calendar rules: leap years, the `YYYY-MM-DD` form check, and the civil
//! date that a count of days since 1970-01-01 stands for.

use vstd::prelude::*;
use vstd::string::*;
use vstd::utf8::*;
use crate::text::{
    all_digits, chars_of, digits_value, is_digit, lemma_pow10_20, lemma_zero_padded, push_char,
    push_zero_padded, read_digits, string_of, zero_padded,
};

verus! {

broadcast use vstd::string::group_string_axioms;

/// Gregorian leap-year rule.
pub open spec fn leap_year(year: int) -> bool {
    (year % 4 == 0 && year % 100 != 0) || year % 400 == 0
}

/// Whether `year` is a leap year in the Gregorian calendar.
pub fn is_leap_year(year: u32) -> (r: bool)
    ensures
        r == leap_year(year as int),
{
    (year % 4 == 0 && year % 100 != 0) || (year % 400 == 0)
}

/// Length of `month` (1..=12) of `year`; 0 for any other month number.
pub open spec fn days_in_month(year: int, month: int) -> int {
    if month == 1 || month == 3 || month == 5 || month == 7 || month == 8 || month == 10 || month
        == 12 {
        31
    } else if month == 4 || month == 6 || month == 9 || month == 11 {
        30
    } else if month == 2 {
        if leap_year(year) {
            29
        } else {
            28
        }
    } else {
        0
    }
}

/// Why a date text was refused.
#[derive(Debug, Clone, Copy, PartialEq, Eq, Structural)]
pub enum DateValidationError {
    Empty,
    InvalidFormat,
    InvalidYear,
    InvalidMonth,
    InvalidDay,
}

/// The message shown for each refusal.
pub open spec fn error_text(e: DateValidationError) -> Seq<char> {
    match e {
        DateValidationError::Empty => "时间不能为空"@,
        DateValidationError::InvalidFormat => "时间格式必须为 YYYY-MM-DD"@,
        DateValidationError::InvalidYear => "年份必须在 1-9999 之间"@,
        DateValidationError::InvalidMonth => "月份必须在 1-12 之间"@,
        DateValidationError::InvalidDay => "日期无效"@,
    }
}

impl DateValidationError {
    /// The message shown to the user for this refusal.
    pub fn message(&self) -> (r: String)
        ensures
            r@ == error_text(*self),
    {
        match self {
            DateValidationError::Empty => string_of("时间不能为空"),
            DateValidationError::InvalidFormat => string_of("时间格式必须为 YYYY-MM-DD"),
            DateValidationError::InvalidYear => string_of("年份必须在 1-9999 之间"),
            DateValidationError::InvalidMonth => string_of("月份必须在 1-12 之间"),
            DateValidationError::InvalidDay => string_of("日期无效"),
        }
    }
}

/// The verdict of the `YYYY-MM-DD` check on text with characters `chars`
/// and UTF-8 length `byte_len`: ten bytes, dashes at positions 4 and 7,
/// decimal digits everywhere else, a year in 1..=9999, a month in 1..=12
/// and a day that the month has.
pub open spec fn date_verdict(chars: Seq<char>, byte_len: int) -> Result<(), DateValidationError> {
    if chars.len() == 0 {
        Err(DateValidationError::Empty)
    } else if byte_len != 10 {
        Err(DateValidationError::InvalidFormat)
    } else if !is_ascii_chars(chars) {
        // Ten bytes with a character outside ASCII cannot be ten digits and dashes.
        Err(DateValidationError::InvalidFormat)
    } else if chars[4] != '-' || chars[7] != '-' {
        Err(DateValidationError::InvalidFormat)
    } else {
        let ys = chars.subrange(0, 4);
        let ms = chars.subrange(5, 7);
        let ds = chars.subrange(8, 10);
        if !(all_digits(ys) && all_digits(ms) && all_digits(ds)) {
            Err(DateValidationError::InvalidFormat)
        } else {
            let (y, m, d) = (digits_value(ys) as int, digits_value(ms) as int, digits_value(ds) as int);
            if y < 1 || y > 9999 {
                Err(DateValidationError::InvalidYear)
            } else if m < 1 || m > 12 {
                Err(DateValidationError::InvalidMonth)
            } else if d < 1 || d > days_in_month(y, m) {
                Err(DateValidationError::InvalidDay)
            } else {
                Ok(())
            }
        }
    }
}

/// Checks that `date_str` is a real date written `YYYY-MM-DD`, and says
/// which rule it breaks if it is not.
pub fn validate_date_format(date_str: &str) -> (r: Result<(), DateValidationError>)
    ensures
        r == date_verdict(date_str@, date_str.spec_bytes().len() as int),
{
    if date_str.is_empty() {
        return Err(DateValidationError::Empty);
    }
    if date_str.as_bytes().len() != 10 {
        return Err(DateValidationError::InvalidFormat);
    }
    if !date_str.is_ascii() {
        return Err(DateValidationError::InvalidFormat);
    }
    proof {
        is_ascii_chars_encode_utf8(date_str@);
    }
    if date_str.get_char(4) != '-' || date_str.get_char(7) != '-' {
        return Err(DateValidationError::InvalidFormat);
    }
    let chars = chars_of(date_str);
    let year = match read_digits(&chars, 0, 4) {
        Some(y) => y,
        None => return Err(DateValidationError::InvalidFormat),
    };
    let month = match read_digits(&chars, 5, 7) {
        Some(m) => m,
        None => return Err(DateValidationError::InvalidFormat),
    };
    let day = match read_digits(&chars, 8, 10) {
        Some(d) => d,
        None => return Err(DateValidationError::InvalidFormat),
    };
    if year < 1 || year > 9999 {
        return Err(DateValidationError::InvalidYear);
    }
    if month < 1 || month > 12 {
        return Err(DateValidationError::InvalidMonth);
    }
    let days_in_month: u32 = if month == 1 || month == 3 || month == 5 || month == 7 || month == 8
        || month == 10 || month == 12 {
        31
    } else if month == 4 || month == 6 || month == 9 || month == 11 {
        30
    } else if is_leap_year(year) {
        29
    } else {
        28
    };
    if day < 1 || day > days_in_month {
        return Err(DateValidationError::InvalidDay);
    }
    Ok(())
}

pub open spec fn days_in_year(year: int) -> int {
    if leap_year(year) {
        366
    } else {
        365
    }
}

/// Days from 1970-01-01 to the first day of `year` (0 for years up to 1970).
pub open spec fn days_before_year(year: int) -> int
    decreases year - 1970,
{
    if year <= 1970 {
        0
    } else {
        days_before_year(year - 1) + days_in_year(year - 1)
    }
}

/// Days from the first of January of `year` to the first day of `month`.
pub open spec fn days_before_month(year: int, month: int) -> int
    decreases month,
{
    if month <= 1 {
        0
    } else {
        days_before_month(year, month - 1) + days_in_month(year, month - 1)
    }
}

/// A calendar date from 1970 on.
pub open spec fn valid_civil(year: int, month: int, day: int) -> bool {
    &&& year >= 1970
    &&& 1 <= month <= 12
    &&& 1 <= day <= days_in_month(year, month)
}

/// How many days after 1970-01-01 the date falls.
pub open spec fn days_since_epoch(year: int, month: int, day: int) -> int {
    days_before_year(year) + days_before_month(year, month) + day - 1
}

/// The calendar date that falls `days` days after 1970-01-01.
pub open spec fn civil_of(days: int) -> (int, int, int) {
    choose|t: (int, int, int)| valid_civil(t.0, t.1, t.2) && days_since_epoch(t.0, t.1, t.2) == days
}

/// First year that a `u32` year counter cannot reach.
pub open spec fn year_limit() -> int {
    0x1_0000_0000
}

/// The first day count whose year no longer fits the `u32` year counter:
/// `days_before_year(year_limit())`.
pub const CLOCK_DAY_LIMIT: u64 = 1568703873082;

/// `date` written `YYYY-MM-DD`, each field zero-padded to its width.
pub open spec fn date_text(year: int, month: int, day: int) -> Seq<char> {
    zero_padded(year as nat, 4) + seq!['-'] + zero_padded(month as nat, 2) + seq!['-'] + zero_padded(
        day as nat,
        2,
    )
}

/// Leap years among 1..=n.
pub open spec fn leaps_through(n: int) -> int {
    n / 4 - n / 100 + n / 400
}

proof fn lemma_leaps_step(y: int)
    requires
        y >= 1,
    ensures
        leaps_through(y) - leaps_through(y - 1) == if leap_year(y) {
            1int
        } else {
            0int
        },
{
}

/// Closed form of `days_before_year`.
pub proof fn lemma_days_before_year_closed(y: int)
    requires
        y >= 1970,
    ensures
        days_before_year(y) == 365 * (y - 1970) + leaps_through(y - 1) - leaps_through(1969),
    decreases y - 1970,
{
    if y > 1970 {
        lemma_days_before_year_closed(y - 1);
        lemma_leaps_step(y - 1);
    }
}

pub proof fn lemma_clock_day_limit()
    ensures
        days_before_year(year_limit()) == CLOCK_DAY_LIMIT,
{
    lemma_days_before_year_closed(year_limit());
}

/// Each year adds at least 365 days.
pub proof fn lemma_days_before_year_grows(a: int, b: int)
    requires
        1970 <= a < b,
    ensures
        days_before_year(a) + days_in_year(a) <= days_before_year(b),
    decreases b - a,
{
    if b > a + 1 {
        lemma_days_before_year_grows(a, b - 1);
    }
}

pub proof fn lemma_days_before_month_grows(y: int, a: int, b: int)
    requires
        1 <= a < b,
    ensures
        days_before_month(y, a) + days_in_month(y, a) <= days_before_month(y, b),
    decreases b - a,
{
    if b > a + 1 {
        lemma_days_before_month_grows(y, a, b - 1);
    }
}

pub proof fn lemma_year_of_months(y: int)
    ensures
        days_before_month(y, 13) == days_in_year(y),
        forall|m: int| 1 <= m <= 12 ==> days_in_month(y, m) >= 28,
{
    reveal_with_fuel(days_before_month, 13);
}

proof fn lemma_days_before_month_nonneg(y: int, m: int)
    ensures
        days_before_month(y, m) >= 0,
    decreases m,
{
    if m > 1 {
        lemma_days_before_month_nonneg(y, m - 1);
    }
}

/// A valid date lies inside its year and its month.
pub proof fn lemma_date_bounds(y: int, m: int, d: int)
    requires
        valid_civil(y, m, d),
    ensures
        days_before_year(y) <= days_since_epoch(y, m, d) < days_before_year(y) + days_in_year(y),
        days_before_month(y, m) + d - 1 < days_before_month(y, m) + days_in_month(y, m),
{
    lemma_year_of_months(y);
    lemma_days_before_month_nonneg(y, m);
    if m < 12 {
        lemma_days_before_month_grows(y, m, 13);
    } else {
        assert(days_before_month(y, 13) == days_before_month(y, 12) + days_in_month(y, 12));
    }
}

/// No two calendar dates fall on the same day count.
pub proof fn lemma_days_since_epoch_injective(y1: int, m1: int, d1: int, y2: int, m2: int, d2: int)
    requires
        valid_civil(y1, m1, d1),
        valid_civil(y2, m2, d2),
        days_since_epoch(y1, m1, d1) == days_since_epoch(y2, m2, d2),
    ensures
        y1 == y2 && m1 == m2 && d1 == d2,
{
    lemma_date_bounds(y1, m1, d1);
    lemma_date_bounds(y2, m2, d2);
    if y1 < y2 {
        lemma_days_before_year_grows(y1, y2);
    } else if y2 < y1 {
        lemma_days_before_year_grows(y2, y1);
    }
    assert(y1 == y2);
    if m1 < m2 {
        lemma_days_before_month_grows(y1, m1, m2);
    } else if m2 < m1 {
        lemma_days_before_month_grows(y1, m2, m1);
    }
}

/// A later day count never falls on an earlier date: dates follow day
/// counts in year, then month, then day order.
pub proof fn lemma_date_order(y1: int, m1: int, d1: int, y2: int, m2: int, d2: int)
    requires
        valid_civil(y1, m1, d1),
        valid_civil(y2, m2, d2),
        days_since_epoch(y1, m1, d1) <= days_since_epoch(y2, m2, d2),
    ensures
        y1 < y2 || (y1 == y2 && (m1 < m2 || (m1 == m2 && d1 <= d2))),
{
    lemma_date_bounds(y1, m1, d1);
    lemma_date_bounds(y2, m2, d2);
    if y1 > y2 {
        lemma_days_before_year_grows(y2, y1);
    } else if y1 == y2 && m1 > m2 {
        lemma_days_before_month_grows(y1, m2, m1);
    }
}

/// The date that `civil_of` names is the only valid date on that day count.
pub proof fn lemma_civil_of(y: int, m: int, d: int)
    requires
        valid_civil(y, m, d),
    ensures
        civil_of(days_since_epoch(y, m, d)) == (y, m, d),
{
    let days = days_since_epoch(y, m, d);
    let t = civil_of(days);
    assert(valid_civil((y, m, d).0, (y, m, d).1, (y, m, d).2) && days_since_epoch(
        (y, m, d).0,
        (y, m, d).1,
        (y, m, d).2,
    ) == days);
    lemma_days_since_epoch_injective(t.0, t.1, t.2, y, m, d);
}

/// Some calendar date falls on each day count from 0 on.
proof fn lemma_civil_exists(days: nat) -> (t: (int, int, int))
    ensures
        valid_civil(t.0, t.1, t.2),
        days_since_epoch(t.0, t.1, t.2) == days,
    decreases days,
{
    if days == 0 {
        (1970, 1, 1)
    } else {
        let (y, m, d) = lemma_civil_exists((days - 1) as nat);
        lemma_year_of_months(y);
        if d < days_in_month(y, m) {
            (y, m, d + 1)
        } else if m < 12 {
            (y, m + 1, 1)
        } else {
            assert(days_before_month(y, 13) == days_before_month(y, 12) + days_in_month(y, 12));
            assert(days_before_year(y + 1) == days_before_year(y) + days_in_year(y));
            (y + 1, 1, 1)
        }
    }
}

/// `civil_of` names a valid date on the given day count.
pub proof fn lemma_civil_of_days(days: nat)
    ensures
        ({
            let t = civil_of(days as int);
            valid_civil(t.0, t.1, t.2) && days_since_epoch(t.0, t.1, t.2) == days
        }),
{
    let t = lemma_civil_exists(days);
    lemma_civil_of(t.0, t.1, t.2);
}

/// The calendar date `total_days` days after 1970-01-01, as year, month, day.
pub fn civil_from_days(total_days: u64) -> (r: (u32, u32, u64))
    requires
        total_days < days_before_year(year_limit()),
    ensures
        valid_civil(r.0 as int, r.1 as int, r.2 as int),
        days_since_epoch(r.0 as int, r.1 as int, r.2 as int) == total_days,
{
    let mut year: u32 = 1970;
    let mut remaining_days: u64 = total_days;
    loop
        invariant
            1970 <= year,
            days_before_year(year as int) + remaining_days == total_days,
            total_days < days_before_year(year_limit()),
        ensures
            1970 <= year,
            days_before_year(year as int) + remaining_days == total_days,
            remaining_days < days_in_year(year as int),
        decreases remaining_days,
    {
        let year_length: u64 = if is_leap_year(year) {
            366
        } else {
            365
        };
        if remaining_days >= year_length {
            proof {
                if year as int + 1 >= year_limit() {
                    if year as int + 1 > year_limit() {
                        lemma_days_before_year_grows(year_limit(), year as int + 1);
                    }
                    assert(days_before_year(year as int + 1) == days_before_year(year as int)
                        + days_in_year(year as int));
                    assert(false);
                }
            }
            remaining_days = remaining_days - year_length;
            year = year + 1;
        } else {
            break;
        }
    }
    let ghost start = remaining_days;
    proof {
        lemma_year_of_months(year as int);
    }
    let mut month: u32 = 1;
    let mut day: u64 = remaining_days + 1;
    loop
        invariant
            1 <= month <= 12,
            day >= 1,
            days_before_month(year as int, month as int) + day - 1 == start,
            start < days_in_year(year as int),
            days_before_month(year as int, 13) == days_in_year(year as int),
        ensures
            1 <= month <= 12,
            1 <= day <= days_in_month(year as int, month as int),
            days_before_month(year as int, month as int) + day - 1 == start,
        decreases 13 - month,
    {
        let month_length: u64 = if month == 1 || month == 3 || month == 5 || month == 7 || month
            == 8 || month == 10 || month == 12 {
            31
        } else if month == 4 || month == 6 || month == 9 || month == 11 {
            30
        } else if is_leap_year(year) {
            29
        } else {
            28
        };
        if day > month_length {
            proof {
                if month == 12 {
                    assert(days_before_month(year as int, 13) == days_before_month(year as int, 12)
                        + days_in_month(year as int, 12));
                    assert(false);
                }
            }
            day = day - month_length;
            month = month + 1;
        } else {
            break;
        }
    }
    (year, month, day)
}

/// The date `unix_seconds` seconds after the Unix epoch, written `YYYY-MM-DD`.
pub fn get_current_date(unix_seconds: u64) -> (r: String)
    requires
        unix_seconds / 86400 < days_before_year(year_limit()),
    ensures
        ({
            let t = civil_of((unix_seconds / 86400) as int);
            &&& valid_civil(t.0, t.1, t.2)
            &&& days_since_epoch(t.0, t.1, t.2) == unix_seconds / 86400
            &&& r@ == date_text(t.0, t.1, t.2)
        }),
{
    let total_days = unix_seconds / 86400;
    let (year, month, day) = civil_from_days(total_days);
    proof {
        lemma_civil_of(year as int, month as int, day as int);
    }
    let mut out = String::new();
    push_zero_padded(&mut out, year as u64, 4);
    push_char(&mut out, '-');
    push_zero_padded(&mut out, month as u64, 2);
    push_char(&mut out, '-');
    push_zero_padded(&mut out, day, 2);
    assert(out@ =~= date_text(year as int, month as int, day as int));
    out
}

/// What the `YYYY-MM-DD` check says of the text of a date whose year and
/// month are in range and whose day has at most two digits.
proof fn lemma_date_text_verdict(year: int, month: int, day: int)
    requires
        0 <= year <= 9999,
        0 <= month <= 99,
        0 <= day <= 99,
    ensures
        encode_utf8(date_text(year, month, day)).len() == 10,
        date_verdict(date_text(year, month, day), 10) == if year < 1 {
            Err::<(), DateValidationError>(DateValidationError::InvalidYear)
        } else if month < 1 || month > 12 {
            Err::<(), DateValidationError>(DateValidationError::InvalidMonth)
        } else if day < 1 || day > days_in_month(year, month) {
            Err::<(), DateValidationError>(DateValidationError::InvalidDay)
        } else {
            Ok::<(), DateValidationError>(())
        },
{
    lemma_pow10_20();
    lemma_zero_padded(year as nat, 4);
    lemma_zero_padded(month as nat, 2);
    lemma_zero_padded(day as nat, 2);
    let y = zero_padded(year as nat, 4);
    let m = zero_padded(month as nat, 2);
    let d = zero_padded(day as nat, 2);
    let t = date_text(year, month, day);
    assert(t.len() == 10);
    assert(t[4] == '-');
    assert(t[7] == '-');
    assert(t.subrange(0, 4) =~= y);
    assert(t.subrange(5, 7) =~= m);
    assert(t.subrange(8, 10) =~= d);
    assert(is_ascii_chars(t)) by {
        assert forall|i: int| 0 <= i < t.len() implies '\0' <= #[trigger] t[i] <= '\u{7f}' by {
            if i < 4 {
                assert(t[i] == y[i]);
                assert(is_digit(y[i]));
            } else if 4 < i < 7 {
                assert(t[i] == m[i - 5]);
                assert(is_digit(m[i - 5]));
            } else if 7 < i {
                assert(t[i] == d[i - 8]);
                assert(is_digit(d[i - 8]));
            }
        }
    }
    is_ascii_chars_encode_utf8(t);
    let b = encode_utf8(t);
    assert(b.len() == 10);
}

/// Law: the text of any calendar date from 1970 through 9999 passes the
/// `YYYY-MM-DD` form check (so the date the add form starts with is accepted).
pub proof fn lemma_date_text_passes_check(year: int, month: int, day: int)
    requires
        valid_civil(year, month, day),
        year <= 9999,
    ensures
        date_verdict(date_text(year, month, day), encode_utf8(date_text(year, month, day)).len() as int)
            == Ok::<(), DateValidationError>(()),
{
    lemma_year_of_months(year);
    lemma_date_text_verdict(year, month, day);
}

/// Law: a date written `YYYY-MM-DD`, with a year in 1..=9999 and a month in
/// 1..=12, passes the form check exactly when its day lies within the
/// month's Gregorian length: 31 days in January, March, May, July, August,
/// October and December; 30 in April, June, September and November; in
/// February 29 in a leap year (divisible by 4 and not by 100, or by 400)
/// and 28 otherwise. Any other day is refused as an invalid day.
pub proof fn lemma_check_knows_month_lengths(year: int, month: int, day: int)
    requires
        1 <= year <= 9999,
        1 <= month <= 12,
        0 <= day <= 99,
    ensures
        ({
            let t = date_text(year, month, day);
            let v = date_verdict(t, encode_utf8(t).len() as int);
            &&& v is Ok || v == Err::<(), DateValidationError>(DateValidationError::InvalidDay)
            &&& (month == 1 || month == 3 || month == 5 || month == 7 || month == 8 || month == 10
                || month == 12) ==> (v is Ok <==> 1 <= day <= 31)
            &&& (month == 4 || month == 6 || month == 9 || month == 11) ==> (v is Ok <==> 1 <= day
                <= 30)
            &&& (month == 2 && ((year % 4 == 0 && year % 100 != 0) || year % 400 == 0)) ==> (v is Ok
                <==> 1 <= day <= 29)
            &&& (month == 2 && !((year % 4 == 0 && year % 100 != 0) || year % 400 == 0)) ==> (v is Ok
                <==> 1 <= day <= 28)
        }),
{
    lemma_date_text_verdict(year, month, day);
}

/// Law: a text of four, two and two digits joined by dashes is refused
/// for its year when the year is 0, and else for its month when the month
/// is 0 or above 12, whatever its day.
pub proof fn lemma_check_refuses_year_and_month(year: int, month: int, day: int)
    requires
        0 <= year <= 9999,
        0 <= month <= 99,
        0 <= day <= 99,
    ensures
        ({
            let t = date_text(year, month, day);
            let v = date_verdict(t, encode_utf8(t).len() as int);
            &&& year == 0 ==> v == Err::<(), DateValidationError>(DateValidationError::InvalidYear)
            &&& (year >= 1 && (month == 0 || month > 12)) ==> v == Err::<(), DateValidationError>(
                DateValidationError::InvalidMonth,
            )
        }),
{
    lemma_date_text_verdict(year, month, day);
}

/// Law: the form check refuses empty text as empty, and as badly formed
/// any other text that is not ten bytes long, or that is ten ASCII
/// characters without a dash at positions 4 and 7 or with a character
/// other than a decimal digit elsewhere.
pub proof fn lemma_check_refuses_bad_form(chars: Seq<char>)
    ensures
        ({
            let v = date_verdict(chars, encode_utf8(chars).len() as int);
            &&& chars.len() == 0 ==> v == Err::<(), DateValidationError>(DateValidationError::Empty)
            &&& (chars.len() > 0 && encode_utf8(chars).len() != 10) ==> v == Err::<
                (),
                DateValidationError,
            >(DateValidationError::InvalidFormat)
            &&& (chars.len() == 10 && is_ascii_chars(chars) && (chars[4] != '-' || chars[7] != '-'))
                ==> v == Err::<(), DateValidationError>(DateValidationError::InvalidFormat)
            &&& (chars.len() == 10 && is_ascii_chars(chars) && exists|i: int|
                0 <= i < 10 && i != 4 && i != 7 && !('0' <= #[trigger] chars[i] <= '9')) ==> v == Err::<
                (),
                DateValidationError,
            >(DateValidationError::InvalidFormat)
        }),
{
    if chars.len() == 10 && is_ascii_chars(chars) {
        is_ascii_chars_encode_utf8(chars);
        if exists|i: int| 0 <= i < 10 && i != 4 && i != 7 && !('0' <= #[trigger] chars[i] <= '9') {
            let i = choose|i: int| 0 <= i < 10 && i != 4 && i != 7 && !('0' <= #[trigger] chars[i] <= '9');
            if i < 4 {
                assert(chars.subrange(0, 4)[i] == chars[i]);
            } else if i < 7 {
                assert(chars.subrange(5, 7)[i - 5] == chars[i]);
            } else {
                assert(chars.subrange(8, 10)[i - 8] == chars[i]);
            }
        }
    }
}

/// Law: day counts follow the Gregorian calendar. A date from 1970 on whose
/// day lies within its month's Gregorian length (see
/// `lemma_check_knows_month_lengths`) is the one that `civil_of` names on
/// its day count: 365 days a year since 1970, one more for each leap year
/// before its year, the month's start in the year (0, 31, 59, 90, 120, 151,
/// 181, 212, 243, 273, 304, 334, one more from March on in a leap year), and
/// the day of the month.
pub proof fn lemma_day_count_is_gregorian(year: int, month: int, day: int)
    requires
        year >= 1970,
        1 <= month <= 12,
        1 <= day,
        day <= if month == 2 {
            if (year % 4 == 0 && year % 100 != 0) || year % 400 == 0 {
                29int
            } else {
                28int
            }
        } else if month == 4 || month == 6 || month == 9 || month == 11 {
            30int
        } else {
            31int
        },
    ensures
        civil_of(
            365 * (year - 1970) + (year - 1) / 4 - (year - 1) / 100 + (year - 1) / 400 - 477 + (if month
                == 1 {
                0int
            } else if month == 2 {
                31int
            } else if month == 3 {
                59int
            } else if month == 4 {
                90int
            } else if month == 5 {
                120int
            } else if month == 6 {
                151int
            } else if month == 7 {
                181int
            } else if month == 8 {
                212int
            } else if month == 9 {
                243int
            } else if month == 10 {
                273int
            } else if month == 11 {
                304int
            } else {
                334int
            }) + (if month > 2 && ((year % 4 == 0 && year % 100 != 0) || year % 400 == 0) {
                1int
            } else {
                0int
            }) + day - 1,
        ) == (year, month, day),
{
    lemma_days_before_year_closed(year);
    assert(leaps_through(1969) == 477);
    reveal_with_fuel(days_before_month, 13);
    lemma_civil_of(year, month, day);
}

/// Whether the clock reading `unix_seconds` lies in the range that
/// `get_current_date` accepts.
pub fn clock_in_range(unix_seconds: u64) -> (r: bool)
    ensures
        r == (unix_seconds / 86400 < days_before_year(year_limit())),
{
    proof {
        lemma_clock_day_limit();
    }
    unix_seconds / 86400 < CLOCK_DAY_LIMIT
}

} // verus!
