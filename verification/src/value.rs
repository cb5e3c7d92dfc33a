//! Basic value objects: date, period, frequency and unit, and the entry to
//! the curve value objects.
//!
//! This module expresses identity and dimension only: no date library, no
//! unit conversion, no derived computation.
use vstd::prelude::*;

use vstd::string::StringSliceAdditionalSpecFns;

use crate::error::{YieldCurveError, YieldCurveErrorKind, YieldCurveResult};
use crate::text::{push_char, push_padded, spec_dec, spec_digit, spec_zero_pad, spec_zeros};

pub mod curve;
pub mod identity;
pub mod tenor;

pub use curve::{
    validate_curve_batch, validate_curve_point, YieldCurveBatch, YieldCurveMissingReason, YieldCurvePoint, YieldCurvePointOrigin,
    YieldCurveRate,
};
pub use identity::{YieldCurveCode, YieldCurvePointIdentity};
pub use tenor::{YieldCurveConvention, YieldCurveKind, YieldCurveTenor, TENOR_CATALOG};

verus! {

// ---------------------------------------------------------------------------
// Calendar rules
// ---------------------------------------------------------------------------

/// Gregorian leap year: divisible by 4, and not by 100 unless by 400.
pub open spec fn spec_is_leap_year(year: int) -> bool {
    year % 4 == 0 && (year % 100 != 0 || year % 400 == 0)
}

/// The number of days of a month (0 for a month outside 1 to 12).
pub open spec fn spec_days_in_month(year: int, month: int) -> int {
    if month == 1 || month == 3 || month == 5 || month == 7 || month == 8 || month == 10
        || month == 12 {
        31
    } else if month == 4 || month == 6 || month == 9 || month == 11 {
        30
    } else if month == 2 {
        if spec_is_leap_year(year) {
            29
        } else {
            28
        }
    } else {
        0
    }
}

/// A calendar date with a four-digit year.
pub open spec fn spec_is_valid_date(year: int, month: int, day: int) -> bool {
    &&& 1000 <= year <= 9999
    &&& 1 <= month <= 12
    &&& 1 <= day <= spec_days_in_month(year, month)
}

/// The month lengths of the Gregorian calendar, read off which dates are
/// real: every month of a four-digit year has days 1 to 28; day 29 is real
/// except in February of a common year; day 30 in every month but February;
/// day 31 exactly in January, March, May, July, August, October and
/// December; no month has a day 32 or a day 0. A leap year is one divisible
/// by 4 and not by 100, unless by 400.
pub proof fn lemma_gregorian_month_lengths(year: int, month: int, day: int)
    requires
        1000 <= year <= 9999,
        1 <= month <= 12,
    ensures
        1 <= day <= 28 ==> spec_is_valid_date(year, month, day),
        spec_is_valid_date(year, month, 29) <==> (month != 2 || (year % 4 == 0 && (year % 100 != 0
            || year % 400 == 0))),
        spec_is_valid_date(year, month, 30) <==> month != 2,
        spec_is_valid_date(year, month, 31) <==> (month == 1 || month == 3 || month == 5 || month == 7
            || month == 8 || month == 10 || month == 12),
        !spec_is_valid_date(year, month, 32),
        !spec_is_valid_date(year, month, 0),
{
}

/// A year has 365 days, or 366 in a leap year: the twelve month lengths add
/// up to the length of the year.
pub proof fn lemma_year_length(year: int)
    requires
        1000 <= year <= 9999,
    ensures
        spec_days_in_month(year, 1) + spec_days_in_month(year, 2) + spec_days_in_month(year, 3)
            + spec_days_in_month(year, 4) + spec_days_in_month(year, 5) + spec_days_in_month(year, 6)
            + spec_days_in_month(year, 7) + spec_days_in_month(year, 8) + spec_days_in_month(year, 9)
            + spec_days_in_month(year, 10) + spec_days_in_month(year, 11) + spec_days_in_month(
            year,
            12,
        ) == if year % 4 == 0 && (year % 100 != 0 || year % 400 == 0) {
            366int
        } else {
            365int
        },
{
}

/// The message of `Date::new` for a rejected date.
pub open spec fn spec_date_error(year: int, month: int, day: int) -> Seq<char> {
    if !(1000 <= year <= 9999) {
        "年份须为 4 位形态（1000–9999）"@
    } else if !(1 <= month <= 12) {
        "月份须在 1–12 之间"@
    } else {
        "日超出该月实际天数（已含闰年规则）"@
    }
}

/// What `Date::new` gives: the date, or the message of its `Invalid` error.
pub open spec fn spec_new_date(year: i16, month: u8, day: u8) -> Result<Date, Seq<char>> {
    if spec_is_valid_date(year as int, month as int, day as int) {
        Ok(Date { year, month, day })
    } else {
        Err(spec_date_error(year as int, month as int, day as int))
    }
}

// ---------------------------------------------------------------------------
// Date
// ---------------------------------------------------------------------------

/// A calendar date (strict ISO `YYYY-MM-DD` identity, no time zone or time).
///
/// The fields are public for reading; construct through [`Date::new`] or
/// [`Date::parse`], or the value may be an impossible date.
#[derive(Debug, Clone, Copy, PartialEq, Eq, PartialOrd, Ord, Hash, Structural)]
pub struct Date {
    /// The year (four-digit form, 1000 to 9999).
    pub year: i16,
    /// The month (1 to 12).
    pub month: u8,
    /// The day (checked against the month's length and leap years).
    pub day: u8,
}

impl Date {
    /// Whether this is a real calendar date with a four-digit year.
    pub open spec fn spec_is_valid(self) -> bool {
        spec_is_valid_date(self.year as int, self.month as int, self.day as int)
    }

    /// Builds and checks a date.
    ///
    /// # Errors
    ///
    /// `Invalid` when the year is not of four digits, the month is out of
    /// range, or the day exceeds the month's length.
    pub fn new(year: i16, month: u8, day: u8) -> (r: YieldCurveResult<Self>)
        ensures
            match r {
                Ok(d) => spec_new_date(year, month, day) == Ok::<Date, Seq<char>>(d),
                Err(e) => e@.0 == YieldCurveErrorKind::Invalid && spec_new_date(year, month, day)
                    == Err::<Date, Seq<char>>(e@.1),
            },
    {
        if !(1000 <= year && year <= 9999) {
            return Err(YieldCurveError::Invalid(String::from_str("年份须为 4 位形态（1000–9999）")));
        }
        if !(1 <= month && month <= 12) {
            return Err(YieldCurveError::Invalid(String::from_str("月份须在 1–12 之间")));
        }
        if day < 1 || day > days_in_month(year, month) {
            return Err(YieldCurveError::Invalid(String::from_str("日超出该月实际天数（已含闰年规则）")));
        }
        Ok(Self { year, month, day })
    }

    /// Parses strict ISO `YYYY-MM-DD`: month and day zero-padded to two
    /// digits; `2026-2-3`, `2026/02/03` and any time part are refused.
    ///
    /// # Errors
    ///
    /// `Invalid` on a wrong shape or an impossible date.
    pub fn parse(input: &str) -> (r: YieldCurveResult<Self>)
        ensures
            match r {
                Ok(d) => spec_parse_date(input.spec_bytes()) == Ok::<Date, Seq<char>>(d),
                Err(e) => e@.0 == YieldCurveErrorKind::Invalid && spec_parse_date(
                    input.spec_bytes(),
                ) == Err::<Date, Seq<char>>(e@.1),
            },
    {
        let b = input.as_bytes();
        if b.len() != 10 || b[4] != 45u8 || b[7] != 45u8 {
            return Err(YieldCurveError::Invalid(String::from_str("日期须为严格 ISO 形态 YYYY-MM-DD")));
        }
        let year = four_digits(b, 0)?;
        let month = two_digits(b, 5)?;
        let day = two_digits(b, 8)?;
        Self::new(year as i16, month, day)
    }

    /// Renders the date as `format!("{:04}-{:02}-{:02}", year, month, day)`
    /// does (the form that canonical keys use).
    pub fn to_iso_string(self) -> (s: String)
        ensures
            s@ == spec_date_text(self),
    {
        let mut s = String::new();
        if self.year < 0 {
            push_char(&mut s, '-');
            let magnitude: i32 = -(self.year as i32);
            push_padded(&mut s, magnitude as u64, 3);
        } else {
            push_padded(&mut s, self.year as u64, 4);
        }
        push_char(&mut s, '-');
        push_padded(&mut s, self.month as u64, 2);
        push_char(&mut s, '-');
        push_padded(&mut s, self.day as u64, 2);
        proof {
            assert(s@ =~= spec_date_text(self));
        }
        s
    }
}

/// The year as `{:04}` renders an `i16`: zero-padded to four characters,
/// the sign counting as one of them.
pub open spec fn spec_year_text(year: int) -> Seq<char> {
    if year < 0 {
        seq!['-'] + spec_zero_pad(spec_dec((-year) as nat), 3)
    } else {
        spec_zero_pad(spec_dec(year as nat), 4)
    }
}

/// The ISO rendering of a date.
pub open spec fn spec_date_text(d: Date) -> Seq<char> {
    spec_year_text(d.year as int) + (seq!['-'] + (spec_zero_pad(spec_dec(d.month as nat), 2) + (
    seq!['-'] + spec_zero_pad(spec_dec(d.day as nat), 2))))
}

/// Four-digit numbers render as their four digits.
proof fn lemma_four_digit_text(y: int)
    requires
        1000 <= y <= 9999,
    ensures
        spec_zero_pad(spec_dec(y as nat), 4) == seq![
            spec_digit(y / 1000),
            spec_digit((y / 100) % 10),
            spec_digit((y / 10) % 10),
            spec_digit(y % 10),
        ],
{
    let n = y as nat;
    let a = n / 1000;
    let b = n / 100;
    let c = n / 10;
    assert(b / 10 == a && c / 10 == b && 1 <= a <= 9 && 10 <= b && 100 <= c) by (nonlinear_arith)
        requires
            1000 <= n <= 9999,
            a == n / 1000,
            b == n / 100,
            c == n / 10,
    ;
    assert(spec_dec(a) == seq![spec_digit(a as int)]);
    assert(spec_dec(b) == spec_dec(a).push(spec_digit((b % 10) as int)));
    assert(spec_dec(c) == spec_dec(b).push(spec_digit((c % 10) as int)));
    assert(spec_dec(n) == spec_dec(c).push(spec_digit((n % 10) as int)));
    assert(spec_dec(n).len() == 4);
    assert(spec_dec(n) =~= seq![
        spec_digit(y / 1000),
        spec_digit((y / 100) % 10),
        spec_digit((y / 10) % 10),
        spec_digit(y % 10),
    ]);
}

/// Numbers below 100 render as two digits once padded.
proof fn lemma_two_digit_text(n: int)
    requires
        0 <= n <= 99,
    ensures
        spec_zero_pad(spec_dec(n as nat), 2) == seq![spec_digit(n / 10), spec_digit(n % 10)],
{
    if n < 10 {
        assert(spec_dec(n as nat) == seq![spec_digit(n)]);
        assert(spec_zeros(1) =~= seq!['0']);
        assert(spec_zero_pad(spec_dec(n as nat), 2) =~= seq!['0', spec_digit(n)]);
    } else {
        assert(spec_dec((n / 10) as nat) == seq![spec_digit(n / 10)]);
        assert(spec_dec(n as nat) =~= seq![spec_digit(n / 10), spec_digit(n % 10)]);
    }
}

/// A digit character is the ASCII byte 48 plus its value.
proof fn lemma_digit_byte(d: int)
    requires
        0 <= d < 10,
    ensures
        spec_digit(d) as u32 == 48 + d,
        spec_digit(d) as u8 == 48 + d,
{
}

/// The ISO text of a real date: ten ASCII characters.
proof fn lemma_valid_date_text(d: Date)
    requires
        d.spec_is_valid(),
    ensures
        ({
            let y = d.year as int;
            let m = d.month as int;
            let dd = d.day as int;
            spec_date_text(d) == seq![
                spec_digit(y / 1000),
                spec_digit((y / 100) % 10),
                spec_digit((y / 10) % 10),
                spec_digit(y % 10),
                '-',
                spec_digit(m / 10),
                spec_digit(m % 10),
                '-',
                spec_digit(dd / 10),
                spec_digit(dd % 10),
            ]
        }),
{
    lemma_four_digit_text(d.year as int);
    lemma_two_digit_text(d.month as int);
    lemma_two_digit_text(d.day as int);
    assert(spec_date_text(d) =~= seq![
        spec_digit(d.year as int / 1000),
        spec_digit((d.year as int / 100) % 10),
        spec_digit((d.year as int / 10) % 10),
        spec_digit(d.year as int % 10),
        '-',
        spec_digit(d.month as int / 10),
        spec_digit(d.month as int % 10),
        '-',
        spec_digit(d.day as int / 10),
        spec_digit(d.day as int % 10),
    ]);
}

/// `Date::parse` accepts exactly the ISO renderings of real dates: it reads
/// back every date that `to_iso_string` writes, and what it accepts is the
/// rendering of the date it returns (no other spelling gets through).
pub proof fn lemma_date_parse_exactly(b: Seq<u8>, d: Date)
    ensures
        spec_parse_date(b) == Ok::<Date, Seq<char>>(d) <==> (d.spec_is_valid() && b
            == vstd::utf8::encode_utf8(spec_date_text(d))),
{
    if d.spec_is_valid() {
        let t = spec_date_text(d);
        lemma_valid_date_text(d);
        let y = d.year as int;
        let m = d.month as int;
        let dd = d.day as int;
        lemma_digit_byte(y / 1000);
        lemma_digit_byte((y / 100) % 10);
        lemma_digit_byte((y / 10) % 10);
        lemma_digit_byte(y % 10);
        lemma_digit_byte(m / 10);
        lemma_digit_byte(m % 10);
        lemma_digit_byte(dd / 10);
        lemma_digit_byte(dd % 10);
        assert(vstd::utf8::is_ascii_chars(t));
        vstd::utf8::is_ascii_chars_encode_utf8(t);
        let e = vstd::utf8::encode_utf8(t);
        assert(e.len() == 10);
        assert(e[0] == t[0] as u8 && e[1] == t[1] as u8 && e[2] == t[2] as u8 && e[3] == t[3] as u8);
        assert(e[4] == t[4] as u8 && e[5] == t[5] as u8 && e[6] == t[6] as u8 && e[7] == t[7] as u8);
        assert(e[8] == t[8] as u8 && e[9] == t[9] as u8);
        assert(y == (y / 1000) * 1000 + ((y / 100) % 10) * 100 + ((y / 10) % 10) * 10 + y % 10)
            by (nonlinear_arith)
            requires
                1000 <= y <= 9999,
        ;
        assert(spec_four_digits_value(e, 0) == y);
        assert(spec_two_digits_value(e, 5) == m);
        assert(spec_two_digits_value(e, 8) == dd);
        assert(spec_parse_date(e) == Ok::<Date, Seq<char>>(d));
        if spec_parse_date(b) == Ok::<Date, Seq<char>>(d) {
            let a0 = spec_digit_of(b[0]);
            let a1 = spec_digit_of(b[1]);
            let a2 = spec_digit_of(b[2]);
            let a3 = spec_digit_of(b[3]);
            assert(y == a0 * 1000 + a1 * 100 + a2 * 10 + a3);
            assert(y / 1000 == a0 && (y / 100) % 10 == a1 && (y / 10) % 10 == a2 && y % 10 == a3)
                by (nonlinear_arith)
                requires
                    y == a0 * 1000 + a1 * 100 + a2 * 10 + a3,
                    0 <= a0 <= 9,
                    0 <= a1 <= 9,
                    0 <= a2 <= 9,
                    0 <= a3 <= 9,
            ;
            assert(m == spec_digit_of(b[5]) * 10 + spec_digit_of(b[6]));
            assert(dd == spec_digit_of(b[8]) * 10 + spec_digit_of(b[9]));
            assert(b =~= e);
        }
    }
}

/// The number of days of a month (0 outside 1 to 12), with leap years.
pub(crate) fn days_in_month(year: i16, month: u8) -> (r: u8)
    ensures
        r == spec_days_in_month(year as int, month as int),
{
    if month == 1 || month == 3 || month == 5 || month == 7 || month == 8 || month == 10
        || month == 12 {
        31
    } else if month == 4 || month == 6 || month == 9 || month == 11 {
        30
    } else if month == 2 {
        if is_leap_year(year) {
            29
        } else {
            28
        }
    } else {
        0
    }
}

/// Leap year: divisible by 4 and (not by 100, or by 400).
pub(crate) fn is_leap_year(year: i16) -> (r: bool)
    ensures
        r == spec_is_leap_year(year as int),
{
    let y: i32 = year as i32;
    y % 4 == 0 && (y % 100 != 0 || y % 400 == 0)
}

// ---------------------------------------------------------------------------
// ASCII digits
// ---------------------------------------------------------------------------

/// Whether a byte is an ASCII digit.
pub open spec fn spec_is_ascii_digit(b: u8) -> bool {
    48 <= b <= 57
}

/// The value of an ASCII digit byte.
pub open spec fn spec_digit_of(b: u8) -> int {
    b - 48
}

/// Whether the four bytes from `at` are ASCII digits.
pub open spec fn spec_four_digits_ok(b: Seq<u8>, at: int) -> bool {
    spec_is_ascii_digit(b[at]) && spec_is_ascii_digit(b[at + 1]) && spec_is_ascii_digit(b[at + 2])
        && spec_is_ascii_digit(b[at + 3])
}

/// The number that four ASCII digits from `at` stand for.
pub open spec fn spec_four_digits_value(b: Seq<u8>, at: int) -> int {
    spec_digit_of(b[at]) * 1000 + spec_digit_of(b[at + 1]) * 100 + spec_digit_of(b[at + 2]) * 10
        + spec_digit_of(b[at + 3])
}

/// Whether the two bytes from `at` are ASCII digits.
pub open spec fn spec_two_digits_ok(b: Seq<u8>, at: int) -> bool {
    spec_is_ascii_digit(b[at]) && spec_is_ascii_digit(b[at + 1])
}

/// The number that two ASCII digits from `at` stand for.
pub open spec fn spec_two_digits_value(b: Seq<u8>, at: int) -> int {
    spec_digit_of(b[at]) * 10 + spec_digit_of(b[at + 1])
}

/// The message when a year is not four digits.
pub open spec fn spec_year_digits_error() -> Seq<char> {
    "年份须为 4 位数字"@
}

/// The message when a month or day is not two digits.
pub open spec fn spec_two_digits_error() -> Seq<char> {
    "月/日须为 2 位数字"@
}

/// What `Date::parse` gives for the UTF-8 bytes of its input.
pub open spec fn spec_parse_date(b: Seq<u8>) -> Result<Date, Seq<char>> {
    if b.len() != 10 || b[4] != 45 || b[7] != 45 {
        Err("日期须为严格 ISO 形态 YYYY-MM-DD"@)
    } else if !spec_four_digits_ok(b, 0) {
        Err(spec_year_digits_error())
    } else if !spec_two_digits_ok(b, 5) || !spec_two_digits_ok(b, 8) {
        Err(spec_two_digits_error())
    } else {
        spec_new_date(
            spec_four_digits_value(b, 0) as i16,
            spec_two_digits_value(b, 5) as u8,
            spec_two_digits_value(b, 8) as u8,
        )
    }
}

/// Parses four ASCII digits starting at `at`.
fn four_digits(b: &[u8], at: usize) -> (r: YieldCurveResult<u16>)
    requires
        at + 4 <= b@.len(),
    ensures
        match r {
            Ok(v) => spec_four_digits_ok(b@, at as int) && v == spec_four_digits_value(
                b@,
                at as int,
            ),
            Err(e) => !spec_four_digits_ok(b@, at as int) && e@ == (
                YieldCurveErrorKind::Invalid,
                spec_year_digits_error(),
            ),
        },
{
    let (b0, b1, b2, b3) = (b[at], b[at + 1], b[at + 2], b[at + 3]);
    if !(48 <= b0 && b0 <= 57 && 48 <= b1 && b1 <= 57 && 48 <= b2 && b2 <= 57 && 48 <= b3 && b3
        <= 57) {
        return Err(YieldCurveError::Invalid(String::from_str("年份须为 4 位数字")));
    }
    Ok((b0 - 48) as u16 * 1000 + (b1 - 48) as u16 * 100 + (b2 - 48) as u16 * 10 + (b3 - 48) as u16)
}

/// Parses two ASCII digits starting at `at`.
fn two_digits(b: &[u8], at: usize) -> (r: YieldCurveResult<u8>)
    requires
        at + 2 <= b@.len(),
    ensures
        match r {
            Ok(v) => spec_two_digits_ok(b@, at as int) && v == spec_two_digits_value(
                b@,
                at as int,
            ),
            Err(e) => !spec_two_digits_ok(b@, at as int) && e@ == (
                YieldCurveErrorKind::Invalid,
                spec_two_digits_error(),
            ),
        },
{
    let (b0, b1) = (b[at], b[at + 1]);
    if !(48 <= b0 && b0 <= 57 && 48 <= b1 && b1 <= 57) {
        return Err(YieldCurveError::Invalid(String::from_str("月/日须为 2 位数字")));
    }
    Ok((b0 - 48) * 10 + (b1 - 48))
}

// ---------------------------------------------------------------------------
// Period
// ---------------------------------------------------------------------------

/// The identity of a business period.
#[non_exhaustive]
#[derive(Debug, Clone, Copy, PartialEq, Eq, PartialOrd, Ord, Hash, Structural)]
pub enum Period {
    /// A day (the default period of a curve's valuation date).
    Day(Date),
    /// A month.
    Month {
        /// The year.
        year: i16,
        /// The month (1 to 12).
        month: u8,
    },
    /// A quarter.
    Quarter {
        /// The year.
        year: i16,
        /// The quarter (1 to 4).
        quarter: u8,
    },
    /// A year.
    Year(i16),
    /// An event (a point in time).
    Event {
        /// The event's date.
        date: Date,
    },
}

/// The message when a quarter is out of range.
pub open spec fn spec_quarter_range_error() -> Seq<char> {
    "季度须在 1–4 之间"@
}

/// The message when a quarter is not one digit.
pub open spec fn spec_quarter_digit_error() -> Seq<char> {
    "季度须为 1 位数字"@
}

/// The message when a month is out of range.
pub open spec fn spec_month_range_error() -> Seq<char> {
    "月份须在 1–12 之间"@
}

/// What `Period::validate` gives: `Ok` or the message of its `Invalid` error.
pub open spec fn spec_period_check(p: Period) -> Result<(), Seq<char>> {
    match p {
        Period::Day(d) => spec_unit_of(spec_new_date(d.year, d.month, d.day)),
        Period::Event { date } => spec_unit_of(spec_new_date(date.year, date.month, date.day)),
        Period::Month { year, month } => spec_unit_of(spec_new_date(year, month, 1)),
        Period::Quarter { year, quarter } => {
            if !spec_is_valid_date(year as int, 1, 1) {
                Err(spec_date_error(year as int, 1, 1))
            } else if !(1 <= quarter <= 4) {
                Err(spec_quarter_range_error())
            } else {
                Ok(())
            }
        },
        Period::Year(year) => spec_unit_of(spec_new_date(year, 1, 1)),
    }
}

/// Forgets the value of a successful result.
pub open spec fn spec_unit_of(r: Result<Date, Seq<char>>) -> Result<(), Seq<char>> {
    match r {
        Ok(_) => Ok(()),
        Err(m) => Err(m),
    }
}

/// The period that the shape of the bytes selects, before the final check.
pub open spec fn spec_period_shape(b: Seq<u8>) -> Result<Period, Seq<char>> {
    if b.len() == 10 {
        match spec_parse_date(b) {
            Ok(d) => Ok(Period::Day(d)),
            Err(m) => Err(m),
        }
    } else if b.len() == 7 && b[4] == 45 && b[5] == 81 {
        if !spec_four_digits_ok(b, 0) {
            Err(spec_year_digits_error())
        } else if !spec_is_ascii_digit(b[6]) {
            Err(spec_quarter_digit_error())
        } else if !(1 <= spec_digit_of(b[6]) <= 4) {
            Err(spec_quarter_range_error())
        } else {
            Ok(
                Period::Quarter {
                    year: spec_four_digits_value(b, 0) as i16,
                    quarter: spec_digit_of(b[6]) as u8,
                },
            )
        }
    } else if b.len() == 7 && b[4] == 45 {
        if !spec_four_digits_ok(b, 0) {
            Err(spec_year_digits_error())
        } else if !spec_two_digits_ok(b, 5) {
            Err(spec_two_digits_error())
        } else if !(1 <= spec_two_digits_value(b, 5) <= 12) {
            Err(spec_month_range_error())
        } else {
            Ok(
                Period::Month {
                    year: spec_four_digits_value(b, 0) as i16,
                    month: spec_two_digits_value(b, 5) as u8,
                },
            )
        }
    } else if b.len() == 4 {
        if !spec_four_digits_ok(b, 0) {
            Err(spec_year_digits_error())
        } else {
            Ok(Period::Year(spec_four_digits_value(b, 0) as i16))
        }
    } else {
        Err("期间须为 YYYY / YYYY-MM / YYYY-Qn / YYYY-MM-DD 之一"@)
    }
}

/// What `Period::parse` gives for the UTF-8 bytes of its input.
pub open spec fn spec_parse_period(b: Seq<u8>) -> Result<Period, Seq<char>> {
    match spec_period_shape(b) {
        Ok(p) => match spec_period_check(p) {
            Ok(_) => Ok(p),
            Err(m) => Err(m),
        },
        Err(m) => Err(m),
    }
}

/// A ten-byte period is a day, read exactly as `Date::parse` reads it: the
/// same dates are accepted and the same messages given.
pub proof fn lemma_period_day_agrees_with_date(b: Seq<u8>)
    requires
        b.len() == 10,
    ensures
        spec_parse_period(b) == match spec_parse_date(b) {
            Ok(d) => Ok::<Period, Seq<char>>(Period::Day(d)),
            Err(m) => Err::<Period, Seq<char>>(m),
        },
{
}

/// Every period that `Period::parse` gives passes the period check.
pub proof fn lemma_parsed_period_is_checked(b: Seq<u8>)
    ensures
        spec_parse_period(b) is Ok ==> spec_period_check(spec_parse_period(b)->Ok_0) == Ok::<
            (),
            Seq<char>,
        >(()),
{
}

/// The period that a text stands for, stated by its four forms: a real date
/// (`YYYY-MM-DD`), a month (`YYYY-MM`), a quarter (`YYYY-Qn`, capital `Q`,
/// `n` from 1 to 4) or a year (`YYYY`), each year of four digits from 1000
/// to 9999. Any other text stands for none.
pub open spec fn spec_period_of(b: Seq<u8>) -> Option<Period> {
    if b.len() == 10 {
        match spec_parse_date(b) {
            Ok(d) => Some(Period::Day(d)),
            Err(_) => None,
        }
    } else if b.len() == 7 && b[4] == 45 && b[5] == 81 {
        let y = spec_four_digits_value(b, 0);
        let q = spec_digit_of(b[6]);
        if spec_four_digits_ok(b, 0) && spec_is_ascii_digit(b[6]) && 1000 <= y <= 9999 && 1 <= q <= 4 {
            Some(Period::Quarter { year: y as i16, quarter: q as u8 })
        } else {
            None
        }
    } else if b.len() == 7 && b[4] == 45 {
        let y = spec_four_digits_value(b, 0);
        let m = spec_two_digits_value(b, 5);
        if spec_four_digits_ok(b, 0) && spec_two_digits_ok(b, 5) && 1000 <= y <= 9999 && 1 <= m <= 12 {
            Some(Period::Month { year: y as i16, month: m as u8 })
        } else {
            None
        }
    } else if b.len() == 4 {
        let y = spec_four_digits_value(b, 0);
        if spec_four_digits_ok(b, 0) && 1000 <= y <= 9999 {
            Some(Period::Year(y as i16))
        } else {
            None
        }
    } else {
        None
    }
}

/// `Period::parse` accepts exactly the four documented forms and gives the
/// period each stands for; every refusal is `Invalid`.
pub proof fn lemma_period_accepts_exactly(b: Seq<u8>)
    ensures
        match spec_parse_period(b) {
            Ok(p) => spec_period_of(b) == Some(p),
            Err(_) => spec_period_of(b) is None,
        },
{
    if b.len() != 10 && b.len() >= 4 && spec_four_digits_ok(b, 0) {
        let y = spec_four_digits_value(b, 0);
        assert(0 <= y <= 9999);
        assert(y as i16 == y);
    }
}

impl Period {
    /// Re-checks the public components of a period, so that a value built
    /// directly cannot bypass the date range.
    pub(crate) fn validate(&self) -> (r: YieldCurveResult<()>)
        ensures
            match r {
                Ok(_) => spec_period_check(*self) == Ok::<(), Seq<char>>(()),
                Err(e) => e@.0 == YieldCurveErrorKind::Invalid && spec_period_check(*self) == Err::<
                    (),
                    Seq<char>,
                >(e@.1),
            },
    {
        match *self {
            Self::Day(date) | Self::Event { date } => {
                match Date::new(date.year, date.month, date.day) {
                    Ok(_) => Ok(()),
                    Err(e) => Err(e),
                }
            },
            Self::Month { year, month } => {
                match Date::new(year, month, 1) {
                    Ok(_) => Ok(()),
                    Err(e) => Err(e),
                }
            },
            Self::Quarter { year, quarter } => {
                Date::new(year, 1, 1)?;
                if !(1 <= quarter && quarter <= 4) {
                    return Err(YieldCurveError::Invalid(String::from_str("季度须在 1–4 之间")));
                }
                Ok(())
            },
            Self::Year(year) => {
                match Date::new(year, 1, 1) {
                    Ok(_) => Ok(()),
                    Err(e) => Err(e),
                }
            },
        }
    }

    /// Parses a period: `YYYY-MM-DD` is a day, `YYYY-MM` a month, `YYYY-Qn`
    /// (capital `Q` only) a quarter, `YYYY` a year; nothing else.
    ///
    /// # Errors
    ///
    /// `Invalid` when the shape is none of the four or a field is out of range.
    pub fn parse(input: &str) -> (r: YieldCurveResult<Self>)
        ensures
            match r {
                Ok(p) => spec_parse_period(input.spec_bytes()) == Ok::<Period, Seq<char>>(p),
                Err(e) => e@.0 == YieldCurveErrorKind::Invalid && spec_parse_period(
                    input.spec_bytes(),
                ) == Err::<Period, Seq<char>>(e@.1),
            },
    {
        let b = input.as_bytes();
        let period = if b.len() == 10 {
            Self::Day(Date::parse(input)?)
        } else if b.len() == 7 && b[4] == 45u8 && b[5] == 81u8 {
            let year = four_digits(b, 0)?;
            let quarter = one_digit(b, 6)?;
            if !(1 <= quarter && quarter <= 4) {
                return Err(YieldCurveError::Invalid(String::from_str("季度须在 1–4 之间")));
            }
            Self::Quarter { year: year as i16, quarter }
        } else if b.len() == 7 && b[4] == 45u8 {
            let year = four_digits(b, 0)?;
            let month = two_digits(b, 5)?;
            if !(1 <= month && month <= 12) {
                return Err(YieldCurveError::Invalid(String::from_str("月份须在 1–12 之间")));
            }
            Self::Month { year: year as i16, month }
        } else if b.len() == 4 {
            Self::Year(four_digits(b, 0)? as i16)
        } else {
            return Err(
                YieldCurveError::Invalid(
                    String::from_str("期间须为 YYYY / YYYY-MM / YYYY-Qn / YYYY-MM-DD 之一"),
                ),
            );
        };
        period.validate()?;
        Ok(period)
    }
}

/// Parses one ASCII digit at `at`.
fn one_digit(b: &[u8], at: usize) -> (r: YieldCurveResult<u8>)
    requires
        at < b@.len(),
    ensures
        match r {
            Ok(v) => spec_is_ascii_digit(b@[at as int]) && v == spec_digit_of(b@[at as int]),
            Err(e) => !spec_is_ascii_digit(b@[at as int]) && e@ == (
                YieldCurveErrorKind::Invalid,
                spec_quarter_digit_error(),
            ),
        },
{
    let c = b[at];
    if !(48 <= c && c <= 57) {
        return Err(YieldCurveError::Invalid(String::from_str("季度须为 1 位数字")));
    }
    Ok(c - 48)
}

// ---------------------------------------------------------------------------
// Frequency and unit
// ---------------------------------------------------------------------------

/// Observation frequency.
#[non_exhaustive]
#[derive(Debug, Clone, Copy, PartialEq, Eq, Hash, Structural)]
pub enum Frequency {
    /// Daily (the usual rhythm of curve valuation dates).
    Daily,
    /// Weekly.
    Weekly,
    /// Monthly.
    Monthly,
    /// Quarterly.
    Quarterly,
    /// Annual.
    Annual,
    /// At events (irregular points in time).
    Event,
    /// Irregular.
    Irregular,
}

/// The source-side unit, kept as delivered: conversion belongs downstream.
///
/// `Undeclared` means the upstream declared no unit; it must not be taken
/// silently for percent.
#[non_exhaustive]
#[derive(Debug, Clone, Copy, PartialEq, Eq, Hash, Structural)]
pub enum Unit {
    /// Percent (the usual unit of curve rates).
    Percent,
    /// Basis points.
    BasisPoint,
    /// No unit declared upstream.
    Undeclared,
}

} // verus!
