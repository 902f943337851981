//! Calendar dates (proleptic Gregorian), as the books write them: `YYYY-MM-DD`.
use vstd::prelude::*;
use chrono::Datelike;
use crate::money::padded_digits;
use crate::text::{int_text, nat_digits, push_char, push_int};

verus! {

/// A calendar date.
#[derive(Clone, Copy, Debug, PartialEq, Eq, Structural)]
pub struct Date {
    pub year: i32,
    pub month: u32,
    pub day: u32,
}

pub open spec fn is_leap(y: int) -> bool {
    (y % 4 == 0 && y % 100 != 0) || y % 400 == 0
}

pub open spec fn days_in_month(y: int, m: int) -> int {
    if m == 2 {
        if is_leap(y) {
            29
        } else {
            28
        }
    } else if m == 4 || m == 6 || m == 9 || m == 11 {
        30
    } else {
        31
    }
}

/// The years that `chrono::NaiveDate` can hold.
pub open spec fn year_in_range(y: int) -> bool {
    -262143 <= y <= 262142
}

impl Date {
    /// A real calendar date within the range of `chrono::NaiveDate`.
    pub open spec fn wf(self) -> bool {
        &&& year_in_range(self.year as int)
        &&& 1 <= self.month <= 12
        &&& 1 <= self.day <= days_in_month(self.year as int, self.month as int)
    }

    /// Chronological order.
    pub open spec fn before(self, other: Date) -> bool {
        ||| self.year < other.year
        ||| (self.year == other.year && self.month < other.month)
        ||| (self.year == other.year && self.month == other.month && self.day < other.day)
    }

    /// Whether `self` comes strictly before `other`.
    pub fn lt(&self, other: &Date) -> (b: bool)
        ensures
            b == self.before(*other),
    {
        self.year < other.year || (self.year == other.year && self.month < other.month) || (
        self.year == other.year && self.month == other.month && self.day < other.day)
    }
}

/// Whether `y` is a leap year.
pub fn leap_year(y: i32) -> (b: bool)
    ensures
        b == is_leap(y as int),
{
    // shift by a multiple of 400 years so that the remainders are taken of a natural number
    let n: u64 = (y as i64 + 400_0000_0000i64) as u64;
    proof {
        let k = n as int;
        let x = y as int;
        assert(k == x + 100_000_000 * 400);
        vstd::arithmetic::div_mod::lemma_mod_multiples_vanish(10_000_000_000, x, 4);
        vstd::arithmetic::div_mod::lemma_mod_multiples_vanish(400_000_000, x, 100);
        vstd::arithmetic::div_mod::lemma_mod_multiples_vanish(100_000_000, x, 400);
        assert(k % 4 == x % 4 && k % 100 == x % 100 && k % 400 == x % 400);
    }
    (n % 4 == 0 && n % 100 != 0) || n % 400 == 0
}

/// Number of days in month `m` of year `y`.
pub fn month_length(y: i32, m: u32) -> (d: u32)
    ensures
        d == days_in_month(y as int, m as int),
{
    if m == 2 {
        if leap_year(y) {
            29
        } else {
            28
        }
    } else if m == 4 || m == 6 || m == 9 || m == 11 {
        30
    } else {
        31
    }
}

/// The date `chrono::NaiveDate::parse_from_str(s, "%Y-%m-%d")` reads from the
/// text `s`, as (year, month, day), or `None` where it reports an error.
pub uninterp spec fn iso_date_from_text(s: Seq<char>) -> Option<(int, int, int)>;

/// The date read from `s`, as a `Date`.
pub open spec fn parsed_date(s: Seq<char>) -> Option<Date> {
    match iso_date_from_text(s) {
        Some((y, m, d)) => Some(Date { year: y as i32, month: m as u32, day: d as u32 }),
        None => None,
    }
}

/// Reads a `YYYY-MM-DD` date with `chrono::NaiveDate::parse_from_str`.
///
/// Trusted: the result is the named parse of the text, and a date that comes
/// back is a real calendar date in the range of `NaiveDate` (which holds no
/// other). The exact grammar that the `%Y-%m-%d` pattern accepts is not restated.
#[verifier::external_body]
fn naive_date_parse(s: &str) -> (r: Option<Date>)
    ensures
        r matches Some(d) ==> d.wf(),
        r == (match iso_date_from_text(s@) {
            Some((y, m, d)) => Some(Date { year: y as i32, month: m as u32, day: d as u32 }),
            None => None,
        }),
{
    match chrono::NaiveDate::parse_from_str(s, "%Y-%m-%d") {
        Ok(d) => Some(Date { year: d.year(), month: d.month(), day: d.day() }),
        Err(_) => None,
    }
}

/// Parses an ISO date (`YYYY-MM-DD`).
pub fn parse_iso_date(s: &str) -> (r: Option<Date>)
    ensures
        r matches Some(d) ==> d.wf(),
        r == parsed_date(s@),
{
    naive_date_parse(s)
}

/// The day after `d` (`d + Duration::days(1)`).
pub open spec fn next_day(d: Date) -> Date {
    if d.day < days_in_month(d.year as int, d.month as int) {
        Date { day: (d.day + 1) as u32, ..d }
    } else if d.month < 12 {
        Date { month: (d.month + 1) as u32, day: 1, ..d }
    } else {
        Date { year: (d.year + 1) as i32, month: 1, day: 1 }
    }
}

/// The day after `d`.
pub fn following_day(d: Date) -> (r: Date)
    requires
        d.wf(),
        d.year < 262142 || d.month < 12 || d.day < 31,
    ensures
        r == next_day(d),
        r.wf(),
{
    if d.day < month_length(d.year, d.month) {
        Date { day: d.day + 1, ..d }
    } else if d.month < 12 {
        Date { month: d.month + 1, day: 1, ..d }
    } else {
        Date { year: d.year + 1, month: 1, day: 1 }
    }
}

/// `NaiveDate::from_ymd_opt`: the date when it exists.
pub open spec fn date_from_ymd(y: int, m: int, d: int) -> Option<Date> {
    let c = Date { year: y as i32, month: m as u32, day: d as u32 };
    if year_in_range(y) && 1 <= m <= 12 && 1 <= d <= days_in_month(y, m) {
        Some(c)
    } else {
        None
    }
}

/// The date with the given parts, when it exists.
pub fn from_ymd(y: i32, m: u32, d: u32) -> (r: Option<Date>)
    ensures
        r == date_from_ymd(y as int, m as int, d as int),
{
    if -262143 <= y && y <= 262142 && 1 <= m && m <= 12 && 1 <= d && d <= month_length(y, m) {
        Some(Date { year: y, month: m, day: d })
    } else {
        None
    }
}

/// What `Display` writes for a `NaiveDate`: `YYYY-MM-DD`, the year with four
/// digits (zero padded) when it lies in 0..=9999 and otherwise with an
/// explicit sign before at least four digits.
pub open spec fn date_text(d: Date) -> Seq<char> {
    let y = d.year as int;
    let year = if 0 <= y <= 9999 {
        padded_digits(y as nat, 4)
    } else if y > 9999 {
        seq!['+'] + nat_digits(y as nat)
    } else if y > -10000 {
        seq!['-'] + padded_digits((-y) as nat, 4)
    } else {
        seq!['-'] + nat_digits((-y) as nat)
    };
    year + seq!['-'] + padded_digits(d.month as nat, 2) + seq!['-'] + padded_digits(d.day as nat, 2)
}

/// Appends `date_text(d)`.
pub fn push_date(out: &mut String, d: Date)
    requires
        d.wf(),
    ensures
        final(out)@ == old(out)@ + date_text(d),
{
    let ghost base = old(out)@;
    if 0 <= d.year && d.year <= 9999 {
        crate::money::push_padded(out, d.year as u128, 4);
    } else if d.year > 9999 {
        push_char(out, '+');
        crate::money::push_nat(out, d.year as u128);
        assert(out@ =~= base + (seq!['+'] + nat_digits(d.year as nat)));
    } else if d.year > -10000 {
        push_char(out, '-');
        crate::money::push_padded(out, (-d.year) as u128, 4);
        assert(out@ =~= base + (seq!['-'] + padded_digits((-d.year) as nat, 4)));
    } else {
        push_char(out, '-');
        crate::money::push_nat(out, (-d.year) as u128);
        assert(out@ =~= base + (seq!['-'] + nat_digits((-d.year) as nat)));
    }
    let ghost y = out@;
    push_char(out, '-');
    crate::money::push_padded(out, d.month as u128, 2);
    push_char(out, '-');
    crate::money::push_padded(out, d.day as u128, 2);
    proof {
        let yt = if 0 <= d.year <= 9999 {
            padded_digits(d.year as nat, 4)
        } else if d.year > 9999 {
            seq!['+'] + nat_digits(d.year as nat)
        } else if d.year > -10000 {
            seq!['-'] + padded_digits((-d.year) as nat, 4)
        } else {
            seq!['-'] + nat_digits((-d.year) as nat)
        };
        assert(y =~= base + yt);
        assert(out@ =~= base + (yt + seq!['-'] + padded_digits(d.month as nat, 2) + seq!['-']
            + padded_digits(d.day as nat, 2)));
    }
}

/// The text of a date, `YYYY-MM-DD`.
pub fn date_to_string(d: Date) -> (s: String)
    requires
        d.wf(),
    ensures
        s@ == date_text(d),
{
    let mut s = String::new();
    push_date(&mut s, d);
    assert(Seq::<char>::empty() + date_text(d) =~= date_text(d));
    s
}

/// Calendar months from `start` to `end`, counting both the start and the
/// end month; zero when `end` comes before `start`.
pub open spec fn months_between_spec(start: Date, end: Date) -> int {
    if end.before(start) {
        0
    } else {
        let total = (end.year - start.year) * 12 + (end.month - start.month);
        if total + 1 > 0 {
            total + 1
        } else {
            0
        }
    }
}

/// Calculate months between two dates (inclusive of start month).
pub fn months_between(start: &Date, end: &Date) -> (n: i32)
    requires
        start.wf(),
        end.wf(),
    ensures
        n == months_between_spec(*start, *end),
{
    if end.lt(start) {
        return 0;
    }
    let years = end.year - start.year;
    let months = end.month as i32 - start.month as i32;
    let total = years * 12 + months;
    if total + 1 > 0 {
        total + 1
    } else {
        0
    }
}

} // verus!
