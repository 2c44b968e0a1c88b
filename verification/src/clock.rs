//! The local wall clock and how it is written.

use chrono::{Datelike, Timelike};
use vstd::prelude::*;

verus! {

/// A reading of the local clock, to the second.
#[derive(Debug, Clone, Copy, PartialEq, Eq, Structural)]
pub struct LocalTime {
    pub year: i32,
    pub month: u32,
    pub day: u32,
    pub hour: u32,
    pub minute: u32,
    pub second: u32,
}

/// `year` has a 29 February.
pub open spec fn leap_year(year: int) -> bool {
    year % 4 == 0 && (year % 100 != 0 || year % 400 == 0)
}

/// The number of days of a month of the Gregorian calendar.
pub open spec fn days_in_month(year: int, month: int) -> int {
    if month == 2 {
        if leap_year(year) {
            29
        } else {
            28
        }
    } else if month == 4 || month == 6 || month == 9 || month == 11 {
        30
    } else {
        31
    }
}

/// `t` is a time of a day of the Gregorian calendar.
pub open spec fn on_calendar(t: LocalTime) -> bool {
    &&& 1 <= t.month <= 12
    &&& 1 <= t.day <= days_in_month(t.year as int, t.month as int)
    &&& t.hour < 24
    &&& t.minute < 60
    &&& t.second < 60
}

/// The years that a date can have.
pub open spec fn supported_year(year: int) -> bool {
    -262_143 <= year <= 262_142
}

/// The last decimal digit of `n`.
pub open spec fn last_digit(n: nat) -> char {
    (48 + n % 10) as char
}

/// `n` in decimal digits, with zeros in front up to `width` digits.
pub open spec fn decimal(n: nat, width: nat) -> Seq<char>
    decreases n, width,
{
    if n < 10 && width <= 1 {
        seq![last_digit(n)]
    } else {
        decimal(n / 10, if width > 0 { (width - 1) as nat } else { 0 }).push(last_digit(n))
    }
}

/// A year in four digits, and with a sign in front where it is below 0 or above 9999.
pub open spec fn year_text(year: int) -> Seq<char> {
    if 0 <= year <= 9999 {
        decimal(year as nat, 4)
    } else if year > 9999 {
        seq!['+'] + decimal(year as nat, 4)
    } else {
        seq!['-'] + decimal((-year) as nat, 4)
    }
}

/// What a format specifier stands for, such as the month for `m`.
pub open spec fn field_text(specifier: char, t: LocalTime) -> Seq<char> {
    if specifier == 'Y' {
        year_text(t.year as int)
    } else if specifier == 'm' {
        decimal(t.month as nat, 2)
    } else if specifier == 'd' {
        decimal(t.day as nat, 2)
    } else if specifier == 'H' {
        decimal(t.hour as nat, 2)
    } else if specifier == 'M' {
        decimal(t.minute as nat, 2)
    } else {
        decimal(t.second as nat, 2)
    }
}

/// `c` is the letter of one of the specifiers `%Y %m %d %H %M %S`.
pub open spec fn known_specifier(c: char) -> bool {
    c == 'Y' || c == 'm' || c == 'd' || c == 'H' || c == 'M' || c == 'S'
}

/// Every `%` of `format` begins one of the specifiers `%Y %m %d %H %M %S`.
pub open spec fn plain_format(format: Seq<char>) -> bool
    decreases format.len(),
{
    if format.len() == 0 {
        true
    } else if format[0] == '%' {
        &&& format.len() >= 2
        &&& known_specifier(format[1])
        &&& plain_format(format.skip(2))
    } else {
        plain_format(format.skip(1))
    }
}

/// `format` with the fields of `t` in place of its specifiers.
pub open spec fn formatted(format: Seq<char>, t: LocalTime) -> Seq<char>
    decreases format.len(),
{
    if format.len() == 0 {
        Seq::empty()
    } else if format[0] == '%' && format.len() >= 2 {
        field_text(format[1], t) + formatted(format.skip(2), t)
    } else {
        seq![format[0]] + formatted(format.skip(1), t)
    }
}

/// `YYYY-MM-DD HH-mm`.
pub open spec fn minute_text(t: LocalTime) -> Seq<char> {
    year_text(t.year as int) + seq!['-'] + decimal(t.month as nat, 2) + seq!['-'] + decimal(
        t.day as nat,
        2,
    ) + seq![' '] + decimal(t.hour as nat, 2) + seq!['-'] + decimal(t.minute as nat, 2)
}

/// `YYYY-MM-DDTHH-mm-ss`.
pub open spec fn second_text(t: LocalTime) -> Seq<char> {
    year_text(t.year as int) + seq!['-'] + decimal(t.month as nat, 2) + seq!['-'] + decimal(
        t.day as nat,
        2,
    ) + seq!['T'] + decimal(t.hour as nat, 2) + seq!['-'] + decimal(t.minute as nat, 2) + seq!['-']
        + decimal(t.second as nat, 2)
}

/// The fraction of a second in RFC 3339: none, or three, six or nine digits.
pub open spec fn fraction_text(nanos: nat) -> Seq<char> {
    if nanos == 0 {
        Seq::empty()
    } else if nanos % 1_000_000 == 0 {
        seq!['.'] + decimal(nanos / 1_000_000, 3)
    } else if nanos % 1_000 == 0 {
        seq!['.'] + decimal(nanos / 1_000, 6)
    } else {
        seq!['.'] + decimal(nanos, 9)
    }
}

/// `t` in RFC 3339, `nanos` into its second, at an offset from UTC in minutes.
pub open spec fn rfc3339_text(t: LocalTime, nanos: nat, sign: char, offset: nat) -> Seq<char> {
    year_text(t.year as int) + seq!['-'] + decimal(t.month as nat, 2) + seq!['-'] + decimal(
        t.day as nat,
        2,
    ) + seq!['T'] + decimal(t.hour as nat, 2) + seq![':'] + decimal(t.minute as nat, 2) + seq![':']
        + decimal(t.second as nat, 2) + fraction_text(nanos) + seq![sign] + decimal(offset / 60, 2)
        + seq![':'] + decimal(offset % 60, 2)
}

/// `s` is a time in RFC 3339.
pub open spec fn is_rfc3339(s: Seq<char>) -> bool {
    exists|t: LocalTime, nanos: nat, sign: char, offset: nat|
        {
            &&& on_calendar(t)
            &&& nanos < 1_000_000_000
            &&& sign == '+' || sign == '-'
            &&& offset <= 1_440
            &&& s == #[trigger] rfc3339_text(t, nanos, sign, offset)
        }
}

/// Reads the local clock through `chrono::Local::now`.
///
/// The reading is some time of the Gregorian calendar in a year that a
/// `chrono::NaiveDate` can have. Which time it is depends on the clock and the
/// time zone of the machine, so nothing more is claimed of it. There is no reading,
/// but a panic, while the machine's clock stands before 1970 or past the last date
/// that chrono knows.
#[verifier::external_body]
pub(crate) fn read_clock() -> (t: LocalTime)
    ensures
        on_calendar(t),
        supported_year(t.year as int),
{
    let now = chrono::Local::now().naive_local();
    LocalTime {
        year: now.year(),
        month: now.month(),
        day: now.day(),
        hour: now.hour(),
        minute: now.minute(),
        second: now.second(),
    }
}

/// The local time in RFC 3339, as `chrono::DateTime::to_rfc3339` writes
/// `chrono::Local::now`.
///
/// The result is some time of the Gregorian calendar in RFC 3339, with the
/// shortest of no, three, six and nine digits for the fraction of the second and
/// a numeric offset. Which time it is depends on the machine.
#[verifier::external_body]
pub(crate) fn now_rfc3339() -> (s: String)
    ensures
        is_rfc3339(s@),
{
    chrono::Local::now().to_rfc3339()
}

/// Writes `t` as `format` says, through `chrono::NaiveDateTime::format`.
///
/// The text is the format with each specifier replaced: `%Y` by the year in four
/// digits (with a sign outside 0 to 9999), `%m`, `%d`, `%H`, `%M` and `%S` by the
/// month, day, hour, minute and second in two digits. All else stands for itself.
#[verifier::external_body]
fn format_time(t: LocalTime, format: &str) -> (s: String)
    requires
        on_calendar(t),
        supported_year(t.year as int),
        plain_format(format@),
    ensures
        s@ == formatted(format@, t),
{
    let date = chrono::NaiveDate::from_ymd_opt(t.year, t.month, t.day).unwrap();
    let time = date.and_hms_opt(t.hour, t.minute, t.second).unwrap();
    time.format(format).to_string()
}

/// `t` as `YYYY-MM-DD HH-mm`.
pub fn minute_stamp(t: LocalTime) -> (s: String)
    requires
        on_calendar(t),
        supported_year(t.year as int),
    ensures
        s@ == minute_text(t),
{
    proof {
        lemma_minute_format(t);
    }
    format_time(t, "%Y-%m-%d %H-%M")
}

/// `t` as `YYYY-MM-DDTHH-mm-ss`.
pub fn second_stamp(t: LocalTime) -> (s: String)
    requires
        on_calendar(t),
        supported_year(t.year as int),
    ensures
        s@ == second_text(t),
{
    proof {
        lemma_second_format(t);
    }
    format_time(t, "%Y-%m-%dT%H-%M-%S")
}

proof fn lemma_specifier_first(c: char, rest: Seq<char>, t: LocalTime)
    requires
        known_specifier(c),
    ensures
        formatted(seq!['%', c] + rest, t) == field_text(c, t) + formatted(rest, t),
        plain_format(seq!['%', c] + rest) == plain_format(rest),
{
    let format = seq!['%', c] + rest;
    assert(format.skip(2) =~= rest);
}

proof fn lemma_literal_first(c: char, rest: Seq<char>, t: LocalTime)
    requires
        c != '%',
    ensures
        formatted(seq![c] + rest, t) == seq![c] + formatted(rest, t),
        plain_format(seq![c] + rest) == plain_format(rest),
{
    let format = seq![c] + rest;
    assert(format.skip(1) =~= rest);
}

/// What the part `%Y-%m-%d` of a format followed by `rest` stands for.
proof fn lemma_date_format(rest: Seq<char>, t: LocalTime)
    ensures
        formatted(seq!['%', 'Y', '-', '%', 'm', '-', '%', 'd'] + rest, t) == year_text(
            t.year as int,
        ) + seq!['-'] + decimal(t.month as nat, 2) + seq!['-'] + decimal(t.day as nat, 2)
            + formatted(rest, t),
        plain_format(seq!['%', 'Y', '-', '%', 'm', '-', '%', 'd'] + rest) == plain_format(rest),
{
    let d = seq!['%', 'd'] + rest;
    let m = seq!['-'] + d;
    let n = seq!['%', 'm'] + m;
    let y = seq!['-'] + n;
    lemma_specifier_first('d', rest, t);
    lemma_literal_first('-', d, t);
    lemma_specifier_first('m', m, t);
    lemma_literal_first('-', n, t);
    lemma_specifier_first('Y', y, t);
    assert(seq!['%', 'Y', '-', '%', 'm', '-', '%', 'd'] + rest =~= seq!['%', 'Y'] + y);
    assert(formatted(seq!['%', 'Y'] + y, t) =~= year_text(t.year as int) + seq!['-'] + decimal(
        t.month as nat,
        2,
    ) + seq!['-'] + decimal(t.day as nat, 2) + formatted(rest, t));
}

/// What the part `%H-%M` of a format followed by `rest` stands for.
proof fn lemma_hour_format(rest: Seq<char>, t: LocalTime)
    ensures
        formatted(seq!['%', 'H', '-', '%', 'M'] + rest, t) == decimal(t.hour as nat, 2) + seq!['-']
            + decimal(t.minute as nat, 2) + formatted(rest, t),
        plain_format(seq!['%', 'H', '-', '%', 'M'] + rest) == plain_format(rest),
{
    let m = seq!['%', 'M'] + rest;
    let h = seq!['-'] + m;
    lemma_specifier_first('M', rest, t);
    lemma_literal_first('-', m, t);
    lemma_specifier_first('H', h, t);
    assert(seq!['%', 'H', '-', '%', 'M'] + rest =~= seq!['%', 'H'] + h);
    assert(formatted(seq!['%', 'H'] + h, t) =~= decimal(t.hour as nat, 2) + seq!['-'] + decimal(
        t.minute as nat,
        2,
    ) + formatted(rest, t));
}

proof fn lemma_minute_format(t: LocalTime)
    ensures
        plain_format("%Y-%m-%d %H-%M"@),
        formatted("%Y-%m-%d %H-%M"@, t) == minute_text(t),
{
    reveal_strlit("%Y-%m-%d %H-%M");
    let none = Seq::<char>::empty();
    let hour = seq!['%', 'H', '-', '%', 'M'] + none;
    let after_date = seq![' '] + hour;
    lemma_hour_format(none, t);
    lemma_literal_first(' ', hour, t);
    lemma_date_format(after_date, t);
    assert("%Y-%m-%d %H-%M"@ =~= seq!['%', 'Y', '-', '%', 'm', '-', '%', 'd'] + after_date);
    assert(formatted("%Y-%m-%d %H-%M"@, t) =~= minute_text(t));
}

proof fn lemma_second_format(t: LocalTime)
    ensures
        plain_format("%Y-%m-%dT%H-%M-%S"@),
        formatted("%Y-%m-%dT%H-%M-%S"@, t) == second_text(t),
{
    reveal_strlit("%Y-%m-%dT%H-%M-%S");
    let none = Seq::<char>::empty();
    let second = seq!['%', 'S'] + none;
    let after_hour = seq!['-'] + second;
    let hour = seq!['%', 'H', '-', '%', 'M'] + after_hour;
    let after_date = seq!['T'] + hour;
    lemma_specifier_first('S', none, t);
    lemma_literal_first('-', second, t);
    lemma_hour_format(after_hour, t);
    lemma_literal_first('T', hour, t);
    lemma_date_format(after_date, t);
    assert("%Y-%m-%dT%H-%M-%S"@ =~= seq!['%', 'Y', '-', '%', 'm', '-', '%', 'd'] + after_date);
    assert(formatted("%Y-%m-%dT%H-%M-%S"@, t) =~= second_text(t));
}

} // verus!
