//! How times are written into names.

use crate::clock::{decimal, minute_text, on_calendar, second_text, year_text, LocalTime};
use crate::detector::{meeting_name, recording_file};
use crate::signals::{app_name, MeetingApp};
use vstd::prelude::*;

verus! {

/// `c` is one of the digits 0 to 9.
pub open spec fn is_digit(c: char) -> bool {
    48 <= c as u32 <= 57
}

/// The number that the digits `s` write.
pub open spec fn number(s: Seq<char>) -> int
    decreases s.len(),
{
    if s.len() == 0 {
        0
    } else {
        10 * number(s.drop_last()) + (s.last() as u32 - 48)
    }
}

/// `s` holds digits only.
pub open spec fn all_digits(s: Seq<char>) -> bool {
    forall|i: int| 0 <= i < s.len() ==> is_digit(#[trigger] s[i])
}

/// From position `i` on, `s` writes `n` in two digits.
pub open spec fn two_digits(s: Seq<char>, i: int, n: int) -> bool {
    &&& 0 <= i
    &&& i + 2 <= s.len()
    &&& is_digit(s[i])
    &&& is_digit(s[i + 1])
    &&& 10 * (s[i] as u32 - 48) + (s[i + 1] as u32 - 48) == n
}

/// A number is written in digits that read as that number, with zeros in front up to
/// the width and no further.
pub proof fn numbers_are_written_in_digits(n: nat, width: nat)
    ensures
        all_digits(decimal(n, width)),
        number(decimal(n, width)) == n,
        decimal(n, width).len() >= width,
        decimal(n, width).len() >= 1,
        decimal(n, width).len() > width && n > 0 ==> decimal(n, width)[0] != '0',
    decreases n, width,
{
    let s = decimal(n, width);
    if n < 10 && width <= 1 {
        assert(s.drop_last() =~= Seq::empty());
        assert(number(s.drop_last()) == 0);
    } else {
        let w = if width > 0 {
            (width - 1) as nat
        } else {
            0
        };
        let before = decimal(n / 10, w);
        numbers_are_written_in_digits(n / 10, w);
        assert(s.drop_last() =~= before);
        assert forall|i: int| 0 <= i < s.len() implies is_digit(#[trigger] s[i]) by {
            if i < before.len() {
                assert(s[i] == before[i]);
            }
        }
        assert(s[0] == before[0]);
        if s.len() > width && n > 0 && n < 10 {
            lemma_padded(n, width);
        }
    }
}

/// A number of one digit fills the width with zeros.
proof fn lemma_padded(n: nat, width: nat)
    requires
        n < 10,
        width >= 1,
    ensures
        decimal(n, width).len() == width,
    decreases width,
{
    if width > 1 {
        lemma_padded(n / 10, (width - 1) as nat);
    }
}

/// Small numbers take no more digits than the width.
proof fn lemma_length(n: nat, width: nat, most: nat)
    requires
        1 <= most,
        width <= most,
        most == 1 ==> n < 10,
        most == 2 ==> n < 100,
        most == 3 ==> n < 1_000,
        most == 4 ==> n < 10_000,
        most <= 4,
    ensures
        decimal(n, width).len() <= most,
    decreases most,
{
    if !(n < 10 && width <= 1) {
        let w = if width > 0 {
            (width - 1) as nat
        } else {
            0
        };
        if most > 1 {
            lemma_length(n / 10, w, (most - 1) as nat);
        }
    }
}

proof fn lemma_two_digits(n: nat)
    requires
        n < 100,
    ensures
        decimal(n, 2).len() == 2,
        two_digits(decimal(n, 2), 0, n as int),
{
    let s = decimal(n, 2);
    numbers_are_written_in_digits(n, 2);
    lemma_length(n, 2, 2);
    reveal_with_fuel(number, 3);
    assert(s.drop_last().drop_last() =~= Seq::empty());
    assert(number(s.drop_last().drop_last()) == 0);
    assert(s.drop_last().last() == s[0]);
    assert(is_digit(s[0]) && is_digit(s[1]));
}

/// A year from 0 to 9999 is written in four digits. Any other has a sign in front and
/// at least four digits.
pub proof fn years_are_written_in_four_digits(year: int)
    ensures
        ({
            let s = year_text(year);
            if 0 <= year <= 9999 {
                s.len() == 4 && all_digits(s) && number(s) == year
            } else {
                &&& s.len() >= 5
                &&& s[0] == if year > 0 {
                    '+'
                } else {
                    '-'
                }
                &&& all_digits(s.drop_first())
                &&& number(s.drop_first()) == if year > 0 {
                    year
                } else {
                    -year
                }
            }
        }),
{
    let s = year_text(year);
    let n: nat = if year >= 0 {
        year as nat
    } else {
        (-year) as nat
    };
    numbers_are_written_in_digits(n, 4);
    if 0 <= year <= 9999 {
        lemma_length(n, 4, 4);
    } else {
        assert(s.drop_first() =~= decimal(n, 4));
    }
}

/// A time is one of the calendar if and only if its parts are: 31 days in January, March,
/// May, July, August, October and December, 30 in April, June, September and November,
/// and in February 28, or 29 in every fourth year but for three centuries out of four.
pub proof fn times_are_those_of_the_calendar(t: LocalTime)
    ensures
        on_calendar(t) <==> {
            let long = t.month == 1 || t.month == 3 || t.month == 5 || t.month == 7 || t.month == 8
                || t.month == 10 || t.month == 12;
            let short = t.month == 4 || t.month == 6 || t.month == 9 || t.month == 11;
            let leap = (t.year as int) % 400 == 0 || (t.year as int) % 4 == 0 && (t.year as int)
                % 100 != 0;
            &&& t.hour <= 23 && t.minute <= 59 && t.second <= 59
            &&& 1 <= t.day
            &&& {
                ||| long && t.day <= 31
                ||| short && t.day <= 30
                ||| t.month == 2 && t.day <= 28
                ||| t.month == 2 && t.day == 29 && leap
            }
        },
{
}

/// From position `i` on, `s` writes the date of `t`: the year, and the month and the day
/// in two digits each, with a dash between them. It ends before position `end`.
pub open spec fn writes_date(s: Seq<char>, i: int, t: LocalTime, end: int) -> bool {
    let y = i + year_text(t.year as int).len();
    &&& 0 <= i
    &&& end == y + 6
    &&& end <= s.len()
    &&& s.subrange(i, y) == year_text(t.year as int)
    &&& s[y] == '-'
    &&& two_digits(s, y + 1, t.month as int)
    &&& s[y + 3] == '-'
    &&& two_digits(s, y + 4, t.day as int)
}

/// A time of a day is written as `YYYY-MM-DD HH-mm`, each part in its place and reading
/// as the number it stands for.
pub proof fn minutes_are_written_in_full(t: LocalTime)
    requires
        on_calendar(t),
    ensures
        ({
            let s = minute_text(t);
            let d = s.len() - 6;
            &&& writes_date(s, 0, t, d)
            &&& s[d] == ' '
            &&& two_digits(s, d + 1, t.hour as int)
            &&& s[d + 3] == '-'
            &&& two_digits(s, d + 4, t.minute as int)
        }),
{
    lemma_two_digits(t.month as nat);
    lemma_two_digits(t.day as nat);
    lemma_two_digits(t.hour as nat);
    lemma_two_digits(t.minute as nat);
    let s = minute_text(t);
    let y = year_text(t.year as int);
    let n = y.len() as int;
    assert(s.subrange(0, n) =~= y);
    assert(s[n + 1] == decimal(t.month as nat, 2)[0] && s[n + 2] == decimal(t.month as nat, 2)[1]);
    assert(s[n + 4] == decimal(t.day as nat, 2)[0] && s[n + 5] == decimal(t.day as nat, 2)[1]);
    assert(s[n + 7] == decimal(t.hour as nat, 2)[0] && s[n + 8] == decimal(t.hour as nat, 2)[1]);
    assert(s[n + 10] == decimal(t.minute as nat, 2)[0]);
    assert(s[n + 11] == decimal(t.minute as nat, 2)[1]);
}

/// A time of a day is written as `YYYY-MM-DDTHH-mm-ss`, each part in its place and
/// reading as the number it stands for.
pub proof fn seconds_are_written_in_full(t: LocalTime)
    requires
        on_calendar(t),
    ensures
        ({
            let s = second_text(t);
            let d = s.len() - 9;
            &&& writes_date(s, 0, t, d)
            &&& s[d] == 'T'
            &&& two_digits(s, d + 1, t.hour as int)
            &&& s[d + 3] == '-'
            &&& two_digits(s, d + 4, t.minute as int)
            &&& s[d + 6] == '-'
            &&& two_digits(s, d + 7, t.second as int)
        }),
{
    lemma_two_digits(t.month as nat);
    lemma_two_digits(t.day as nat);
    lemma_two_digits(t.hour as nat);
    lemma_two_digits(t.minute as nat);
    lemma_two_digits(t.second as nat);
    let s = second_text(t);
    let y = year_text(t.year as int);
    let n = y.len() as int;
    assert(s.subrange(0, n) =~= y);
    assert(s[n + 1] == decimal(t.month as nat, 2)[0] && s[n + 2] == decimal(t.month as nat, 2)[1]);
    assert(s[n + 4] == decimal(t.day as nat, 2)[0] && s[n + 5] == decimal(t.day as nat, 2)[1]);
    assert(s[n + 7] == decimal(t.hour as nat, 2)[0] && s[n + 8] == decimal(t.hour as nat, 2)[1]);
    assert(s[n + 10] == decimal(t.minute as nat, 2)[0]);
    assert(s[n + 11] == decimal(t.minute as nat, 2)[1]);
    assert(s[n + 13] == decimal(t.second as nat, 2)[0]);
    assert(s[n + 14] == decimal(t.second as nat, 2)[1]);
}

/// The name of a meeting is that of its app, a space, and when it began.
pub proof fn meetings_are_named_after_app_and_minute(app: MeetingApp, t: LocalTime)
    ensures
        ({
            let s = meeting_name(app, t);
            let n = app_name(app).len() as int;
            &&& s.len() == n + 1 + minute_text(t).len()
            &&& s.take(n) == app_name(app)
            &&& s[n] == ' '
            &&& s.skip(n + 1) == minute_text(t)
        }),
{
    let s = meeting_name(app, t);
    let n = app_name(app).len() as int;
    assert(s.take(n) =~= app_name(app));
    assert(s.skip(n + 1) =~= minute_text(t));
}

/// Each app has a name of its own.
pub proof fn apps_have_their_names(app: MeetingApp)
    ensures
        app_name(app) == match app {
            MeetingApp::MicrosoftTeams => seq![
                'M', 'i', 'c', 'r', 'o', 's', 'o', 'f', 't', ' ', 'T', 'e', 'a', 'm', 's',
            ],
            MeetingApp::Zoom => seq!['Z', 'o', 'o', 'm'],
            MeetingApp::GoogleMeet => seq!['G', 'o', 'o', 'g', 'l', 'e', ' ', 'M', 'e', 'e', 't'],
        },
{
    reveal_strlit("Microsoft Teams");
    reveal_strlit("Zoom");
    reveal_strlit("Google Meet");
    assert("Microsoft Teams"@ =~= seq![
        'M', 'i', 'c', 'r', 'o', 's', 'o', 'f', 't', ' ', 'T', 'e', 'a', 'm', 's',
    ]);
    assert("Zoom"@ =~= seq!['Z', 'o', 'o', 'm']);
    assert("Google Meet"@ =~= seq!['G', 'o', 'o', 'g', 'l', 'e', ' ', 'M', 'e', 'e', 't']);
}

/// A recording is saved to a file named after the second at which it was stopped,
/// between `recording-` and `.wav`.
pub proof fn recordings_are_named_after_the_second(t: LocalTime)
    ensures
        ({
            let s = recording_file(t);
            let n = s.len() as int;
            &&& n == second_text(t).len() + 14
            &&& s.take(10) == seq!['r', 'e', 'c', 'o', 'r', 'd', 'i', 'n', 'g', '-']
            &&& s.subrange(10, n - 4) == second_text(t)
            &&& s.skip(n - 4) == seq!['.', 'w', 'a', 'v']
        }),
{
    reveal_strlit("recording-");
    reveal_strlit(".wav");
    let s = recording_file(t);
    let n = s.len() as int;
    assert(s.take(10) =~= seq!['r', 'e', 'c', 'o', 'r', 'd', 'i', 'n', 'g', '-']);
    assert(s.subrange(10, n - 4) =~= second_text(t));
    assert(s.skip(n - 4) =~= seq!['.', 'w', 'a', 'v']);
}

/// Recordings that are stopped at different seconds are saved to different files, and
/// meetings that begin in different minutes have different names.
pub proof fn different_times_are_written_differently(a: LocalTime, b: LocalTime, app: MeetingApp)
    requires
        on_calendar(a),
        on_calendar(b),
    ensures
        recording_file(a) == recording_file(b) ==> a == b,
        meeting_name(app, a) == meeting_name(app, b) ==> a == (LocalTime { second: a.second, ..b }),
{
    years_are_written_in_four_digits(a.year as int);
    years_are_written_in_four_digits(b.year as int);
    minutes_are_written_in_full(a);
    minutes_are_written_in_full(b);
    seconds_are_written_in_full(a);
    seconds_are_written_in_full(b);
    recordings_are_named_after_the_second(a);
    recordings_are_named_after_the_second(b);
    meetings_are_named_after_app_and_minute(app, a);
    meetings_are_named_after_app_and_minute(app, b);
}

} // verus!
