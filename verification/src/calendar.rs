//! Dates of the Gregorian calendar from Unix time.

use crate::rows;
use crate::text;
use crate::text::zero_padded_text;
use vstd::prelude::*;
use vstd::string::*;

verus! {

/// Whether year `y` has a 29th of February.
pub open spec fn is_leap(y: int) -> bool {
    y % 4 == 0 && (y % 100 != 0 || y % 400 == 0)
}

/// The days of year `y`.
pub open spec fn year_len(y: int) -> int {
    if is_leap(y) {
        366
    } else {
        365
    }
}

/// The days of month `m` (January is 1) of year `y`.
pub open spec fn month_len(y: int, m: int) -> int {
    if m == 2 {
        if is_leap(y) {
            29
        } else {
            28
        }
    } else if m == 4 || m == 6 || m == 9 || m == 11 {
        30
    } else {
        31
    }
}

/// The days from the start of year 0 to the start of year `y`.
pub open spec fn year_start(y: int) -> int
    decreases y,
{
    if y <= 0 {
        0
    } else {
        year_start(y - 1) + year_len(y - 1)
    }
}

/// The days from the start of year `y` to the start of its month `m`.
pub open spec fn month_start(y: int, m: int) -> int
    decreases m,
{
    if m <= 1 {
        0
    } else {
        month_start(y, m - 1) + month_len(y, m - 1)
    }
}

/// Whether there is a day `d` in month `m` of year `y`.
pub open spec fn is_date(y: int, m: int, d: int) -> bool {
    0 <= y && 1 <= m <= 12 && 1 <= d <= month_len(y, m)
}

/// The days from the first of January 1970 to a date.
pub open spec fn day_number(y: int, m: int, d: int) -> int {
    year_start(y) + month_start(y, m) + d - 1 - year_start(1970)
}

/// Whether `date` (year, month, day) is the one that many days after the first of January 1970.
pub open spec fn falls_on(date: (int, int, int), days: int) -> bool {
    is_date(date.0, date.1, date.2) && day_number(date.0, date.1, date.2) == days
}

/// The date that many days after the first of January 1970, as year, month and day.
pub open spec fn date_of(days: int) -> (int, int, int) {
    choose|date: (int, int, int)| falls_on(date, days)
}

proof fn lemma_year_start(y: int)
    requires
        y >= 0,
    ensures
        year_start(y) == 365 * y + (y + 3) / 4 - (y + 99) / 100 + (y + 399) / 400,
    decreases y,
{
    if y > 0 {
        lemma_year_start(y - 1);
        let p = y - 1;
        lemma_step(p, 4);
        lemma_step(p, 100);
        lemma_step(p, 400);
        assert(p % 400 == 0 ==> p % 100 == 0) by {
            assert(p == 400 * (p / 400) + p % 400);
        }
        assert(p % 100 == 0 ==> p % 4 == 0) by {
            assert(p == 100 * (p / 100) + p % 100);
        }
    }
}

/// One more year adds one to the count of multiples of `n` before it exactly where it is one.
proof fn lemma_step(p: int, n: int)
    requires
        p >= 0,
        n == 4 || n == 100 || n == 400,
    ensures
        (p + n) / n == (p + n - 1) / n + (if p % n == 0 {
            1int
        } else {
            0int
        }),
{
    if n == 4 {
        assert(p == 4 * (p / 4) + p % 4);
    } else if n == 100 {
        assert(p == 100 * (p / 100) + p % 100);
    } else {
        assert(p == 400 * (p / 400) + p % 400);
    }
}

proof fn lemma_year_start_monotone(a: int, b: int)
    requires
        0 <= a <= b,
    ensures
        year_start(a) <= year_start(b),
    decreases b,
{
    if a < b {
        lemma_year_start_monotone(a, b - 1);
    }
}

proof fn lemma_month_starts(y: int)
    ensures
        month_start(y, 1) == 0,
        month_start(y, 2) == 31,
        month_start(y, 3) == 31 + month_len(y, 2),
        month_start(y, 4) == month_start(y, 3) + 31,
        month_start(y, 5) == month_start(y, 3) + 61,
        month_start(y, 6) == month_start(y, 3) + 92,
        month_start(y, 7) == month_start(y, 3) + 122,
        month_start(y, 8) == month_start(y, 3) + 153,
        month_start(y, 9) == month_start(y, 3) + 184,
        month_start(y, 10) == month_start(y, 3) + 214,
        month_start(y, 11) == month_start(y, 3) + 245,
        month_start(y, 12) == month_start(y, 3) + 275,
{
    reveal_with_fuel(month_start, 13);
}

/// Two dates that fall on the same day are the same date.
pub proof fn law_one_date_per_day(a: (int, int, int), b: (int, int, int), days: int)
    requires
        falls_on(a, days),
        falls_on(b, days),
    ensures
        a == b,
{
    lemma_month_starts(a.0);
    lemma_month_starts(b.0);
    if a.0 < b.0 {
        lemma_year_start_monotone(a.0 + 1, b.0);
    } else if b.0 < a.0 {
        lemma_year_start_monotone(b.0 + 1, a.0);
    }
}

/// The day after a date, by the calendar: the next day of its month, or the first of the next
/// month, or the first of January.
pub open spec fn next_day(date: (int, int, int)) -> (int, int, int) {
    if date.2 < month_len(date.0, date.1) {
        (date.0, date.1, date.2 + 1)
    } else if date.1 < 12 {
        (date.0, date.1 + 1, 1)
    } else {
        (date.0 + 1, 1, 1)
    }
}

/// Days are numbered from the first of January 1970, and the next day of the calendar has the
/// next number.
pub proof fn law_days_are_consecutive(date: (int, int, int), days: int)
    requires
        falls_on(date, days),
    ensures
        falls_on((1970, 1, 1), 0),
        falls_on(next_day(date), days + 1),
{
    lemma_month_starts(date.0);
    lemma_month_starts(date.0 + 1);
    lemma_month_starts(1970);
}

/// The day of a 400-year cycle (counted from a first of March) lies in the year of the cycle
/// that this quotient gives.
proof fn lemma_year_of_era(doe: u32)
    requires
        doe < 146097,
    ensures
        ({
            let yoe = (doe - doe / 1460 + doe / 36524 - doe / 146096) / 365;
            &&& 0 <= yoe <= 399
            &&& 365 * yoe + yoe / 4 - yoe / 100 <= doe
            &&& yoe < 399 ==> doe < 365 * (yoe + 1) + (yoe + 1) / 4 - (yoe + 1) / 100
        }),
{
    let n: u32 = (doe - doe / 1460 + doe / 36524 - doe / 146096) as u32;
    assert(doe - doe / 1460 + doe / 36524 - doe / 146096 >= 0 && doe - doe / 1460 + doe / 36524
        - doe / 146096 <= 146096);
    let y: u32 = n / 365;
    assert(y <= 399);
    let next: u32 = (y + 1) as u32;
    assert(365 * y + y / 4 <= doe + y / 100 && (y < 399 ==> doe + next / 100 < 365 * next + next
        / 4)) by (bit_vector)
        requires
            doe < 146097,
            n + doe / 1460 + doe / 146096 == doe + doe / 36524,
            y == n / 365,
            y <= 399,
            y + 1 == next + 0,
    ;
}

/// The days before a first of March, counted from that of year 0.
proof fn lemma_march(y: int)
    requires
        0 <= y,
    ensures
        365 * y + y / 4 - y / 100 + y / 400 == year_start(y) + year_len(y) - 366,
{
    lemma_year_start(y);
    lemma_step(y, 4);
    lemma_step(y, 100);
    lemma_step(y, 400);
    assert((y + 4) / 4 == y / 4 + 1);
    assert((y + 100) / 100 == y / 100 + 1);
    assert((y + 400) / 400 == y / 400 + 1);
    assert(y % 400 == 0 ==> y % 100 == 0) by {
        assert(y == 400 * (y / 400) + y % 400);
    }
    assert(y % 100 == 0 ==> y % 4 == 0) by {
        assert(y == 100 * (y / 100) + y % 100);
    }
}

/// Quotients of a year from those of its place in a 400-year cycle.
proof fn lemma_cycle(era: int, yoe: int)
    requires
        0 <= era,
        0 <= yoe <= 399,
    ensures
        (yoe + era * 400) / 4 == 100 * era + yoe / 4,
        (yoe + era * 400) / 100 == 4 * era + yoe / 100,
        (yoe + era * 400) / 400 == era,
{
}

/// Only a year that ends with a leap day has 366 days when counted from March.
proof fn lemma_last_day(era: int, yoe: int, doy: int)
    requires
        0 <= era,
        0 <= yoe <= 399,
        0 <= doy <= 365,
        yoe < 399 ==> doy < 365 + (yoe + 1) / 4 - (yoe + 1) / 100 - yoe / 4 + yoe / 100,
        doy == 365,
    ensures
        is_leap(yoe + era * 400 + 1),
{
    let k = yoe + 1;
    let y = yoe + era * 400 + 1;
    assert(y % 4 == k % 4);
    assert(y % 100 == k % 100);
    assert(y % 400 == k % 400);
    if yoe < 399 {
        assert(k / 4 - (k - 1) / 4 == (if k % 4 == 0 {
            1int
        } else {
            0int
        }));
        assert(k / 100 - (k - 1) / 100 == (if k % 100 == 0 {
            1int
        } else {
            0int
        }));
    }
}

/// The month and the day of a day of the year that is counted from March.
proof fn lemma_month_of_day(y: int, doy: int, mp: int, d: int)
    requires
        0 <= doy <= 365,
        doy == 365 ==> is_leap(y + 1),
        mp == (5 * doy + 2) / 153,
        d == doy - (153 * mp + 2) / 5 + 1,
    ensures
        0 <= mp <= 11,
        1 <= d,
        mp < 10 ==> d <= month_len(y, mp + 3) && month_start(y, mp + 3) + d - 1 == month_start(y, 3)
            + doy,
        mp >= 10 ==> d <= month_len(y + 1, mp - 9) && month_start(y + 1, mp - 9) + d - 1 == doy
            - 306,
{
    lemma_month_starts(y);
    lemma_month_starts(y + 1);
    if mp == 0 {
    } else if mp == 1 {
    } else if mp == 2 {
    } else if mp == 3 {
    } else if mp == 4 {
    } else if mp == 5 {
    } else if mp == 6 {
    } else if mp == 7 {
    } else if mp == 8 {
    } else if mp == 9 {
    } else if mp == 10 {
    } else {
    }
}

/// The year, month and day that many days after the first of January 1970.
///
/// Years are counted from the first of March, so that a leap day is the last of its year, and in
/// cycles of 400 years, which all have the same number of days.
pub fn civil_date(days: u64) -> (date: (u64, u64, u64))
    requires
        days <= u64::MAX / 86400,
    ensures
        falls_on((date.0 as int, date.1 as int, date.2 as int), days as int),
{
    let z: u64 = days + 719468;
    let era: u64 = z / 146097;
    let doe: u64 = z % 146097;
    proof {
        lemma_year_of_era(doe as u32);
    }
    let yoe: u64 = (doe - doe / 1460 + doe / 36524 - doe / 146096) / 365;
    let y: u64 = yoe + era * 400;
    let doy: u64 = doe - (365 * yoe + yoe / 4 - yoe / 100);
    proof {
        lemma_march(y as int);
        lemma_cycle(era as int, yoe as int);
        if doy == 365 {
            lemma_last_day(era as int, yoe as int, doy as int);
        }
    }
    let mp: u64 = (5 * doy + 2) / 153;
    proof {
        lemma_month_of_day(y as int, doy as int, mp as int, doy - (153 * mp + 2) / 5 + 1);
    }
    let d: u64 = doy - (153 * mp + 2) / 5 + 1;
    let m: u64 = if mp < 10 {
        mp + 3
    } else {
        mp - 9
    };
    let year: u64 = if m <= 2 {
        y + 1
    } else {
        y
    };
    proof {
        lemma_year_start(1970);
        lemma_month_starts(y as int);
        assert(year_start(y + 1) == year_start(y as int) + year_len(y as int));
    }
    (year, m, d)
}

/// The text of a point in Unix time (UTC), as `year-month-day hour:minute:second`.
pub open spec fn timestamp_text(secs: nat) -> Seq<char> {
    let date = date_of((secs / 86400) as int);
    let rem = secs % 86400;
    joined(
        text::zero_padded(date.0 as nat, 4),
        text::zero_padded(date.1 as nat, 2),
        text::zero_padded(date.2 as nat, 2),
        text::zero_padded(rem / 3600, 2),
        text::zero_padded(rem % 3600 / 60, 2),
        text::zero_padded(rem % 60, 2),
    )
}

/// The parts of a date and a time as one text.
pub open spec fn joined(
    year: Seq<char>,
    month: Seq<char>,
    day: Seq<char>,
    hour: Seq<char>,
    minute: Seq<char>,
    second: Seq<char>,
) -> Seq<char> {
    year + "-"@ + month + "-"@ + day + " "@ + hour + ":"@ + minute + ":"@ + second
}

/// Civil date and time (UTC) of a Unix timestamp.
pub fn format_unix_timestamp(secs: u64) -> (s: String)
    ensures
        s@ == timestamp_text(secs as nat),
{
    let days: u64 = secs / 86400;
    let rem: u64 = secs % 86400;
    let (year, month, day) = civil_date(days);
    proof {
        let found = (year as int, month as int, day as int);
        assert(falls_on(found, days as int));
        law_one_date_per_day(found, date_of(days as int), days as int);
    }
    let mut s: String = zero_padded_text(year, 4);
    s.append("-");
    s.append(zero_padded_text(month, 2).as_str());
    s.append("-");
    s.append(zero_padded_text(day, 2).as_str());
    s.append(" ");
    s.append(zero_padded_text(rem / 3600, 2).as_str());
    s.append(":");
    s.append(zero_padded_text(rem % 3600 / 60, 2).as_str());
    s.append(":");
    s.append(zero_padded_text(rem % 60, 2).as_str());
    s
}

// ---------------------------------------------------------------------------------------------
// The order of timestamps
// ---------------------------------------------------------------------------------------------

/// The start of the year 10000, in Unix time. From there on, years have five digits.
pub open spec fn year_10000() -> nat {
    253402300800
}

/// There is a date on every day from 1970 on.
proof fn lemma_date_of(days: int)
    requires
        0 <= days,
    ensures
        falls_on(date_of(days), days),
    decreases days,
{
    if days == 0 {
        lemma_month_starts(1970);
        assert(falls_on((1970, 1, 1), 0));
    } else {
        lemma_date_of(days - 1);
        law_days_are_consecutive(date_of(days - 1), days - 1);
    }
}

/// Of two dates the earlier one has the lesser year, or the same year and the lesser month, or
/// the same month and the lesser day.
pub proof fn law_dates_are_in_order(
    a: (int, int, int),
    b: (int, int, int),
    first: int,
    second: int,
)
    requires
        falls_on(a, first),
        falls_on(b, second),
        first < second,
    ensures
        a.0 < b.0 || a.0 == b.0 && (a.1 < b.1 || a.1 == b.1 && a.2 < b.2),
{
    lemma_month_starts(a.0);
    lemma_month_starts(b.0);
    if b.0 < a.0 {
        lemma_year_start_monotone(b.0 + 1, a.0);
    }
}

/// Before the year 10000 a date has at most four digits for the year, and two for the rest.
proof fn lemma_date_bounds(date: (int, int, int), days: int)
    requires
        falls_on(date, days),
        days < 2932897,
    ensures
        0 <= date.0 < 10000,
        1 <= date.1 <= 12,
        1 <= date.2 <= 31,
{
    if date.0 >= 10000 {
        lemma_year_start(10000);
        lemma_year_start(1970);
        lemma_year_start_monotone(10000, date.0);
        lemma_month_starts(date.0);
    }
}

proof fn lemma_two_digits(n: nat)
    requires
        n < 100,
    ensures
        text::zero_padded(n, 2) == seq![text::digit((n / 10) as int), text::digit((n % 10) as int)],
{
    reveal_with_fuel(text::decimal, 3);
    assert(text::zero_padded(n, 2) =~= seq![
        text::digit((n / 10) as int),
        text::digit((n % 10) as int),
    ]);
}

proof fn lemma_four_digits(n: nat)
    requires
        n < 10000,
    ensures
        text::zero_padded(n, 4) == text::zero_padded(n / 100, 2) + text::zero_padded(n % 100, 2),
{
    lemma_two_digits(n / 100);
    lemma_two_digits(n % 100);
    reveal_with_fuel(text::decimal, 5);
    assert(text::zero_padded(n, 4) =~= text::zero_padded(n / 100, 2) + text::zero_padded(
        n % 100,
        2,
    ));
}

/// Of two texts that go on, what differs first decides.
proof fn lemma_going_on(a: Seq<char>, b: Seq<char>, more_a: Seq<char>, more_b: Seq<char>)
    requires
        a.len() == b.len(),
    ensures
        rows::before(a, b) ==> rows::before(a + more_a, b + more_b),
        a == b && rows::before(more_a, more_b) ==> rows::before(a + more_a, b + more_b),
    decreases a.len(),
{
    if a.len() == 0 {
        assert(a + more_a =~= more_a);
        assert(b + more_b =~= more_b);
    } else {
        assert((a + more_a).skip(1) =~= a.skip(1) + more_a);
        assert((b + more_b).skip(1) =~= b.skip(1) + more_b);
        lemma_going_on(a.skip(1), b.skip(1), more_a, more_b);
    }
}

proof fn lemma_two_digits_in_order(m: nat, n: nat)
    requires
        m < n < 100,
    ensures
        rows::before(text::zero_padded(m, 2), text::zero_padded(n, 2)),
        text::zero_padded(m, 2).len() == 2,
        text::zero_padded(n, 2).len() == 2,
{
    lemma_two_digits(m);
    lemma_two_digits(n);
    reveal_with_fuel(rows::before, 3);
}

proof fn lemma_four_digits_in_order(m: nat, n: nat)
    requires
        m < n < 10000,
    ensures
        rows::before(text::zero_padded(m, 4), text::zero_padded(n, 4)),
{
    lemma_four_digits(m);
    lemma_four_digits(n);
    lemma_two_digits(m / 100);
    lemma_two_digits(n / 100);
    lemma_going_on(
        text::zero_padded(m / 100, 2),
        text::zero_padded(n / 100, 2),
        text::zero_padded(m % 100, 2),
        text::zero_padded(n % 100, 2),
    );
    if m / 100 < n / 100 {
        lemma_two_digits_in_order(m / 100, n / 100);
    } else {
        lemma_two_digits_in_order(m % 100, n % 100);
    }
}

/// Whether a text has the form `YYYY-MM-DD HH:MM:SS`, with digits for the letters.
pub open spec fn has_timestamp_form(s: Seq<char>) -> bool {
    &&& s.len() == 19
    &&& forall|i: int|
        0 <= i < 19 ==> if i == 4 || i == 7 {
            #[trigger] s[i] == '-'
        } else if i == 10 {
            s[i] == ' '
        } else if i == 13 || i == 16 {
            s[i] == ':'
        } else {
            '0' <= s[i] <= '9'
        }
}

/// Whether a text is made of that many digits.
pub open spec fn are_digits(s: Seq<char>, n: nat) -> bool {
    s.len() == n && forall|i: int| 0 <= i < n ==> '0' <= #[trigger] s[i] <= '9'
}

proof fn lemma_digits(n: nat)
    ensures
        n < 100 ==> are_digits(text::zero_padded(n, 2), 2),
        n < 10000 ==> are_digits(text::zero_padded(n, 4), 4),
{
    if n < 100 {
        lemma_two_digits(n);
    }
    if n < 10000 {
        lemma_four_digits(n);
        lemma_two_digits(n / 100);
        lemma_two_digits(n % 100);
    }
}

proof fn lemma_joined_form(
    year: Seq<char>,
    month: Seq<char>,
    day: Seq<char>,
    hour: Seq<char>,
    minute: Seq<char>,
    second: Seq<char>,
)
    requires
        are_digits(year, 4),
        are_digits(month, 2),
        are_digits(day, 2),
        are_digits(hour, 2),
        are_digits(minute, 2),
        are_digits(second, 2),
    ensures
        has_timestamp_form(joined(year, month, day, hour, minute, second)),
{
    reveal_strlit("-");
    reveal_strlit(" ");
    reveal_strlit(":");
    let date = year + "-"@ + month + "-"@ + day;
    assert(date.len() == 10);
    assert forall|i: int| 0 <= i < 10 implies if i == 4 || i == 7 {
        #[trigger] date[i] == '-'
    } else {
        '0' <= date[i] <= '9'
    } by {}
    let all = joined(year, month, day, hour, minute, second);
    assert(all.len() == 19);
    assert forall|i: int| 0 <= i < 10 implies #[trigger] all[i] == date[i] by {}
}

/// Before the year 10000 every timestamp has the same form.
pub proof fn law_timestamps_have_one_form(secs: nat)
    requires
        secs < year_10000(),
    ensures
        has_timestamp_form(timestamp_text(secs)),
{
    let days = (secs / 86400) as int;
    let rem = secs % 86400;
    lemma_date_of(days);
    let date = date_of(days);
    lemma_date_bounds(date, days);
    lemma_digits(date.0 as nat);
    lemma_digits(date.1 as nat);
    lemma_digits(date.2 as nat);
    lemma_digits(rem / 3600);
    lemma_digits(rem % 3600 / 60);
    lemma_digits(rem % 60);
    lemma_joined_form(
        text::zero_padded(date.0 as nat, 4),
        text::zero_padded(date.1 as nat, 2),
        text::zero_padded(date.2 as nat, 2),
        text::zero_padded(rem / 3600, 2),
        text::zero_padded(rem % 3600 / 60, 2),
        text::zero_padded(rem % 60, 2),
    );
}

/// Whether numbers written with `width` digits are equal or in the order of the numbers.
spec fn in_order(m: nat, n: nat, width: nat) -> bool {
    let (a, b) = (text::zero_padded(m, width), text::zero_padded(n, width));
    &&& a.len() == width
    &&& b.len() == width
    &&& m < n ==> rows::before(a, b)
}

proof fn lemma_in_order(m: nat, n: nat)
    ensures
        m < 100 && n < 100 ==> in_order(m, n, 2),
        m < 10000 && n < 10000 ==> in_order(m, n, 4),
{
    lemma_digits(m);
    lemma_digits(n);
    if m < n {
        if n < 100 {
            lemma_two_digits_in_order(m, n);
        }
        if n < 10000 {
            lemma_four_digits_in_order(m, n);
        }
    }
}

proof fn lemma_joined_in_order(a: Seq<nat>, b: Seq<nat>, k: int)
    requires
        a.len() == 6 && b.len() == 6,
        0 <= k < 6,
        in_order(a[0], b[0], 4),
        forall|i: int| 1 <= i < 6 ==> in_order(#[trigger] a[i], b[i], 2),
        forall|i: int| 0 <= i < k ==> #[trigger] a[i] == b[i],
        a[k] < b[k],
    ensures
        rows::before(written(a), written(b)),
{
    let x = text::zero_padded(a[0], 4);
    let y = text::zero_padded(b[0], 4);
    assert(in_order(a[1], b[1], 2) && in_order(a[2], b[2], 2) && in_order(a[3], b[3], 2)
        && in_order(a[4], b[4], 2) && in_order(a[5], b[5], 2));
    lemma_going_on(x, y, "-"@, "-"@);
    let (x, y) = (x + "-"@, y + "-"@);
    lemma_going_on(x, y, text::zero_padded(a[1], 2), text::zero_padded(b[1], 2));
    let (x, y) = (x + text::zero_padded(a[1], 2), y + text::zero_padded(b[1], 2));
    lemma_going_on(x, y, "-"@, "-"@);
    let (x, y) = (x + "-"@, y + "-"@);
    lemma_going_on(x, y, text::zero_padded(a[2], 2), text::zero_padded(b[2], 2));
    let (x, y) = (x + text::zero_padded(a[2], 2), y + text::zero_padded(b[2], 2));
    lemma_going_on(x, y, " "@, " "@);
    let (x, y) = (x + " "@, y + " "@);
    lemma_going_on(x, y, text::zero_padded(a[3], 2), text::zero_padded(b[3], 2));
    let (x, y) = (x + text::zero_padded(a[3], 2), y + text::zero_padded(b[3], 2));
    lemma_going_on(x, y, ":"@, ":"@);
    let (x, y) = (x + ":"@, y + ":"@);
    lemma_going_on(x, y, text::zero_padded(a[4], 2), text::zero_padded(b[4], 2));
    let (x, y) = (x + text::zero_padded(a[4], 2), y + text::zero_padded(b[4], 2));
    lemma_going_on(x, y, ":"@, ":"@);
    let (x, y) = (x + ":"@, y + ":"@);
    lemma_going_on(x, y, text::zero_padded(a[5], 2), text::zero_padded(b[5], 2));
}

/// Six numbers written as a date and a time.
spec fn written(n: Seq<nat>) -> Seq<char> {
    joined(
        text::zero_padded(n[0], 4),
        text::zero_padded(n[1], 2),
        text::zero_padded(n[2], 2),
        text::zero_padded(n[3], 2),
        text::zero_padded(n[4], 2),
        text::zero_padded(n[5], 2),
    )
}

/// Year, month, day, hour, minute and second of a point in Unix time.
spec fn numbers(secs: nat) -> Seq<nat> {
    let date = date_of((secs / 86400) as int);
    let rem = secs % 86400;
    seq![
        date.0 as nat,
        date.1 as nat,
        date.2 as nat,
        rem / 3600,
        rem % 3600 / 60,
        rem % 60,
    ]
}

proof fn lemma_numbers(secs: nat)
    requires
        secs < year_10000(),
    ensures
        numbers(secs).len() == 6,
        numbers(secs)[0] < 10000,
        forall|k: int| 1 <= k < 6 ==> #[trigger] numbers(secs)[k] < 100,
{
    let days = (secs / 86400) as int;
    lemma_date_of(days);
    lemma_date_bounds(date_of(days), days);
}

/// Seconds of the same day differ first in the hour, the minute or the second.
proof fn lemma_time_of_day(x: nat, y: nat)
    requires
        x < y < 86400,
    ensures
        x / 3600 <= y / 3600,
        x / 3600 == y / 3600 ==> x % 3600 / 60 <= y % 3600 / 60,
        x / 3600 == y / 3600 && x % 3600 / 60 == y % 3600 / 60 ==> x % 60 < y % 60,
{
}

/// The place of the first number that differs between two seconds.
proof fn lemma_first_difference(a: nat, b: nat) -> (k: int)
    requires
        a < b < year_10000(),
    ensures
        0 <= k < 6,
        forall|i: int| 0 <= i < k ==> #[trigger] numbers(a)[i] == numbers(b)[i],
        numbers(a)[k] < numbers(b)[k],
{
    let (i, j) = ((a / 86400) as int, (b / 86400) as int);
    lemma_date_of(i);
    lemma_date_of(j);
    let (p, q) = (date_of(i), date_of(j));
    let (m, n) = (numbers(a), numbers(b));
    if i < j {
        law_dates_are_in_order(p, q, i, j);
        if p.0 < q.0 {
            0
        } else if p.1 < q.1 {
            1
        } else {
            2
        }
    } else {
        lemma_time_of_day(a % 86400, b % 86400);
        if m[3] < n[3] {
            3
        } else if m[4] < n[4] {
            4
        } else {
            5
        }
    }
}

/// Before the year 10000 an earlier second has a timestamp that comes first in the order of texts,
/// so that no two seconds look alike.
pub proof fn law_timestamps_are_in_order(a: nat, b: nat)
    requires
        a < b < year_10000(),
    ensures
        rows::before(timestamp_text(a), timestamp_text(b)),
        timestamp_text(a) != timestamp_text(b),
{
    let (m, n) = (numbers(a), numbers(b));
    lemma_numbers(a);
    lemma_numbers(b);
    assert forall|k: int| 1 <= k < 6 implies in_order(#[trigger] m[k], n[k], 2) by {
        lemma_in_order(m[k], n[k]);
    }
    lemma_in_order(m[0], n[0]);
    let k = lemma_first_difference(a, b);
    lemma_joined_in_order(m, n, k);
    assert(timestamp_text(a) == written(m) && timestamp_text(b) == written(n));
    rows::lemma_before_irreflexive(timestamp_text(a));
}

} // verus!
