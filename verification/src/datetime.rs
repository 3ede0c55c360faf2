use vstd::prelude::*;
use vstd::arithmetic::div_mod::{
    lemma_fundamental_div_mod, lemma_fundamental_div_mod_converse_div,
    lemma_fundamental_div_mod_converse_mod,
};

use crate::text::{chars_equal, chars_of, decimal, push_decimal, string_of};

verus! {

// ---------------------------------------------------------------------------
// The proleptic Gregorian calendar, counted in days from 1970-01-01.
// ---------------------------------------------------------------------------

pub open spec fn is_leap(y: int) -> bool {
    (y % 4 == 0 && y % 100 != 0) || y % 400 == 0
}

pub open spec fn year_len(y: int) -> int {
    if is_leap(y) { 366 } else { 365 }
}

pub open spec fn month_len(y: int, m: int) -> int {
    if m == 2 {
        if is_leap(y) { 29 } else { 28 }
    } else if m == 4 || m == 6 || m == 9 || m == 11 {
        30
    } else {
        31
    }
}

/// How many of the years `1..=y` are leap years (the floor divisions carry
/// the count on below year one, where year zero is a leap year).
pub open spec fn leaps_through(y: int) -> int {
    y / 4 - y / 100 + y / 400
}

/// Days from 1970-01-01 to January 1 of year `y`.
pub open spec fn days_before_year(y: int) -> int {
    365 * (y - 1970) + leaps_through(y - 1) - leaps_through(1969)
}

/// Days from January 1 to the first of month `m` of year `y`.
pub open spec fn days_before_month(y: int, m: int) -> int
    decreases m,
{
    if m <= 1 { 0 } else { days_before_month(y, m - 1) + month_len(y, m - 1) }
}

pub open spec fn valid_date(y: int, m: int, d: int) -> bool {
    1 <= m <= 12 && 1 <= d <= month_len(y, m)
}

/// Days from 1970-01-01 to the date `y-m-d`.
pub open spec fn days_from_civil(y: int, m: int, d: int) -> int {
    days_before_year(y) + days_before_month(y, m) + d - 1
}

/// The calendar date of a day, counted from 1970-01-01.
pub open spec fn civil_of(days: int) -> (int, int, int) {
    choose|t: (int, int, int)| valid_date(t.0, t.1, t.2) && days_from_civil(t.0, t.1, t.2) == days
}

// ---------------------------------------------------------------------------
// Lemmas on floor division and on the calendar.
// ---------------------------------------------------------------------------

proof fn lemma_div_mod_of(x: int, d: int, q: int, r: int)
    requires
        d > 0,
        0 <= r < d,
        x == q * d + r,
    ensures
        x / d == q,
        x % d == r,
{
    lemma_fundamental_div_mod_converse_div(x, d, q, r);
    lemma_fundamental_div_mod_converse_mod(x, d, q, r);
}

/// Stepping `x` by one changes `x / d` exactly when `d` divides `x`.
proof fn lemma_floor_step(x: int, d: int)
    requires
        d > 0,
    ensures
        x / d - (x - 1) / d == (if x % d == 0 { 1int } else { 0int }),
{
    lemma_fundamental_div_mod(x - 1, d);
    let q = (x - 1) / d;
    let r = (x - 1) % d;
    assert(x - 1 == d * q + r);
    assert(d * q == q * d) by (nonlinear_arith);
    if r == d - 1 {
        assert(x == (q + 1) * d + 0) by (nonlinear_arith)
            requires
                x - 1 == q * d + r,
                r == d - 1,
        ;
        lemma_div_mod_of(x, d, q + 1, 0);
    } else {
        lemma_div_mod_of(x, d, q, r + 1);
    }
}

proof fn lemma_divides_down(y: int, big: int, small: int)
    requires
        small > 0,
        big > 0,
        big % small == 0,
        y % big == 0,
    ensures
        y % small == 0,
{
    lemma_fundamental_div_mod(y, big);
    lemma_fundamental_div_mod(big, small);
    let a = y / big;
    let b = big / small;
    assert(y == (a * b) * small + 0) by (nonlinear_arith)
        requires
            y == big * a + 0,
            big == small * b + 0,
    ;
    lemma_div_mod_of(y, small, a * b, 0);
}

/// The first of January of the next year comes `year_len(y)` days later.
pub proof fn lemma_year_step(y: int)
    ensures
        days_before_year(y + 1) == days_before_year(y) + year_len(y),
{
    lemma_floor_step(y, 4);
    lemma_floor_step(y, 100);
    lemma_floor_step(y, 400);
    if y % 400 == 0 {
        lemma_divides_down(y, 400, 100);
        lemma_divides_down(y, 400, 4);
    } else if y % 100 == 0 {
        lemma_divides_down(y, 100, 4);
    }
}

/// Four hundred years hold 146097 days.
proof fn lemma_era_start(e: int)
    ensures
        days_before_year(1600 + 400 * e) == -135140 + 146097 * e,
{
    lemma_div_mod_of(1599 + 400 * e, 4, 399 + 100 * e, 3);
    lemma_div_mod_of(1599 + 400 * e, 100, 15 + 4 * e, 99);
    lemma_div_mod_of(1599 + 400 * e, 400, 3 + e, 399);
    lemma_div_mod_of(1969, 4, 492, 1);
    lemma_div_mod_of(1969, 100, 19, 69);
    lemma_div_mod_of(1969, 400, 4, 369);
}

proof fn lemma_months_fill_year(y: int)
    ensures
        days_before_month(y, 13) == year_len(y),
        forall|m: int| 1 <= m <= 12 ==> days_before_month(y, m) + month_len(y, m) == #[trigger] days_before_month(y, m + 1),
{
    reveal_with_fuel(days_before_month, 13);
}

proof fn lemma_months_monotone(y: int, m1: int, m2: int)
    requires
        1 <= m1 <= m2,
    ensures
        days_before_month(y, m1) <= days_before_month(y, m2),
    decreases m2 - m1,
{
    if m1 < m2 {
        lemma_months_monotone(y, m1, m2 - 1);
    }
}

proof fn lemma_years_monotone(y1: int, y2: int)
    requires
        y1 <= y2,
    ensures
        days_before_year(y1) + 365 * (y2 - y1) <= days_before_year(y2),
    decreases y2 - y1,
{
    if y1 < y2 {
        lemma_years_monotone(y1, y2 - 1);
        lemma_year_step(y2 - 1);
    }
}

/// A valid date falls inside its own year.
proof fn lemma_date_in_year(y: int, m: int, d: int)
    requires
        valid_date(y, m, d),
    ensures
        days_before_year(y) <= days_from_civil(y, m, d) < days_before_year(y) + year_len(y),
        days_before_month(y, m) <= days_from_civil(y, m, d) - days_before_year(y) < days_before_month(y, m + 1),
{
    lemma_months_fill_year(y);
    lemma_months_monotone(y, 1, m);
    lemma_months_monotone(y, m + 1, 13);
}

/// Distinct valid dates fall on distinct days: the date of a day is unique.
pub proof fn civil_date_is_unique(y1: int, m1: int, d1: int, y2: int, m2: int, d2: int)
    requires
        valid_date(y1, m1, d1),
        valid_date(y2, m2, d2),
        days_from_civil(y1, m1, d1) == days_from_civil(y2, m2, d2),
    ensures
        y1 == y2 && m1 == m2 && d1 == d2,
{
    lemma_date_in_year(y1, m1, d1);
    lemma_date_in_year(y2, m2, d2);
    if y1 < y2 {
        lemma_years_monotone(y1 + 1, y2);
        lemma_year_step(y1);
    } else if y2 < y1 {
        lemma_years_monotone(y2 + 1, y1);
        lemma_year_step(y2);
    }
    assert(y1 == y2);
    if m1 < m2 {
        lemma_months_monotone(y1, m1 + 1, m2);
    } else if m2 < m1 {
        lemma_months_monotone(y1, m2 + 1, m1);
    }
}

proof fn lemma_civil_of(days: int, y: int, m: int, d: int)
    requires
        valid_date(y, m, d),
        days_from_civil(y, m, d) == days,
    ensures
        civil_of(days) == (y, m, d),
{
    let w = (y, m, d);
    assert(valid_date(w.0, w.1, w.2) && days_from_civil(w.0, w.1, w.2) == days);
    let t = civil_of(days);
    assert(valid_date(t.0, t.1, t.2) && days_from_civil(t.0, t.1, t.2) == days);
    civil_date_is_unique(t.0, t.1, t.2, y, m, d);
}

// ---------------------------------------------------------------------------
// Executable calendar arithmetic.
// ---------------------------------------------------------------------------

/// Floor division and its non-negative remainder.
fn floor_div_mod(a: i128, b: i128) -> (res: (i128, i128))
    requires
        b > 0,
        -0x1_0000_0000_0000_0000_0000_0000 < a < 0x1_0000_0000_0000_0000_0000_0000,
    ensures
        res.0 == a / b,
        res.1 == a % b,
        0 <= res.1 < b,
        a == res.0 * b + res.1,
{
    let ub = b as u128;
    if a >= 0 {
        let ua = a as u128;
        let q = (ua / ub) as i128;
        let r = (ua % ub) as i128;
        proof {
            lemma_fundamental_div_mod(a as int, b as int);
            assert(a == q * b + r) by (nonlinear_arith)
                requires
                    a == b * (a / b) + (a % b),
                    q == a / b,
                    r == a % b,
            ;
        }
        (q, r)
    } else {
        let na = (-a) as u128;
        let qq = na / ub;
        let rr = na % ub;
        proof {
            lemma_fundamental_div_mod(na as int, b as int);
        }
        let qq_i = qq as i128;
        let rr_i = rr as i128;
        if rr == 0 {
            proof {
                assert(a == (-qq_i) * b + 0) by (nonlinear_arith)
                    requires
                        -a == b * qq_i + rr_i,
                        rr_i == 0,
                ;
                lemma_div_mod_of(a as int, b as int, -qq_i, 0);
            }
            (-qq_i, 0)
        } else {
            proof {
                assert(a == (-qq_i - 1) * b + (b - rr_i)) by (nonlinear_arith)
                    requires
                        -a == b * qq_i + rr_i,
                ;
                lemma_div_mod_of(a as int, b as int, -qq_i - 1, b - rr_i);
            }
            (-qq_i - 1, b - rr_i)
        }
    }
}

fn is_leap_in_era(k: i128) -> (r: bool)
    requires
        0 <= k,
    ensures
        forall|e: int| r == #[trigger] is_leap(1600 + 400 * e + k),
{
    let r = k % 4 == 0 && (k % 100 != 0 || k % 400 == 0);
    proof {
        assert forall|e: int| r == #[trigger] is_leap(1600 + 400 * e + k) by {
            let y = 1600 + 400 * e + k;
            lemma_fundamental_div_mod(k as int, 4);
            lemma_fundamental_div_mod(k as int, 100);
            lemma_fundamental_div_mod(k as int, 400);
            lemma_div_mod_of(y, 4, 400 + 100 * e + (k as int) / 4, (k as int) % 4);
            lemma_div_mod_of(y, 100, 16 + 4 * e + (k as int) / 100, (k as int) % 100);
            lemma_div_mod_of(y, 400, 4 + e + (k as int) / 400, (k as int) % 400);
        }
    }
    r
}

/// The calendar date `(year, month, day)` of a day counted from 1970-01-01.
fn civil_from_days(days: i128) -> (res: (i128, u8, u8))
    requires
        -0x1_0000_0000_0000_0000 < days < 0x1_0000_0000_0000_0000,
    ensures
        valid_date(res.0 as int, res.1 as int, res.2 as int),
        days_from_civil(res.0 as int, res.1 as int, res.2 as int) == days,
        -0x1_0000_0000_0000_0000 < res.0 < 0x1_0000_0000_0000_0000,
{
    let (era, r0) = floor_div_mod(days + 135140, 146097);
    let ghost e = era as int;
    proof {
        assert(-0x1_0000_0000_0000 < e < 0x1_0000_0000_0000);
    }
    let start: i128 = 1600 + 400 * era;
    let mut k: i128 = 0;
    let mut r: i128 = r0;
    proof {
        lemma_era_start(e);
        assert(era * 146097 == 146097 * e);
    }
    loop
        invariant
            0 <= k <= 400,
            0 <= r,
            r + 365 * k <= r0,
            r0 < 146097,
            start == 1600 + 400 * e,
            -0x1_0000_0000_0000 < e < 0x1_0000_0000_0000,
            days_before_year(start + k) + r == days,
        ensures
            0 <= k <= 400,
            0 <= r < year_len(start + k),
            days_before_year(start + k) + r == days,
        decreases r,
    {
        let leap = is_leap_in_era(k);
        proof {
            assert(leap == is_leap(1600 + 400 * e + k));
        }
        let len: i128 = if leap { 366 } else { 365 };
        if r < len {
            break;
        }
        proof {
            lemma_year_step(start + k);
        }
        r = r - len;
        k = k + 1;
    }
    let year = start + k;
    let leap = is_leap_in_era(k);
    proof {
        assert(leap == is_leap(1600 + 400 * e + k));
        lemma_months_fill_year(year as int);
    }
    let mut m: u8 = 1;
    loop
        invariant
            1 <= m <= 12,
            0 <= r,
            r + days_before_month(year as int, m as int) < year_len(year as int),
            days_before_year(year as int) + days_before_month(year as int, m as int) + r == days,
            leap == is_leap(year as int),
        ensures
            1 <= m <= 12,
            0 <= r < month_len(year as int, m as int),
            days_before_year(year as int) + days_before_month(year as int, m as int) + r == days,
        decreases 12 - m,
    {
        let len: i128 = if m == 2 {
            if leap { 29 } else { 28 }
        } else if m == 4 || m == 6 || m == 9 || m == 11 {
            30
        } else {
            31
        };
        if r < len {
            break;
        }
        proof {
            lemma_months_fill_year(year as int);
            if m == 12 {
                assert(days_before_month(year as int, 13) == days_before_month(year as int, 12) + month_len(year as int, 12));
            }
        }
        r = r - len;
        m = m + 1;
    }
    (year, m, (r + 1) as u8)
}

// ---------------------------------------------------------------------------
// Rendering a timestamp.
// ---------------------------------------------------------------------------

/// Which clock fields a timestamp shows.
#[derive(Clone, Copy, Debug, PartialEq, Eq, Structural)]
pub enum DateTimeFormat {
    /// `YYYY-MM-DD HH:MM`
    YmdHm,
    /// `YYYY-MM-DD HH:MM:SS`
    YmdHms,
}

/// The zone in which timestamps are shown.
#[derive(Clone, Copy, Debug, PartialEq, Eq, Structural)]
pub enum Timezone {
    Utc,
    /// A fixed offset east of UTC, in seconds.
    Fixed(i32),
}

pub open spec fn offset_seconds(tz: Timezone) -> int {
    match tz {
        Timezone::Utc => 0,
        Timezone::Fixed(s) => s as int,
    }
}

/// The decimal notation of `n`, padded with zeros on the left to `width`.
pub open spec fn padded(n: nat, width: nat) -> Seq<char> {
    let digits = decimal(n);
    if digits.len() < width {
        Seq::new((width - digits.len()) as nat, |i: int| '0') + digits
    } else {
        digits
    }
}

/// A year as four digits at least; a sign before years outside `0..=9999`.
pub open spec fn year_text(y: int) -> Seq<char> {
    if y < 0 {
        seq!['-'] + padded((-y) as nat, 4)
    } else if y > 9999 {
        seq!['+'] + decimal(y as nat)
    } else {
        padded(y as nat, 4)
    }
}

pub open spec fn date_text(y: int, m: int, d: int) -> Seq<char> {
    year_text(y) + seq!['-'] + padded(m as nat, 2) + seq!['-'] + padded(d as nat, 2)
}

/// The time of day, `second_of_day` seconds after midnight.
pub open spec fn clock_text(second_of_day: int, format: DateTimeFormat) -> Seq<char> {
    let hm = padded((second_of_day / 3600) as nat, 2) + seq![':'] + padded(
        ((second_of_day % 3600) / 60) as nat,
        2,
    );
    match format {
        DateTimeFormat::YmdHm => hm,
        DateTimeFormat::YmdHms => hm + seq![':'] + padded((second_of_day % 60) as nat, 2),
    }
}

/// An offset from UTC as it follows the word `UTC`: nothing for zero, else a
/// sign (a minus sign for offsets west of UTC), the hours, and the minutes
/// and seconds where they are not zero.
pub open spec fn offset_text(s: int) -> Seq<char> {
    if s == 0 {
        seq![]
    } else {
        let a = if s < 0 { -s } else { s };
        let sign = if s > 0 { '+' } else { '\u{2212}' };
        let rest = if a % 3600 == 0 {
            seq![]
        } else {
            seq![':'] + padded(((a % 3600) / 60) as nat, 2) + (if a % 60 == 0 {
                seq![]
            } else {
                seq![':'] + padded((a % 60) as nat, 2)
            })
        };
        seq![sign] + decimal((a / 3600) as nat) + rest
    }
}

pub open spec fn timezone_label(tz: Timezone) -> Seq<char> {
    seq!['U', 'T', 'C'] + offset_text(offset_seconds(tz))
}

/// The text of a timestamp given in seconds since the Unix epoch, shown in
/// `tz`, with the zone's label after it when `show_timezone` is set.
pub open spec fn datetime_text(
    unix_seconds: int,
    format: DateTimeFormat,
    tz: Timezone,
    show_timezone: bool,
) -> Seq<char> {
    let local = unix_seconds + offset_seconds(tz);
    let c = civil_of(local / 86400);
    date_text(c.0, c.1, c.2) + seq![' '] + clock_text(local % 86400, format) + (if show_timezone {
        seq![' '] + timezone_label(tz)
    } else {
        seq![]
    })
}

fn push_padded(out: &mut Vec<char>, n: u64, width: usize)
    ensures
        final(out)@ == old(out)@ + padded(n as nat, width as nat),
{
    let mut digits: Vec<char> = Vec::new();
    push_decimal(&mut digits, n);
    assert(digits@ =~= decimal(n as nat));
    let len = digits.len();
    let mut i: usize = len;
    let ghost base = out@;
    while i < width
        invariant
            len == decimal(n as nat).len(),
            len <= i,
            i <= width || i == len,
            out@ == base + Seq::new((i - len) as nat, |j: int| '0'),
        decreases width - i,
    {
        out.push('0');
        i = i + 1;
        assert(out@ =~= base + Seq::new((i - len) as nat, |j: int| '0'));
    }
    out.append(&mut digits);
    proof {
        if len < width {
            assert(out@ =~= base + padded(n as nat, width as nat));
        } else {
            assert(out@ =~= base + padded(n as nat, width as nat));
        }
    }
}

fn push_year(out: &mut Vec<char>, y: i128)
    requires
        -0x1_0000_0000_0000_0000 < y < 0x1_0000_0000_0000_0000,
    ensures
        final(out)@ == old(out)@ + year_text(y as int),
{
    let ghost base = out@;
    if y < 0 {
        out.push('-');
        push_padded(out, (-y) as u64, 4);
        assert(out@ =~= base + year_text(y as int));
    } else if y > 9999 {
        out.push('+');
        push_decimal(out, y as u64);
        assert(out@ =~= base + year_text(y as int));
    } else {
        push_padded(out, y as u64, 4);
    }
}

fn push_offset(out: &mut Vec<char>, s: i32)
    ensures
        final(out)@ == old(out)@ + offset_text(s as int),
{
    if s == 0 {
        assert(out@ =~= old(out)@ + offset_text(s as int));
        return ;
    }
    let ghost base = out@;
    let a: u64 = if s < 0 { (-(s as i64)) as u64 } else { s as u64 };
    out.push(if s > 0 { '+' } else { '\u{2212}' });
    push_decimal(out, a / 3600);
    let ghost head = out@;
    if a % 3600 != 0 {
        out.push(':');
        push_padded(out, (a % 3600) / 60, 2);
        if a % 60 != 0 {
            out.push(':');
            push_padded(out, a % 60, 2);
        }
    }
    proof {
        let sign = if s > 0 { '+' } else { '\u{2212}' };
        assert(head =~= base + (seq![sign] + decimal((a / 3600) as nat)));
        assert(out@ =~= base + offset_text(s as int));
    }
}

fn push_label(out: &mut Vec<char>, tz: Timezone)
    ensures
        final(out)@ == old(out)@ + timezone_label(tz),
{
    let ghost base = out@;
    out.push('U');
    out.push('T');
    out.push('C');
    match tz {
        Timezone::Utc => {},
        Timezone::Fixed(s) => push_offset(out, s),
    }
    assert(out@ =~= base + timezone_label(tz));
}

/// Renders a timestamp, given in seconds since the Unix epoch, in `timezone`.
pub fn format_datetime(
    unix_seconds: i64,
    format: DateTimeFormat,
    timezone: Timezone,
    show_timezone: bool,
) -> (r: String)
    ensures
        r@ == datetime_text(unix_seconds as int, format, timezone, show_timezone),
{
    let offset: i128 = match timezone {
        Timezone::Utc => 0,
        Timezone::Fixed(s) => s as i128,
    };
    let local: i128 = unix_seconds as i128 + offset;
    let (days, second_of_day) = floor_div_mod(local, 86400);
    proof {
        assert(-0x1_0000_0000_0000_0000 < days < 0x1_0000_0000_0000_0000);
    }
    let (y, m, d) = civil_from_days(days);
    proof {
        lemma_civil_of(days as int, y as int, m as int, d as int);
    }
    let mut out: Vec<char> = Vec::new();
    push_year(&mut out, y);
    out.push('-');
    push_padded(&mut out, m as u64, 2);
    out.push('-');
    push_padded(&mut out, d as u64, 2);
    let ghost date_part = out@;
    assert(date_part =~= date_text(y as int, m as int, d as int));
    out.push(' ');
    let sod = second_of_day as u64;
    push_padded(&mut out, sod / 3600, 2);
    out.push(':');
    push_padded(&mut out, (sod % 3600) / 60, 2);
    match format {
        DateTimeFormat::YmdHm => {},
        DateTimeFormat::YmdHms => {
            out.push(':');
            push_padded(&mut out, sod % 60, 2);
        },
    }
    let ghost clock_part = out@;
    assert(clock_part =~= date_part + seq![' '] + clock_text(second_of_day as int, format));
    if show_timezone {
        out.push(' ');
        push_label(&mut out, timezone);
    }
    assert(out@ =~= datetime_text(unix_seconds as int, format, timezone, show_timezone));
    string_of(out)
}

/// Renders a timestamp in UTC, with its `UTC` label.
pub fn format_datetime_utc(unix_seconds: i64, format: DateTimeFormat) -> (r: String)
    ensures
        r@ == datetime_text(unix_seconds as int, format, Timezone::Utc, true),
{
    format_datetime(unix_seconds, format, Timezone::Utc, true)
}

// ---------------------------------------------------------------------------
// Settings keys of time zones.
// ---------------------------------------------------------------------------

pub open spec fn is_digit(c: char) -> bool {
    '0' <= c && c <= '9'
}

/// The number that a run of decimal digits denotes.
pub open spec fn digits_value(s: Seq<char>) -> int
    decreases s.len(),
{
    if s.len() == 0 {
        0
    } else {
        digits_value(s.drop_last()) * 10 + (s.last() as int - 48)
    }
}

pub open spec fn offset_magnitude(s: i32) -> nat {
    if s < 0 { (-(s as int)) as nat } else { s as nat }
}

/// The key under which a time zone is stored in the settings: `utc`, or
/// `utc` followed by the offset's sign and its number of seconds.
pub open spec fn key_text(tz: Timezone) -> Seq<char> {
    match tz {
        Timezone::Utc => seq!['u', 't', 'c'],
        Timezone::Fixed(s) => seq!['u', 't', 'c', if s < 0 { '-' } else { '+' }] + decimal(
            offset_magnitude(s),
        ),
    }
}

/// The time zone stored under a key, if any.
pub open spec fn timezone_of_key(key: Seq<char>) -> Option<Timezone> {
    if exists|tz: Timezone| key_text(tz) == key {
        Some(choose|tz: Timezone| key_text(tz) == key)
    } else {
        None
    }
}

proof fn lemma_decimal_digits(n: nat)
    ensures
        decimal(n).len() >= 1,
        forall|i: int| 0 <= i < decimal(n).len() ==> is_digit(#[trigger] decimal(n)[i]),
        digits_value(decimal(n)) == n,
    decreases n,
{
    let d = decimal(n);
    if n >= 10 {
        lemma_decimal_digits(n / 10);
        lemma_fundamental_div_mod(n as int, 10);
        assert(d.drop_last() =~= decimal(n / 10));
        assert(d.last() as int == 48 + n % 10);
        assert(digits_value(d) == digits_value(d.drop_last()) * 10 + (d.last() as int - 48));
    } else {
        assert(d.last() as int == 48 + n);
        assert(d.drop_last() =~= Seq::<char>::empty());
        assert(digits_value(d.drop_last()) == 0);
        assert(digits_value(d) == digits_value(d.drop_last()) * 10 + (d.last() as int - 48));
    }
}

proof fn lemma_digits_value_prefix(s: Seq<char>, i: int)
    requires
        0 <= i <= s.len(),
        forall|j: int| 0 <= j < s.len() ==> is_digit(#[trigger] s[j]),
    ensures
        0 <= digits_value(s.subrange(0, i)) <= digits_value(s),
    decreases s.len(),
{
    if s.len() > 0 {
        if i == s.len() {
            assert(s.subrange(0, i) =~= s);
            lemma_digits_value_prefix(s.drop_last(), i - 1);
        } else {
            lemma_digits_value_prefix(s.drop_last(), i);
            assert(s.drop_last().subrange(0, i) =~= s.subrange(0, i));
            lemma_digits_value_prefix(s.drop_last(), s.len() - 1);
            assert(s.drop_last().subrange(0, s.len() - 1) =~= s.drop_last());
        }
    }
}

/// Distinct time zones have distinct keys.
pub proof fn timezone_keys_are_distinct(a: Timezone, b: Timezone)
    requires
        key_text(a) == key_text(b),
    ensures
        a == b,
{
    match (a, b) {
        (Timezone::Fixed(x), Timezone::Fixed(y)) => {
            let dx = decimal(offset_magnitude(x));
            let dy = decimal(offset_magnitude(y));
            lemma_decimal_digits(offset_magnitude(x));
            lemma_decimal_digits(offset_magnitude(y));
            let sx = if x < 0 { '-' } else { '+' };
            let sy = if y < 0 { '-' } else { '+' };
            assert(key_text(a) == seq!['u', 't', 'c', sx] + dx);
            assert(key_text(b) == seq!['u', 't', 'c', sy] + dy);
            assert(key_text(a)[3] == sx);
            assert(key_text(b)[3] == sy);
            assert(key_text(a).subrange(4, key_text(a).len() as int) =~= dx);
            assert(key_text(b).subrange(4, key_text(b).len() as int) =~= dy);
            assert(offset_magnitude(x) == offset_magnitude(y));
        },
        (Timezone::Fixed(x), Timezone::Utc) => {
            lemma_decimal_digits(offset_magnitude(x));
            assert(key_text(a).len() == 4 + decimal(offset_magnitude(x)).len());
            assert(key_text(b).len() == 3);
        },
        (Timezone::Utc, Timezone::Fixed(y)) => {
            lemma_decimal_digits(offset_magnitude(y));
            assert(key_text(b).len() == 4 + decimal(offset_magnitude(y)).len());
            assert(key_text(a).len() == 3);
        },
        (Timezone::Utc, Timezone::Utc) => {},
    }
}

/// Reading back the key of a time zone gives that time zone.
pub proof fn timezone_key_round_trips(tz: Timezone)
    ensures
        timezone_of_key(key_text(tz)) == Some(tz),
{
    let k = key_text(tz);
    assert(key_text(tz) == k);
    let c = choose|t: Timezone| key_text(t) == k;
    timezone_keys_are_distinct(c, tz);
}

fn key_chars(tz: Timezone) -> (r: Vec<char>)
    ensures
        r@ == key_text(tz),
{
    let mut out: Vec<char> = vec!['u', 't', 'c'];
    match tz {
        Timezone::Utc => {},
        Timezone::Fixed(s) => {
            out.push(if s < 0 { '-' } else { '+' });
            let a: u64 = if s < 0 { (-(s as i64)) as u64 } else { s as u64 };
            push_decimal(&mut out, a);
        },
    }
    assert(out@ =~= key_text(tz));
    out
}

impl Timezone {
    /// The key under which this zone is stored in the settings.
    pub fn key(&self) -> (r: String)
        ensures
            r@ == key_text(*self),
    {
        string_of(key_chars(*self))
    }

    /// The label shown after a timestamp, such as `UTC+5:30`.
    pub fn label(&self) -> (r: String)
        ensures
            r@ == timezone_label(*self),
    {
        let mut out: Vec<char> = Vec::new();
        push_label(&mut out, *self);
        assert(out@ =~= timezone_label(*self));
        string_of(out)
    }

    /// The zone stored under `key`; `None` where no zone has that key.
    pub fn from_key(key: &str) -> (r: Option<Timezone>)
        ensures
            r == timezone_of_key(key@),
    {
        let cs = chars_of(key);
        let n = cs.len();
        if n < 3 || cs[0] != 'u' || cs[1] != 't' || cs[2] != 'c' {
            proof {
                assert forall|t: Timezone| key_text(t) != key@ by {
                    if let Timezone::Fixed(x) = t {
                        lemma_decimal_digits(offset_magnitude(x));
                    }
                }
            }
            return None;
        }
        if n == 3 {
            proof {
                assert(key_text(Timezone::Utc) =~= key@);
                timezone_key_round_trips(Timezone::Utc);
            }
            return Some(Timezone::Utc);
        }
        let neg = cs[3] == '-';
        if n == 4 || (!neg && cs[3] != '+') {
            proof {
                assert forall|t: Timezone| key_text(t) != key@ by {
                    if let Timezone::Fixed(x) = t {
                        lemma_decimal_digits(offset_magnitude(x));
                    }
                }
            }
            return None;
        }
        let ghost digits = key@.subrange(4, n as int);
        let mut v: u64 = 0;
        let mut i: usize = 4;
        while i < n
            invariant
                4 <= i <= n,
                n == cs@.len(),
                cs@ == key@,
                digits == key@.subrange(4, n as int),
                forall|j: int| 4 <= j < i ==> is_digit(#[trigger] cs@[j]),
                v == digits_value(cs@.subrange(4, i as int)),
                v <= 2147483648,
            decreases n - i,
        {
            let c = cs[i];
            if !('0' <= c && c <= '9') {
                proof {
                    assert forall|t: Timezone| key_text(t) != key@ by {
                        if let Timezone::Fixed(x) = t {
                            let ax = offset_magnitude(x);
                            lemma_decimal_digits(ax);
                            if key_text(t) == key@ {
                                assert(key@[i as int] == decimal(ax)[i - 4]);
                            }
                        }
                    }
                }
                return None;
            }
            let d = (c as u32 - 48) as u64;
            v = v * 10 + d;
            proof {
                assert(cs@.subrange(4, i + 1).drop_last() =~= cs@.subrange(4, i as int));
            }
            i = i + 1;
            if v > 2147483648 {
                proof {
                    assert forall|t: Timezone| key_text(t) != key@ by {
                        if let Timezone::Fixed(x) = t {
                            let ax = offset_magnitude(x);
                            lemma_decimal_digits(ax);
                            if key_text(t) == key@ {
                                assert(digits =~= decimal(ax));
                                assert(digits.subrange(0, i - 4) =~= cs@.subrange(4, i as int));
                                lemma_digits_value_prefix(digits, i - 4);
                            }
                        }
                    }
                }
                return None;
            }
        }
        proof {
            assert(cs@.subrange(4, n as int) =~= digits);
        }
        let value: i64 = if neg { -(v as i64) } else { v as i64 };
        if value < -2147483648 || value > 2147483647 {
            proof {
                assert forall|t: Timezone| key_text(t) != key@ by {
                    if let Timezone::Fixed(x) = t {
                        let ax = offset_magnitude(x);
                        lemma_decimal_digits(ax);
                        if key_text(t) == key@ {
                            assert(digits =~= decimal(ax));
                        }
                    }
                }
            }
            return None;
        }
        let candidate = Timezone::Fixed(value as i32);
        let expected = key_chars(candidate);
        if chars_equal(&expected, &cs) {
            proof {
                timezone_key_round_trips(candidate);
            }
            Some(candidate)
        } else {
            proof {
                assert forall|t: Timezone| key_text(t) != key@ by {
                    if let Timezone::Fixed(x) = t {
                        let ax = offset_magnitude(x);
                        lemma_decimal_digits(ax);
                        if key_text(t) == key@ {
                            assert(digits =~= decimal(ax));
                            assert(t == candidate);
                        }
                    }
                }
            }
            None
        }
    }

    /// The zones offered in the settings: UTC, then fixed offsets from
    /// twelve hours west to fourteen hours east.
    pub fn all() -> (r: Vec<Timezone>)
        ensures
            r@ == all_timezones(),
    {
        let r = vec![
            Timezone::Utc,
            Timezone::Fixed(-43200),
            Timezone::Fixed(-39600),
            Timezone::Fixed(-36000),
            Timezone::Fixed(-34200),
            Timezone::Fixed(-32400),
            Timezone::Fixed(-28800),
            Timezone::Fixed(-25200),
            Timezone::Fixed(-21600),
            Timezone::Fixed(-18000),
            Timezone::Fixed(-14400),
            Timezone::Fixed(-12600),
            Timezone::Fixed(-10800),
            Timezone::Fixed(-7200),
            Timezone::Fixed(-3600),
            Timezone::Fixed(3600),
            Timezone::Fixed(7200),
            Timezone::Fixed(10800),
            Timezone::Fixed(12600),
            Timezone::Fixed(14400),
            Timezone::Fixed(16200),
            Timezone::Fixed(18000),
            Timezone::Fixed(19800),
            Timezone::Fixed(20700),
            Timezone::Fixed(21600),
            Timezone::Fixed(23400),
            Timezone::Fixed(25200),
            Timezone::Fixed(28800),
            Timezone::Fixed(31500),
            Timezone::Fixed(32400),
            Timezone::Fixed(34200),
            Timezone::Fixed(36000),
            Timezone::Fixed(37800),
            Timezone::Fixed(39600),
            Timezone::Fixed(43200),
            Timezone::Fixed(45900),
            Timezone::Fixed(46800),
            Timezone::Fixed(50400),
        ];
        assert(r@ =~= all_timezones());
        r
    }
}

pub open spec fn all_timezones() -> Seq<Timezone> {
    seq![
        Timezone::Utc,
        Timezone::Fixed(-43200i32),
        Timezone::Fixed(-39600i32),
        Timezone::Fixed(-36000i32),
        Timezone::Fixed(-34200i32),
        Timezone::Fixed(-32400i32),
        Timezone::Fixed(-28800i32),
        Timezone::Fixed(-25200i32),
        Timezone::Fixed(-21600i32),
        Timezone::Fixed(-18000i32),
        Timezone::Fixed(-14400i32),
        Timezone::Fixed(-12600i32),
        Timezone::Fixed(-10800i32),
        Timezone::Fixed(-7200i32),
        Timezone::Fixed(-3600i32),
        Timezone::Fixed(3600i32),
        Timezone::Fixed(7200i32),
        Timezone::Fixed(10800i32),
        Timezone::Fixed(12600i32),
        Timezone::Fixed(14400i32),
        Timezone::Fixed(16200i32),
        Timezone::Fixed(18000i32),
        Timezone::Fixed(19800i32),
        Timezone::Fixed(20700i32),
        Timezone::Fixed(21600i32),
        Timezone::Fixed(23400i32),
        Timezone::Fixed(25200i32),
        Timezone::Fixed(28800i32),
        Timezone::Fixed(31500i32),
        Timezone::Fixed(32400i32),
        Timezone::Fixed(34200i32),
        Timezone::Fixed(36000i32),
        Timezone::Fixed(37800i32),
        Timezone::Fixed(39600i32),
        Timezone::Fixed(43200i32),
        Timezone::Fixed(45900i32),
        Timezone::Fixed(46800i32),
        Timezone::Fixed(50400i32),
    ]
}

/// Hiding the zone drops its label and nothing else.
pub proof fn hiding_the_zone_drops_only_its_label(unix_seconds: int, format: DateTimeFormat, tz: Timezone)
    ensures
        datetime_text(unix_seconds, format, tz, true) == datetime_text(unix_seconds, format, tz, false)
            + seq![' '] + timezone_label(tz),
{
    assert(datetime_text(unix_seconds, format, tz, true) =~= datetime_text(unix_seconds, format, tz, false)
        + seq![' '] + timezone_label(tz));
}

/// A fixed offset shows the clock of UTC shifted by the offset, and UTC is
/// shown exactly as the zero offset is.
pub proof fn offsets_shift_the_clock(unix_seconds: int, format: DateTimeFormat, offset: i32, show: bool)
    ensures
        datetime_text(unix_seconds, format, Timezone::Fixed(offset), false) == datetime_text(
            unix_seconds + offset,
            format,
            Timezone::Utc,
            false,
        ),
        datetime_text(unix_seconds, format, Timezone::Utc, show) == datetime_text(
            unix_seconds,
            format,
            Timezone::Fixed(0),
            show,
        ),
{
    assert(offset_text(0) =~= Seq::<char>::empty());
    assert(timezone_label(Timezone::Utc) =~= timezone_label(Timezone::Fixed(0)));
}

/// The label of a zone west of UTC is the label of the zone as far east,
/// with a minus sign (U+2212) in place of the plus sign: hours, minutes and
/// seconds of an offset do not depend on its direction.
pub proof fn west_labels_mirror_east_labels(east: i32, west: i32)
    requires
        east > 0,
        west == -east,
    ensures
        timezone_label(Timezone::Fixed(east))[3] == '+',
        timezone_label(Timezone::Fixed(west)) == timezone_label(Timezone::Fixed(east)).update(3, '\u{2212}'),
{
    let e = timezone_label(Timezone::Fixed(east));
    let w = timezone_label(Timezone::Fixed(west));
    assert(e[3] == '+');
    assert(w =~= e.update(3, '\u{2212}'));
}

} // verus!
