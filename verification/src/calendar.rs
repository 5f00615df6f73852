//! Proleptic-Gregorian calendar arithmetic and the sortable text encoding of
//! instants.
//!
//! Timestamps are persisted as `"YYYY-MM-DD HH:MM:SS"` in UTC: fixed width,
//! so that the store's lexicographic text comparison agrees with temporal
//! order, and human-readable in the database file. The encodable range is
//! the years 0000 through 9999.

use vstd::prelude::*;
use vstd::arithmetic::div_mod::lemma_fundamental_div_mod;
use vstd::arithmetic::div_mod::lemma_fundamental_div_mod_converse;
use vstd::arithmetic::div_mod::lemma_div_denominator;

verus! {

/// Lowest encodable instant: 0000-01-01 00:00:00 UTC.
pub const MIN_ENCODABLE: i64 = -62167219200;

/// Highest encodable instant: 9999-12-31 23:59:59 UTC.
pub const MAX_ENCODABLE: i64 = 253402300799;

/// Day number (from 0000-01-01) of the Unix epoch, 1970-01-01.
pub const EPOCH_DAY_NUMBER: u64 = 719528;

/// Days in the years 0000 through 9999.
pub const DAYS_IN_RANGE: u64 = 3652425;

/// Whether an instant lies in the encodable range.
pub open spec fn in_encodable_range(ts: int) -> bool {
    MIN_ENCODABLE <= ts <= MAX_ENCODABLE
}

/// True when `y` is a leap year of the proleptic Gregorian calendar.
pub open spec fn is_leap_year(y: int) -> bool {
    y % 4 == 0 && (y % 100 != 0 || y % 400 == 0)
}

/// Executable leap-year test.
pub fn leap_year(y: u64) -> (r: bool)
    ensures
        r == is_leap_year(y as int),
{
    y % 4 == 0 && (y % 100 != 0 || y % 400 == 0)
}

/// How many of the years 0, 1, ..., y-1 are leap years (year 0 is one).
pub open spec fn leap_years_before(y: int) -> int {
    (y + 3) / 4 - (y + 99) / 100 + (y + 399) / 400
}

/// Day number of January 1st of year `y`, counting 0000-01-01 as day 0.
pub open spec fn days_before_year(y: int) -> int {
    365 * y + leap_years_before(y)
}

/// Length of year `y` in days.
pub open spec fn days_in_year(y: int) -> int {
    if is_leap_year(y) {
        366
    } else {
        365
    }
}

/// Length of month `m` (1-based) of year `y` in days.
pub open spec fn days_in_month(y: int, m: int) -> int {
    if m == 2 {
        if is_leap_year(y) {
            29
        } else {
            28
        }
    } else if m == 4 || m == 6 || m == 9 || m == 11 {
        30
    } else {
        31
    }
}

/// Days of year `y` that precede month `m` (1-based).
pub open spec fn days_before_month(y: int, m: int) -> int {
    let base: int = if m == 1 {
        0
    } else if m == 2 {
        31
    } else if m == 3 {
        59
    } else if m == 4 {
        90
    } else if m == 5 {
        120
    } else if m == 6 {
        151
    } else if m == 7 {
        181
    } else if m == 8 {
        212
    } else if m == 9 {
        243
    } else if m == 10 {
        273
    } else if m == 11 {
        304
    } else {
        334
    };
    if m > 2 && is_leap_year(y) {
        base + 1
    } else {
        base
    }
}

/// Whether (`y`, `m`, `d`) names a real calendar day in the encodable range.
pub open spec fn valid_date(y: int, m: int, d: int) -> bool {
    0 <= y <= 9999 && 1 <= m <= 12 && 1 <= d <= days_in_month(y, m)
}

/// Day number of the given date, counting 0000-01-01 as day 0.
pub open spec fn day_number(y: int, m: int, d: int) -> int {
    days_before_year(y) + days_before_month(y, m) + (d - 1)
}

/// The instant, in seconds since the Unix epoch, of the given UTC civil
/// time.
pub open spec fn instant_of_civil(y: int, mo: int, d: int, h: int, mi: int, s: int) -> int {
    (day_number(y, mo, d) - EPOCH_DAY_NUMBER) * 86400 + h * 3600 + mi * 60 + s
}

// ---------------------------------------------------------------------------
// Arithmetic facts
// ---------------------------------------------------------------------------

/// For nonnegative `y` and positive `k`, stepping `y` by one raises the
/// rounded-up quotient exactly on multiples of `k`.
proof fn lemma_ceil_step(y: int, k: int)
    requires
        y >= 0,
        k > 0,
    ensures
        (y + k) / k == (y + k - 1) / k + (if y % k == 0 {
            1int
        } else {
            0int
        }),
{
    let q = y / k;
    let r = y % k;
    lemma_fundamental_div_mod(y, k);
    assert((q + 1) * k == q * k + k) by (nonlinear_arith);
    assert(k * q == q * k) by (nonlinear_arith);
    if r == 0 {
        lemma_fundamental_div_mod_converse(y + k, k, q + 1, 0);
        lemma_fundamental_div_mod_converse(y + k - 1, k, q, k - 1);
    } else {
        lemma_fundamental_div_mod_converse(y + k, k, q + 1, r);
        lemma_fundamental_div_mod_converse(y + k - 1, k, q + 1, r - 1);
    }
}

/// A multiple of 400 is a multiple of 100, and a multiple of 100 one of 4.
proof fn lemma_century_divisibility(y: int)
    requires
        y >= 0,
    ensures
        y % 400 == 0 ==> y % 100 == 0,
        y % 100 == 0 ==> y % 4 == 0,
{
    if y % 400 == 0 {
        lemma_fundamental_div_mod(y, 400);
        lemma_fundamental_div_mod_converse(y, 100, 4 * (y / 400), 0);
    }
    if y % 100 == 0 {
        lemma_fundamental_div_mod(y, 100);
        lemma_fundamental_div_mod_converse(y, 4, 25 * (y / 100), 0);
    }
}

/// One more year adds one leap day exactly when the year stepped over is a
/// leap year.
pub proof fn lemma_leap_years_before_step(y: int)
    requires
        y >= 0,
    ensures
        leap_years_before(y + 1) == leap_years_before(y) + (if is_leap_year(y) {
            1int
        } else {
            0int
        }),
{
    lemma_ceil_step(y, 4);
    lemma_ceil_step(y, 100);
    lemma_ceil_step(y, 400);
    lemma_century_divisibility(y);
}

/// January 1st advances by the length of the year stepped over.
pub proof fn lemma_days_before_year_step(y: int)
    requires
        y >= 0,
    ensures
        days_before_year(y + 1) == days_before_year(y) + days_in_year(y),
{
    lemma_leap_years_before_step(y);
}

/// Later years start later, by at least 365 days per year.
pub proof fn lemma_days_before_year_monotonic(a: int, b: int)
    requires
        0 <= a <= b,
    ensures
        days_before_year(a) + 365 * (b - a) <= days_before_year(b),
    decreases b - a,
{
    if a < b {
        lemma_days_before_year_monotonic(a, b - 1);
        lemma_days_before_year_step(b - 1);
    }
}

/// The months of a year tile it: each month begins where the previous ends,
/// and the year ends after its last month.
pub proof fn lemma_months_tile_year(y: int, m: int)
    requires
        1 <= m <= 12,
    ensures
        m < 12 ==> days_before_month(y, m) + days_in_month(y, m) == days_before_month(y, m + 1),
        m == 12 ==> days_before_month(y, m) + days_in_month(y, m) == days_in_year(y),
{
}

/// A month ends no later than its year does.
proof fn lemma_month_end_bound(y: int, m: int)
    requires
        1 <= m <= 12,
    ensures
        days_before_month(y, m) + days_in_month(y, m) <= days_in_year(y),
    decreases 12 - m,
{
    lemma_months_tile_year(y, m);
    if m < 12 {
        lemma_month_end_bound(y, m + 1);
    }
}

/// A valid date's day number falls within its own year, and within the
/// encodable range.
pub proof fn lemma_day_number_in_year(y: int, m: int, d: int)
    requires
        valid_date(y, m, d),
    ensures
        days_before_year(y) <= day_number(y, m, d),
        day_number(y, m, d) < days_before_year(y) + days_in_year(y),
        day_number(y, m, d) < DAYS_IN_RANGE,
{
    lemma_month_end_bound(y, m);
    lemma_days_before_year_monotonic(y + 1, 10000);
    lemma_days_before_year_step(y);
    lemma_days_before_year_monotonic(0, y);
    assert(days_before_year(10000) == DAYS_IN_RANGE);
}

// ---------------------------------------------------------------------------
// Executable calendar functions
// ---------------------------------------------------------------------------

/// Day number of January 1st of year `y`.
pub fn days_before_year_x(y: u64) -> (r: u64)
    requires
        y <= 10000,
    ensures
        r == days_before_year(y as int),
{
    let a = 365 * y + (y + 3) / 4 + (y + 399) / 400;
    let b = (y + 99) / 100;
    proof {
        if y == 0 {
            vstd::arithmetic::div_mod::lemma_basic_div(99, 100);
        } else {
            vstd::arithmetic::div_mod::lemma_div_nonincreasing((y + 99) as int, 100);
        }
    }
    a - b
}

/// Length of month `m` of year `y`.
pub fn days_in_month_x(y: u64, m: u64) -> (r: u64)
    requires
        1 <= m <= 12,
    ensures
        r == days_in_month(y as int, m as int),
{
    if m == 2 {
        if leap_year(y) {
            29
        } else {
            28
        }
    } else if m == 4 || m == 6 || m == 9 || m == 11 {
        30
    } else {
        31
    }
}

/// Days of year `y` before month `m`.
pub fn days_before_month_x(y: u64, m: u64) -> (r: u64)
    requires
        1 <= m <= 12,
    ensures
        r == days_before_month(y as int, m as int),
{
    let base: u64 = if m == 1 {
        0
    } else if m == 2 {
        31
    } else if m == 3 {
        59
    } else if m == 4 {
        90
    } else if m == 5 {
        120
    } else if m == 6 {
        151
    } else if m == 7 {
        181
    } else if m == 8 {
        212
    } else if m == 9 {
        243
    } else if m == 10 {
        273
    } else if m == 11 {
        304
    } else {
        334
    };
    if m > 2 && leap_year(y) {
        base + 1
    } else {
        base
    }
}

/// Whether (`y`, `m`, `d`) names a real calendar day.
pub fn valid_date_x(y: u64, m: u64, d: u64) -> (r: bool)
    ensures
        r == valid_date(y as int, m as int, d as int),
{
    y <= 9999 && 1 <= m && m <= 12 && 1 <= d && d <= days_in_month_x(y, m)
}

/// Day number of a valid date.
pub fn day_number_x(y: u64, m: u64, d: u64) -> (r: u64)
    requires
        valid_date(y as int, m as int, d as int),
    ensures
        r == day_number(y as int, m as int, d as int),
        r < DAYS_IN_RANGE,
{
    proof {
        lemma_day_number_in_year(y as int, m as int, d as int);
        lemma_days_before_year_monotonic(0, y as int);
    }
    days_before_year_x(y) + days_before_month_x(y, m) + (d - 1)
}

/// The date of day number `n`: the inverse of `day_number` on valid dates.
pub fn civil_of_day_number(n: u64) -> (r: (u64, u64, u64))
    requires
        n < DAYS_IN_RANGE,
    ensures
        valid_date(r.0 as int, r.1 as int, r.2 as int),
        day_number(r.0 as int, r.1 as int, r.2 as int) == n as int,
{
    proof {
        assert(days_before_year(0) == 0);
        assert(days_before_year(10000) == DAYS_IN_RANGE);
    }
    let mut y: u64 = 0;
    let mut next = days_before_year_x(1);
    while next <= n
        invariant
            n < DAYS_IN_RANGE,
            y <= 9999,
            next == days_before_year((y + 1) as int),
            days_before_year(y as int) <= n,
        decreases 9999 - y,
    {
        proof {
            lemma_days_before_year_monotonic((y + 1) as int, 10000);
            assert(days_before_year(10000) == DAYS_IN_RANGE);
        }
        y = y + 1;
        next = days_before_year_x(y + 1);
    }
    proof {
        lemma_days_before_year_step(y as int);
    }
    let mut rem = n - days_before_year_x(y);
    // rem is the zero-based day of the year; walk the months.
    let mut m: u64 = 1;
    let mut dim = days_in_month_x(y, m);
    while rem >= dim
        invariant
            1 <= m <= 12,
            y <= 9999,
            dim == days_in_month(y as int, m as int),
            rem == n - days_before_year(y as int) - days_before_month(y as int, m as int),
            days_before_month(y as int, m as int) <= n - days_before_year(y as int),
            n - days_before_year(y as int) < days_in_year(y as int),
        decreases 12 - m,
    {
        proof {
            lemma_months_tile_year(y as int, m as int);
            if m == 12 {
                // the year would end before day rem, contradicting its bound
                assert(false);
            }
        }
        rem = rem - dim;
        m = m + 1;
        dim = days_in_month_x(y, m);
    }
    (y, m, rem + 1)
}

// ---------------------------------------------------------------------------
// Civil time: an instant split into calendar fields
// ---------------------------------------------------------------------------

/// An instant split into UTC calendar fields.
#[derive(Debug, Clone, Copy, PartialEq, Eq, Structural)]
pub struct CivilTime {
    pub year: u64,
    pub month: u64,
    pub day: u64,
    pub hour: u64,
    pub minute: u64,
    pub second: u64,
}

/// Whether the fields name a real calendar day and a real time of day.
pub open spec fn civil_wf(c: CivilTime) -> bool {
    &&& valid_date(c.year as int, c.month as int, c.day as int)
    &&& c.hour <= 23
    &&& c.minute <= 59
    &&& c.second <= 59
}

/// The instant the fields denote, in seconds since the Unix epoch.
pub open spec fn civil_value(c: CivilTime) -> int {
    instant_of_civil(
        c.year as int,
        c.month as int,
        c.day as int,
        c.hour as int,
        c.minute as int,
        c.second as int,
    )
}

/// The instant of a well-formed civil time lies in the encodable range.
pub proof fn lemma_civil_value_in_range(c: CivilTime)
    requires
        civil_wf(c),
    ensures
        in_encodable_range(civil_value(c)),
{
    lemma_day_number_in_year(c.year as int, c.month as int, c.day as int);
    lemma_days_before_year_monotonic(0, c.year as int);
}

/// Split an instant into its UTC calendar fields: the inverse of
/// `civil_value` on the encodable range.
pub fn civil_of_instant(ts: i64) -> (r: CivilTime)
    requires
        in_encodable_range(ts as int),
    ensures
        civil_wf(r),
        civil_value(r) == ts as int,
{
    let shifted = (ts - MIN_ENCODABLE) as u64;
    let day = shifted / 86400;
    let sod = shifted % 86400;
    proof {
        lemma_fundamental_div_mod(shifted as int, 86400);
    }
    let (y, mo, d) = civil_of_day_number(day);
    let hour = sod / 3600;
    let hrem = sod % 3600;
    let minute = hrem / 60;
    let second = hrem % 60;
    proof {
        lemma_fundamental_div_mod(sod as int, 3600);
        lemma_fundamental_div_mod(hrem as int, 60);
    }
    CivilTime { year: y, month: mo, day: d, hour, minute, second }
}

// ---------------------------------------------------------------------------
// Decimal digits
// ---------------------------------------------------------------------------

/// The character of a decimal digit.
pub open spec fn digit_char(d: int) -> char {
    if d == 0 {
        '0'
    } else if d == 1 {
        '1'
    } else if d == 2 {
        '2'
    } else if d == 3 {
        '3'
    } else if d == 4 {
        '4'
    } else if d == 5 {
        '5'
    } else if d == 6 {
        '6'
    } else if d == 7 {
        '7'
    } else if d == 8 {
        '8'
    } else {
        '9'
    }
}

/// The value of a decimal digit character, or -1 for any other character.
pub open spec fn digit_val(c: char) -> int {
    if c == '0' {
        0
    } else if c == '1' {
        1
    } else if c == '2' {
        2
    } else if c == '3' {
        3
    } else if c == '4' {
        4
    } else if c == '5' {
        5
    } else if c == '6' {
        6
    } else if c == '7' {
        7
    } else if c == '8' {
        8
    } else if c == '9' {
        9
    } else {
        -1
    }
}

/// Whether a character is a decimal digit.
pub open spec fn is_digit(c: char) -> bool {
    digit_val(c) >= 0
}

/// The one-character string of a decimal digit.
pub(crate) fn digit_str(d: u64) -> (r: &'static str)
    requires
        d <= 9,
    ensures
        r@ =~= seq![digit_char(d as int)],
{
    proof {
        reveal_strlit("0");
        reveal_strlit("1");
        reveal_strlit("2");
        reveal_strlit("3");
        reveal_strlit("4");
        reveal_strlit("5");
        reveal_strlit("6");
        reveal_strlit("7");
        reveal_strlit("8");
        reveal_strlit("9");
    }
    match d {
        0 => "0",
        1 => "1",
        2 => "2",
        3 => "3",
        4 => "4",
        5 => "5",
        6 => "6",
        7 => "7",
        8 => "8",
        _ => "9",
    }
}

/// The value of a decimal digit character, or none for any other character.
pub(crate) fn digit_val_x(c: char) -> (r: Option<u64>)
    ensures
        is_digit(c) ==> r == Some(digit_val(c) as u64),
        !is_digit(c) ==> r is None,
{
    match c {
        '0' => Some(0),
        '1' => Some(1),
        '2' => Some(2),
        '3' => Some(3),
        '4' => Some(4),
        '5' => Some(5),
        '6' => Some(6),
        '7' => Some(7),
        '8' => Some(8),
        '9' => Some(9),
        _ => None,
    }
}

/// A two-digit number splits into its digits and reassembles from them.
pub(crate) proof fn lemma_two_digit_decomp(n: int)
    requires
        0 <= n <= 99,
    ensures
        0 <= n / 10 <= 9,
        0 <= n % 10 <= 9,
        10 * (n / 10) + n % 10 == n,
{
    lemma_fundamental_div_mod(n, 10);
    vstd::arithmetic::div_mod::lemma_mod_bound(n, 10);
}

/// A four-digit number splits into its digits and reassembles from them.
pub(crate) proof fn lemma_four_digit_decomp(n: int)
    requires
        0 <= n <= 9999,
    ensures
        0 <= n / 1000 <= 9,
        0 <= n / 100 % 10 <= 9,
        0 <= n / 10 % 10 <= 9,
        0 <= n % 10 <= 9,
        1000 * (n / 1000) + 100 * (n / 100 % 10) + 10 * (n / 10 % 10) + n % 10 == n,
{
    lemma_fundamental_div_mod(n, 10);
    vstd::arithmetic::div_mod::lemma_mod_bound(n, 10);
    lemma_div_denominator(n, 10, 10);
    lemma_fundamental_div_mod(n / 10, 10);
    vstd::arithmetic::div_mod::lemma_mod_bound(n / 10, 10);
    lemma_div_denominator(n, 100, 10);
    lemma_fundamental_div_mod(n / 100, 10);
    vstd::arithmetic::div_mod::lemma_mod_bound(n / 100, 10);
}

// ---------------------------------------------------------------------------
// The sortable text encoding of an instant
// ---------------------------------------------------------------------------

/// The 19 characters `"YYYY-MM-DD HH:MM:SS"` of a civil time.
pub open spec fn civil_text(y: int, mo: int, d: int, h: int, mi: int, s: int) -> Seq<char> {
    seq![
        digit_char(y / 1000),
        digit_char(y / 100 % 10),
        digit_char(y / 10 % 10),
        digit_char(y % 10),
        '-',
        digit_char(mo / 10),
        digit_char(mo % 10),
        '-',
        digit_char(d / 10),
        digit_char(d % 10),
        ' ',
        digit_char(h / 10),
        digit_char(h % 10),
        ':',
        digit_char(mi / 10),
        digit_char(mi % 10),
        ':',
        digit_char(s / 10),
        digit_char(s % 10),
    ]
}

/// The instant a stored text denotes: present exactly when the text is a
/// fixed-width `"YYYY-MM-DD HH:MM:SS"` naming a real UTC civil time.
pub open spec fn civil_text_value(t: Seq<char>) -> Option<int> {
    if t.len() == 19 && t[4] == '-' && t[7] == '-' && t[10] == ' ' && t[13] == ':' && t[16] == ':'
        && is_digit(t[0]) && is_digit(t[1]) && is_digit(t[2]) && is_digit(t[3]) && is_digit(t[5])
        && is_digit(t[6]) && is_digit(t[8]) && is_digit(t[9]) && is_digit(t[11]) && is_digit(t[12])
        && is_digit(t[14]) && is_digit(t[15]) && is_digit(t[17]) && is_digit(t[18]) {
        let y = 1000 * digit_val(t[0]) + 100 * digit_val(t[1]) + 10 * digit_val(t[2]) + digit_val(
            t[3],
        );
        let mo = 10 * digit_val(t[5]) + digit_val(t[6]);
        let d = 10 * digit_val(t[8]) + digit_val(t[9]);
        let h = 10 * digit_val(t[11]) + digit_val(t[12]);
        let mi = 10 * digit_val(t[14]) + digit_val(t[15]);
        let s = 10 * digit_val(t[17]) + digit_val(t[18]);
        if valid_date(y, mo, d) && 0 <= h <= 23 && 0 <= mi <= 59 && 0 <= s <= 59 {
            Some(instant_of_civil(y, mo, d, h, mi, s))
        } else {
            None
        }
    } else {
        None
    }
}

/// A digit character carries its digit back out.
pub(crate) proof fn lemma_digit_roundtrip(d: int)
    requires
        0 <= d <= 9,
    ensures
        is_digit(digit_char(d)),
        digit_val(digit_char(d)) == d,
{
}

/// The text of a well-formed civil time decodes back to its instant.
#[verifier::rlimit(60)]
pub proof fn lemma_civil_text_decodes(c: CivilTime)
    requires
        civil_wf(c),
    ensures
        civil_text_value(
            civil_text(
                c.year as int,
                c.month as int,
                c.day as int,
                c.hour as int,
                c.minute as int,
                c.second as int,
            ),
        ) == Some(civil_value(c)),
{
    let y = c.year as int;
    let mo = c.month as int;
    let d = c.day as int;
    let h = c.hour as int;
    let mi = c.minute as int;
    let s = c.second as int;
    lemma_four_digit_decomp(y);
    lemma_two_digit_decomp(mo);
    lemma_two_digit_decomp(d);
    lemma_two_digit_decomp(h);
    lemma_two_digit_decomp(mi);
    lemma_two_digit_decomp(s);
    lemma_digit_roundtrip(y / 1000);
    lemma_digit_roundtrip(y / 100 % 10);
    lemma_digit_roundtrip(y / 10 % 10);
    lemma_digit_roundtrip(y % 10);
    lemma_digit_roundtrip(mo / 10);
    lemma_digit_roundtrip(mo % 10);
    lemma_digit_roundtrip(d / 10);
    lemma_digit_roundtrip(d % 10);
    lemma_digit_roundtrip(h / 10);
    lemma_digit_roundtrip(h % 10);
    lemma_digit_roundtrip(mi / 10);
    lemma_digit_roundtrip(mi % 10);
    lemma_digit_roundtrip(s / 10);
    lemma_digit_roundtrip(s % 10);
    let t = civil_text(y, mo, d, h, mi, s);
    assert(t.len() == 19);
    assert(1000 * digit_val(t[0]) + 100 * digit_val(t[1]) + 10 * digit_val(t[2]) + digit_val(t[3])
        == y);
    assert(10 * digit_val(t[5]) + digit_val(t[6]) == mo);
    assert(10 * digit_val(t[8]) + digit_val(t[9]) == d);
    assert(10 * digit_val(t[11]) + digit_val(t[12]) == h);
    assert(10 * digit_val(t[14]) + digit_val(t[15]) == mi);
    assert(10 * digit_val(t[17]) + digit_val(t[18]) == s);
}

/// Append the two digits of `n` to a string.
pub(crate) fn push_two_digits(out: &mut String, n: u64)
    requires
        n <= 99,
    ensures
        final (out)@ == old(out)@ + seq![
            digit_char(n as int / 10),
            digit_char(n as int % 10),
        ],
{
    proof {
        lemma_two_digit_decomp(n as int);
    }
    out.append(digit_str(n / 10));
    out.append(digit_str(n % 10));
    proof {
        assert(out@ =~= old(out)@ + seq![digit_char(n as int / 10), digit_char(n as int % 10)]);
    }
}

/// Append the four digits of `n` to a string.
pub(crate) fn push_four_digits(out: &mut String, n: u64)
    requires
        n <= 9999,
    ensures
        final (out)@ == old(out)@ + seq![
            digit_char(n as int / 1000),
            digit_char(n as int / 100 % 10),
            digit_char(n as int / 10 % 10),
            digit_char(n as int % 10),
        ],
{
    proof {
        lemma_four_digit_decomp(n as int);
    }
    out.append(digit_str(n / 1000));
    out.append(digit_str(n / 100 % 10));
    out.append(digit_str(n / 10 % 10));
    out.append(digit_str(n % 10));
    proof {
        assert(out@ =~= old(out)@ + seq![
            digit_char(n as int / 1000),
            digit_char(n as int / 100 % 10),
            digit_char(n as int / 10 % 10),
            digit_char(n as int % 10),
        ]);
    }
}

/// Encode an instant as `"YYYY-MM-DD HH:MM:SS"` in UTC: fixed-width text
/// whose lexicographic order agrees with temporal order, decoding back to
/// exactly this instant.
pub fn encode_instant(ts: i64) -> (r: String)
    requires
        in_encodable_range(ts as int),
    ensures
        r@.len() == 19,
        civil_text_value(r@) == Some(ts as int),
{
    let c = civil_of_instant(ts);
    let mut out = String::new();
    push_four_digits(&mut out, c.year);
    out.append("-");
    push_two_digits(&mut out, c.month);
    out.append("-");
    push_two_digits(&mut out, c.day);
    out.append(" ");
    push_two_digits(&mut out, c.hour);
    out.append(":");
    push_two_digits(&mut out, c.minute);
    out.append(":");
    push_two_digits(&mut out, c.second);
    proof {
        reveal_strlit("-");
        reveal_strlit(" ");
        reveal_strlit(":");
        assert(out@ =~= civil_text(
            c.year as int,
            c.month as int,
            c.day as int,
            c.hour as int,
            c.minute as int,
            c.second as int,
        ));
        lemma_civil_text_decodes(c);
    }
    out
}

/// Any instant a stored text decodes to lies in the encodable range.
pub proof fn lemma_civil_text_value_in_range(t: Seq<char>)
    ensures
        civil_text_value(t) matches Some(v) ==> in_encodable_range(v),
{
    if civil_text_value(t) is Some {
        let y = 1000 * digit_val(t[0]) + 100 * digit_val(t[1]) + 10 * digit_val(t[2]) + digit_val(
            t[3],
        );
        let mo = 10 * digit_val(t[5]) + digit_val(t[6]);
        let d = 10 * digit_val(t[8]) + digit_val(t[9]);
        lemma_day_number_in_year(y, mo, d);
        lemma_days_before_year_monotonic(0, y);
        assert(days_before_year(0) == 0);
        assert(days_before_year(10000) == DAYS_IN_RANGE);
    }
}

/// Read the two-digit number at position `i` of `text`.
fn read_two_digits(text: &str, i: usize) -> (r: Option<u64>)
    requires
        i + 2 <= text@.len(),
        i + 2 <= usize::MAX,
    ensures
        match r {
            Some(v) => is_digit(text@[i as int]) && is_digit(text@[i + 1]) && v == 10 * digit_val(
                text@[i as int],
            ) + digit_val(text@[i + 1]),
            None => !(is_digit(text@[i as int]) && is_digit(text@[i + 1])),
        },
{
    let hi = digit_val_x(text.get_char(i));
    let lo = digit_val_x(text.get_char(i + 1));
    match (hi, lo) {
        (Some(h), Some(l)) => Some(10 * h + l),
        _ => None,
    }
}

/// Decode a stored `"YYYY-MM-DD HH:MM:SS"` text: the exact inverse of the
/// text encoding, rejecting anything else.
pub fn decode_instant(text: &str) -> (r: Option<i64>)
    ensures
        match civil_text_value(text@) {
            Some(v) => r matches Some(x) && x == v,
            None => r is None,
        },
{
    proof {
        reveal_strlit("-");
        reveal_strlit(" ");
        reveal_strlit(":");
    }
    if text.unicode_len() != 19 {
        return None;
    }
    if !(text.get_char(4) == '-' && text.get_char(7) == '-' && text.get_char(10) == ' '
        && text.get_char(13) == ':' && text.get_char(16) == ':') {
        return None;
    }
    let y_hi = read_two_digits(text, 0);
    let y_lo = read_two_digits(text, 2);
    let mo = read_two_digits(text, 5);
    let d = read_two_digits(text, 8);
    let h = read_two_digits(text, 11);
    let mi = read_two_digits(text, 14);
    let s = read_two_digits(text, 17);
    match (y_hi, y_lo, mo, d, h, mi, s) {
        (Some(yh), Some(yl), Some(mo), Some(d), Some(h), Some(mi), Some(s)) => {
            let y = 100 * yh + yl;
            if valid_date_x(y, mo, d) && h <= 23 && mi <= 59 && s <= 59 {
                proof {
                    lemma_day_number_in_year(y as int, mo as int, d as int);
                    lemma_days_before_year_monotonic(0, y as int);
                }
                let dn = day_number_x(y, mo, d);
                let tod = 3600 * h + 60 * mi + s;
                Some((dn as i64 - EPOCH_DAY_NUMBER as i64) * 86400 + tod as i64)
            } else {
                None
            }
        },
        _ => None,
    }
}

// ---------------------------------------------------------------------------
// The text encoding is sortable: lexicographic order agrees with time
// ---------------------------------------------------------------------------

/// Strict lexicographic order on texts, by code point: how the store
/// compares TEXT columns.
pub open spec fn lex_less(a: Seq<char>, b: Seq<char>) -> bool
    decreases a.len(),
{
    if b.len() == 0 {
        false
    } else if a.len() == 0 {
        true
    } else if a[0] != b[0] {
        (a[0] as int) < (b[0] as int)
    } else {
        lex_less(a.drop_first(), b.drop_first())
    }
}

/// Two equal-length texts that agree before `i` and order at `i` order
/// lexicographically.
proof fn lemma_lex_from_first_diff(a: Seq<char>, b: Seq<char>, i: int)
    requires
        a.len() == b.len(),
        0 <= i < a.len(),
        forall|j: int| 0 <= j < i ==> a[j] == b[j],
        (a[i] as int) < (b[i] as int),
    ensures
        lex_less(a, b),
    decreases i,
{
    if i == 0 {
        assert(a[0] != b[0]);
    } else {
        assert(a[0] == b[0]);
        let a1 = a.drop_first();
        let b1 = b.drop_first();
        assert(a1[i - 1] == a[i]);
        assert(b1[i - 1] == b[i]);
        assert(forall|j: int| 0 <= j < i - 1 ==> a1[j] == b[j + 1] && b1[j] == b[j + 1]);
        lemma_lex_from_first_diff(a1, b1, i - 1);
    }
}

/// A digit character's code point is 48 plus its value, and carrying a digit
/// through its character is lossless both ways.
proof fn lemma_digit_char_code(c: char)
    requires
        is_digit(c),
    ensures
        c as int == 48 + digit_val(c),
        digit_char(digit_val(c)) == c,
{
}

/// The digits of a two-digit number are recovered by its decomposition.
proof fn lemma_two_digit_compose(v0: int, v1: int)
    requires
        0 <= v0 <= 9,
        0 <= v1 <= 9,
    ensures
        (10 * v0 + v1) / 10 == v0,
        (10 * v0 + v1) % 10 == v1,
{
    lemma_fundamental_div_mod_converse(10 * v0 + v1, 10, v0, v1);
}

/// The digits of a four-digit number are recovered by its decomposition.
proof fn lemma_four_digit_compose(v0: int, v1: int, v2: int, v3: int)
    requires
        0 <= v0 <= 9,
        0 <= v1 <= 9,
        0 <= v2 <= 9,
        0 <= v3 <= 9,
    ensures
        (1000 * v0 + 100 * v1 + 10 * v2 + v3) / 1000 == v0,
        (1000 * v0 + 100 * v1 + 10 * v2 + v3) / 100 % 10 == v1,
        (1000 * v0 + 100 * v1 + 10 * v2 + v3) / 10 % 10 == v2,
        (1000 * v0 + 100 * v1 + 10 * v2 + v3) % 10 == v3,
{
    let n = 1000 * v0 + 100 * v1 + 10 * v2 + v3;
    lemma_fundamental_div_mod_converse(n, 1000, v0, 100 * v1 + 10 * v2 + v3);
    lemma_fundamental_div_mod_converse(n, 100, 10 * v0 + v1, 10 * v2 + v3);
    lemma_fundamental_div_mod_converse(n, 10, 100 * v0 + 10 * v1 + v2, v3);
    lemma_fundamental_div_mod_converse(10 * v0 + v1, 10, v0, v1);
    lemma_fundamental_div_mod_converse(100 * v0 + 10 * v1 + v2, 10, 10 * v0 + v1, v2);
}

/// Two equal-length texts carrying two-digit fields of ordered values at the
/// same position, agreeing before it, order lexicographically.
proof fn lemma_two_digit_field_lex(a: Seq<char>, b: Seq<char>, p: int, n: int, m: int)
    requires
        a.len() == b.len(),
        0 <= p,
        p + 2 <= a.len(),
        is_digit(a[p]) && is_digit(a[p + 1]),
        is_digit(b[p]) && is_digit(b[p + 1]),
        10 * digit_val(a[p]) + digit_val(a[p + 1]) == n,
        10 * digit_val(b[p]) + digit_val(b[p + 1]) == m,
        0 <= n < m <= 99,
        forall|j: int| 0 <= j < p ==> a[j] == b[j],
    ensures
        lex_less(a, b),
{
    lemma_digit_char_code(a[p]);
    lemma_digit_char_code(a[p + 1]);
    lemma_digit_char_code(b[p]);
    lemma_digit_char_code(b[p + 1]);
    if digit_val(a[p]) < digit_val(b[p]) {
        lemma_lex_from_first_diff(a, b, p);
    } else {
        assert(digit_val(a[p]) == digit_val(b[p]));
        assert(a[p] == b[p]);
        lemma_lex_from_first_diff(a, b, p + 1);
    }
}

/// Two equal-length texts carrying four-digit fields of ordered values at
/// the same position, agreeing before it, order lexicographically.
proof fn lemma_four_digit_field_lex(a: Seq<char>, b: Seq<char>, p: int, n: int, m: int)
    requires
        a.len() == b.len(),
        0 <= p,
        p + 4 <= a.len(),
        is_digit(a[p]) && is_digit(a[p + 1]) && is_digit(a[p + 2]) && is_digit(a[p + 3]),
        is_digit(b[p]) && is_digit(b[p + 1]) && is_digit(b[p + 2]) && is_digit(b[p + 3]),
        1000 * digit_val(a[p]) + 100 * digit_val(a[p + 1]) + 10 * digit_val(a[p + 2]) + digit_val(
            a[p + 3],
        ) == n,
        1000 * digit_val(b[p]) + 100 * digit_val(b[p + 1]) + 10 * digit_val(b[p + 2]) + digit_val(
            b[p + 3],
        ) == m,
        0 <= n < m <= 9999,
        forall|j: int| 0 <= j < p ==> a[j] == b[j],
    ensures
        lex_less(a, b),
{
    lemma_digit_char_code(a[p]);
    lemma_digit_char_code(a[p + 1]);
    lemma_digit_char_code(a[p + 2]);
    lemma_digit_char_code(a[p + 3]);
    lemma_digit_char_code(b[p]);
    lemma_digit_char_code(b[p + 1]);
    lemma_digit_char_code(b[p + 2]);
    lemma_digit_char_code(b[p + 3]);
    if digit_val(a[p]) < digit_val(b[p]) {
        lemma_lex_from_first_diff(a, b, p);
    } else if digit_val(a[p + 1]) < digit_val(b[p + 1]) {
        assert(a[p] == b[p]);
        lemma_lex_from_first_diff(a, b, p + 1);
    } else if digit_val(a[p + 2]) < digit_val(b[p + 2]) {
        assert(a[p] == b[p] && a[p + 1] == b[p + 1]);
        lemma_lex_from_first_diff(a, b, p + 2);
    } else {
        assert(a[p] == b[p] && a[p + 1] == b[p + 1] && a[p + 2] == b[p + 2]);
        lemma_lex_from_first_diff(a, b, p + 3);
    }
}

/// Two equal two-digit fields are written with the same characters.
proof fn lemma_two_digit_field_eq(a: Seq<char>, b: Seq<char>, p: int, n: int)
    requires
        0 <= p,
        p + 2 <= a.len(),
        p + 2 <= b.len(),
        is_digit(a[p]) && is_digit(a[p + 1]),
        is_digit(b[p]) && is_digit(b[p + 1]),
        10 * digit_val(a[p]) + digit_val(a[p + 1]) == n,
        10 * digit_val(b[p]) + digit_val(b[p + 1]) == n,
    ensures
        a[p] == b[p],
        a[p + 1] == b[p + 1],
{
    lemma_digit_char_code(a[p]);
    lemma_digit_char_code(a[p + 1]);
    lemma_digit_char_code(b[p]);
    lemma_digit_char_code(b[p + 1]);
}

/// Two equal four-digit fields are written with the same characters.
proof fn lemma_four_digit_field_eq(a: Seq<char>, b: Seq<char>, p: int, n: int)
    requires
        0 <= p,
        p + 4 <= a.len(),
        p + 4 <= b.len(),
        is_digit(a[p]) && is_digit(a[p + 1]) && is_digit(a[p + 2]) && is_digit(a[p + 3]),
        is_digit(b[p]) && is_digit(b[p + 1]) && is_digit(b[p + 2]) && is_digit(b[p + 3]),
        1000 * digit_val(a[p]) + 100 * digit_val(a[p + 1]) + 10 * digit_val(a[p + 2]) + digit_val(
            a[p + 3],
        ) == n,
        1000 * digit_val(b[p]) + 100 * digit_val(b[p + 1]) + 10 * digit_val(b[p + 2]) + digit_val(
            b[p + 3],
        ) == n,
    ensures
        a[p] == b[p],
        a[p + 1] == b[p + 1],
        a[p + 2] == b[p + 2],
        a[p + 3] == b[p + 3],
{
    lemma_digit_char_code(a[p]);
    lemma_digit_char_code(a[p + 1]);
    lemma_digit_char_code(a[p + 2]);
    lemma_digit_char_code(a[p + 3]);
    lemma_digit_char_code(b[p]);
    lemma_digit_char_code(b[p + 1]);
    lemma_digit_char_code(b[p + 2]);
    lemma_digit_char_code(b[p + 3]);
    lemma_four_digit_compose(digit_val(a[p]), digit_val(a[p + 1]), digit_val(a[p + 2]), digit_val(
        a[p + 3],
    ));
    lemma_four_digit_compose(digit_val(b[p]), digit_val(b[p + 1]), digit_val(b[p + 2]), digit_val(
        b[p + 3],
    ));
}

/// An earlier month ends no later than a later month begins.
proof fn lemma_months_ordered(y: int, m1: int, m2: int)
    requires
        1 <= m1 < m2 <= 12,
    ensures
        days_before_month(y, m1) + days_in_month(y, m1) <= days_before_month(y, m2),
    decreases m2 - m1,
{
    lemma_months_tile_year(y, m1);
    if m1 + 1 < m2 {
        lemma_months_ordered(y, m1 + 1, m2);
    }
}

/// Day numbers order valid dates: an earlier instant's date is no later, and
/// equal day numbers mean equal dates.
proof fn lemma_day_number_orders_dates(y1: int, mo1: int, d1: int, y2: int, mo2: int, d2: int)
    requires
        valid_date(y1, mo1, d1),
        valid_date(y2, mo2, d2),
        day_number(y1, mo1, d1) <= day_number(y2, mo2, d2),
    ensures
        y1 < y2 || (y1 == y2 && mo1 < mo2) || (y1 == y2 && mo1 == mo2 && d1 <= d2),
        day_number(y1, mo1, d1) == day_number(y2, mo2, d2) ==> (y1 == y2 && mo1 == mo2 && d1
            == d2),
{
    lemma_day_number_in_year(y1, mo1, d1);
    lemma_day_number_in_year(y2, mo2, d2);
    if y1 > y2 {
        lemma_days_before_year_monotonic(y2 + 1, y1);
        lemma_days_before_year_step(y2);
        assert(false);
    }
    if y1 == y2 {
        if mo1 > mo2 {
            lemma_months_ordered(y1, mo2, mo1);
            assert(false);
        }
        if mo1 == mo2 {
            // with year and month equal the day numbers differ as the days do
        } else if day_number(y1, mo1, d1) == day_number(y2, mo2, d2) {
            lemma_months_ordered(y1, mo1, mo2);
            assert(false);
        }
    } else if day_number(y1, mo1, d1) == day_number(y2, mo2, d2) {
        lemma_days_before_year_monotonic(y1 + 1, y2);
        lemma_days_before_year_step(y1);
        assert(false);
    }
}

/// The stored text encoding is sortable: of two stored timestamps, the
/// earlier instant's text is the lexicographically smaller. The store's
/// ORDER BY and range comparisons over timestamp columns therefore agree
/// with temporal order.
#[verifier::rlimit(100)]
pub proof fn lemma_stored_text_order(a: Seq<char>, b: Seq<char>, va: int, vb: int)
    requires
        civil_text_value(a) == Some(va),
        civil_text_value(b) == Some(vb),
        va < vb,
    ensures
        lex_less(a, b),
{
    let y1 = 1000 * digit_val(a[0]) + 100 * digit_val(a[1]) + 10 * digit_val(a[2]) + digit_val(
        a[3],
    );
    let mo1 = 10 * digit_val(a[5]) + digit_val(a[6]);
    let d1 = 10 * digit_val(a[8]) + digit_val(a[9]);
    let h1 = 10 * digit_val(a[11]) + digit_val(a[12]);
    let mi1 = 10 * digit_val(a[14]) + digit_val(a[15]);
    let s1 = 10 * digit_val(a[17]) + digit_val(a[18]);
    let y2 = 1000 * digit_val(b[0]) + 100 * digit_val(b[1]) + 10 * digit_val(b[2]) + digit_val(
        b[3],
    );
    let mo2 = 10 * digit_val(b[5]) + digit_val(b[6]);
    let d2 = 10 * digit_val(b[8]) + digit_val(b[9]);
    let h2 = 10 * digit_val(b[11]) + digit_val(b[12]);
    let mi2 = 10 * digit_val(b[14]) + digit_val(b[15]);
    let s2 = 10 * digit_val(b[17]) + digit_val(b[18]);
    let dn1 = day_number(y1, mo1, d1);
    let dn2 = day_number(y2, mo2, d2);
    let tod1 = h1 * 3600 + mi1 * 60 + s1;
    let tod2 = h2 * 3600 + mi2 * 60 + s2;
    assert(va == (dn1 - EPOCH_DAY_NUMBER) * 86400 + tod1);
    assert(vb == (dn2 - EPOCH_DAY_NUMBER) * 86400 + tod2);
    assert(0 <= tod1 < 86400);
    assert(0 <= tod2 < 86400);
    if dn1 > dn2 {
        assert((dn1 - EPOCH_DAY_NUMBER) * 86400 >= (dn2 - EPOCH_DAY_NUMBER) * 86400 + 86400)
            by (nonlinear_arith)
            requires dn1 >= dn2 + 1;
        assert(false);
    }
    if dn1 == dn2 {
        lemma_day_number_orders_dates(y1, mo1, d1, y2, mo2, d2);
        lemma_four_digit_field_eq(a, b, 0, y1);
        lemma_two_digit_field_eq(a, b, 5, mo1);
        lemma_two_digit_field_eq(a, b, 8, d1);
        assert(tod1 < tod2);
        if h1 < h2 {
            lemma_two_digit_field_lex(a, b, 11, h1, h2);
        } else {
            assert(h1 == h2);
            lemma_two_digit_field_eq(a, b, 11, h1);
            if mi1 < mi2 {
                lemma_two_digit_field_lex(a, b, 14, mi1, mi2);
            } else {
                assert(mi1 == mi2);
                lemma_two_digit_field_eq(a, b, 14, mi1);
                assert(s1 < s2);
                lemma_two_digit_field_lex(a, b, 17, s1, s2);
            }
        }
    } else {
        assert(dn1 < dn2);
        lemma_day_number_orders_dates(y1, mo1, d1, y2, mo2, d2);
        if y1 < y2 {
            lemma_four_digit_field_lex(a, b, 0, y1, y2);
        } else {
            assert(y1 == y2);
            lemma_four_digit_field_eq(a, b, 0, y1);
            if mo1 < mo2 {
                lemma_two_digit_field_lex(a, b, 5, mo1, mo2);
            } else {
                assert(mo1 == mo2);
                lemma_two_digit_field_eq(a, b, 5, mo1);
                assert(d1 < d2);
                lemma_two_digit_field_lex(a, b, 8, d1, d2);
            }
        }
    }
}

} // verus!
