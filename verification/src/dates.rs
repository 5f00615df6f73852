//! Clock access, the multi-format due-date parser, and date rendering.
//!
//! The parser accepts a fixed, ordered list of textual date formats and
//! resolves ambiguous inputs (such as `01/02/2024`) purely by that order:
//! year-month-day with `-`, `/` or `.`; month/day/year; day/month/year;
//! `Mon D, YYYY`; `D Mon YYYY`; and the full-month-name variants. Only the
//! conversion between local civil time and absolute instants is delegated to
//! the time-zone library underneath; the grammar itself is verified here.

use vstd::prelude::*;

use chrono::Datelike;
use chrono::TimeZone;
use chrono::Timelike;

use crate::calendar::MAX_ENCODABLE;
use crate::calendar::MIN_ENCODABLE;
use crate::calendar::digit_val;
use crate::calendar::digit_val_x;
use crate::calendar::in_encodable_range;
use crate::calendar::is_digit;
use crate::calendar::valid_date;
use crate::calendar::valid_date_x;
use crate::error::Result;
use crate::error::TaskyError;
use crate::models::Instant;
use crate::models::eq_ignore_case_seq;

verus! {

// ---------------------------------------------------------------------------
// The clock and the local time zone (trusted boundary)
// ---------------------------------------------------------------------------

/// Relies on `chrono::Utc::now`: seconds since the Unix epoch of the current
/// wall-clock instant. The value depends on the system clock, so nothing is
/// promised of it. On a system clock reading before the Unix epoch the
/// underlying call panics; that is an environment condition no input can
/// exclude, inherited unchanged.
#[verifier::external_body]
pub fn now_instant() -> i64 {
    chrono::Utc::now().timestamp()
}

/// An instant split into calendar fields of the machine's local time zone.
#[derive(Debug, Clone, Copy, PartialEq, Eq, Structural)]
pub struct LocalCivil {
    pub year: i64,
    pub month: u64,
    pub day: u64,
    pub hour: u64,
    pub minute: u64,
    pub second: u64,
}

/// Relies on `chrono::DateTime::from_timestamp` and
/// `DateTime::with_timezone(&chrono::Local)`: the local calendar fields of an
/// instant. The fields depend on the machine's time zone, so only their
/// documented ranges are promised: month 1..=12, day 1..=31, hour 0..=23,
/// minute and second 0..=59.
#[verifier::external_body]
pub fn local_civil_of_instant(ts: i64) -> (r: LocalCivil)
    requires
        in_encodable_range(ts as int),
    ensures
        1 <= r.month <= 12,
        1 <= r.day <= 31,
        r.hour <= 23,
        r.minute <= 59,
        r.second <= 59,
{
    let dt = chrono::DateTime::<chrono::Utc>::from_timestamp(ts, 0).unwrap().with_timezone(
        &chrono::Local,
    );
    LocalCivil {
        year: dt.year() as i64,
        month: dt.month() as u64,
        day: dt.day() as u64,
        hour: dt.hour() as u64,
        minute: dt.minute() as u64,
        second: dt.second() as u64,
    }
}

/// Relies on `chrono::NaiveDate::from_ymd_opt`, `NaiveDate::and_hms_opt` and
/// `chrono::TimeZone::from_local_datetime` on `chrono::Local`: the instant at
/// which the machine's local clock reads the given civil time, or none when
/// the fields name no real local time (an invalid date, or a clock reading
/// skipped or repeated by a zone transition). Local offsets are bounded by a
/// day (`chrono::FixedOffset` admits nothing larger), so with a year of at
/// most 9999 the instant exceeds the encodable range by less than a day.
#[verifier::external_body]
pub fn local_civil_to_instant(y: u64, mo: u64, d: u64, h: u64, mi: u64, s: u64) -> (r: Option<i64>)
    requires
        y <= 9999,
    ensures
        r matches Some(ts) ==> MIN_ENCODABLE - 86400 <= ts <= MAX_ENCODABLE + 86400,
{
    let date = chrono::NaiveDate::from_ymd_opt(y as i32, mo as u32, d as u32)?;
    let ndt = date.and_hms_opt(h as u32, mi as u32, s as u32)?;
    let local = chrono::Local.from_local_datetime(&ndt).single()?;
    Some(local.with_timezone(&chrono::Utc).timestamp())
}

/// The given instant moved into the encodable range, if it was outside it.
pub open spec fn clamped(ts: int) -> int {
    if ts < MIN_ENCODABLE {
        MIN_ENCODABLE as int
    } else if ts > MAX_ENCODABLE {
        MAX_ENCODABLE as int
    } else {
        ts
    }
}

/// Move an instant into the encodable range; instants already inside it are
/// returned unchanged.
pub fn clamp_instant(ts: i64) -> (r: i64)
    ensures
        r == clamped(ts as int),
        in_encodable_range(r as int),
{
    if ts < MIN_ENCODABLE {
        MIN_ENCODABLE
    } else if ts > MAX_ENCODABLE {
        MAX_ENCODABLE
    } else {
        ts
    }
}

/// The current instant, clamped into the encodable range.
pub fn current_instant() -> (r: Instant)
    ensures
        in_encodable_range(r as int),
{
    clamp_instant(now_instant())
}

// ---------------------------------------------------------------------------
// Scanning primitives
// ---------------------------------------------------------------------------

/// The characters of `text`, in order.
fn chars_of(text: &str) -> (v: Vec<char>)
    ensures
        v@ == text@,
{
    let n = text.unicode_len();
    let mut v: Vec<char> = Vec::new();
    let mut i: usize = 0;
    while i < n
        invariant
            n == text@.len(),
            i <= n,
            v@ == text@.take(i as int),
        decreases n - i,
    {
        v.push(text.get_char(i));
        proof {
            assert(v@ =~= text@.take(i + 1));
        }
        i = i + 1;
    }
    proof {
        assert(v@ =~= text@);
    }
    v
}

/// The first index at or after `from` that holds no decimal digit (the end
/// of the digit run starting at `from`).
pub open spec fn digit_run_end(s: Seq<char>, from: int) -> int
    decreases s.len() - from,
{
    if from < 0 || from >= s.len() || !is_digit(s[from]) {
        from
    } else {
        digit_run_end(s, from + 1)
    }
}

/// Executable digit-run scan.
fn digit_run_end_x(v: &Vec<char>, from: usize) -> (r: usize)
    requires
        from <= v@.len(),
    ensures
        r == digit_run_end(v@, from as int),
        from <= r <= v@.len(),
        forall|j: int| from <= j < r ==> is_digit(v@[j]),
        r < v@.len() ==> !is_digit(v@[r as int]),
{
    let n = v.len();
    let mut i = from;
    while i < n && digit_val_x(v[i]).is_some()
        invariant
            from <= i <= n,
            n == v@.len(),
            digit_run_end(v@, from as int) == digit_run_end(v@, i as int),
            forall|j: int| from <= j < i ==> is_digit(v@[j]),
        decreases n - i,
    {
        i = i + 1;
    }
    i
}

/// The number the digits `s[from..to]` spell, read left to right.
pub open spec fn digits_value(s: Seq<char>, from: int, to: int) -> int
    decreases to - from,
{
    if from >= to {
        0
    } else {
        digits_value(s, from, to - 1) * 10 + digit_val(s[to - 1])
    }
}

/// Executable digit-run evaluation, for runs of at most four digits.
fn digits_value_x(v: &Vec<char>, from: usize, to: usize) -> (r: u64)
    requires
        from <= to <= v@.len(),
        to - from <= 4,
        forall|j: int| from <= j < to ==> is_digit(v@[j]),
    ensures
        r == digits_value(v@, from as int, to as int),
        r <= 9999,
{
    let mut acc: u64 = 0;
    let mut i = from;
    while i < to
        invariant
            from <= i <= to <= v@.len(),
            to - from <= 4,
            forall|j: int| from <= j < to ==> is_digit(v@[j]),
            acc == digits_value(v@, from as int, i as int),
            acc <= (if i - from == 0 {
                0int
            } else if i - from == 1 {
                9int
            } else if i - from == 2 {
                99int
            } else if i - from == 3 {
                999int
            } else {
                9999int
            }),
        decreases to - i,
    {
        let d = match digit_val_x(v[i]) {
            Some(d) => d,
            None => 0,
        };
        acc = acc * 10 + d;
        i = i + 1;
    }
    acc
}

/// Whether a character is an ASCII letter.
pub open spec fn is_ascii_letter(c: char) -> bool {
    (65 <= c as int && c as int <= 90) || (97 <= c as int && c as int <= 122)
}

/// The first index at or after `from` that holds no ASCII letter.
pub open spec fn letter_run_end(s: Seq<char>, from: int) -> int
    decreases s.len() - from,
{
    if from < 0 || from >= s.len() || !is_ascii_letter(s[from]) {
        from
    } else {
        letter_run_end(s, from + 1)
    }
}

/// Whether a character is an ASCII letter.
fn is_letter_char(c: char) -> (r: bool)
    ensures
        r == is_ascii_letter(c),
{
    let u = c as u32;
    (65 <= u && u <= 90) || (97 <= u && u <= 122)
}

/// Executable letter-run scan.
fn letter_run_end_x(v: &Vec<char>, from: usize) -> (r: usize)
    requires
        from <= v@.len(),
    ensures
        r == letter_run_end(v@, from as int),
        from <= r <= v@.len(),
{
    let n = v.len();
    let mut i = from;
    while i < n && is_letter_char(v[i])
        invariant
            from <= i <= n,
            n == v@.len(),
            letter_run_end(v@, from as int) == letter_run_end(v@, i as int),
        decreases n - i,
    {
        i = i + 1;
    }
    i
}

// ---------------------------------------------------------------------------
// Month names
// ---------------------------------------------------------------------------

/// The month an abbreviated English name spells, compared case-insensitively.
pub open spec fn month_of_abbrev(name: Seq<char>) -> Option<int> {
    if eq_ignore_case_seq(name, "jan"@) {
        Some(1int)
    } else if eq_ignore_case_seq(name, "feb"@) {
        Some(2int)
    } else if eq_ignore_case_seq(name, "mar"@) {
        Some(3int)
    } else if eq_ignore_case_seq(name, "apr"@) {
        Some(4int)
    } else if eq_ignore_case_seq(name, "may"@) {
        Some(5int)
    } else if eq_ignore_case_seq(name, "jun"@) {
        Some(6int)
    } else if eq_ignore_case_seq(name, "jul"@) {
        Some(7int)
    } else if eq_ignore_case_seq(name, "aug"@) {
        Some(8int)
    } else if eq_ignore_case_seq(name, "sep"@) {
        Some(9int)
    } else if eq_ignore_case_seq(name, "oct"@) {
        Some(10int)
    } else if eq_ignore_case_seq(name, "nov"@) {
        Some(11int)
    } else if eq_ignore_case_seq(name, "dec"@) {
        Some(12int)
    } else {
        None
    }
}

/// The month a full English name spells, compared case-insensitively.
pub open spec fn month_of_full(name: Seq<char>) -> Option<int> {
    if eq_ignore_case_seq(name, "january"@) {
        Some(1int)
    } else if eq_ignore_case_seq(name, "february"@) {
        Some(2int)
    } else if eq_ignore_case_seq(name, "march"@) {
        Some(3int)
    } else if eq_ignore_case_seq(name, "april"@) {
        Some(4int)
    } else if eq_ignore_case_seq(name, "may"@) {
        Some(5int)
    } else if eq_ignore_case_seq(name, "june"@) {
        Some(6int)
    } else if eq_ignore_case_seq(name, "july"@) {
        Some(7int)
    } else if eq_ignore_case_seq(name, "august"@) {
        Some(8int)
    } else if eq_ignore_case_seq(name, "september"@) {
        Some(9int)
    } else if eq_ignore_case_seq(name, "october"@) {
        Some(10int)
    } else if eq_ignore_case_seq(name, "november"@) {
        Some(11int)
    } else if eq_ignore_case_seq(name, "december"@) {
        Some(12int)
    } else {
        None
    }
}

/// The code point of a character with ASCII upper-case letters folded to
/// lower case.
fn fold_char(c: char) -> (r: u32)
    ensures
        r == crate::models::lower_code(c),
{
    let u = c as u32;
    if 65 <= u && u <= 90 {
        u + 32
    } else {
        u
    }
}

/// Whether `v[from..to]` equals a keyword under ASCII case folding.
fn range_matches_ci(v: &Vec<char>, from: usize, to: usize, k: &str) -> (r: bool)
    requires
        from <= to <= v@.len(),
    ensures
        r == eq_ignore_case_seq(v@.subrange(from as int, to as int), k@),
{
    let klen = k.unicode_len();
    if to - from != klen {
        return false;
    }
    let mut i: usize = 0;
    while i < klen
        invariant
            from <= to <= v@.len(),
            to - from == klen,
            klen == k@.len(),
            i <= klen,
            forall|j: int|
                0 <= j < i ==> crate::models::lower_code(v@.subrange(from as int, to as int)[j])
                    == crate::models::lower_code(k@[j]),
        decreases klen - i,
    {
        let af = fold_char(v[from + i]);
        let bf = fold_char(k.get_char(i));
        if af != bf {
            return false;
        }
        proof {
            assert(v@.subrange(from as int, to as int)[i as int] == v@[from + i]);
        }
        i = i + 1;
    }
    true
}

/// The month that `v[from..to]` names, abbreviated or in full.
fn month_of_range(v: &Vec<char>, from: usize, to: usize, full: bool) -> (r: Option<u64>)
    requires
        from <= to <= v@.len(),
    ensures
        ({
            let m = if full {
                month_of_full(v@.subrange(from as int, to as int))
            } else {
                month_of_abbrev(v@.subrange(from as int, to as int))
            };
            match m {
                Some(mo) => r == Some(mo as u64),
                None => r is None,
            }
        }),
{
    if full {
        if range_matches_ci(v, from, to, "january") {
            Some(1)
        } else if range_matches_ci(v, from, to, "february") {
            Some(2)
        } else if range_matches_ci(v, from, to, "march") {
            Some(3)
        } else if range_matches_ci(v, from, to, "april") {
            Some(4)
        } else if range_matches_ci(v, from, to, "may") {
            Some(5)
        } else if range_matches_ci(v, from, to, "june") {
            Some(6)
        } else if range_matches_ci(v, from, to, "july") {
            Some(7)
        } else if range_matches_ci(v, from, to, "august") {
            Some(8)
        } else if range_matches_ci(v, from, to, "september") {
            Some(9)
        } else if range_matches_ci(v, from, to, "october") {
            Some(10)
        } else if range_matches_ci(v, from, to, "november") {
            Some(11)
        } else if range_matches_ci(v, from, to, "december") {
            Some(12)
        } else {
            None
        }
    } else {
        if range_matches_ci(v, from, to, "jan") {
            Some(1)
        } else if range_matches_ci(v, from, to, "feb") {
            Some(2)
        } else if range_matches_ci(v, from, to, "mar") {
            Some(3)
        } else if range_matches_ci(v, from, to, "apr") {
            Some(4)
        } else if range_matches_ci(v, from, to, "may") {
            Some(5)
        } else if range_matches_ci(v, from, to, "jun") {
            Some(6)
        } else if range_matches_ci(v, from, to, "jul") {
            Some(7)
        } else if range_matches_ci(v, from, to, "aug") {
            Some(8)
        } else if range_matches_ci(v, from, to, "sep") {
            Some(9)
        } else if range_matches_ci(v, from, to, "oct") {
            Some(10)
        } else if range_matches_ci(v, from, to, "nov") {
            Some(11)
        } else if range_matches_ci(v, from, to, "dec") {
            Some(12)
        } else {
            None
        }
    }
}

// ---------------------------------------------------------------------------
// The date formats
// ---------------------------------------------------------------------------

/// `YYYY sep M[M] sep D[D]`: a four-digit year, then month and day of one or
/// two digits, naming a real date.
pub open spec fn parse_ymd_spec(s: Seq<char>, sep: char) -> Option<(int, int, int)> {
    let e1 = digit_run_end(s, 0);
    let e2 = digit_run_end(s, e1 + 1);
    let e3 = digit_run_end(s, e2 + 1);
    if e1 == 4 && e1 < s.len() && s[e1] == sep && e1 + 1 <= e2 - 1 && e2 <= e1 + 3 && e2 < s.len()
        && s[e2] == sep && e2 + 1 <= e3 - 1 && e3 <= e2 + 3 && e3 == s.len() {
        let y = digits_value(s, 0, e1);
        let m = digits_value(s, e1 + 1, e2);
        let d = digits_value(s, e2 + 1, e3);
        if valid_date(y, m, d) {
            Some((y, m, d))
        } else {
            None
        }
    } else {
        None
    }
}

/// Executable `YYYY sep M[M] sep D[D]` parse.
fn parse_ymd_x(v: &Vec<char>, sep: char) -> (r: Option<(u64, u64, u64)>)
    ensures
        match parse_ymd_spec(v@, sep) {
            Some((y, m, d)) => r == Some((y as u64, m as u64, d as u64)) && valid_date(y, m, d),
            None => r is None,
        },
{
    let n = v.len();
    let e1 = digit_run_end_x(v, 0);
    if !(e1 == 4 && e1 < n && v[e1] == sep) {
        return None;
    }
    let e2 = digit_run_end_x(v, e1 + 1);
    if !(e2 - e1 >= 2 && e2 - e1 <= 3 && e2 < n && v[e2] == sep) {
        return None;
    }
    let e3 = digit_run_end_x(v, e2 + 1);
    if !(e3 - e2 >= 2 && e3 - e2 <= 3 && e3 == n) {
        return None;
    }
    let y = digits_value_x(v, 0, e1);
    let m = digits_value_x(v, e1 + 1, e2);
    let d = digits_value_x(v, e2 + 1, e3);
    if valid_date_x(y, m, d) {
        Some((y, m, d))
    } else {
        None
    }
}

/// `A[A] / B[B] / YYYY`: two slash-separated fields of one or two digits and
/// a four-digit year; the first field is the month when `month_first`, the
/// day otherwise.
pub open spec fn parse_numeric_slash_spec(s: Seq<char>, month_first: bool) -> Option<
    (int, int, int),
> {
    let e1 = digit_run_end(s, 0);
    let e2 = digit_run_end(s, e1 + 1);
    let e3 = digit_run_end(s, e2 + 1);
    if 1 <= e1 <= 2 && e1 < s.len() && s[e1] == '/' && e1 + 1 <= e2 - 1 && e2 <= e1 + 3 && e2
        < s.len() && s[e2] == '/' && e3 == e2 + 5 && e3 == s.len() {
        let a = digits_value(s, 0, e1);
        let b = digits_value(s, e1 + 1, e2);
        let y = digits_value(s, e2 + 1, e3);
        let m = if month_first {
            a
        } else {
            b
        };
        let d = if month_first {
            b
        } else {
            a
        };
        if valid_date(y, m, d) {
            Some((y, m, d))
        } else {
            None
        }
    } else {
        None
    }
}

/// Executable slash-numeric parse.
fn parse_numeric_slash_x(v: &Vec<char>, month_first: bool) -> (r: Option<(u64, u64, u64)>)
    ensures
        match parse_numeric_slash_spec(v@, month_first) {
            Some((y, m, d)) => r == Some((y as u64, m as u64, d as u64)) && valid_date(y, m, d),
            None => r is None,
        },
{
    let n = v.len();
    let e1 = digit_run_end_x(v, 0);
    if !(1 <= e1 && e1 <= 2 && e1 < n && v[e1] == '/') {
        return None;
    }
    let e2 = digit_run_end_x(v, e1 + 1);
    if !(e2 - e1 >= 2 && e2 - e1 <= 3 && e2 < n && v[e2] == '/') {
        return None;
    }
    let e3 = digit_run_end_x(v, e2 + 1);
    if !(e3 - e2 == 5 && e3 == n) {
        return None;
    }
    let a = digits_value_x(v, 0, e1);
    let b = digits_value_x(v, e1 + 1, e2);
    let y = digits_value_x(v, e2 + 1, e3);
    let m = if month_first {
        a
    } else {
        b
    };
    let d = if month_first {
        b
    } else {
        a
    };
    if valid_date_x(y, m, d) {
        Some((y, m, d))
    } else {
        None
    }
}

/// `Name D[D], YYYY`: a month name, a space, the day, a comma, a space, and
/// a four-digit year.
pub open spec fn parse_month_name_first_spec(s: Seq<char>, full: bool) -> Option<(int, int, int)> {
    let e1 = letter_run_end(s, 0);
    let e2 = digit_run_end(s, e1 + 1);
    let e3 = digit_run_end(s, e2 + 2);
    if 1 <= e1 && e1 < s.len() && s[e1] == ' ' && e1 + 1 <= e2 - 1 && e2 <= e1 + 3 && e2 + 1
        < s.len() && s[e2] == ',' && s[e2 + 1] == ' ' && e3 == e2 + 6 && e3 == s.len() {
        let name = s.subrange(0, e1);
        let m = if full {
            month_of_full(name)
        } else {
            month_of_abbrev(name)
        };
        match m {
            Some(mo) => {
                let d = digits_value(s, e1 + 1, e2);
                let y = digits_value(s, e2 + 2, e3);
                if valid_date(y, mo, d) {
                    Some((y, mo, d))
                } else {
                    None
                }
            },
            None => None,
        }
    } else {
        None
    }
}

/// Executable `Name D[D], YYYY` parse.
fn parse_month_name_first_x(v: &Vec<char>, full: bool) -> (r: Option<(u64, u64, u64)>)
    ensures
        match parse_month_name_first_spec(v@, full) {
            Some((y, m, d)) => r == Some((y as u64, m as u64, d as u64)) && valid_date(y, m, d),
            None => r is None,
        },
{
    let n = v.len();
    let e1 = letter_run_end_x(v, 0);
    if !(1 <= e1 && e1 < n && v[e1] == ' ') {
        return None;
    }
    let e2 = digit_run_end_x(v, e1 + 1);
    if !(e2 - e1 >= 2 && e2 - e1 <= 3 && e2 < n && v[e2] == ',') {
        return None;
    }
    if !(e2 + 1 < n && v[e2 + 1] == ' ') {
        return None;
    }
    let e3 = digit_run_end_x(v, e2 + 2);
    if !(e3 - e2 == 6 && e3 == n) {
        return None;
    }
    match month_of_range(v, 0, e1, full) {
        Some(mo) => {
            let d = digits_value_x(v, e1 + 1, e2);
            let y = digits_value_x(v, e2 + 2, e3);
            if valid_date_x(y, mo, d) {
                Some((y, mo, d))
            } else {
                None
            }
        },
        None => None,
    }
}

/// `D[D] Name YYYY`: the day, a space, a month name, a space, and a
/// four-digit year.
pub open spec fn parse_day_name_spec(s: Seq<char>, full: bool) -> Option<(int, int, int)> {
    let e1 = digit_run_end(s, 0);
    let e2 = letter_run_end(s, e1 + 1);
    let e3 = digit_run_end(s, e2 + 1);
    if 1 <= e1 <= 2 && e1 < s.len() && s[e1] == ' ' && e1 + 1 <= e2 - 1 && e2 < s.len() && s[e2]
        == ' ' && e3 == e2 + 5 && e3 == s.len() {
        let name = s.subrange(e1 + 1, e2);
        let m = if full {
            month_of_full(name)
        } else {
            month_of_abbrev(name)
        };
        match m {
            Some(mo) => {
                let d = digits_value(s, 0, e1);
                let y = digits_value(s, e2 + 1, e3);
                if valid_date(y, mo, d) {
                    Some((y, mo, d))
                } else {
                    None
                }
            },
            None => None,
        }
    } else {
        None
    }
}

/// Executable `D[D] Name YYYY` parse.
fn parse_day_name_x(v: &Vec<char>, full: bool) -> (r: Option<(u64, u64, u64)>)
    ensures
        match parse_day_name_spec(v@, full) {
            Some((y, m, d)) => r == Some((y as u64, m as u64, d as u64)) && valid_date(y, m, d),
            None => r is None,
        },
{
    let n = v.len();
    let e1 = digit_run_end_x(v, 0);
    if !(1 <= e1 && e1 <= 2 && e1 < n && v[e1] == ' ') {
        return None;
    }
    let e2 = letter_run_end_x(v, e1 + 1);
    if !(e2 - e1 >= 2 && e2 < n && v[e2] == ' ') {
        return None;
    }
    let e3 = digit_run_end_x(v, e2 + 1);
    if !(e3 - e2 == 5 && e3 == n) {
        return None;
    }
    match month_of_range(v, e1 + 1, e2, full) {
        Some(mo) => {
            let d = digits_value_x(v, 0, e1);
            let y = digits_value_x(v, e2 + 1, e3);
            if valid_date_x(y, mo, d) {
                Some((y, mo, d))
            } else {
                None
            }
        },
        None => None,
    }
}

// ---------------------------------------------------------------------------
// The parser
// ---------------------------------------------------------------------------

/// The date a text names, trying each accepted format in its fixed priority
/// order; ambiguous all-numeric inputs resolve to the earliest matching
/// format, month/day/year before day/month/year.
pub open spec fn parse_date_spec(s: Seq<char>) -> Option<(int, int, int)> {
    if parse_ymd_spec(s, '-') is Some {
        parse_ymd_spec(s, '-')
    } else if parse_ymd_spec(s, '/') is Some {
        parse_ymd_spec(s, '/')
    } else if parse_ymd_spec(s, '.') is Some {
        parse_ymd_spec(s, '.')
    } else if parse_numeric_slash_spec(s, true) is Some {
        parse_numeric_slash_spec(s, true)
    } else if parse_numeric_slash_spec(s, false) is Some {
        parse_numeric_slash_spec(s, false)
    } else if parse_month_name_first_spec(s, false) is Some {
        parse_month_name_first_spec(s, false)
    } else if parse_day_name_spec(s, false) is Some {
        parse_day_name_spec(s, false)
    } else if parse_month_name_first_spec(s, true) is Some {
        parse_month_name_first_spec(s, true)
    } else if parse_day_name_spec(s, true) is Some {
        parse_day_name_spec(s, true)
    } else {
        None
    }
}

/// Parse a date text into its year, month and day, trying each accepted
/// format in priority order.
pub fn parse_date_parts(text: &str) -> (r: Option<(u64, u64, u64)>)
    ensures
        match parse_date_spec(text@) {
            Some((y, m, d)) => r == Some((y as u64, m as u64, d as u64)) && valid_date(y, m, d),
            None => r is None,
        },
{
    let v = chars_of(text);
    if let Some(p) = parse_ymd_x(&v, '-') {
        return Some(p);
    }
    if let Some(p) = parse_ymd_x(&v, '/') {
        return Some(p);
    }
    if let Some(p) = parse_ymd_x(&v, '.') {
        return Some(p);
    }
    if let Some(p) = parse_numeric_slash_x(&v, true) {
        return Some(p);
    }
    if let Some(p) = parse_numeric_slash_x(&v, false) {
        return Some(p);
    }
    if let Some(p) = parse_month_name_first_x(&v, false) {
        return Some(p);
    }
    if let Some(p) = parse_day_name_x(&v, false) {
        return Some(p);
    }
    if let Some(p) = parse_month_name_first_x(&v, true) {
        return Some(p);
    }
    if let Some(p) = parse_day_name_x(&v, true) {
        return Some(p);
    }
    None
}

/// Parse a date text into the instant of its local midnight. Fails with
/// `InvalidDateFormat`, carrying the input, exactly when no accepted format
/// matches or the named day has no local midnight on this machine.
pub fn parse_date(text: &str) -> (r: Result<Instant>)
    ensures
        parse_date_spec(text@) is None ==> (r matches Err(TaskyError::InvalidDateFormat { date })
            && date@ == text@),
        r matches Err(e) ==> (e matches TaskyError::InvalidDateFormat { date } && date@ == text@),
        r matches Ok(ts) ==> parse_date_spec(text@) is Some && in_encodable_range(ts as int),
{
    match parse_date_parts(text) {
        Some((y, mo, d)) => match local_civil_to_instant(y, mo, d, 0, 0, 0) {
            Some(ts) => Ok(clamp_instant(ts)),
            None => Err(TaskyError::InvalidDateFormat { date: text.to_owned() }),
        },
        None => Err(TaskyError::InvalidDateFormat { date: text.to_owned() }),
    }
}

// ---------------------------------------------------------------------------
// Rendering
// ---------------------------------------------------------------------------

/// Quotient of `a` by positive `b`, truncated toward zero.
pub open spec fn trunc_div(a: int, b: int) -> int {
    if a >= 0 {
        a / b
    } else {
        -((-a) / b)
    }
}

/// The decimal digits of a nonnegative number, most significant first.
pub open spec fn dec_str(n: int) -> Seq<char>
    decreases n,
{
    if n < 10 {
        seq![crate::calendar::digit_char(n)]
    } else {
        dec_str(n / 10) + seq![crate::calendar::digit_char(n % 10)]
    }
}

/// Append the decimal digits of `n` to a string.
pub(crate) fn push_dec(out: &mut String, n: u64)
    ensures
        final (out)@ == old(out)@ + dec_str(n as int),
    decreases n,
{
    if n < 10 {
        out.append(crate::calendar::digit_str(n));
        proof {
            assert(out@ =~= old(out)@ + dec_str(n as int));
        }
    } else {
        proof {
            vstd::arithmetic::div_mod::lemma_div_is_strictly_smaller(n as int, 10);
            vstd::arithmetic::div_mod::lemma_mod_bound(n as int, 10);
        }
        push_dec(out, n / 10);
        out.append(crate::calendar::digit_str(n % 10));
        proof {
            assert(out@ =~= old(out)@ + dec_str(n as int));
        }
    }
}

/// The quotient of a value at most `u64::MAX` by a divisor of at least two
/// fits comfortably in an `i64`.
proof fn lemma_quotient_fits(x: int, d: int)
    requires
        0 <= x <= 0xFFFF_FFFF_FFFF_FFFF,
        2 <= d,
    ensures
        0 <= x / d <= 0x7FFF_FFFF_FFFF_FFFF,
{
    vstd::arithmetic::div_mod::lemma_div_is_ordered_by_denominator(x, 2, d);
    vstd::arithmetic::div_mod::lemma_fundamental_div_mod(x, 2);
    vstd::arithmetic::div_mod::lemma_div_pos_is_pos(x, d);
}

/// Signed truncated quotient of the difference `ts - now` by `b`.
fn diff_quotient(ts: i64, now: i64, b: i64) -> (r: i64)
    requires
        2 <= b,
    ensures
        r == trunc_div(ts as int - now as int, b as int),
{
    let diff: i128 = (ts as i128) - (now as i128);
    if diff >= 0 {
        proof {
            lemma_quotient_fits(diff as int, b as int);
        }
        (diff / (b as i128)) as i64
    } else {
        proof {
            lemma_quotient_fits(-diff as int, b as int);
        }
        -(((-diff) / (b as i128)) as i64)
    }
}

/// The human phrase for the distance from `now` to `ts`: whole days when at
/// least a day away, else whole hours, else whole minutes, each with the
/// Korean suffix for "later" or "ago"; "now" when the distance rounds to
/// zero in all three units.
pub open spec fn relative_phrase(ts: int, now: int) -> Seq<char> {
    let days = trunc_div(ts - now, 86400);
    let hours = trunc_div(ts - now, 3600);
    let minutes = trunc_div(ts - now, 60);
    if days > 0 {
        dec_str(days) + seq!['일', ' ', '후']
    } else if days < 0 {
        dec_str(-days) + seq!['일', ' ', '전']
    } else if hours > 0 {
        dec_str(hours) + seq!['시', '간', ' ', '후']
    } else if hours < 0 {
        dec_str(-hours) + seq!['시', '간', ' ', '전']
    } else if minutes > 0 {
        dec_str(minutes) + seq!['분', ' ', '후']
    } else if minutes < 0 {
        dec_str(-minutes) + seq!['분', ' ', '전']
    } else {
        seq!['지', '금']
    }
}

/// Render the distance from `now` to `ts` as a human phrase.
pub fn relative_time_text(ts: Instant, now: Instant) -> (r: String)
    ensures
        r@ == relative_phrase(ts as int, now as int),
{
    proof {
        reveal_strlit("일 후");
        reveal_strlit("일 전");
        reveal_strlit("시간 후");
        reveal_strlit("시간 전");
        reveal_strlit("분 후");
        reveal_strlit("분 전");
        reveal_strlit("지금");
    }
    let days = diff_quotient(ts, now, 86400);
    let hours = diff_quotient(ts, now, 3600);
    let minutes = diff_quotient(ts, now, 60);
    let mut out = String::new();
    if days > 0 {
        push_dec(&mut out, days as u64);
        out.append("일 후");
    } else if days < 0 {
        push_dec(&mut out, (-days) as u64);
        out.append("일 전");
    } else if hours > 0 {
        push_dec(&mut out, hours as u64);
        out.append("시간 후");
    } else if hours < 0 {
        push_dec(&mut out, (-hours) as u64);
        out.append("시간 전");
    } else if minutes > 0 {
        push_dec(&mut out, minutes as u64);
        out.append("분 후");
    } else if minutes < 0 {
        push_dec(&mut out, (-minutes) as u64);
        out.append("분 전");
    } else {
        out.append("지금");
    }
    proof {
        assert(out@ =~= relative_phrase(ts as int, now as int));
    }
    out
}

/// Render the distance from the current instant to `ts`: the phrase for the
/// distance from whatever the clock read, and so never empty.
pub fn format_relative_time(ts: Instant) -> (r: String)
    ensures
        r@.len() >= 2,
        exists|now: int| r@ == relative_phrase(ts as int, now),
{
    let now = now_instant();
    let r = relative_time_text(ts, now);
    proof {
        assert(r@ == relative_phrase(ts as int, now as int));
    }
    r
}

/// The ten characters `"YYYY-MM-DD"` of a calendar date.
pub open spec fn date_text(y: int, mo: int, d: int) -> Seq<char> {
    seq![
        crate::calendar::digit_char(y / 1000),
        crate::calendar::digit_char(y / 100 % 10),
        crate::calendar::digit_char(y / 10 % 10),
        crate::calendar::digit_char(y % 10),
        '-',
        crate::calendar::digit_char(mo / 10),
        crate::calendar::digit_char(mo % 10),
        '-',
        crate::calendar::digit_char(d / 10),
        crate::calendar::digit_char(d % 10),
    ]
}

/// Render a calendar date as `"YYYY-MM-DD"`.
pub fn format_ymd(y: u64, mo: u64, d: u64) -> (r: String)
    requires
        y <= 9999,
        mo <= 99,
        d <= 99,
    ensures
        r@ == date_text(y as int, mo as int, d as int),
{
    proof {
        reveal_strlit("-");
    }
    let mut out = String::new();
    crate::calendar::push_four_digits(&mut out, y);
    out.append("-");
    crate::calendar::push_two_digits(&mut out, mo);
    out.append("-");
    crate::calendar::push_two_digits(&mut out, d);
    proof {
        assert(out@ =~= date_text(y as int, mo as int, d as int));
    }
    out
}

/// A local-calendar year forced into the encodable range of years.
pub fn clamp_year(y: i64) -> (r: u64)
    ensures
        r == (if y < 0 {
            0int
        } else if y > 9999 {
            9999int
        } else {
            y as int
        }),
{
    if y < 0 {
        0
    } else if y > 9999 {
        9999
    } else {
        y as u64
    }
}

/// Render an instant as the local date `"YYYY-MM-DD"`: always the fixed
/// ten-character date shape, with in-range calendar fields; which date it is
/// follows the machine's time zone.
pub fn format_date(ts: Instant) -> (r: String)
    ensures
        r@.len() == 10,
        exists|y: int, mo: int, d: int|
            0 <= y <= 9999 && 1 <= mo <= 12 && 1 <= d <= 31 && r@ == date_text(y, mo, d),
{
    let c = clamp_instant(ts);
    let lc = local_civil_of_instant(c);
    let y = clamp_year(lc.year);
    let r = format_ymd(y, lc.month, lc.day);
    proof {
        assert(r@ == date_text(y as int, lc.month as int, lc.day as int));
    }
    r
}

/// The characters `"YYYY년 MM월 DD일 HH:MM"` of a local civil time.
pub open spec fn datetime_text(y: int, mo: int, d: int, h: int, mi: int) -> Seq<char> {
    seq![
        crate::calendar::digit_char(y / 1000),
        crate::calendar::digit_char(y / 100 % 10),
        crate::calendar::digit_char(y / 10 % 10),
        crate::calendar::digit_char(y % 10),
        '년',
        ' ',
        crate::calendar::digit_char(mo / 10),
        crate::calendar::digit_char(mo % 10),
        '월',
        ' ',
        crate::calendar::digit_char(d / 10),
        crate::calendar::digit_char(d % 10),
        '일',
        ' ',
        crate::calendar::digit_char(h / 10),
        crate::calendar::digit_char(h % 10),
        ':',
        crate::calendar::digit_char(mi / 10),
        crate::calendar::digit_char(mi % 10),
    ]
}

/// Render local civil fields as `"YYYY년 MM월 DD일 HH:MM"`.
pub fn format_ymdhm(y: u64, mo: u64, d: u64, h: u64, mi: u64) -> (r: String)
    requires
        y <= 9999,
        mo <= 99,
        d <= 99,
        h <= 99,
        mi <= 99,
    ensures
        r@ == datetime_text(y as int, mo as int, d as int, h as int, mi as int),
{
    proof {
        reveal_strlit("년 ");
        reveal_strlit("월 ");
        reveal_strlit("일 ");
        reveal_strlit(":");
    }
    let mut out = String::new();
    crate::calendar::push_four_digits(&mut out, y);
    out.append("년 ");
    crate::calendar::push_two_digits(&mut out, mo);
    out.append("월 ");
    crate::calendar::push_two_digits(&mut out, d);
    out.append("일 ");
    crate::calendar::push_two_digits(&mut out, h);
    out.append(":");
    crate::calendar::push_two_digits(&mut out, mi);
    proof {
        assert(out@ =~= datetime_text(y as int, mo as int, d as int, h as int, mi as int));
    }
    out
}

/// Render an instant as the local civil time `"YYYY년 MM월 DD일 HH:MM"`:
/// always that fixed nineteen-character shape, with in-range calendar
/// fields; which reading it is follows the machine's time zone.
pub fn format_datetime(ts: Instant) -> (r: String)
    ensures
        r@.len() == 19,
        exists|y: int, mo: int, d: int, h: int, mi: int|
            0 <= y <= 9999 && 1 <= mo <= 12 && 1 <= d <= 31 && 0 <= h <= 23 && 0 <= mi <= 59
                && r@ == datetime_text(y, mo, d, h, mi),
{
    let c = clamp_instant(ts);
    let lc = local_civil_of_instant(c);
    let y = clamp_year(lc.year);
    let r = format_ymdhm(y, lc.month, lc.day, lc.hour, lc.minute);
    proof {
        assert(r@ == datetime_text(
            y as int,
            lc.month as int,
            lc.day as int,
            lc.hour as int,
            lc.minute as int,
        ));
    }
    r
}

/// The civil fields of one bound of `lc`'s calendar day: the same date (its
/// year clamped into the encodable years), at 00:00:00 for the start of the
/// day or 23:59:59 for its end.
fn day_bound_fields(lc: &LocalCivil, end_of_day: bool) -> (r: (u64, u64, u64, u64, u64, u64))
    ensures
        r.0 as int == (if lc.year < 0 {
            0int
        } else if lc.year > 9999 {
            9999int
        } else {
            lc.year as int
        }),
        r.1 == lc.month,
        r.2 == lc.day,
        r.3 == (if end_of_day {
            23int
        } else {
            0
        }),
        r.4 == (if end_of_day {
            59int
        } else {
            0
        }),
        r.5 == (if end_of_day {
            59int
        } else {
            0
        }),
{
    let y = clamp_year(lc.year);
    if end_of_day {
        (y, lc.month, lc.day, 23, 59, 59)
    } else {
        (y, lc.month, lc.day, 0, 0, 0)
    }
}

/// The instant at which the machine's zone reads one bound of today's local
/// day: its 00:00:00 or its 23:59:59, per `day_bound_fields`. Falls back to
/// the current instant if the zone skips that reading.
fn local_day_bound(end_of_day: bool) -> (r: Instant)
    ensures
        in_encodable_range(r as int),
{
    let now = current_instant();
    let lc = local_civil_of_instant(now);
    let f = day_bound_fields(&lc, end_of_day);
    match local_civil_to_instant(f.0, f.1, f.2, f.3, f.4, f.5) {
        Some(ts) => clamp_instant(ts),
        None => now,
    }
}

/// The instant of today's local midnight: the inclusive lower bound of the
/// "due today" range, asked of the zone with the fields `day_bound_fields`
/// pins (today's date at 00:00:00).
pub fn today_start() -> (r: Instant)
    ensures
        in_encodable_range(r as int),
{
    local_day_bound(false)
}

/// The instant of today's local 23:59:59: the inclusive upper bound of the
/// "due today" range, asked of the zone with the fields `day_bound_fields`
/// pins (today's date at 23:59:59).
pub fn today_end() -> (r: Instant)
    ensures
        in_encodable_range(r as int),
{
    local_day_bound(true)
}

/// Rendering a valid date as `"YYYY-MM-DD"` and parsing the text back
/// yields the same date: the date round trip, before any time zone enters.
pub proof fn lemma_date_text_reparses(y: int, mo: int, d: int)
    requires
        valid_date(y, mo, d),
    ensures
        parse_date_spec(date_text(y, mo, d)) == Some((y, mo, d)),
{
    let t = date_text(y, mo, d);
    crate::calendar::lemma_four_digit_decomp(y);
    crate::calendar::lemma_two_digit_decomp(mo);
    crate::calendar::lemma_two_digit_decomp(d);
    crate::calendar::lemma_digit_roundtrip(y / 1000);
    crate::calendar::lemma_digit_roundtrip(y / 100 % 10);
    crate::calendar::lemma_digit_roundtrip(y / 10 % 10);
    crate::calendar::lemma_digit_roundtrip(y % 10);
    crate::calendar::lemma_digit_roundtrip(mo / 10);
    crate::calendar::lemma_digit_roundtrip(mo % 10);
    crate::calendar::lemma_digit_roundtrip(d / 10);
    crate::calendar::lemma_digit_roundtrip(d % 10);
    assert(!is_digit('-'));
    assert(digit_run_end(t, 10) == 10);
    assert(digit_run_end(t, 9) == 10);
    assert(digit_run_end(t, 8) == 10);
    assert(digit_run_end(t, 7) == 7);
    assert(digit_run_end(t, 6) == 7);
    assert(digit_run_end(t, 5) == 7);
    assert(digit_run_end(t, 4) == 4);
    assert(digit_run_end(t, 3) == 4);
    assert(digit_run_end(t, 2) == 4);
    assert(digit_run_end(t, 1) == 4);
    assert(digit_run_end(t, 0) == 4);
    assert(digits_value(t, 0, 0) == 0);
    assert(digits_value(t, 5, 5) == 0);
    assert(digits_value(t, 8, 8) == 0);
    assert(digits_value(t, 0, 1) == y / 1000);
    assert(digits_value(t, 0, 2) == 10 * (y / 1000) + y / 100 % 10);
    assert(digits_value(t, 0, 3) == 10 * (10 * (y / 1000) + y / 100 % 10) + y / 10 % 10);
    assert(digits_value(t, 0, 4) == y);
    assert(digits_value(t, 5, 6) == mo / 10);
    assert(digits_value(t, 5, 7) == mo);
    assert(digits_value(t, 8, 9) == d / 10);
    assert(digits_value(t, 8, 10) == d);
    assert(parse_ymd_spec(t, '-') == Some((y, mo, d)));
}

} // verus!
