//! The local date and time, and the timestamps written from it: the compact
//! YYYYMMDDHHMMSS of screenshot names and the YYYY-MM-DD HH:MM:SS of debug dumps.
//! A year from 0 to 9999 takes four digits; another year is written with its sign
//! and at least four digits. A leap second is written as second 60.
use chrono::{Datelike, Timelike};

use vstd::prelude::*;
use vstd::string::*;

use crate::text::{append_decimal_u64, append_repeat, decimal, repeat};

verus! {

/// The local date and time, field by field.
#[derive(Debug, Clone, Copy)]
pub struct LocalTime {
    pub year: i32,
    /// 1 to 12
    pub month: u32,
    /// 1 to 31
    pub day: u32,
    /// 0 to 23
    pub hour: u32,
    /// 0 to 59
    pub minute: u32,
    /// 0 to 59
    pub second: u32,
    /// Nanoseconds since the whole second; 1,000,000,000 and above mark a leap
    /// second.
    pub nanosecond: u32,
}

/// The fields of a date and time are in their ranges.
pub open spec fn local_time_valid(t: LocalTime) -> bool {
    &&& 1 <= t.month <= 12
    &&& 1 <= t.day <= 31
    &&& t.hour < 24
    &&& t.minute < 60
    &&& t.second < 60
    &&& t.nanosecond < 2_000_000_000
}

/// `n` in decimal, zero-padded to at least `w` digits.
pub open spec fn zero_padded(n: nat, w: int) -> Seq<char> {
    repeat('0', w - decimal(n).len()) + decimal(n)
}

/// A year as the stamp writes it: four digits for the years 0 to 9999, otherwise
/// a sign and at least four digits.
pub open spec fn year_text(y: int) -> Seq<char> {
    if 0 <= y < 10000 {
        zero_padded(y as nat, 4)
    } else if y >= 10000 {
        seq!['+'] + decimal(y as nat)
    } else {
        seq!['-'] + zero_padded((-y) as nat, 4)
    }
}

/// The second as the stamp writes it: a leap second counts as one more.
pub open spec fn written_second(t: LocalTime) -> nat {
    (t.second + t.nanosecond / 1_000_000_000) as nat
}

/// The timestamp of a screenshot name: YYYYMMDDHHMMSS, each field after the year
/// in two digits.
pub open spec fn timestamp_of(t: LocalTime) -> Seq<char> {
    year_text(t.year as int) + zero_padded(t.month as nat, 2) + zero_padded(t.day as nat, 2)
        + zero_padded(t.hour as nat, 2) + zero_padded(t.minute as nat, 2) + zero_padded(
        written_second(t),
        2,
    )
}

proof fn lemma_decimal_len_below_10000(n: nat)
    requires
        n < 10000,
    ensures
        n < 10 ==> decimal(n).len() == 1,
        n < 100 ==> decimal(n).len() <= 2,
        decimal(n).len() <= 4,
{
    if n >= 10 {
        assert(decimal(n).len() == decimal(n / 10).len() + 1);
        if n >= 100 {
            assert(decimal(n / 10).len() == decimal(n / 10 / 10).len() + 1);
            if n >= 1000 {
                assert(decimal(n / 10 / 10).len() == decimal(n / 10 / 10 / 10).len() + 1);
            }
        }
    }
}

/// For a date and time in range and a year from 0 to 9999, the timestamp has
/// fourteen characters: four for the year and two for each other field.
pub proof fn lemma_timestamp_length(t: LocalTime)
    requires
        local_time_valid(t),
        0 <= t.year < 10000,
    ensures
        timestamp_of(t).len() == 14,
        written_second(t) <= 60,
{
    lemma_decimal_len_below_10000(t.year as nat);
    lemma_decimal_len_below_10000(t.month as nat);
    lemma_decimal_len_below_10000(t.day as nat);
    lemma_decimal_len_below_10000(t.hour as nat);
    lemma_decimal_len_below_10000(t.minute as nat);
    lemma_decimal_len_below_10000(written_second(t));
}

/// Append `n` zero-padded to at least `w` digits.
fn append_zero_padded(s: &mut String, n: u64, w: usize)
    ensures
        final(s)@ == old(s)@ + zero_padded(n as nat, w as int),
{
    let mut digits = String::new();
    append_decimal_u64(&mut digits, n);
    let len = digits.as_str().unicode_len();
    if len < w {
        append_repeat(s, '0', w - len);
    } else {
        assert(repeat('0', w - decimal(n as nat).len()) =~= Seq::<char>::empty());
    }
    s.append(digits.as_str());
    assert(s@ =~= old(s)@ + zero_padded(n as nat, w as int));
}

/// Append the year `y` as `year_text` writes it.
fn append_year(s: &mut String, y: i32)
    ensures
        final(s)@ == old(s)@ + year_text(y as int),
{
    if 0 <= y && y < 10000 {
        append_zero_padded(s, y as u64, 4);
    } else if y >= 10000 {
        s.push('+');
        append_decimal_u64(s, y as u64);
    } else {
        s.push('-');
        let m: i64 = -(y as i64);
        append_zero_padded(s, m as u64, 4);
    }
    assert(s@ =~= old(s)@ + year_text(y as int));
}

/// The timestamp (YYYYMMDDHHMMSS) of a local date and time.
pub fn timestamp_text(t: &LocalTime) -> (s: String)
    ensures
        s@ == timestamp_of(*t),
{
    let mut s = String::new();
    append_year(&mut s, t.year);
    append_zero_padded(&mut s, t.month as u64, 2);
    append_zero_padded(&mut s, t.day as u64, 2);
    append_zero_padded(&mut s, t.hour as u64, 2);
    append_zero_padded(&mut s, t.minute as u64, 2);
    let sec: u64 = t.second as u64 + t.nanosecond as u64 / 1_000_000_000;
    append_zero_padded(&mut s, sec, 2);
    assert(s@ =~= timestamp_of(*t));
    s
}

/// The time of a debug dump: YYYY-MM-DD HH:MM:SS.
pub open spec fn dump_timestamp_of(t: LocalTime) -> Seq<char> {
    year_text(t.year as int) + seq!['-'] + zero_padded(t.month as nat, 2) + seq!['-']
        + zero_padded(t.day as nat, 2) + seq![' '] + zero_padded(t.hour as nat, 2) + seq![':']
        + zero_padded(t.minute as nat, 2) + seq![':'] + zero_padded(written_second(t), 2)
}

/// The time of a debug dump taken at `t`.
pub fn dump_timestamp_text(t: &LocalTime) -> (s: String)
    ensures
        s@ == dump_timestamp_of(*t),
{
    let mut s = String::new();
    append_year(&mut s, t.year);
    s.push('-');
    append_zero_padded(&mut s, t.month as u64, 2);
    s.push('-');
    append_zero_padded(&mut s, t.day as u64, 2);
    s.push(' ');
    append_zero_padded(&mut s, t.hour as u64, 2);
    s.push(':');
    append_zero_padded(&mut s, t.minute as u64, 2);
    s.push(':');
    let sec: u64 = t.second as u64 + t.nanosecond as u64 / 1_000_000_000;
    append_zero_padded(&mut s, sec, 2);
    assert(s@ =~= dump_timestamp_of(*t));
    s
}

/// The current local time as a debug dump writes it.
pub fn current_dump_timestamp() -> (s: String)
    ensures
        exists|t: LocalTime| local_time_valid(t) && s@ == #[trigger] dump_timestamp_of(t),
{
    let now = local_now();
    dump_timestamp_text(&now)
}

/// `chrono::Local::now()`, read through chrono's `Datelike` and `Timelike`
/// accessors. Claimed: only the ranges those traits document (month 1 to 12, day
/// 1 to 31, hour below 24, minute and second below 60, nanoseconds below two
/// billion, a leap second being marked by nanoseconds from one billion). Which
/// moment it is depends on the clock and the time zone, so nothing more is stated.
#[verifier::external_body]
pub(crate) fn local_now() -> (t: LocalTime)
    ensures
        local_time_valid(t),
{
    let now = chrono::Local::now();
    LocalTime {
        year: now.year(),
        month: now.month(),
        day: now.day(),
        hour: now.hour(),
        minute: now.minute(),
        second: now.second(),
        nanosecond: now.nanosecond(),
    }
}

} // verus!
