use vstd::prelude::*;
use vstd::utf8::is_ascii_chars;
use crate::numtext::{digit_char, padded_text, push_padded};
use crate::text::push_char;

verus! {

/// Gregorian leap-year rule.
pub open spec fn is_leap_year(y: int) -> bool {
    (y % 4 == 0 && y % 100 != 0) || y % 400 == 0
}

/// Number of days in year `y`.
pub open spec fn year_length(y: int) -> nat {
    if is_leap_year(y) { 366 } else { 365 }
}

/// Number of days in month `m` (1 to 12) of year `y`.
pub open spec fn month_length(y: int, m: int) -> nat {
    if m == 2 {
        if is_leap_year(y) { 29 } else { 28 }
    } else if m == 4 || m == 6 || m == 9 || m == 11 {
        30
    } else {
        31
    }
}

/// Number of days in the months of year `y` before month `m` (1 to 12).
pub open spec fn days_before_month(y: int, m: int) -> nat {
    let leap_day: nat = if is_leap_year(y) && m > 2 { 1 } else { 0 };
    let base: nat = if m <= 1 { 0 }
        else if m == 2 { 31 }
        else if m == 3 { 59 }
        else if m == 4 { 90 }
        else if m == 5 { 120 }
        else if m == 6 { 151 }
        else if m == 7 { 181 }
        else if m == 8 { 212 }
        else if m == 9 { 243 }
        else if m == 10 { 273 }
        else if m == 11 { 304 }
        else { 334 };
    base + leap_day
}

/// The date `rem` days after the first day of month `m` of year `y`, walking month by month.
pub open spec fn civil_in_year(y: int, m: int, rem: nat) -> (int, int, int)
    decreases 12 - m,
{
    if m >= 12 || rem < month_length(y, m) {
        (y, m, rem + 1 as int)
    } else {
        civil_in_year(y, m + 1, (rem - month_length(y, m)) as nat)
    }
}

/// The date `rem` days after January 1 of year `y`, walking year by year.
pub open spec fn civil_from_year(y: int, rem: nat) -> (int, int, int)
    decreases rem,
{
    if rem < year_length(y) {
        civil_in_year(y, 1, rem)
    } else {
        civil_from_year(y + 1, (rem - year_length(y)) as nat)
    }
}

/// The proleptic Gregorian (year, month, day) that lies `days` days after 1970-01-01.
pub open spec fn civil_date(days: nat) -> (int, int, int) {
    civil_from_year(1970, days)
}

/// `YYYY-MM-DDTHH:MM:SS.` for the UTC instant `seconds` after the Unix epoch.
pub open spec fn rfc3339_seconds_prefix(seconds: nat) -> Seq<char> {
    let date = civil_date(seconds / 86400);
    let second_of_day = seconds % 86400;
    padded_text(date.0 as nat, 4) + seq!['-'] + padded_text(date.1 as nat, 2) + seq!['-']
        + padded_text(date.2 as nat, 2) + seq!['T'] + padded_text((second_of_day / 3600) as nat, 2)
        + seq![':'] + padded_text(((second_of_day % 3600) / 60) as nat, 2) + seq![':']
        + padded_text((second_of_day % 60) as nat, 2) + seq!['.']
}

/// `YYYY-MM-DDTHH:MM:SS.000Z` for the UTC instant `seconds` after the Unix epoch.
pub open spec fn rfc3339_millis_text(seconds: nat) -> Seq<char> {
    rfc3339_seconds_prefix(seconds) + seq!['0', '0', '0', 'Z']
}

/// The whole seconds of a millisecond reading, saturated at `u32::MAX`.
pub open spec fn saturated_seconds(millis: nat) -> nat {
    if millis / 1000 <= u32::MAX { millis / 1000 } else { u32::MAX as nat }
}

/// `YYYY-MM-DDTHH:MM:SS.mmmZ` for the UTC instant `millis` milliseconds after the Unix
/// epoch, the seconds saturated at `u32::MAX`.
pub open spec fn rfc3339_instant_text(millis: nat) -> Seq<char> {
    rfc3339_seconds_prefix(saturated_seconds(millis)) + padded_text(millis % 1000, 3) + seq!['Z']
}

fn is_leap(y: u32) -> (res: bool)
    ensures
        res == is_leap_year(y as int),
{
    (y % 4 == 0 && y % 100 != 0) || y % 400 == 0
}

fn days_in_year(y: u32) -> (res: u32)
    ensures
        res == year_length(y as int),
{
    if is_leap(y) { 366 } else { 365 }
}

fn days_in_month(y: u32, m: u32) -> (res: u32)
    ensures
        res == month_length(y as int, m as int),
{
    if m == 2 {
        if is_leap(y) { 29 } else { 28 }
    } else if m == 4 || m == 6 || m == 9 || m == 11 {
        30
    } else {
        31
    }
}

/// The calendar date `days` days after 1970-01-01, as (year, month, day).
pub fn civil_from_days(days: u32) -> (res: (u32, u32, u32))
    ensures
        (res.0 as int, res.1 as int, res.2 as int) == civil_date(days as nat),
        1970 <= res.0 <= 1970 + days / 365,
        1 <= res.1 <= 12,
        1 <= res.2 <= 31,
{
    let mut year: u32 = 1970;
    let mut rem: u32 = days;
    while rem >= days_in_year(year)
        invariant
            civil_from_year(year as int, rem as nat) == civil_date(days as nat),
            rem <= days,
            1970 <= year,
            (year - 1970) * 365 <= days - rem,
        decreases rem,
    {
        let len = days_in_year(year);
        rem = rem - len;
        year = year + 1;
    }
    let mut month: u32 = 1;
    assert(civil_from_year(year as int, rem as nat) == civil_in_year(year as int, 1, rem as nat));
    while month < 12 && rem >= days_in_month(year, month)
        invariant
            civil_in_year(year as int, month as int, rem as nat) == civil_date(days as nat),
            1 <= month <= 12,
            rem + days_before_month(year as int, month as int) < year_length(year as int),
        decreases 12 - month,
    {
        let len = days_in_month(year, month);
        rem = rem - len;
        month = month + 1;
    }
    (year, month, rem + 1)
}

fn push_rfc3339_prefix(out: &mut String, seconds: u32)
    ensures
        final(out)@ == old(out)@ + rfc3339_seconds_prefix(seconds as nat),
{
    let days = seconds / 86_400;
    let seconds_of_day = seconds % 86_400;
    let (year, month, day) = civil_from_days(days);
    let hour = seconds_of_day / 3_600;
    let minute = (seconds_of_day % 3_600) / 60;
    let second = seconds_of_day % 60;
    push_padded(out, year as u64, 4);
    push_char(out, '-');
    push_padded(out, month as u64, 2);
    push_char(out, '-');
    push_padded(out, day as u64, 2);
    push_char(out, 'T');
    push_padded(out, hour as u64, 2);
    push_char(out, ':');
    push_padded(out, minute as u64, 2);
    push_char(out, ':');
    push_padded(out, second as u64, 2);
    push_char(out, '.');
    assert(out@ =~= old(out)@ + rfc3339_seconds_prefix(seconds as nat));
}

/// Renders `seconds` after the Unix epoch as an RFC 3339 UTC timestamp with millisecond
/// precision, such as `2026-06-10T00:00:00.000Z`.
pub fn format_unix_seconds_rfc3339(seconds: u32) -> (res: String)
    ensures
        res@ == rfc3339_millis_text(seconds as nat),
{
    let mut out = String::new();
    push_rfc3339_prefix(&mut out, seconds);
    push_char(&mut out, '0');
    push_char(&mut out, '0');
    push_char(&mut out, '0');
    push_char(&mut out, 'Z');
    assert(out@ =~= rfc3339_millis_text(seconds as nat));
    out
}

/// Renders `millis` milliseconds after the Unix epoch as an RFC 3339 UTC timestamp with
/// millisecond precision; instants past `u32::MAX` seconds render as that second.
pub fn format_unix_millis_rfc3339(millis: u64) -> (res: String)
    ensures
        res@ == rfc3339_instant_text(millis as nat),
{
    let whole = millis / 1000;
    let seconds: u32 = if whole <= u32::MAX as u64 { whole as u32 } else { u32::MAX };
    let mut out = String::new();
    push_rfc3339_prefix(&mut out, seconds);
    push_padded(&mut out, millis % 1000, 3);
    push_char(&mut out, 'Z');
    assert(out@ =~= rfc3339_instant_text(millis as nat));
    out
}

/// Seconds since the Unix epoch as the system clock reports them (`SystemTime::now`
/// measured from `UNIX_EPOCH`); `None` when the clock stands before the epoch. The
/// value depends on the clock alone, so nothing is stated of it.
#[verifier::external_body]
fn system_clock_unix_seconds() -> (res: Option<u64>) {
    std::time::SystemTime::now().duration_since(std::time::UNIX_EPOCH).ok().map(|d| d.as_secs())
}

/// Clamps a reading of the clock to `u32`: a clock before the epoch reads as zero, and a
/// reading past `u32::MAX` saturates.
pub fn clamp_unix_seconds(reading: Option<u64>) -> (res: u32)
    ensures
        res == match reading {
            Some(s) => if s <= u32::MAX as u64 { s as u32 } else { u32::MAX },
            None => 0u32,
        },
{
    match reading {
        Some(s) => if s <= u32::MAX as u64 { s as u32 } else { u32::MAX },
        None => 0,
    }
}

/// The current Unix time in seconds, saturated to `u32`.
pub fn issued_at_unix_seconds() -> (res: u32) {
    clamp_unix_seconds(system_clock_unix_seconds())
}

/// Milliseconds since the Unix epoch as the system clock reports them (`SystemTime::now`
/// measured from `UNIX_EPOCH`, `Duration::as_millis`); `None` when the clock stands before
/// the epoch or the reading does not fit in `u64`. The value depends on the clock alone,
/// so nothing is stated of it.
#[verifier::external_body]
fn system_clock_unix_millis() -> (res: Option<u64>) {
    std::time::SystemTime::now()
        .duration_since(std::time::UNIX_EPOCH)
        .ok()
        .and_then(|d| u64::try_from(d.as_millis()).ok())
}

/// The instant that a clock reading stands for: a reading before the epoch is the epoch.
pub open spec fn reading_millis(reading: Option<u64>) -> nat {
    match reading {
        Some(m) => m as nat,
        None => 0,
    }
}

/// A concatenation of ASCII texts is ASCII.
pub proof fn lemma_ascii_concat(a: Seq<char>, b: Seq<char>)
    requires
        is_ascii_chars(a),
        is_ascii_chars(b),
    ensures
        is_ascii_chars(a + b),
{
    assert forall|i: int| 0 <= i < (a + b).len() implies '\0' <= #[trigger] (a + b)[i] <= '\u{7f}' by {
        if i < a.len() {
            assert((a + b)[i] == a[i]);
        } else {
            assert((a + b)[i] == b[i - a.len()]);
        }
    }
}

/// Zero-padded decimal text is ASCII.
pub proof fn lemma_padded_ascii(n: nat, width: nat)
    ensures
        is_ascii_chars(padded_text(n, width)),
    decreases width,
{
    if width > 0 {
        lemma_padded_ascii(n / 10, (width - 1) as nat);
        let d = digit_char((n % 10) as int);
        assert('0' <= d <= '9');
        lemma_ascii_concat(padded_text(n / 10, (width - 1) as nat), seq![d]);
        assert(padded_text(n, width) =~= padded_text(n / 10, (width - 1) as nat) + seq![d]);
    }
}

/// The date-and-time prefix of a timestamp is ASCII.
pub proof fn lemma_prefix_ascii(seconds: nat)
    ensures
        is_ascii_chars(rfc3339_seconds_prefix(seconds)),
{
    let date = civil_date(seconds / 86400);
    let sod = seconds % 86400;
    let p0 = padded_text(date.0 as nat, 4);
    let p1 = padded_text(date.1 as nat, 2);
    let p2 = padded_text(date.2 as nat, 2);
    let p3 = padded_text((sod / 3600) as nat, 2);
    let p4 = padded_text(((sod % 3600) / 60) as nat, 2);
    let p5 = padded_text((sod % 60) as nat, 2);
    lemma_padded_ascii(date.0 as nat, 4);
    lemma_padded_ascii(date.1 as nat, 2);
    lemma_padded_ascii(date.2 as nat, 2);
    lemma_padded_ascii((sod / 3600) as nat, 2);
    lemma_padded_ascii(((sod % 3600) / 60) as nat, 2);
    lemma_padded_ascii((sod % 60) as nat, 2);
    let dash = seq!['-'];
    let tee = seq!['T'];
    let colon = seq![':'];
    let dot = seq!['.'];
    assert(is_ascii_chars(dash));
    assert(is_ascii_chars(tee));
    assert(is_ascii_chars(colon));
    assert(is_ascii_chars(dot));
    lemma_ascii_concat(p0, dash);
    lemma_ascii_concat(p0 + dash, p1);
    lemma_ascii_concat(p0 + dash + p1, dash);
    lemma_ascii_concat(p0 + dash + p1 + dash, p2);
    lemma_ascii_concat(p0 + dash + p1 + dash + p2, tee);
    lemma_ascii_concat(p0 + dash + p1 + dash + p2 + tee, p3);
    lemma_ascii_concat(p0 + dash + p1 + dash + p2 + tee + p3, colon);
    lemma_ascii_concat(p0 + dash + p1 + dash + p2 + tee + p3 + colon, p4);
    lemma_ascii_concat(p0 + dash + p1 + dash + p2 + tee + p3 + colon + p4, colon);
    lemma_ascii_concat(p0 + dash + p1 + dash + p2 + tee + p3 + colon + p4 + colon, p5);
    lemma_ascii_concat(p0 + dash + p1 + dash + p2 + tee + p3 + colon + p4 + colon + p5, dot);
}

/// A timestamp with milliseconds is ASCII.
pub proof fn lemma_instant_text_ascii(millis: nat)
    ensures
        is_ascii_chars(rfc3339_instant_text(millis)),
{
    let prefix = rfc3339_seconds_prefix(saturated_seconds(millis));
    lemma_prefix_ascii(saturated_seconds(millis));
    lemma_padded_ascii(millis % 1000, 3);
    let zed = seq!['Z'];
    assert(is_ascii_chars(zed));
    lemma_ascii_concat(prefix, padded_text(millis % 1000, 3));
    lemma_ascii_concat(prefix + padded_text(millis % 1000, 3), zed);
}

/// Renders a clock reading in milliseconds as an RFC 3339 UTC timestamp; a clock before
/// the epoch renders as the epoch.
pub fn rfc3339_of_reading(reading: Option<u64>) -> (res: String)
    ensures
        res@ == rfc3339_instant_text(reading_millis(reading)),
{
    match reading {
        Some(m) => format_unix_millis_rfc3339(m),
        None => format_unix_millis_rfc3339(0),
    }
}

/// The current UTC time as an RFC 3339 timestamp with millisecond precision.
pub fn utc_now_rfc3339_millis() -> (res: String)
    ensures
        exists|m: nat| res@ == rfc3339_instant_text(m),
{
    let reading = system_clock_unix_millis();
    let res = rfc3339_of_reading(reading);
    assert(res@ == rfc3339_instant_text(reading_millis(reading)));
    res
}

} // verus!
