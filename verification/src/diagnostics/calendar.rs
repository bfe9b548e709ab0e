//! Proleptic Gregorian calendar arithmetic on Unix time, and ISO 8601 timestamps.
use vstd::prelude::*;
use super::text::{decimal, u64_to_text, zero_pad, zero_padded};

verus! {

#[verifier::external_type_specification]
#[verifier::external_body]
pub struct ExSystemTime(std::time::SystemTime);

/// `SystemTime::now()`: the machine's wall clock; nothing is known of the value it reads.
#[verifier::external_body]
fn system_time_now() -> std::time::SystemTime {
    std::time::SystemTime::now()
}

/// `t.duration_since(UNIX_EPOCH)`, `None` where `t` lies before the epoch; the duration is
/// whatever the clock gave, so nothing is stated of it.
#[verifier::external_body]
fn since_unix_epoch(t: &std::time::SystemTime) -> Option<std::time::Duration> {
    t.duration_since(std::time::UNIX_EPOCH).ok()
}

/// `Duration::as_secs`: the whole seconds of a duration that Verus sees only as an opaque value.
#[verifier::external_body]
fn whole_seconds(d: &std::time::Duration) -> u64 {
    d.as_secs()
}

/// Whole seconds since the Unix epoch on the wall clock, `None` where the clock lies before
/// the epoch.
pub fn clock_seconds() -> Option<u64> {
    match since_unix_epoch(&system_time_now()) {
        Some(d) => Some(whole_seconds(&d)),
        None => None,
    }
}

pub open spec fn seconds_or_zero_spec(since: Option<u64>) -> u64 {
    match since {
        Some(s) => s,
        None => 0,
    }
}

/// The seconds of a clock reading, 0 for a clock before the epoch (the zero that
/// `Duration::default()` gives).
pub fn seconds_or_zero(since: Option<u64>) -> (r: u64)
    ensures
        r == seconds_or_zero_spec(since),
{
    match since {
        Some(s) => s,
        None => 0,
    }
}

/// Seconds since the Unix epoch on the wall clock, 0 where the clock lies before the epoch.
pub fn unix_time_secs() -> u64 {
    seconds_or_zero(clock_seconds())
}

pub open spec fn is_leap_year(y: int) -> bool {
    y % 4 == 0 && (y % 100 != 0 || y % 400 == 0)
}

pub open spec fn days_in_year(y: int) -> int {
    if is_leap_year(y) {
        366
    } else {
        365
    }
}

/// Number of days of month `m` (1 = January) in year `y`.
pub open spec fn month_length(y: int, m: int) -> int {
    if m == 2 {
        if is_leap_year(y) {
            29
        } else {
            28
        }
    } else if m == 4 || m == 6 || m == 9 || m == 11 {
        30
    } else {
        31
    }
}

/// Days from 1970-01-01 to January 1st of year `y`; no days are counted for years before 1970.
pub open spec fn days_before_year(y: int) -> int
    decreases y - 1970,
{
    if y <= 1970 {
        0
    } else {
        days_before_year(y - 1) + days_in_year(y - 1)
    }
}

/// Days from January 1st to the first day of month `m` in year `y`.
pub open spec fn days_before_month(y: int, m: int) -> int
    decreases m,
{
    if m <= 1 {
        0
    } else {
        days_before_month(y, m - 1) + month_length(y, m - 1)
    }
}

/// `y-m-d` is a valid date from 1970 on, and it lies `days` days after 1970-01-01.
pub open spec fn is_civil_date(days: int, y: int, m: int, d: int) -> bool {
    &&& 1970 <= y
    &&& 1 <= m <= 12
    &&& 1 <= d <= month_length(y, m)
    &&& days_before_year(y) + days_before_month(y, m) + d - 1 == days
}

/// The calendar date (year, month, day) that lies `days` days after 1970-01-01.
pub open spec fn civil_of(days: nat) -> (int, int, int) {
    choose|y: int, m: int, d: int| is_civil_date(days as int, y, m, d)
}

/// The text `YYYY-MM-DDTHH:MM:SSZ` for the given fields.
pub open spec fn iso_text(y: nat, mo: nat, d: nat, h: nat, mi: nat, s: nat) -> Seq<char> {
    zero_pad(decimal(y), 4) + seq!['-'] + zero_pad(decimal(mo), 2) + seq!['-'] + zero_pad(
        decimal(d),
        2,
    ) + seq!['T'] + zero_pad(decimal(h), 2) + seq![':'] + zero_pad(decimal(mi), 2) + seq![':']
        + zero_pad(decimal(s), 2) + seq!['Z']
}

/// The ISO 8601 UTC timestamp of the Unix time `secs`.
pub open spec fn iso8601_text(secs: nat) -> Seq<char> {
    let (y, m, d) = civil_of(secs / 86400);
    let tod = secs % 86400;
    iso_text(y as nat, m as nat, d as nat, tod / 3600, (tod % 3600) / 60, tod % 60)
}

/// The months of a year add up to the year's length.
pub proof fn lemma_days_before_month_full_year(y: int)
    ensures
        days_before_month(y, 13) == days_in_year(y),
{
    reveal_with_fuel(days_before_month, 13);
}

/// Later months start no earlier in the year.
pub proof fn lemma_days_before_month_monotone(y: int, m1: int, m2: int)
    requires
        m1 <= m2,
    ensures
        days_before_month(y, m1) <= days_before_month(y, m2),
    decreases m2 - m1,
{
    if m1 < m2 {
        lemma_days_before_month_monotone(y, m1, m2 - 1);
    }
}

/// Later years start no earlier, and from 1970 on each year adds at least 365 days.
pub proof fn lemma_days_before_year_monotone(y1: int, y2: int)
    requires
        y1 <= y2,
    ensures
        days_before_year(y1) <= days_before_year(y2),
        1970 <= y1 ==> days_before_year(y2) - days_before_year(y1) >= 365 * (y2 - y1),
    decreases y2 - y1,
{
    if y1 < y2 {
        lemma_days_before_year_monotone(y1, y2 - 1);
    }
}

/// Every day from 1970-01-01 on has a calendar date.
pub proof fn lemma_civil_exists(days: nat) -> (r: (int, int, int))
    ensures
        is_civil_date(days as int, r.0, r.1, r.2),
    decreases days,
{
    if days == 0 {
        (1970, 1, 1)
    } else {
        let (y, m, d) = lemma_civil_exists((days - 1) as nat);
        if d < month_length(y, m) {
            (y, m, d + 1)
        } else if m < 12 {
            (y, m + 1, 1)
        } else {
            lemma_days_before_month_full_year(y);
            (y + 1, 1, 1)
        }
    }
}

/// A valid date lies within its year and month.
proof fn lemma_civil_bounds(days: int, y: int, m: int, d: int)
    requires
        is_civil_date(days, y, m, d),
    ensures
        days_before_year(y) <= days < days_before_year(y + 1),
        days_before_month(y, m) <= days - days_before_year(y) < days_before_month(y, m + 1),
{
    lemma_days_before_month_monotone(y, 1, m);
    assert(days_before_month(y, 1) == 0);
    lemma_days_before_month_monotone(y, m + 1, 13);
    lemma_days_before_month_full_year(y);
    assert(days_before_year(y + 1) == days_before_year(y) + days_in_year(y));
    assert(days - days_before_year(y) == days_before_month(y, m) + d - 1);
    assert(days_before_month(y, m + 1) == days_before_month(y, m) + month_length(y, m));
}

/// A day has at most one calendar date.
pub proof fn lemma_civil_unique(days: int, y1: int, m1: int, d1: int, y2: int, m2: int, d2: int)
    requires
        is_civil_date(days, y1, m1, d1),
        is_civil_date(days, y2, m2, d2),
    ensures
        y1 == y2 && m1 == m2 && d1 == d2,
{
    lemma_civil_bounds(days, y1, m1, d1);
    lemma_civil_bounds(days, y2, m2, d2);
    if y1 < y2 {
        lemma_days_before_year_monotone(y1 + 1, y2);
    } else if y2 < y1 {
        lemma_days_before_year_monotone(y2 + 1, y1);
    }
    assert(y1 == y2);
    if m1 < m2 {
        lemma_days_before_month_monotone(y1, m1 + 1, m2);
    } else if m2 < m1 {
        lemma_days_before_month_monotone(y1, m2 + 1, m1);
    }
}

/// `civil_of` gives the date of any day from 1970-01-01 on.
pub proof fn lemma_civil_of(days: nat)
    ensures
        is_civil_date(days as int, civil_of(days).0, civil_of(days).1, civil_of(days).2),
{
    let r = lemma_civil_exists(days);
    assert(is_civil_date(days as int, r.0, r.1, r.2));
}

pub open spec fn pow10(k: nat) -> nat
    decreases k,
{
    if k == 0 {
        1
    } else {
        10 * pow10((k - 1) as nat)
    }
}

/// A number below `10^k` has at most `k` decimal digits.
pub proof fn lemma_decimal_len(n: nat, k: nat)
    requires
        n < pow10(k),
        k >= 1,
    ensures
        1 <= decimal(n).len() <= k,
    decreases k,
{
    if n >= 10 {
        let p = pow10((k - 1) as nat);
        assert(k >= 2) by {
            if k == 1 {
                assert(pow10(1) == 10) by {
                    reveal_with_fuel(pow10, 2);
                }
            }
        }
        assert(n / 10 < p) by (nonlinear_arith)
            requires
                n < 10 * p,
        ;
        lemma_decimal_len(n / 10, (k - 1) as nat);
    }
}

proof fn lemma_pad_width(n: nat, k: nat)
    requires
        n < pow10(k),
        k >= 1,
    ensures
        zero_pad(decimal(n), k).len() == k,
{
    lemma_decimal_len(n, k);
}

/// Law: every timestamp up to the year 9999 renders as the twenty characters
/// `YYYY-MM-DDTHH:MM:SSZ`, with its separators in place.
pub proof fn lemma_iso8601_shape(secs: nat)
    requires
        civil_of(secs / 86400).0 <= 9999,
    ensures
        iso8601_text(secs).len() == 20,
        iso8601_text(secs)[4] == '-',
        iso8601_text(secs)[7] == '-',
        iso8601_text(secs)[10] == 'T',
        iso8601_text(secs)[13] == ':',
        iso8601_text(secs)[16] == ':',
        iso8601_text(secs)[19] == 'Z',
{
    lemma_civil_of(secs / 86400);
    let (y, m, d) = civil_of(secs / 86400);
    let tod = secs % 86400;
    reveal_with_fuel(pow10, 5);
    lemma_pad_width(y as nat, 4);
    lemma_pad_width(m as nat, 2);
    lemma_pad_width(d as nat, 2);
    lemma_pad_width(tod / 3600, 2);
    lemma_pad_width((tod % 3600) / 60, 2);
    lemma_pad_width(tod % 60, 2);
}

pub fn is_leap(y: i64) -> (r: bool)
    ensures
        r == is_leap_year(y as int),
{
    // Shifting by a multiple of 400 keeps every remainder involved and makes the value nonnegative.
    let shifted: u128 = (y as i128 + 9_600_000_000_000_000_000i128) as u128;
    proof {
        let z = y as int;
        assert((z + 9_600_000_000_000_000_000) % 4 == z % 4) by (nonlinear_arith);
        assert((z + 9_600_000_000_000_000_000) % 100 == z % 100) by (nonlinear_arith);
        assert((z + 9_600_000_000_000_000_000) % 400 == z % 400) by (nonlinear_arith);
    }
    shifted % 4 == 0 && (shifted % 100 != 0 || shifted % 400 == 0)
}

pub fn month_days(y: i64, m: u32) -> (r: i64)
    ensures
        r == month_length(y as int, m as int),
{
    if m == 2 {
        if is_leap(y) {
            29
        } else {
            28
        }
    } else if m == 4 || m == 6 || m == 9 || m == 11 {
        30
    } else {
        31
    }
}

/// The calendar date that lies `days` days after 1970-01-01.
pub fn civil_from_days(days: u64) -> (r: (i64, u32, i64))
    requires
        days <= u64::MAX / 86400,
    ensures
        is_civil_date(days as int, r.0 as int, r.1 as int, r.2 as int),
        (r.0 as int, r.1 as int, r.2 as int) == civil_of(days as nat),
{
    let mut year: i64 = 1970;
    let mut remaining: i64 = days as i64;
    loop
        invariant
            days <= u64::MAX / 86400,
            1970 <= year,
            0 <= remaining,
            remaining == days - days_before_year(year as int),
            days_before_year(year as int) >= 365 * (year - 1970),
        ensures
            1970 <= year,
            0 <= remaining < days_in_year(year as int),
            remaining == days - days_before_year(year as int),
        decreases remaining,
    {
        let diy: i64 = if is_leap(year) { 366 } else { 365 };
        if remaining < diy {
            break;
        }
        assert(days_before_year(year + 1) == days_before_year(year as int) + days_in_year(year as int));
        remaining = remaining - diy;
        year = year + 1;
    }
    let mut month: u32 = 1;
    proof {
        lemma_days_before_month_full_year(year as int);
    }
    loop
        invariant
            1970 <= year,
            1 <= month <= 12,
            0 <= remaining,
            remaining == days - days_before_year(year as int) - days_before_month(year as int, month as int),
            remaining < days_in_year(year as int) - days_before_month(year as int, month as int),
            days_before_month(year as int, 13) == days_in_year(year as int),
        ensures
            1970 <= year,
            1 <= month <= 12,
            0 <= remaining < month_length(year as int, month as int),
            remaining == days - days_before_year(year as int) - days_before_month(year as int, month as int),
        decreases 12 - month,
    {
        let md = month_days(year, month);
        if remaining < md {
            break;
        }
        assert(days_before_month(year as int, month + 1) == days_before_month(year as int, month as int)
            + month_length(year as int, month as int));
        remaining = remaining - md;
        month = month + 1;
    }
    let day = remaining + 1;
    proof {
        lemma_civil_of(days as nat);
        let c = civil_of(days as nat);
        lemma_civil_unique(days as int, year as int, month as int, day as int, c.0, c.1, c.2);
    }
    (year, month, day)
}


fn push_text(r: &mut String, s: &str)
    ensures
        final(r)@ == old(r)@ + s@,
{
    r.append(s);
}

/// The ISO 8601 UTC timestamp `YYYY-MM-DDTHH:MM:SSZ` of the Unix time `secs`.
pub fn format_iso8601(secs: u64) -> (r: String)
    ensures
        r@ == iso8601_text(secs as nat),
{
    let days = secs / 86400;
    let tod = secs % 86400;
    let (year, month, day) = civil_from_days(days);
    proof {
        reveal_strlit("-");
        reveal_strlit("T");
        reveal_strlit(":");
        reveal_strlit("Z");
    }
    let mut r = zero_padded(year as u64, 4);
    push_text(&mut r, "-");
    push_text(&mut r, zero_padded(month as u64, 2).as_str());
    push_text(&mut r, "-");
    push_text(&mut r, zero_padded(day as u64, 2).as_str());
    push_text(&mut r, "T");
    push_text(&mut r, zero_padded(tod / 3600, 2).as_str());
    push_text(&mut r, ":");
    push_text(&mut r, zero_padded((tod % 3600) / 60, 2).as_str());
    push_text(&mut r, ":");
    push_text(&mut r, zero_padded(tod % 60, 2).as_str());
    push_text(&mut r, "Z");
    r
}

/// The current wall-clock time as an ISO 8601 UTC timestamp.
pub fn iso8601_now() -> (r: String)
    ensures
        exists|since: Option<u64>| r@ == #[trigger] iso8601_text(seconds_or_zero_spec(since) as nat),
{
    let since = clock_seconds();
    iso8601_at(since)
}

/// The ISO 8601 timestamp of a clock reading (`None`: the clock lies before the epoch, which
/// gives `1970-01-01T00:00:00Z`).
pub fn iso8601_at(since: Option<u64>) -> (r: String)
    ensures
        r@ == iso8601_text(seconds_or_zero_spec(since) as nat),
{
    format_iso8601(seconds_or_zero(since))
}

} // verus!
