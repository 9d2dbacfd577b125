//! Rendering a Unix timestamp as an RFC 3339 UTC date-time.
//!
//! The conversion is plain integer work: days and seconds-of-day, then the
//! proleptic Gregorian year and month by walking year and month lengths.

use vstd::prelude::*;

use crate::encode::{push_char, push_digits, spec_digits};

verus! {

/// The Gregorian leap-year rule.
pub open spec fn spec_is_leap(y: int) -> bool {
    y % 4 == 0 && (y % 100 != 0 || y % 400 == 0)
}

pub open spec fn spec_days_in_year(y: int) -> int {
    if spec_is_leap(y) {
        366
    } else {
        365
    }
}

pub open spec fn spec_days_in_month(m: int, y: int) -> int {
    if m == 2 {
        if spec_is_leap(y) {
            29
        } else {
            28
        }
    } else if m == 4 || m == 6 || m == 9 || m == 11 {
        30
    } else {
        31
    }
}

/// The year holding the day `days` after the start of year `y`, and the
/// remaining day-of-year.
pub open spec fn spec_civil_year(days: int, y: int) -> (int, int)
    decreases days,
{
    if days < spec_days_in_year(y) {
        (y, days)
    } else {
        spec_civil_year(days - spec_days_in_year(y), y + 1)
    }
}

/// The month holding the day `doy` after the start of month `m` of year
/// `y`, and the remaining zero-based day-of-month.
pub open spec fn spec_civil_month(doy: int, m: int, y: int) -> (int, int)
    decreases 12 - m,
{
    if m >= 12 || doy < spec_days_in_month(m, y) {
        (m, doy)
    } else {
        spec_civil_month(doy - spec_days_in_month(m, y), m + 1, y)
    }
}

/// A number as at least two digits, zero-padded.
pub open spec fn spec_pad2(v: int) -> Seq<char> {
    if v < 10 {
        seq!['0'] + spec_digits(v)
    } else {
        spec_digits(v)
    }
}

/// A number as at least four digits, zero-padded.
pub open spec fn spec_pad4(v: int) -> Seq<char> {
    if v < 10 {
        seq!['0', '0', '0'] + spec_digits(v)
    } else if v < 100 {
        seq!['0', '0'] + spec_digits(v)
    } else if v < 1000 {
        seq!['0'] + spec_digits(v)
    } else {
        spec_digits(v)
    }
}

/// The RFC 3339 UTC text of a Unix timestamp:
/// `YYYY-MM-DDThh:mm:ssZ`, with the date read off the Gregorian calendar
/// from 1970 on.
pub open spec fn spec_rfc3339_utc(secs: int) -> Seq<char> {
    let days = secs / 86400;
    let rem = secs % 86400;
    let civil = spec_civil_year(days, 1970);
    let month = spec_civil_month(civil.1, 1, civil.0);
    spec_pad4(civil.0) + seq!['-'] + spec_pad2(month.0) + seq!['-'] + spec_pad2(month.1 + 1)
        + seq!['T'] + spec_pad2(rem / 3600) + seq![':'] + spec_pad2((rem % 3600) / 60)
        + seq![':'] + spec_pad2(rem % 60) + seq!['Z']
}

fn is_leap(y: u64) -> (r: bool)
    ensures
        r == spec_is_leap(y as int),
{
    y % 4 == 0 && (y % 100 != 0 || y % 400 == 0)
}

fn days_in_year(y: u64) -> (r: u64)
    ensures
        r == spec_days_in_year(y as int),
{
    if is_leap(y) {
        366
    } else {
        365
    }
}

fn days_in_month(m: u64, y: u64) -> (r: u64)
    ensures
        r == spec_days_in_month(m as int, y as int),
{
    if m == 2 {
        if is_leap(y) {
            29
        } else {
            28
        }
    } else if m == 4 || m == 6 || m == 9 || m == 11 {
        30
    } else {
        31
    }
}

fn push_pad2(out: &mut String, v: u64)
    ensures
        final(out)@ == old(out)@ + spec_pad2(v as int),
{
    if v < 10 {
        push_char(out, '0');
    }
    push_digits(out, v);
    proof {
        assert(final(out)@ =~= old(out)@ + spec_pad2(v as int));
    }
}

fn push_pad4(out: &mut String, v: u64)
    ensures
        final(out)@ == old(out)@ + spec_pad4(v as int),
{
    if v < 10 {
        push_char(out, '0');
        push_char(out, '0');
        push_char(out, '0');
    } else if v < 100 {
        push_char(out, '0');
        push_char(out, '0');
    } else if v < 1000 {
        push_char(out, '0');
    }
    push_digits(out, v);
    proof {
        assert(final(out)@ =~= old(out)@ + spec_pad4(v as int));
    }
}

/// The last second RFC 3339 can name with a four-digit year, plus one.
pub open spec fn spec_rfc3339_limit() -> int {
    253402300800
}

/// Renders a Unix timestamp as RFC 3339 UTC text; the range keeps the year
/// at four digits, as the format requires.
#[verifier::loop_isolation(false)]
pub fn format_epoch(secs: i64) -> (r: String)
    requires
        0 <= secs < spec_rfc3339_limit(),
    ensures
        r@ == spec_rfc3339_utc(secs as int),
{
    let total = secs as u64;
    let days0 = total / 86400;
    let rem = total % 86400;

    let mut y: u64 = 1970;
    let mut left: u64 = days0;
    while left >= days_in_year(y)
        invariant
            spec_civil_year(left as int, y as int) == spec_civil_year(days0 as int, 1970),
            365 * (y - 1970) <= days0 - left,
        decreases left,
    {
        left = left - days_in_year(y);
        y = y + 1;
    }
    let ghost civil = spec_civil_year(days0 as int, 1970);
    proof {
        assert(civil == (y as int, left as int));
    }

    let mut m: u64 = 1;
    let mut doy: u64 = left;
    while m < 12 && doy >= days_in_month(m, y)
        invariant
            1 <= m <= 12,
            spec_civil_month(doy as int, m as int, y as int) == spec_civil_month(
                left as int,
                1,
                y as int,
            ),
            doy <= left,
        decreases 12 - m,
    {
        doy = doy - days_in_month(m, y);
        m = m + 1;
    }
    let ghost month = spec_civil_month(left as int, 1, y as int);
    proof {
        assert(month == (m as int, doy as int));
    }

    let mut out = String::new();
    push_pad4(&mut out, y);
    push_char(&mut out, '-');
    push_pad2(&mut out, m);
    push_char(&mut out, '-');
    push_pad2(&mut out, doy + 1);
    push_char(&mut out, 'T');
    push_pad2(&mut out, rem / 3600);
    push_char(&mut out, ':');
    push_pad2(&mut out, (rem % 3600) / 60);
    push_char(&mut out, ':');
    push_pad2(&mut out, rem % 60);
    push_char(&mut out, 'Z');
    proof {
        assert(out@ =~= spec_rfc3339_utc(secs as int));
    }
    out
}

} // verus!
