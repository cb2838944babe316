//! UTC instants from unix-millisecond timestamps.
//!
//! The explorer API reports transaction times as unix times in milliseconds;
//! that unit is load-bearing and preserved exactly. An instant is kept as a
//! proleptic-Gregorian UTC calendar date and clock time, produced by a
//! verified conversion and rendered in the `YYYY/MM/DD HH:MM:SS` shape the
//! output schema asks for.

use vstd::prelude::*;
use vstd::arithmetic::div_mod::lemma_div_is_ordered;
use vstd::string::StrSliceExecFns;
use vstd::string::StringExecFns;
use crate::digits::all_digits;
use crate::digits::dec_str_of;
use crate::digits::dec_value;
use crate::digits::parse_u64;
use crate::digits::u64_to_string;
use crate::domain::ErrView;
use crate::domain::Error;

verus! {

/// A leap year of the proleptic Gregorian calendar.
pub open spec fn is_leap_year(y: nat) -> bool {
    y % 4 == 0 && (y % 100 != 0 || y % 400 == 0)
}

/// Number of days in year `y`.
pub open spec fn days_in_year(y: nat) -> nat {
    if is_leap_year(y) {
        366
    } else {
        365
    }
}

/// Days from 1970-01-01 to the first day of year `y` (for `y >= 1970`).
pub open spec fn days_before_year(y: nat) -> nat
    decreases y,
{
    if y <= 1970 {
        0
    } else {
        days_before_year((y - 1) as nat) + days_in_year((y - 1) as nat)
    }
}

/// Number of days in month `m` of year `y` (months are 1-based).
pub open spec fn days_in_month(y: nat, m: nat) -> nat {
    if m == 2 {
        if is_leap_year(y) {
            29
        } else {
            28
        }
    } else if m == 4 || m == 6 || m == 9 || m == 11 {
        30
    } else {
        31
    }
}

/// Days from the first day of year `y` to the first day of its month `m`.
pub open spec fn days_before_month(y: nat, m: nat) -> nat
    decreases m,
{
    if m <= 1 {
        0
    } else {
        days_before_month(y, (m - 1) as nat) + days_in_month(y, (m - 1) as nat)
    }
}

/// The twelve months of a year sum to its length.
proof fn lemma_months_sum(y: nat)
    ensures
        days_before_month(y, 13) == days_in_year(y),
{
    reveal_with_fuel(days_before_month, 13);
    if is_leap_year(y) {
        assert(days_before_month(y, 13) == 366);
    } else {
        assert(days_before_month(y, 13) == 365);
    }
}

/// Every year has at least 365 days, so the day count grows at least that
/// fast.
proof fn lemma_days_before_year_lower(y: nat)
    requires
        y >= 1970,
    ensures
        days_before_year(y) >= 365 * (y - 1970),
    decreases y,
{
    if y > 1970 {
        lemma_days_before_year_lower((y - 1) as nat);
    }
}

/// A calendar date and clock time, always read as UTC.
#[derive(Clone, Copy, Debug, PartialEq, Eq, Structural)]
pub struct UtcDateTime {
    pub year: u64,
    pub month: u8,
    pub day: u8,
    pub hour: u8,
    pub minute: u8,
    pub second: u8,
}

/// `dt` is exactly the UTC instant `ms` milliseconds after the unix epoch.
pub open spec fn dt_matches_ms(dt: UtcDateTime, ms: nat) -> bool {
    &&& dt.year >= 1970
    &&& 1 <= dt.month <= 12
    &&& 1 <= dt.day <= days_in_month(dt.year as nat, dt.month as nat)
    &&& days_before_year(dt.year as nat) + days_before_month(dt.year as nat, dt.month as nat) + (
    dt.day - 1) == ms / 86400000
    &&& dt.hour == (ms / 3600000) % 24
    &&& dt.minute == (ms / 60000) % 60
    &&& dt.second == (ms / 1000) % 60
}

/// Length of year `y` in days.
fn year_len(y: u64) -> (r: u64)
    ensures
        r == days_in_year(y as nat),
{
    if y % 4 == 0 && (y % 100 != 0 || y % 400 == 0) {
        366
    } else {
        365
    }
}

/// Length of month `m` of year `y` in days.
fn month_len(y: u64, m: u8) -> (r: u64)
    ensures
        r == days_in_month(y as nat, m as nat),
{
    if m == 2 {
        if y % 4 == 0 && (y % 100 != 0 || y % 400 == 0) {
            29
        } else {
            28
        }
    } else if m == 4 || m == 6 || m == 9 || m == 11 {
        30
    } else {
        31
    }
}

/// Converts a count of unix milliseconds to its UTC instant.
pub fn from_unix_ms(ms: u64) -> (dt: UtcDateTime)
    ensures
        dt_matches_ms(dt, ms as nat),
{
    let days: u64 = ms / 86400000;
    proof {
        lemma_div_is_ordered(ms as int, u64::MAX as int, 86400000);
        assert(u64::MAX as int / 86400000 == 213503982334);
    }
    let mut year: u64 = 1970;
    let mut rem: u64 = days;
    while rem >= year_len(year)
        invariant
            1970 <= year <= 1970 + days,
            days <= 213503982334,
            days_before_year(year as nat) + rem == days,
        decreases rem,
    {
        let yl = year_len(year);
        proof {
            assert(days_before_year((year + 1) as nat) == days_before_year(year as nat)
                + days_in_year(year as nat));
            assert(365 * ((year + 1 - 1970) as nat) <= days_before_year((year + 1) as nat)) by {
                lemma_days_before_year_lower((year + 1) as nat);
            };
        }
        rem = rem - yl;
        year = year + 1;
    }
    proof {
        assert(days_before_month(year as nat, 1) == 0);
    }
    let mut month: u8 = 1;
    while rem >= month_len(year, month)
        invariant
            1 <= month <= 12,
            days_before_year(year as nat) + days_before_month(year as nat, month as nat) + rem
                == days,
            days_before_month(year as nat, month as nat) + rem < days_in_year(year as nat),
        decreases 12 - month,
    {
        let ml = month_len(year, month);
        proof {
            if month == 12 {
                lemma_months_sum(year as nat);
                assert(false);
            }
            assert(days_before_month(year as nat, (month + 1) as nat) == days_before_month(
                year as nat,
                month as nat,
            ) + days_in_month(year as nat, month as nat));
        }
        rem = rem - ml;
        month = month + 1;
    }
    let day: u8 = (rem + 1) as u8;
    let hour: u8 = ((ms / 3600000) % 24) as u8;
    let minute: u8 = ((ms / 60000) % 60) as u8;
    let second: u8 = ((ms / 1000) % 60) as u8;
    UtcDateTime { year, month, day, hour, minute, second }
}

/// Converts a raw unix-millisecond timestamp string to its UTC instant.
///
/// Succeeds exactly on non-empty all-digit strings whose value fits in 64
/// bits; the unit is milliseconds, never seconds.
pub fn unix_to_datetime(timestamp: &str) -> (r: Result<UtcDateTime, Error>)
    ensures
        r is Ok <==> timestamp@.len() > 0 && all_digits(timestamp@) && dec_value(timestamp@)
            <= u64::MAX,
        r matches Ok(dt) ==> dt_matches_ms(dt, dec_value(timestamp@)),
        r matches Err(e) ==> e@ == ErrView::InvalidTimestamp(timestamp@),
{
    match parse_u64(timestamp) {
        Some(ms) => Ok(from_unix_ms(ms)),
        None => Err(Error::InvalidTimestamp(timestamp.to_owned())),
    }
}

/// A number padded with zeros to at least two digits.
pub open spec fn pad2(n: nat) -> Seq<char> {
    if n < 10 {
        "0"@ + dec_str_of(n)
    } else {
        dec_str_of(n)
    }
}

/// A number padded with zeros to at least four digits.
pub open spec fn pad4(n: nat) -> Seq<char> {
    if n < 10 {
        "000"@ + dec_str_of(n)
    } else if n < 100 {
        "00"@ + dec_str_of(n)
    } else if n < 1000 {
        "0"@ + dec_str_of(n)
    } else {
        dec_str_of(n)
    }
}

/// The `YYYY/MM/DD HH:MM:SS` rendering of an instant.
pub open spec fn fmt_ymd_hms(dt: UtcDateTime) -> Seq<char> {
    pad4(dt.year as nat) + "/"@ + pad2(dt.month as nat) + "/"@ + pad2(dt.day as nat) + " "@ + pad2(
        dt.hour as nat,
    ) + ":"@ + pad2(dt.minute as nat) + ":"@ + pad2(dt.second as nat)
}

/// Renders a number zero-padded to at least two digits.
fn pad2_string(n: u64) -> (r: String)
    ensures
        r@ == pad2(n as nat),
{
    if n < 10 {
        let mut s = String::from_str("0");
        s.append(u64_to_string(n).as_str());
        s
    } else {
        u64_to_string(n)
    }
}

/// Renders a number zero-padded to at least four digits.
fn pad4_string(n: u64) -> (r: String)
    ensures
        r@ == pad4(n as nat),
{
    if n < 10 {
        let mut s = String::from_str("000");
        s.append(u64_to_string(n).as_str());
        s
    } else if n < 100 {
        let mut s = String::from_str("00");
        s.append(u64_to_string(n).as_str());
        s
    } else if n < 1000 {
        let mut s = String::from_str("0");
        s.append(u64_to_string(n).as_str());
        s
    } else {
        u64_to_string(n)
    }
}

impl UtcDateTime {
    /// Renders the instant as `YYYY/MM/DD HH:MM:SS` in UTC.
    pub fn format_ymd_hms(&self) -> (r: String)
        ensures
            r@ == fmt_ymd_hms(*self),
    {
        let mut s = pad4_string(self.year);
        s.append("/");
        s.append(pad2_string(self.month as u64).as_str());
        s.append("/");
        s.append(pad2_string(self.day as u64).as_str());
        s.append(" ");
        s.append(pad2_string(self.hour as u64).as_str());
        s.append(":");
        s.append(pad2_string(self.minute as u64).as_str());
        s.append(":");
        s.append(pad2_string(self.second as u64).as_str());
        proof {
            assert(s@ =~= fmt_ymd_hms(*self));
        }
        s
    }
}

} // verus!
