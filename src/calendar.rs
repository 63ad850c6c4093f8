//! Calendar dates of Unix times, in the proleptic Gregorian calendar, and
//! their ISO-8601 text.
use vstd::prelude::*;
use crate::text::{padded_decimal, padded_decimal_of};

verus! {

pub const SECONDS_PER_DAY: u64 = 86400;

/// Days in 400 consecutive years: 97 of them are leap years.
pub const DAYS_PER_ERA: u64 = 146097;

pub open spec fn is_leap(y: int) -> bool {
    (y % 4 == 0 && y % 100 != 0) || y % 400 == 0
}

pub open spec fn year_len(y: int) -> int {
    if is_leap(y) {
        366
    } else {
        365
    }
}

/// Leap years among 1, 2, ..., y.
pub open spec fn leaps_through(y: int) -> int {
    y / 4 - y / 100 + y / 400
}

/// Days from 1 January 1970 to 1 January of year `y`.
pub open spec fn days_before_year(y: int) -> int {
    365 * (y - 1970) + leaps_through(y - 1) - leaps_through(1969)
}

pub open spec fn month_len(y: int, m: int) -> int {
    if m == 2 {
        if is_leap(y) {
            29
        } else {
            28
        }
    } else if m == 4 || m == 6 || m == 9 || m == 11 {
        30
    } else {
        31
    }
}

/// Days from 1 January to the first day of month `m` of year `y`.
pub open spec fn days_before_month(y: int, m: int) -> int
    decreases m,
{
    if m <= 1 {
        0
    } else {
        days_before_month(y, m - 1) + month_len(y, m - 1)
    }
}

/// Whether day `d` of month `m` of year `y` is the day `days` days after
/// 1 January 1970.
pub open spec fn is_date_of(days: int, y: int, m: int, d: int) -> bool {
    &&& y >= 1970
    &&& 1 <= m <= 12
    &&& 1 <= d <= month_len(y, m)
    &&& days_before_year(y) + days_before_month(y, m) + d - 1 == days
}

/// `YYYY-MM-DDTHH:MM:SS.000Z`.
pub open spec fn iso_text(y: int, m: int, d: int, hh: int, mi: int, ss: int) -> Seq<char> {
    padded_decimal_of(y as nat, 4) + "-"@ + padded_decimal_of(m as nat, 2) + "-"@
        + padded_decimal_of(d as nat, 2) + "T"@ + padded_decimal_of(hh as nat, 2) + ":"@
        + padded_decimal_of(mi as nat, 2) + ":"@ + padded_decimal_of(ss as nat, 2) + ".000Z"@
}

/// The ISO-8601 text of a Unix time in seconds.
pub open spec fn is_iso_time(t: int, text: Seq<char>) -> bool {
    exists|y: int, m: int, d: int|
        #[trigger] is_date_of(t / 86400, y, m, d) && text == iso_text(
            y,
            m,
            d,
            (t % 86400) / 3600,
            (t % 3600) / 60,
            t % 60,
        )
}

proof fn lemma_year_step(y: int)
    requires
        y >= 1970,
    ensures
        days_before_year(y + 1) == days_before_year(y) + year_len(y),
{
}

proof fn lemma_era_step(y: int)
    requires
        y >= 1970,
    ensures
        days_before_year(y + 400) == days_before_year(y) + 146097,
{
    let a = y - 1;
    assert((a + 400) / 4 == a / 4 + 100);
    assert((a + 400) / 100 == a / 100 + 4);
    assert((a + 400) / 400 == a / 400 + 1);
    assert(leaps_through(a + 400) == leaps_through(a) + 97);
}

proof fn lemma_year_total(y: int)
    requires
        y >= 1970,
    ensures
        days_before_month(y, 13) == year_len(y),
{
    reveal_with_fuel(days_before_month, 13);
}

proof fn lemma_eras(k: nat)
    ensures
        days_before_year(1970 + 400 * k as int) == 146097 * k,
    decreases k,
{
    if k > 0 {
        lemma_eras((k - 1) as nat);
        lemma_era_step(1970 + 400 * (k - 1));
    }
}

/// The calendar date `days` days after 1 January 1970.
pub fn date_of_days(days: u64) -> (r: (u64, u64, u64))
    ensures
        is_date_of(days as int, r.0 as int, r.1 as int, r.2 as int),
{
    let era: u64 = days / DAYS_PER_ERA;
    let mut rem: u64 = days % DAYS_PER_ERA;
    let mut y: u64 = 1970 + 400 * era;
    proof {
        lemma_eras(era as nat);
        assert(days == 146097 * era + rem) by (nonlinear_arith)
            requires
                era == days / 146097,
                rem == days % 146097,
        ;
    }
    let ghost base: int = 1970 + 400 * era;
    loop
        invariant
            base == 1970 + 400 * era,
            era == days / DAYS_PER_ERA,
            days_before_year(base) == 146097 * era,
            base <= y <= base + 400,
            365 * (y - base) <= days_before_year(y as int) - days_before_year(base),
            days_before_year(y as int) + rem == days,
        ensures
            y >= 1970,
            days_before_year(y as int) + rem == days,
            rem < year_len(y as int),
        decreases rem,
    {
        let len: u64 = if (y % 4 == 0 && y % 100 != 0) || y % 400 == 0 { 366 } else { 365 };
        if rem < len {
            break;
        }
        proof {
            lemma_year_step(y as int);
        }
        proof {
            assert(days < 146097 * era + 146097) by (nonlinear_arith)
                requires
                    era == days / 146097,
            ;
        }
        rem = rem - len;
        y = y + 1;
    }
    let mut m: u64 = 1;
    loop
        invariant
            1 <= m <= 12,
            y >= 1970,
            rem < year_len(y as int) - days_before_month(y as int, m as int),
            days_before_year(y as int) + days_before_month(y as int, m as int) + rem == days,
        ensures
            1 <= m <= 12,
            y >= 1970,
            rem < month_len(y as int, m as int),
            days_before_year(y as int) + days_before_month(y as int, m as int) + rem == days,
        decreases 12 - m,
    {
        let leap = (y % 4 == 0 && y % 100 != 0) || y % 400 == 0;
        let len: u64 = if m == 2 {
            if leap { 29 } else { 28 }
        } else if m == 4 || m == 6 || m == 9 || m == 11 {
            30
        } else {
            31
        };
        proof {
            lemma_year_total(y as int);
            assert(days_before_month(y as int, m as int + 1) == days_before_month(y as int, m as int)
                + month_len(y as int, m as int));
        }
        if rem < len {
            break;
        }
        rem = rem - len;
        m = m + 1;
    }
    (y, m, rem + 1)
}

/// The ISO-8601 text of a Unix time in seconds, `YYYY-MM-DDTHH:MM:SS.000Z`.
pub fn iso_time(t: u64) -> (r: String)
    ensures
        is_iso_time(t as int, r@),
{
    let (y, m, d) = date_of_days(t / SECONDS_PER_DAY);
    let hh = (t % SECONDS_PER_DAY) / 3600;
    let mi = (t % 3600) / 60;
    let ss = t % 60;
    let text = padded_decimal(y as u128, 4).concat("-").concat(
        padded_decimal(m as u128, 2).as_str(),
    ).concat("-").concat(padded_decimal(d as u128, 2).as_str()).concat("T").concat(
        padded_decimal(hh as u128, 2).as_str(),
    ).concat(":").concat(padded_decimal(mi as u128, 2).as_str()).concat(":").concat(
        padded_decimal(ss as u128, 2).as_str(),
    ).concat(".000Z");
    assert(is_date_of(t as int / 86400, y as int, m as int, d as int));
    assert(text@ == iso_text(
        y as int,
        m as int,
        d as int,
        (t as int % 86400) / 3600,
        (t as int % 3600) / 60,
        t as int % 60,
    ));
    text
}

} // verus!
