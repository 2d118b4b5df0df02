//! The UTC wall clock of the snapshot card: epoch seconds as
//! `YYYY-MM-DD HH:MM:SS` in the proleptic Gregorian calendar.
use vstd::prelude::*;

use crate::text::{dec_padded, push_dec_padded, push_str};

verus! {

/// A Gregorian leap year.
pub open spec fn is_leap(y: int) -> bool {
    y % 4 == 0 && (y % 100 != 0 || y % 400 == 0)
}

/// The number of days of month `m` (1-12) of year `y`.
pub open spec fn month_len(y: int, m: int) -> int {
    if m == 2 {
        if is_leap(y) { 29 } else { 28 }
    } else if m == 4 || m == 6 || m == 9 || m == 11 {
        30
    } else {
        31
    }
}

/// `y-m-d` is a calendar date.
pub open spec fn valid_date(y: int, m: int, d: int) -> bool {
    1 <= m <= 12 && 1 <= d <= month_len(y, m)
}

/// The year counted from March: January and February belong to the
/// previous one, so that the leap day closes its year.
pub open spec fn march_year(y: int, m: int) -> int {
    if m <= 2 { y - 1 } else { y }
}

/// The days from March 1st to the first of month `m` of a March year.
pub open spec fn days_before_month(m: int) -> int {
    if m == 3 { 0 }
    else if m == 4 { 31 }
    else if m == 5 { 61 }
    else if m == 6 { 92 }
    else if m == 7 { 122 }
    else if m == 8 { 153 }
    else if m == 9 { 184 }
    else if m == 10 { 214 }
    else if m == 11 { 245 }
    else if m == 12 { 275 }
    else if m == 1 { 306 }
    else { 337 }
}

/// The days from 1970-01-01 to `y-m-d`: the days of the whole March
/// years since year 0 (365 each, plus the leap days), then of the whole
/// months, then of the month, less the days from 0000-03-01 to the epoch.
pub open spec fn days_from_civil(y: int, m: int, d: int) -> int {
    let ya = march_year(y, m);
    365 * ya + ya / 4 - ya / 100 + ya / 400 + days_before_month(m) + d - 1 - 719_468
}

/// The first day of March-year `yoe` of an era, counted from the era's
/// first day.
pub open spec fn year_start(yoe: int) -> int {
    365 * yoe + yoe / 4 - yoe / 100
}

/// The March year of an era that holds its day `doe` (`0 <= doe <
/// 146097`), and where that day falls in it.
proof fn lemma_year_of_era(doe: int)
    requires
        0 <= doe,
        doe < 146097,
    ensures
        (doe - doe / 1460 + doe / 36524 - doe / 146096) / 365 < 400,
        365 * ((doe - doe / 1460 + doe / 36524 - doe / 146096) / 365)
            + ((doe - doe / 1460 + doe / 36524 - doe / 146096) / 365) / 4
            - ((doe - doe / 1460 + doe / 36524 - doe / 146096) / 365) / 100 <= doe,
        doe - (365 * ((doe - doe / 1460 + doe / 36524 - doe / 146096) / 365)
            + ((doe - doe / 1460 + doe / 36524 - doe / 146096) / 365) / 4
            - ((doe - doe / 1460 + doe / 36524 - doe / 146096) / 365) / 100) < 366,
        !((((doe - doe / 1460 + doe / 36524 - doe / 146096) / 365) + 1) % 4 == 0
            && ((((doe - doe / 1460 + doe / 36524 - doe / 146096) / 365) + 1) % 100 != 0
                || ((doe - doe / 1460 + doe / 36524 - doe / 146096) / 365) == 399))
        ==> doe - (365 * ((doe - doe / 1460 + doe / 36524 - doe / 146096) / 365)
            + ((doe - doe / 1460 + doe / 36524 - doe / 146096) / 365) / 4
            - ((doe - doe / 1460 + doe / 36524 - doe / 146096) / 365) / 100) < 365,
{
}

/// Where a day of a March year falls: its month (counted from March) and
/// the day of that month.
proof fn lemma_month_of_year(doy: int)
    requires
        0 <= doy,
        doy < 366,
    ensures
        (5 * doy + 2) / 153 < 12,
        (153 * ((5 * doy + 2) / 153) + 2) / 5 <= doy,
        (5 * doy + 2) / 153 < 11 ==> doy < (153 * ((5 * doy + 2) / 153 + 1) + 2) / 5,
{
}

/// The offset of month `mp` (counted from March) is the table's.
proof fn lemma_month_offset(mp: int)
    requires
        0 <= mp < 12,
    ensures
        (153 * mp + 2) / 5 == days_before_month(if mp < 10 { mp + 3 } else { mp - 9 }),
        mp < 11 ==> (153 * (mp + 1) + 2) / 5 - (153 * mp + 2) / 5 == month_len(0, if mp < 10 { mp + 3 } else { mp - 9 }),
{
}

/// The date of day `doy` of March-year `yoe` of era `era` is a calendar
/// date `doe` days into the era.
#[verifier::spinoff_prover]
#[verifier::rlimit(50)]
proof fn lemma_civil(era: int, doe: int, yoe: int, doy: int, mp: int, d: int, m: int, y: int)
    requires
        0 <= doe < 146097,
        0 <= yoe < 400,
        doy == doe - year_start(yoe),
        0 <= doy < 366,
        !((yoe + 1) % 4 == 0 && ((yoe + 1) % 100 != 0 || yoe == 399)) ==> doy < 365,
        0 <= mp < 12,
        (153 * mp + 2) / 5 <= doy,
        mp < 11 ==> doy < (153 * (mp + 1) + 2) / 5,
        d == doy - (153 * mp + 2) / 5 + 1,
        m == (if mp < 10 { mp + 3 } else { mp - 9 }),
        y == yoe + 400 * era + (if m <= 2 { 1int } else { 0 }),
    ensures
        valid_date(y, m, d),
        days_from_civil(y, m, d) == 146097 * era + doe - 719_468,
{
    lemma_month_offset(mp);
    let ya = yoe + 400 * era;
    assert(march_year(y, m) == ya);
    assert(ya / 4 == 100 * era + yoe / 4);
    assert(ya / 100 == 4 * era + yoe / 100);
    assert(ya / 400 == era);
    if m <= 2 {
        assert((ya + 1) % 4 == (yoe + 1) % 4);
        assert((ya + 1) % 100 == (yoe + 1) % 100);
        assert((ya + 1) % 400 == (yoe + 1) % 400);
        assert(is_leap(y) == ((yoe + 1) % 4 == 0 && ((yoe + 1) % 100 != 0 || yoe == 399)));
    }
}

/// The floor of `z / 146097` and the day of its era, with the divisions
/// on non-negative values only.
fn era_of(z: i64) -> (r: (i64, u32))
    requires
        i64::MIN + 146_096 <= z,
    ensures
        r.0 * 146_097 + r.1 == z,
        r.1 < 146_097,
{
    if z >= 0 {
        let era = z / 146_097;
        (era, (z - era * 146_097) as u32)
    } else {
        let n: i64 = -(z + 1);
        let q = n / 146_097;
        let era = -q - 1;
        (era, (z + (q + 1) * 146_097) as u32)
    }
}

/// The calendar date `days` after 1970-01-01.
pub fn civil_from_days(days: i64) -> (r: (i64, u32, u32))
    requires
        days <= i64::MAX - 719_468,
    ensures
        valid_date(r.0 as int, r.1 as int, r.2 as int),
        days_from_civil(r.0 as int, r.1 as int, r.2 as int) == days,
        (r.0 as int, r.1 as int, r.2 as int) == date_of(days as int),
{
    let z: i64 = days + 719_468;
    let (era, doe) = era_of(z);
    proof { lemma_year_of_era(doe as int); }
    let yoe: u32 = (doe - doe / 1460 + doe / 36_524 - doe / 146_096) / 365;
    let doy: u32 = doe - (365 * yoe + yoe / 4 - yoe / 100);
    proof { lemma_month_of_year(doy as int); }
    let mp: u32 = (5 * doy + 2) / 153;
    let d: u32 = doy - (153 * mp + 2) / 5 + 1;
    let m: u32 = if mp < 10 { mp + 3 } else { mp - 9 };
    assert(-63_200_000_000_000_000 <= era <= 63_200_000_000_000_000);
    let ya: i64 = yoe as i64 + era * 400;
    let y: i64 = if m <= 2 { ya + 1 } else { ya };
    proof {
        lemma_civil(era as int, doe as int, yoe as int, doy as int, mp as int, d as int, m as int, y as int);
        lemma_date_of(days as int, y as int, m as int, d as int);
    }
    (y, m, d)
}


/// The days from 0000-03-01 to the first day of March-year `ya`.
pub open spec fn year_days(ya: int) -> int {
    365 * ya + ya / 4 - ya / 100 + ya / 400
}

/// A March year has 366 days when the February it ends with has 29.
proof fn lemma_year_step(a: int)
    ensures
        year_days(a + 1) - year_days(a) == if is_leap(a + 1) { 366int } else { 365int },
{
}

/// Later March years start later.
proof fn lemma_year_days_mono(a: int, b: int)
    requires
        a <= b,
    ensures
        year_days(a) + 365 * (b - a) <= year_days(b),
    decreases b - a,
{
    if a < b {
        lemma_year_step(a);
        lemma_year_days_mono(a + 1, b);
    }
}

/// A calendar date's day within its March year, and that year's length.
proof fn lemma_day_of_march_year(y: int, m: int, d: int)
    requires
        valid_date(y, m, d),
    ensures
        0 <= days_before_month(m) + d - 1,
        days_before_month(m) + d - 1 < if is_leap(march_year(y, m) + 1) { 366int } else { 365int },
        days_from_civil(y, m, d) == year_days(march_year(y, m)) + days_before_month(m) + d - 1 - 719_468,
{
}

/// Within one March year, the day determines the month and the day of
/// the month.
proof fn lemma_month_and_day(y1: int, m1: int, d1: int, y2: int, m2: int, d2: int)
    requires
        valid_date(y1, m1, d1),
        valid_date(y2, m2, d2),
        march_year(y1, m1) == march_year(y2, m2),
        days_before_month(m1) + d1 == days_before_month(m2) + d2,
    ensures
        m1 == m2,
        d1 == d2,
{
}

/// Distinct calendar dates are distinct days: the day count after
/// 1970-01-01 names exactly one date, so the wall clock's date is
/// determined by the second count.
pub proof fn lemma_days_from_civil_injective(y1: int, m1: int, d1: int, y2: int, m2: int, d2: int)
    requires
        valid_date(y1, m1, d1),
        valid_date(y2, m2, d2),
        days_from_civil(y1, m1, d1) == days_from_civil(y2, m2, d2),
    ensures
        y1 == y2,
        m1 == m2,
        d1 == d2,
{
    let a1 = march_year(y1, m1);
    let a2 = march_year(y2, m2);
    lemma_day_of_march_year(y1, m1, d1);
    lemma_day_of_march_year(y2, m2, d2);
    if a1 < a2 {
        lemma_year_step(a1);
        lemma_year_days_mono(a1 + 1, a2);
        assert(false);
    } else if a2 < a1 {
        lemma_year_step(a2);
        lemma_year_days_mono(a2 + 1, a1);
        assert(false);
    }
    lemma_month_and_day(y1, m1, d1, y2, m2, d2);
}

/// The calendar date `days` days after 1970-01-01 (before it, for a
/// negative count).
pub open spec fn date_of(days: int) -> (int, int, int) {
    choose|y: int, m: int, d: int| valid_date(y, m, d) && days_from_civil(y, m, d) == days
}

/// A calendar date whose day count is `days` is `date_of(days)`.
pub proof fn lemma_date_of(days: int, y: int, m: int, d: int)
    requires
        valid_date(y, m, d),
        days_from_civil(y, m, d) == days,
    ensures
        date_of(days) == (y, m, d),
{
    let (y2, m2, d2) = date_of(days);
    assert(valid_date(y2, m2, d2) && days_from_civil(y2, m2, d2) == days);
    lemma_days_from_civil_injective(y, m, d, y2, m2, d2);
}

/// A year as `{:04}` prints it: zero-padded to four characters, the sign
/// counting as one.
pub open spec fn year_view(y: int) -> Seq<char> {
    if y >= 0 {
        dec_padded(y as nat, 4)
    } else {
        "-"@ + dec_padded((-y) as nat, 3)
    }
}

/// `YYYY-MM-DD HH:MM:SS` for the date `y-m-d` and the second `r` of
/// that day.
pub open spec fn clock_text(y: int, m: int, d: int, r: int) -> Seq<char> {
    year_view(y) + "-"@ + dec_padded(m as nat, 2) + "-"@ + dec_padded(d as nat, 2) + " "@
        + dec_padded((r / 3600) as nat, 2) + ":"@ + dec_padded(((r % 3600) / 60) as nat, 2) + ":"@
        + dec_padded((r % 60) as nat, 2)
}

/// The UTC wall clock of `secs` seconds after the epoch (before it, for
/// a negative count), as `YYYY-MM-DD HH:MM:SS`: the date is the calendar
/// date `secs / 86400` days (rounded down) after 1970-01-01, the time the
/// remaining seconds.
pub fn wall_clock_string(secs: i64) -> (t: String)
    ensures
        ({
            let (y, m, d) = date_of((secs as int) / 86_400);
            t@ == clock_text(y, m, d, (secs as int) % 86_400)
        }),
{
    let (days, rem): (i64, u32) = if secs >= 0 {
        (secs / 86_400, (secs % 86_400) as u32)
    } else {
        let n: i64 = -(secs + 1);
        let q = n / 86_400;
        (-q - 1, (86_399 - n % 86_400) as u32)
    };
    assert(days * 86_400 + rem == secs && rem < 86_400);
    assert(days == (secs as int) / 86_400 && rem == (secs as int) % 86_400);
    let (y, m, d) = civil_from_days(days);
    let mut t = String::new();
    if y >= 0 {
        push_dec_padded(&mut t, y as u64, 4);
    } else {
        push_str(&mut t, "-");
        push_dec_padded(&mut t, (-y) as u64, 3);
    }
    push_str(&mut t, "-");
    push_dec_padded(&mut t, m as u64, 2);
    push_str(&mut t, "-");
    push_dec_padded(&mut t, d as u64, 2);
    push_str(&mut t, " ");
    push_dec_padded(&mut t, (rem / 3600) as u64, 2);
    push_str(&mut t, ":");
    push_dec_padded(&mut t, ((rem % 3600) / 60) as u64, 2);
    push_str(&mut t, ":");
    push_dec_padded(&mut t, (rem % 60) as u64, 2);
    assert(t@ =~= clock_text(y as int, m as int, d as int, rem as int));
    proof {
        lemma_date_of(days as int, y as int, m as int, d as int);
    }
    t
}

} // verus!
