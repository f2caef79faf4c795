//! Calendar dates of the proleptic Gregorian calendar.
use vstd::prelude::*;

use crate::text::{decimal, decimal_string, push_char};

verus! {

/// A leap year of the Gregorian calendar.
pub open spec fn is_leap(y: int) -> bool {
    (y % 4 == 0 && y % 100 != 0) || y % 400 == 0
}

/// The number of days in month `m` of year `y`.
pub open spec fn days_in_month(y: int, m: int) -> int {
    if m == 2 {
        if is_leap(y) { 29 } else { 28 }
    } else if m == 4 || m == 6 || m == 9 || m == 11 {
        30
    } else {
        31
    }
}

/// A date with a month of the year and a day of the month.
pub open spec fn valid_date(y: int, m: int, d: int) -> bool {
    1 <= m <= 12 && 1 <= d <= days_in_month(y, m)
}

/// The number of days before month `m` in year `y`.
pub open spec fn days_before_month(y: int, m: int) -> int {
    let common: int = if m == 1 { 0 } else if m == 2 { 31 } else if m == 3 { 59 } else if m == 4 { 90 }
        else if m == 5 { 120 } else if m == 6 { 151 } else if m == 7 { 181 } else if m == 8 { 212 }
        else if m == 9 { 243 } else if m == 10 { 273 } else if m == 11 { 304 } else { 334 };
    if m > 2 && is_leap(y) { common + 1 } else { common }
}

/// The number of leap years from year 1 up to year `y - 1` (negative below year 1).
pub open spec fn leaps_before(y: int) -> int {
    (y - 1) / 4 - (y - 1) / 100 + (y - 1) / 400
}

/// The number of days from 1970-01-01 to the date `y-m-d`.
pub open spec fn days_from_civil(y: int, m: int, d: int) -> int {
    365 * (y - 1970) + leaps_before(y) - leaps_before(1970) + days_before_month(y, m) + d - 1
}

/// The year, month and day of day `days` after 1970-01-01.
#[verifier::opaque]
pub open spec fn is_civil_date_of(days: int, y: int, m: int, d: int) -> bool {
    valid_date(y, m, d) && days_from_civil(y, m, d) == days
}

proof fn lemma_year_of_era(doe: u32, yoe: u32, start: u32, next: u32)
    by (bit_vector)
    requires
        doe <= 146096,
        yoe == (doe - doe / 1460 + doe / 36524 - doe / 146096) / 365,
        start == 365 * yoe + yoe / 4 - yoe / 100,
        next == yoe + 1,
    ensures
        yoe <= 399,
        start <= doe,
        doe - start <= 364 || (doe - start == 365 && ((next % 4 == 0 && next % 100 != 0) || next % 400 == 0)),
{
}

proof fn lemma_month_of_year(doy: int, mp: int, before: int)
    requires
        0 <= doy <= 365,
        mp == (5 * doy + 2) / 153,
        before == (153 * mp + 2) / 5,
    ensures
        0 <= mp <= 11,
        before <= doy,
        doy - before <= 30,
        (mp == 1 || mp == 3 || mp == 6 || mp == 8) ==> doy - before <= 29,
        mp == 11 ==> (doy - before <= 28 || doy == 365),
{
    assert(153 * mp <= 5 * doy + 2 < 153 * mp + 153);
    assert(5 * before <= 153 * mp + 2 < 5 * before + 5);
}

/// The day number of a date counted from March 1 of year 0, with months counted from March.
spec fn march_days(y: int, mp: int, d: int) -> int {
    365 * y + y / 4 - y / 100 + y / 400 + (153 * mp + 2) / 5 + d - 1
}

#[verifier::spinoff_prover]
proof fn lemma_leaps(y: int)
    ensures
        y / 4 - y / 100 + y / 400 == leaps_before(y) + if is_leap(y) { 1int } else { 0int },
        leaps_before(y + 1) == y / 4 - y / 100 + y / 400,
        leaps_before(1970) == 477,
{
    assert(y == (y - 1) + 1);
}

proof fn lemma_month_offset(mp: int)
    requires
        0 <= mp <= 11,
    ensures
        mp < 10 ==> (153 * mp + 2) / 5 + 59 == days_before_month(2001, mp + 3),
        mp == 10 ==> (153 * mp + 2) / 5 == 306,
        mp == 11 ==> (153 * mp + 2) / 5 == 337,
{
    if mp == 0 {} else if mp == 1 {} else if mp == 2 {} else if mp == 3 {} else if mp == 4 {}
    else if mp == 5 {} else if mp == 6 {} else if mp == 7 {} else if mp == 8 {} else if mp == 9 {}
    else if mp == 10 {} else {}
}

proof fn lemma_march_days_civil(y: int, mp: int, d: int)
    requires
        0 <= mp <= 11,
    ensures
        ({
            let m = if mp < 10 { mp + 3 } else { mp - 9 };
            let year = if m <= 2 { y + 1 } else { y };
            days_from_civil(year, m, d) + 719468 == march_days(y, mp, d)
        }),
{
    lemma_month_offset(mp);
    lemma_leaps(y);
    if mp < 10 {
        assert(days_before_month(y, mp + 3) == days_before_month(2001, mp + 3) + if is_leap(y) { 1int } else { 0int });
    } else if mp == 10 {
        assert(days_before_month(y + 1, 1) == 0);
    } else {
        assert(days_before_month(y + 1, 2) == 31);
    }
}

proof fn lemma_era_shift(e: int, yoe: int)
    requires
        0 <= yoe <= 399,
    ensures
        (400 * e + yoe) / 4 == 100 * e + yoe / 4,
        (400 * e + yoe) / 100 == 4 * e + yoe / 100,
        (400 * e + yoe) / 400 == e,
        is_leap(400 * e + yoe + 1) == is_leap(yoe + 1),
{
    vstd::arithmetic::div_mod::lemma_hoist_over_denominator(yoe, 100 * e, 4);
    vstd::arithmetic::div_mod::lemma_hoist_over_denominator(yoe, 4 * e, 100);
    vstd::arithmetic::div_mod::lemma_hoist_over_denominator(yoe, e, 400);
    assert(yoe / 400 == 0);
    assert(100 * e * 4 == 400 * e);
    assert(4 * e * 100 == 400 * e);
    assert(e * 400 == 400 * e);
    vstd::arithmetic::div_mod::lemma_mod_multiples_vanish(100 * e, yoe + 1, 4);
    vstd::arithmetic::div_mod::lemma_mod_multiples_vanish(4 * e, yoe + 1, 100);
    vstd::arithmetic::div_mod::lemma_mod_multiples_vanish(e, yoe + 1, 400);
    assert(4 * (100 * e) + (yoe + 1) == 400 * e + yoe + 1);
    assert(100 * (4 * e) + (yoe + 1) == 400 * e + yoe + 1);
    assert(400 * e + (yoe + 1) == 400 * e + yoe + 1);
}

proof fn lemma_civil_core(z: int, e: int, doe: int, yoe: int, doy: int, mp: int, before: int, d: int)
    requires
        z == 146097 * e + doe,
        0 <= yoe <= 399,
        doy == doe - (365 * yoe + yoe / 4 - yoe / 100),
        0 <= doy,
        doy <= 364 || (doy == 365 && is_leap(yoe + 1)),
        mp == (5 * doy + 2) / 153,
        before == (153 * mp + 2) / 5,
        d == doy - before + 1,
    ensures
        ({
            let m = if mp < 10 { mp + 3 } else { mp - 9 };
            let year = if m <= 2 { 400 * e + yoe + 1 } else { 400 * e + yoe };
            is_civil_date_of(z - 719468, year, m, d)
        }),
{
    reveal(is_civil_date_of);
    lemma_month_of_year(doy, mp, before);
    lemma_era_shift(e, yoe);
    let ym = 400 * e + yoe;
    assert(march_days(ym, mp, d) == z);
    lemma_march_days_civil(ym, mp, d);
}

/// The day number of January 1 of year `y`.
spec fn year_start(y: int) -> int {
    days_from_civil(y, 1, 1)
}

proof fn lemma_year_length(y: int)
    ensures
        year_start(y + 1) == year_start(y) + 365 + if is_leap(y) { 1int } else { 0int },
{
    lemma_leaps(y);
}

proof fn lemma_year_start_order(a: int, b: int)
    requires
        a < b,
    ensures
        year_start(a + 1) <= year_start(b),
    decreases b - a,
{
    if a + 1 < b {
        lemma_year_start_order(a, b - 1);
        lemma_year_length(b - 1);
    }
}

proof fn lemma_day_of_year(y: int, m: int, d: int)
    requires
        valid_date(y, m, d),
    ensures
        year_start(y) <= days_from_civil(y, m, d) < year_start(y + 1),
{
    lemma_year_length(y);
    assert(days_before_month(y, 1) == 0);
    assert(days_before_month(y, m) + days_in_month(y, m) <= 365 + if is_leap(y) { 1int } else { 0int });
}

proof fn lemma_month_order(y: int, m1: int, m2: int)
    requires
        1 <= m1 < m2 <= 12,
    ensures
        days_before_month(y, m1) + days_in_month(y, m1) <= days_before_month(y, m2),
    decreases m2 - m1,
{
    assert(days_before_month(y, m1) + days_in_month(y, m1) == days_before_month(y, m1 + 1));
    if m1 + 1 < m2 {
        lemma_month_order(y, m1 + 1, m2);
    }
}

/// A day number names at most one date: two dates of the same day are the same date.
pub proof fn law_civil_date_unique(days: int, y1: int, m1: int, d1: int, y2: int, m2: int, d2: int)
    requires
        is_civil_date_of(days, y1, m1, d1),
        is_civil_date_of(days, y2, m2, d2),
    ensures
        y1 == y2 && m1 == m2 && d1 == d2,
{
    reveal(is_civil_date_of);
    lemma_day_of_year(y1, m1, d1);
    lemma_day_of_year(y2, m2, d2);
    if y1 < y2 {
        lemma_year_start_order(y1, y2);
    } else if y2 < y1 {
        lemma_year_start_order(y2, y1);
    } else if m1 < m2 {
        lemma_month_order(y1, m1, m2);
    } else if m2 < m1 {
        lemma_month_order(y1, m2, m1);
    }
}

/// The date after `y-m-d`: the next day of the month, else the first of the next month, else
/// January 1 of the next year.
pub open spec fn next_date(y: int, m: int, d: int) -> (int, int, int) {
    if d < days_in_month(y, m) {
        (y, m, d + 1)
    } else if m < 12 {
        (y, m + 1, 1)
    } else {
        (y + 1, 1, 1)
    }
}

/// The date after the date of day `n` is the date of day `n + 1`.
pub proof fn law_civil_next_day(n: int, y: int, m: int, d: int)
    requires
        is_civil_date_of(n, y, m, d),
    ensures
        is_civil_date_of(n + 1, next_date(y, m, d).0, next_date(y, m, d).1, next_date(y, m, d).2),
{
    reveal(is_civil_date_of);
    if d < days_in_month(y, m) {
    } else if m < 12 {
        assert(days_before_month(y, m) + days_in_month(y, m) == days_before_month(y, m + 1));
    } else {
        lemma_year_length(y);
        assert(days_before_month(y + 1, 1) == 0);
    }
}

/// The dates of two consecutive days are consecutive dates.
pub proof fn law_civil_consecutive_days(n: int, y1: int, m1: int, d1: int, y2: int, m2: int, d2: int)
    requires
        is_civil_date_of(n, y1, m1, d1),
        is_civil_date_of(n + 1, y2, m2, d2),
    ensures
        (y2, m2, d2) == next_date(y1, m1, d1),
{
    law_civil_next_day(n, y1, m1, d1);
    let next = next_date(y1, m1, d1);
    law_civil_date_unique(n + 1, next.0, next.1, next.2, y2, m2, d2);
}

/// The date of day `days` after 1970-01-01: year, month and day of the month. The year is
/// returned as an `i32`, truncated where it does not fit.
#[verifier::spinoff_prover]
pub fn civil_from_days(days_since_unix_epoch: i64) -> (r: (i32, u32, u32))
    requires
        days_since_unix_epoch <= i64::MAX - 719468,
    ensures
        exists|y: int|
            is_civil_date_of(days_since_unix_epoch as int, y, r.1 as int, r.2 as int) && r.0 == #[verifier::truncate] (y as i32),
        -1_000_000_000 <= days_since_unix_epoch < 1_000_000_000 ==> is_civil_date_of(
            days_since_unix_epoch as int,
            r.0 as int,
            r.1 as int,
            r.2 as int,
        ),
{
    let z: i64 = days_since_unix_epoch + 719468;
    let era: i64 = if z >= 0 {
        z / 146097
    } else {
        let q = (146096 - z) / 146097;
        assert(146097 * q <= 146096 - z < 146097 * q + 146097);
        -q
    };
    let doe: i64 = z - era * 146097;
    assert(0 <= doe <= 146096);
    let doe32: u32 = doe as u32;
    let yoe: u32 = (doe32 - doe32 / 1460 + doe32 / 36524 - doe32 / 146096) / 365;
    let start: u32 = 365 * yoe + yoe / 4 - yoe / 100;
    proof {
        lemma_year_of_era(doe32, yoe, start, (yoe + 1) as u32);
    }
    let y: i64 = yoe as i64 + era * 400;
    let doy: u32 = doe32 - start;
    let mp: u32 = (5 * doy + 2) / 153;
    let before: u32 = (153 * mp + 2) / 5;
    proof {
        lemma_month_of_year(doy as int, mp as int, before as int);
    }
    let d: u32 = doy - before + 1;
    let m: u32 = if mp < 10 { mp + 3 } else { mp - 9 };
    let year: i64 = y + if m <= 2 { 1 } else { 0 };
    proof {
        lemma_civil_core(z as int, era as int, doe as int, yoe as int, doy as int, mp as int, before as int, d as int);
        assert(is_civil_date_of(days_since_unix_epoch as int, year as int, m as int, d as int));
    }
    if -1_000_000_000 <= days_since_unix_epoch && days_since_unix_epoch < 1_000_000_000 {
        assert(-7000 <= era <= 7000);
        assert(-2_900_000 <= year <= 2_900_000);
    }
    let year32: i32 = #[verifier::truncate] (year as i32);
    assert(year32 == #[verifier::truncate] ((year as int) as i32));
    let r = (year32, m, d);
    assert(is_civil_date_of(days_since_unix_epoch as int, year as int, r.1 as int, r.2 as int)
        && r.0 == #[verifier::truncate] ((year as int) as i32));
    r
}

/// `n` zeros.
pub open spec fn zeros(n: int) -> Seq<char> {
    Seq::new(if n > 0 { n as nat } else { 0 }, |i: int| '0')
}

/// An integer in decimal, zero-padded to `width` characters as `{:0width$}` prints it.
pub open spec fn zero_padded(i: int, width: int) -> Seq<char> {
    if i < 0 {
        seq!['-'] + zeros(width - 1 - decimal((-i) as nat).len()) + decimal((-i) as nat)
    } else {
        zeros(width - decimal(i as nat).len()) + decimal(i as nat)
    }
}

fn push_zeros(s: &mut String, n: usize)
    ensures
        final(s)@ == old(s)@ + zeros(n as int),
{
    let mut i: usize = 0;
    while i < n
        invariant
            0 <= i <= n,
            s@ == old(s)@ + zeros(i as int),
        decreases n - i,
    {
        push_char(s, '0');
        assert(zeros(i + 1) =~= zeros(i as int).push('0'));
        i = i + 1;
    }
}

/// Renders `i` in decimal, zero-padded to `width` characters.
pub fn zero_padded_string(i: i64, width: usize) -> (r: String)
    ensures
        r@ == zero_padded(i as int, width as int),
{
    let mut r = String::new();
    let magnitude: u64 = if i < 0 {
        push_char(&mut r, '-');
        if i == i64::MIN { 9223372036854775808u64 } else { (-i) as u64 }
    } else {
        i as u64
    };
    let digits = decimal_string(magnitude);
    let len = digits.as_str().unicode_len();
    let pad: usize = if i < 0 {
        if width >= 1 && len < width - 1 { width - 1 - len } else { 0 }
    } else {
        if len < width { width - len } else { 0 }
    };
    push_zeros(&mut r, pad);
    r.append(digits.as_str());
    assert(r@ =~= zero_padded(i as int, width as int));
    r
}

/// The UTC date `YYYY-MM-DD` of a time given in seconds since 1970-01-01T00:00:00Z.
pub fn utc_date_from_unix_seconds(seconds: i64) -> (r: String)
    ensures
        exists|y: int, m: int, d: int|
            #[trigger] is_civil_date_of(seconds as int / 86400, y, m, d) && r@ == zero_padded(#[verifier::truncate] (y as i32) as int, 4)
                + seq!['-'] + zero_padded(m, 2) + seq!['-'] + zero_padded(d, 2),
{
    let days: i64 = if seconds >= 0 {
        seconds / 86400
    } else {
        let q = (-(seconds + 1)) / 86400;
        assert(86400 * q <= -(seconds + 1) < 86400 * q + 86400);
        -q - 1
    };
    assert(days == seconds as int / 86400);
    let (year, month, day) = civil_from_days(days);
    let mut r = zero_padded_string(year as i64, 4);
    push_char(&mut r, '-');
    r.append(zero_padded_string(month as i64, 2).as_str());
    push_char(&mut r, '-');
    r.append(zero_padded_string(day as i64, 2).as_str());
    r
}

} // verus!
