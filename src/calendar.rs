use vstd::prelude::*;
use vstd::arithmetic::div_mod::{
    lemma_fundamental_div_mod, lemma_fundamental_div_mod_converse, lemma_mod_multiples_vanish,
};

verus! {

/// A day of the proleptic Gregorian calendar.
#[derive(Clone, Copy, Debug, PartialEq, Eq, Hash, Structural)]
pub struct CalendarDate {
    pub year: i32,
    pub month: u8,
    pub day: u8,
}

pub open spec fn is_leap_year(y: int) -> bool {
    (y % 4 == 0 && y % 100 != 0) || y % 400 == 0
}

pub open spec fn days_in_month(y: int, m: int) -> int {
    if m == 2 {
        if is_leap_year(y) { 29 } else { 28 }
    } else if m == 4 || m == 6 || m == 9 || m == 11 {
        30
    } else {
        31
    }
}

impl CalendarDate {
    /// The date names a real day.
    pub open spec fn wf(&self) -> bool {
        1 <= self.month <= 12 && 1 <= self.day <= days_in_month(self.year as int, self.month as int)
    }

    /// The count of months since the start of year zero.
    pub open spec fn month_index(&self) -> int {
        self.year * 12 + (self.month - 1)
    }
}

/// The date `k` months later (earlier for negative `k`); a day past the end
/// of the target month becomes that month's last day.
pub open spec fn add_months_spec(d: CalendarDate, k: int) -> (int, int, int) {
    let total = d.month_index() + k;
    let y = total / 12;
    let m = total % 12 + 1;
    let dim = days_in_month(y, m);
    (y, m, if d.day as int > dim { dim } else { d.day as int })
}

fn leap(y: i32) -> (r: bool)
    ensures
        r == is_leap_year(y as int),
{
    // A whole number of 400-year cycles keeps every residue below and
    // makes the operand non-negative.
    let shifted: i64 = y as i64 + 400 * 10_000_000;
    proof {
        lemma_mod_multiples_vanish(1_000_000_000int, y as int, 4);
        lemma_mod_multiples_vanish(40_000_000int, y as int, 100);
        lemma_mod_multiples_vanish(10_000_000int, y as int, 400);
    }
    (shifted % 4 == 0 && shifted % 100 != 0) || shifted % 400 == 0
}

fn month_length(y: i32, m: u8) -> (r: u8)
    ensures
        r == days_in_month(y as int, m as int),
{
    if m == 2 {
        if leap(y) { 29 } else { 28 }
    } else if m == 4 || m == 6 || m == 9 || m == 11 {
        30
    } else {
        31
    }
}

/// Offsets a date by `k` calendar months, keeping the day where the target
/// month has it and taking the month's last day otherwise. `None` where the
/// resulting year does not fit in 32 bits.
pub fn add_months(d: CalendarDate, k: i128) -> (r: Option<CalendarDate>)
    requires
        d.wf(),
    ensures
        ({
            let (y, m, day) = add_months_spec(d, k as int);
            &&& r is Some <==> i32::MIN <= y <= i32::MAX
            &&& r is Some ==> r->0.year == y && r->0.month == m && r->0.day == day && r->0.wf()
        }),
{
    let base: i128 = 12 * 2147483648;
    if k < -2 * base || k > 2 * base {
        return None;
    }
    let total: i128 = d.year as i128 * 12 + (d.month as i128 - 1) + k;
    if total < -base || total >= base {
        proof {
            let t = total as int;
            if t < -base {
                assert(t / 12 < i32::MIN) by {
                    lemma_fundamental_div_mod(t, 12);
                }
            } else {
                assert(t / 12 > i32::MAX) by {
                    lemma_fundamental_div_mod(t, 12);
                }
            }
        }
        return None;
    }
    let s: i128 = total + base;
    let q: i128 = s / 12;
    let rem: i128 = s % 12;
    proof {
        lemma_fundamental_div_mod(s as int, 12);
        lemma_fundamental_div_mod_converse(total as int, 12, q - 2147483648, rem as int);
    }
    let year: i32 = (q - 2147483648) as i32;
    let month: u8 = (rem + 1) as u8;
    let dim = month_length(year, month);
    let day = if d.day > dim { dim } else { d.day };
    Some(CalendarDate { year, month, day })
}

/// Leap years in the years `0 .. y` (negative for `y < 0`).
pub open spec fn leaps_before(y: int) -> int {
    (y + 3) / 4 - (y + 99) / 100 + (y + 399) / 400
}

/// Days from the start of year zero to the start of year `y`.
pub open spec fn days_before_year(y: int) -> int {
    365 * y + leaps_before(y)
}

/// Days from the start of year `y` to the start of month `m`.
pub open spec fn days_before_month(y: int, m: int) -> int
    decreases m,
{
    if m <= 1 { 0 } else { days_before_month(y, m - 1) + days_in_month(y, m - 1) }
}

/// The start of 1970-01-01, counted from the start of year zero.
pub open spec fn epoch_days() -> int {
    days_before_year(1970)
}

/// Days since 1970-01-01 of year `y`, month `m`, day `d`.
pub open spec fn day_number_of(y: int, m: int, d: int) -> int {
    days_before_year(y) + days_before_month(y, m) + d - 1 - epoch_days()
}

pub open spec fn day_number(d: CalendarDate) -> int {
    day_number_of(d.year as int, d.month as int, d.day as int)
}

/// Day numbers of dates whose year fits in 32 bits (the last such year
/// aside).
pub open spec fn representable_day(n: int) -> bool {
    days_before_year(i32::MIN as int) <= n + epoch_days() < days_before_year(i32::MAX as int)
}

/// The date with day number `n`.
pub open spec fn date_of_day(n: int) -> CalendarDate {
    choose|d: CalendarDate| d.wf() && day_number(d) == n
}

pub(crate) proof fn lemma_div_shift(x: int, c: int, k: int)
    requires
        c > 0,
    ensures
        (x + c * k) / c == x / c + k,
        (x + c * k) % c == x % c,
{
    lemma_fundamental_div_mod(x, c);
    assert(x + c * k == (x / c + k) * c + x % c) by (nonlinear_arith)
        requires x == c * (x / c) + x % c;
    lemma_fundamental_div_mod_converse(x + c * k, c, x / c + k, x % c);
}

proof fn lemma_div_step(x: int, c: int)
    requires
        c > 0,
    ensures
        (x + 1) / c == x / c + (if (x + 1) % c == 0 { 1int } else { 0 }),
{
    lemma_fundamental_div_mod(x, c);
    let q = x / c;
    let r = x % c;
    assert(x + 1 == (q + 1) * c + (r + 1 - c) && x + 1 == q * c + (r + 1)) by (nonlinear_arith)
        requires x == c * q + r;
    if r == c - 1 {
        lemma_fundamental_div_mod_converse(x + 1, c, q + 1, 0);
    } else {
        lemma_fundamental_div_mod_converse(x + 1, c, q, r + 1);
    }
}

proof fn lemma_leap_step(y: int)
    ensures
        leaps_before(y + 1) == leaps_before(y) + (if is_leap_year(y) { 1int } else { 0 }),
{
    lemma_div_step(y + 3, 4);
    lemma_div_step(y + 99, 100);
    lemma_div_step(y + 399, 400);
    lemma_div_shift(y, 4, 1);
    lemma_div_shift(y, 100, 1);
    lemma_div_shift(y, 400, 1);
}

proof fn lemma_months_total(y: int)
    ensures
        days_before_month(y, 13) == 365 + (if is_leap_year(y) { 1int } else { 0 }),
{
    reveal_with_fuel(days_before_month, 13);
}

pub(crate) proof fn lemma_year_length(y: int)
    ensures
        days_before_year(y + 1) == days_before_year(y) + days_before_month(y, 13),
        days_before_month(y, 13) == 365 + (if is_leap_year(y) { 1int } else { 0 }),
{
    lemma_leap_step(y);
    lemma_months_total(y);
}

pub(crate) proof fn lemma_days_before_year_increasing(a: int, b: int)
    requires
        a < b,
    ensures
        days_before_year(a) + 365 <= days_before_year(b),
    decreases b - a,
{
    lemma_year_length(a);
    if a + 1 < b {
        lemma_days_before_year_increasing(a + 1, b);
    }
}

/// A valid date lies within its year and month.
pub(crate) proof fn lemma_date_bounds(d: CalendarDate)
    requires
        d.wf(),
    ensures
        days_before_year(d.year as int) <= day_number(d) + epoch_days() < days_before_year(d.year + 1),
        days_before_month(d.year as int, d.month as int) + d.day - 1 < days_before_month(d.year as int, d.month + 1),
{
    reveal_with_fuel(days_before_month, 13);
    lemma_year_length(d.year as int);
    lemma_month_prefix(d.year as int, d.month as int);
}

proof fn lemma_month_prefix(y: int, m: int)
    requires
        1 <= m <= 12,
    ensures
        days_before_month(y, m) + days_in_month(y, m) <= days_before_month(y, 13),
        days_before_month(y, m) >= 0,
{
    reveal_with_fuel(days_before_month, 13);
}

proof fn lemma_months_increasing(y: int, a: int, b: int)
    requires
        1 <= a < b <= 13,
    ensures
        days_before_month(y, a) + days_in_month(y, a) <= days_before_month(y, b),
{
    reveal_with_fuel(days_before_month, 13);
}

/// Two valid dates with the same day number are the same date.
pub proof fn lemma_day_number_injective(d1: CalendarDate, d2: CalendarDate)
    requires
        d1.wf(),
        d2.wf(),
        day_number(d1) == day_number(d2),
    ensures
        d1 == d2,
{
    lemma_date_bounds(d1);
    lemma_date_bounds(d2);
    if d1.year < d2.year {
        lemma_days_before_year_increasing(d1.year + 1, d2.year as int);
        assert(false);
    } else if d2.year < d1.year {
        lemma_days_before_year_increasing(d2.year + 1, d1.year as int);
        assert(false);
    }
    if d1.month < d2.month {
        lemma_months_increasing(d1.year as int, d1.month + 1, d2.month as int);
        assert(false);
    } else if d2.month < d1.month {
        lemma_months_increasing(d2.year as int, d2.month + 1, d1.month as int);
        assert(false);
    }
}

proof fn lemma_cycles(y: int, k: int)
    ensures
        days_before_year(y + 400 * k) == days_before_year(y) + 146097 * k,
{
    lemma_div_shift(y + 3, 4, 100 * k);
    lemma_div_shift(y + 99, 100, 4 * k);
    lemma_div_shift(y + 399, 400, k);
    assert(4 * (100 * k) == 400 * k && 100 * (4 * k) == 400 * k);
}

fn days_before_year_exec(y: i64) -> (r: i64)
    requires
        i32::MIN <= y <= i32::MAX as int + 1,
    ensures
        r == days_before_year(y as int),
{
    // Whole 400-year cycles make the year positive without changing the
    // count modulo a cycle.
    let s: i64 = y + 4_000_000_000;
    proof {
        lemma_cycles(y as int, 10_000_000);
    }
    365 * s + (s + 3) / 4 - (s + 99) / 100 + (s + 399) / 400 - 146097 * 10_000_000
}

fn days_before_month_exec(y: i32, m: u8) -> (r: i64)
    requires
        1 <= m <= 12,
    ensures
        r == days_before_month(y as int, m as int),
{
    let mut acc: i64 = 0;
    let mut i: u8 = 1;
    while i < m
        invariant
            1 <= i <= m <= 12,
            acc == days_before_month(y as int, i as int),
            0 <= acc <= 31 * i,
        decreases m - i,
    {
        acc = acc + month_length(y, i) as i64;
        i = i + 1;
    }
    acc
}

/// The day number (days since 1970-01-01) of a date.
pub fn to_day_number(d: CalendarDate) -> (r: i64)
    requires
        d.wf(),
    ensures
        r == day_number(d),
{
    proof {
        lemma_date_bounds(d);
        lemma_month_prefix(d.year as int, d.month as int);
    }
    let e = days_before_year_exec(1970);
    days_before_year_exec(d.year as i64) + days_before_month_exec(d.year, d.month) + d.day as i64 - 1 - e
}

/// The date with day number `n`, or `None` where its year does not fit.
pub fn from_day_number(n: i128) -> (r: Option<CalendarDate>)
    ensures
        r is Some <==> representable_day(n as int),
        r is Some ==> r->0.wf() && day_number(r->0) == n && r->0 == date_of_day(n as int),
{
    let e = days_before_year_exec(1970);
    let lo_bound = days_before_year_exec(i32::MIN as i64);
    let hi_bound = days_before_year_exec(i32::MAX as i64);
    if n < lo_bound as i128 - e as i128 || n >= hi_bound as i128 - e as i128 {
        return None;
    }
    let a: i128 = n + e as i128;
    let a: i64 = a as i64;
    let mut lo: i64 = i32::MIN as i64;
    let mut hi: i64 = i32::MAX as i64;
    while hi - lo > 1
        invariant
            i32::MIN <= lo < hi <= i32::MAX,
            days_before_year(lo as int) <= a < days_before_year(hi as int),
        decreases hi - lo,
    {
        let mid = lo + (hi - lo) / 2;
        if days_before_year_exec(mid) <= a {
            lo = mid;
        } else {
            hi = mid;
        }
    }
    let year = lo as i32;
    proof {
        lemma_year_length(year as int);
    }
    let mut rem: i64 = a - days_before_year_exec(lo);
    let mut m: u8 = 1;
    while rem >= month_length(year, m) as i64
        invariant
            1 <= m <= 12,
            rem >= 0,
            rem == a - days_before_year(year as int) - days_before_month(year as int, m as int),
            a < days_before_year(year as int) + days_before_month(year as int, 13),
        decreases 12 - m,
    {
        proof {
            reveal_with_fuel(days_before_month, 13);
            if m == 12 {
                assert(days_before_month(year as int, 13) == days_before_month(year as int, 12)
                    + days_in_month(year as int, 12));
            }
        }
        rem = rem - month_length(year, m) as i64;
        m = m + 1;
    }
    let d = CalendarDate { year, month: m, day: (rem + 1) as u8 };
    proof {
        let w = choose|x: CalendarDate| x.wf() && day_number(x) == n;
        assert(d.wf() && day_number(d) == n);
        lemma_day_number_injective(w, d);
    }
    Some(d)
}

} // verus!
