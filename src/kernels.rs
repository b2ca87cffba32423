use vstd::prelude::*;
use vstd::arithmetic::div_mod::{
    lemma_div_denominator, lemma_div_multiples_vanish, lemma_div_multiples_vanish_quotient,
};
use crate::column::{Column, ColumnModel, FunctionError};
use crate::datatypes::{DataType, TimeUnit, unit_exponent, with_unit};

verus! {

pub open spec fn pow10(n: nat) -> int
    decreases n,
{
    if n == 0 { 1 } else { 10 * pow10((n - 1) as nat) }
}

/// Integer division rounding toward zero.
pub open spec fn trunc_div(a: int, b: int) -> int {
    if a >= 0 { a / b } else { -((-a) / b) }
}

/// A tick count of unit `from` expressed in unit `to`; a coarser unit
/// drops the remainder, rounding toward zero.
pub open spec fn rescale(v: int, from: TimeUnit, to: TimeUnit) -> int {
    let ef = unit_exponent(from);
    let et = unit_exponent(to);
    if et >= ef {
        v * pow10((et - ef) as nat)
    } else {
        trunc_div(v, pow10((ef - et) as nat))
    }
}

pub open spec fn fits_i64(x: int) -> bool {
    i64::MIN <= x <= i64::MAX
}

pub open spec fn rescaled(x: Option<i64>, from: TimeUnit, to: TimeUnit) -> Option<i64> {
    match x {
        Some(v) => Some(rescale(v as int, from, to) as i64),
        None => None,
    }
}

/// Whether every value of `vals` can be rescaled without overflow.
pub open spec fn all_fit(vals: Seq<Option<i64>>, from: TimeUnit, to: TimeUnit) -> bool {
    forall|i: int| 0 <= i < vals.len() && #[trigger] vals[i] is Some ==> fits_i64(
        rescale(vals[i]->0 as int, from, to),
    )
}

pub open spec fn rescale_all(vals: Seq<Option<i64>>, from: TimeUnit, to: TimeUnit) -> Seq<Option<i64>> {
    vals.map_values(|x: Option<i64>| rescaled(x, from, to))
}

/// What casting a column to another time unit gives.
pub open spec fn cast_time_unit_spec(c: ColumnModel, tu: TimeUnit) -> Result<ColumnModel, FunctionError> {
    match c.dtype.time_unit_spec() {
        None => Err(FunctionError::NoTimeUnit(c.dtype)),
        Some(from) => if all_fit(c.values, from, tu) {
            Ok(ColumnModel { name: c.name, dtype: with_unit(c.dtype, tu), values: rescale_all(c.values, from, tu) })
        } else {
            Err(FunctionError::Overflow)
        },
    }
}

/// What relabelling a column's time unit gives.
pub open spec fn with_time_unit_spec(c: ColumnModel, tu: TimeUnit) -> Result<ColumnModel, FunctionError> {
    if c.dtype.has_time_unit() {
        Ok(ColumnModel { name: c.name, dtype: with_unit(c.dtype, tu), values: c.values })
    } else {
        Err(FunctionError::NoTimeUnit(c.dtype))
    }
}

/// What relabelling a column's time zone gives.
pub open spec fn with_time_zone_spec(c: ColumnModel, tz: Option<String>) -> Result<ColumnModel, FunctionError> {
    match c.dtype {
        DataType::Datetime(u, _) => Ok(ColumnModel { name: c.name, dtype: DataType::Datetime(u, tz), values: c.values }),
        _ => Err(FunctionError::NoTimeZone(c.dtype)),
    }
}

pub(crate) fn exponent(u: TimeUnit) -> (r: u32)
    ensures
        r == unit_exponent(u),
{
    match u {
        TimeUnit::Seconds => 0,
        TimeUnit::Milliseconds => 3,
        TimeUnit::Microseconds => 6,
        TimeUnit::Nanoseconds => 9,
    }
}

pub(crate) fn power_of_ten(n: u32) -> (r: i64)
    requires
        n <= 9,
    ensures
        r == pow10(n as nat),
        1 <= r <= 1_000_000_000,
{
    reveal_with_fuel(pow10, 10);
    match n {
        0 => 1,
        1 => 10,
        2 => 100,
        3 => 1_000,
        4 => 10_000,
        5 => 100_000,
        6 => 1_000_000,
        7 => 10_000_000,
        8 => 100_000_000,
        _ => 1_000_000_000,
    }
}

/// A single tick count rescaled, or `None` where it overflows.
fn rescale_value(v: i64, from: TimeUnit, to: TimeUnit) -> (r: Option<i64>)
    ensures
        r is Some <==> fits_i64(rescale(v as int, from, to)),
        r is Some ==> r->0 == rescale(v as int, from, to),
{
    let ef = exponent(from);
    let et = exponent(to);
    if et >= ef {
        let f = power_of_ten(et - ef);
        v.checked_mul(f)
    } else {
        let f = power_of_ten(ef - et) as i128;
        let w = v as i128;
        let q: i128 = if w >= 0 {
            assert(w / f <= w) by (nonlinear_arith)
                requires w >= 0, f >= 1;
            assert(w / f >= 0) by (nonlinear_arith)
                requires w >= 0, f >= 1;
            w / f
        } else {
            let a: i128 = -w;
            assert(a / f <= a) by (nonlinear_arith)
                requires a >= 0, f >= 1;
            assert(a / f >= 0) by (nonlinear_arith)
                requires a >= 0, f >= 1;
            -(a / f)
        };
        Some(q as i64)
    }
}

/// All values of a column rescaled, or `None` where one overflows.
fn rescale_values(values: &Vec<Option<i64>>, from: TimeUnit, to: TimeUnit) -> (r: Option<Vec<Option<i64>>>)
    ensures
        r is Some <==> all_fit(values@, from, to),
        r is Some ==> r->0@ == rescale_all(values@, from, to),
{
    let mut out: Vec<Option<i64>> = Vec::new();
    let mut i: usize = 0;
    while i < values.len()
        invariant
            i <= values.len(),
            out@ == rescale_all(values@.subrange(0, i as int), from, to),
            forall|j: int| 0 <= j < i && #[trigger] values@[j] is Some ==> fits_i64(
                rescale(values@[j]->0 as int, from, to),
            ),
        decreases values.len() - i,
    {
        match values[i] {
            None => out.push(None),
            Some(v) => match rescale_value(v, from, to) {
                None => {
                    assert(!all_fit(values@, from, to)) by {
                        assert(values@[i as int] is Some);
                    }
                    return None;
                },
                Some(w) => out.push(Some(w)),
            },
        }
        assert(values@.subrange(0, i + 1) == values@.subrange(0, i as int).push(values@[i as int]));
        i = i + 1;
    }
    assert(values@.subrange(0, i as int) == values@);
    Some(out)
}

/// The type with its time unit replaced.
fn set_unit(dtype: DataType, tu: TimeUnit) -> (r: DataType)
    ensures
        r == with_unit(dtype, tu),
{
    match dtype {
        DataType::Datetime(_, tz) => DataType::Datetime(tu, tz),
        DataType::Duration(_) => DataType::Duration(tu),
        other => other,
    }
}

/// Changes the time unit of a datetime or duration column and rescales its
/// values to it.
pub fn cast_time_unit(s: Column, tu: TimeUnit) -> (r: Result<Column, FunctionError>)
    ensures
        crate::column::result_model(r) == cast_time_unit_spec(s@, tu),
{
    let Column { name, dtype, values } = s;
    match dtype.time_unit() {
        None => Err(FunctionError::NoTimeUnit(dtype)),
        Some(from) => match rescale_values(&values, from, tu) {
            None => Err(FunctionError::Overflow),
            Some(v) => Ok(Column { name, dtype: set_unit(dtype, tu), values: v }),
        },
    }
}

/// Changes the time unit of a datetime or duration column, keeping the
/// integer values as they are.
pub fn with_time_unit(s: Column, tu: TimeUnit) -> (r: Result<Column, FunctionError>)
    ensures
        crate::column::result_model(r) == with_time_unit_spec(s@, tu),
{
    let Column { name, dtype, values } = s;
    match dtype {
        DataType::Datetime(_, tz) => Ok(Column { name, dtype: DataType::Datetime(tu, tz), values }),
        DataType::Duration(_) => Ok(Column { name, dtype: DataType::Duration(tu), values }),
        other => Err(FunctionError::NoTimeUnit(other)),
    }
}

/// Changes the time zone of a datetime column, keeping the values.
pub fn with_time_zone(s: Column, tz: Option<String>) -> (r: Result<Column, FunctionError>)
    ensures
        crate::column::result_model(r) == with_time_zone_spec(s@, tz),
{
    let Column { name, dtype, values } = s;
    match dtype {
        DataType::Datetime(u, _) => Ok(Column { name, dtype: DataType::Datetime(u, tz), values }),
        other => Err(FunctionError::NoTimeZone(other)),
    }
}


proof fn lemma_pow10_add(m: nat, n: nat)
    ensures
        pow10(m + n) == pow10(m) * pow10(n),
        pow10(n) >= 1,
    decreases m,
{
    lemma_pow10_pos(n);
    if m > 0 {
        lemma_pow10_add((m - 1) as nat, n);
        assert(pow10(m + n) == 10 * pow10((m - 1 + n) as nat));
        assert(10 * (pow10((m - 1) as nat) * pow10(n)) == (10 * pow10((m - 1) as nat)) * pow10(n))
            by (nonlinear_arith);
    }
}

pub(crate) proof fn lemma_pow10_pos(n: nat)
    ensures
        pow10(n) >= 1,
    decreases n,
{
    if n > 0 {
        lemma_pow10_pos((n - 1) as nat);
    }
}

/// Multiplying then dividing by the same positive factor gives the value back.
proof fn lemma_trunc_div_mul(y: int, k: int)
    requires
        k > 0,
    ensures
        trunc_div(y * k, k) == y,
{
    lemma_div_multiples_vanish(y, k);
    lemma_div_multiples_vanish(-y, k);
    assert(y * k == k * y) by (nonlinear_arith);
    assert(-(y * k) == k * (-y)) by (nonlinear_arith);
    if y >= 0 {
        assert(y * k >= 0) by (nonlinear_arith)
            requires y >= 0, k > 0;
    } else {
        assert(y * k < 0) by (nonlinear_arith)
            requires y < 0, k > 0;
    }
}

/// A common factor of numerator and denominator cancels.
proof fn lemma_trunc_div_cancel(v: int, k: int, m: int)
    requires
        k > 0,
        m > 0,
    ensures
        trunc_div(v * k, k * m) == trunc_div(v, m),
{
    if v >= 0 {
        lemma_div_multiples_vanish_quotient(k, v, m);
        assert(v * k == k * v) by (nonlinear_arith);
        assert(v * k >= 0) by (nonlinear_arith)
            requires v >= 0, k > 0;
    } else {
        lemma_div_multiples_vanish_quotient(k, -v, m);
        assert(-(v * k) == k * (-v)) by (nonlinear_arith);
        assert(v * k < 0) by (nonlinear_arith)
            requires v < 0, k > 0;
    }
}

/// Dividing twice is dividing by the product.
proof fn lemma_trunc_div_twice(v: int, k: int, m: int)
    requires
        k > 0,
        m > 0,
    ensures
        trunc_div(trunc_div(v, k), m) == trunc_div(v, k * m),
{
    if v >= 0 {
        lemma_div_denominator(v, k, m);
        assert(v / k >= 0) by (nonlinear_arith)
            requires v >= 0, k > 0;
    } else {
        lemma_div_denominator(-v, k, m);
        assert((-v) / k >= 0) by (nonlinear_arith)
            requires -v >= 0, k > 0;
        if (-v) / k == 0 {
            assert(0int / m == 0) by (nonlinear_arith)
                requires m > 0;
        }
    }
}

/// Rescaling through `u1` is rescaling directly whenever `u1` is at least
/// as fine as the coarser of the two end units.
pub proof fn lemma_rescale_compose(v: int, o: TimeUnit, u1: TimeUnit, u2: TimeUnit)
    requires
        unit_exponent(u1) >= unit_exponent(o) || unit_exponent(u1) >= unit_exponent(u2),
    ensures
        rescale(rescale(v, o, u1), u1, u2) == rescale(v, o, u2),
{
    let a = unit_exponent(o);
    let b = unit_exponent(u1);
    let c = unit_exponent(u2);
    lemma_pow10_pos(0);
    assert(pow10(0) == 1);
    if b >= a {
        let k = pow10((b - a) as nat);
        lemma_pow10_pos((b - a) as nat);
        if c >= b {
            lemma_pow10_add((b - a) as nat, (c - b) as nat);
            assert((b - a) as nat + (c - b) as nat == (c - a) as nat);
            let k2 = pow10((c - b) as nat);
            assert(v * k * k2 == v * (k * k2)) by (nonlinear_arith);
        } else if c >= a {
            lemma_pow10_add((c - a) as nat, (b - c) as nat);
            assert((c - a) as nat + (b - c) as nat == (b - a) as nat);
            let p = pow10((c - a) as nat);
            let q = pow10((b - c) as nat);
            lemma_pow10_pos((b - c) as nat);
            assert(v * k == (v * p) * q) by (nonlinear_arith)
                requires k == p * q;
            lemma_trunc_div_mul(v * p, q);
        } else {
            lemma_pow10_add((b - a) as nat, (a - c) as nat);
            assert((b - a) as nat + (a - c) as nat == (b - c) as nat);
            lemma_pow10_pos((a - c) as nat);
            lemma_trunc_div_cancel(v, k, pow10((a - c) as nat));
        }
    } else {
        assert(c <= b);
        let k = pow10((a - b) as nat);
        lemma_pow10_pos((a - b) as nat);
        if c == b {
            let w = trunc_div(v, k);
            assert(w * 1 == w);
        } else {
            lemma_pow10_add((a - b) as nat, (b - c) as nat);
            assert((a - b) as nat + (b - c) as nat == (a - c) as nat);
            lemma_pow10_pos((b - c) as nat);
            lemma_trunc_div_twice(v, k, pow10((b - c) as nat));
        }
    }
}

/// The number of nulls in `vals`.
pub open spec fn null_count(vals: Seq<Option<i64>>) -> int
    decreases vals.len(),
{
    if vals.len() == 0 {
        0
    } else {
        null_count(vals.drop_last()) + (if vals.last() is None { 1int } else { 0 })
    }
}

/// A one-row `UInt32` column, under the primary column's name, holding its
/// null count; an overflow error where the count does not fit in 32 bits.
pub open spec fn null_count_spec(c: ColumnModel) -> Result<ColumnModel, FunctionError> {
    if null_count(c.values) <= u32::MAX {
        Ok(ColumnModel { name: c.name, dtype: DataType::UInt32, values: seq![Some(null_count(c.values) as i64)] })
    } else {
        Err(FunctionError::Overflow)
    }
}

proof fn lemma_null_count_bound(vals: Seq<Option<i64>>)
    ensures
        0 <= null_count(vals) <= vals.len(),
    decreases vals.len(),
{
    if vals.len() > 0 {
        lemma_null_count_bound(vals.drop_last());
    }
}

/// Counts the nulls of a column.
pub fn null_count_column(s: &Column) -> (r: Result<Column, FunctionError>)
    ensures
        crate::column::result_model(r) == null_count_spec(s@),
{
    let mut count: usize = 0;
    let mut i: usize = 0;
    while i < s.values.len()
        invariant
            i <= s.values.len(),
            count == null_count(s.values@.subrange(0, i as int)),
            count <= i,
        decreases s.values.len() - i,
    {
        proof {
            assert(s.values@.subrange(0, i + 1).drop_last() == s.values@.subrange(0, i as int));
            lemma_null_count_bound(s.values@.subrange(0, i as int));
        }
        if s.values[i].is_none() {
            count = count + 1;
        }
        i = i + 1;
    }
    assert(s.values@.subrange(0, i as int) == s.values@);
    if count > u32::MAX as usize {
        return Err(FunctionError::Overflow);
    }
    let mut values: Vec<Option<i64>> = Vec::new();
    values.push(Some(count as i64));
    Ok(Column { name: s.name.clone(), dtype: DataType::UInt32, values })
}

} // verus!
