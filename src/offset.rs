use vstd::prelude::*;
use crate::calendar::{
    add_months, add_months_spec, date_of_day, day_number_of, from_day_number, representable_day,
    to_day_number,
};
use crate::column::{Column, ColumnModel, FunctionError, result_model};
use crate::datatypes::{DataType, TimeUnit, unit_exponent};
use crate::duration::Duration;
use crate::kernels::{exponent, fits_i64, pow10, power_of_ten, rescale};

verus! {

/// The signed whole-day part of an offset.
pub open spec fn signed_days(by: Duration) -> int {
    let x = 7 * by.weeks + by.days;
    if by.negative { -x } else { x }
}

/// The signed nanosecond part of an offset.
pub open spec fn signed_nsecs(by: Duration) -> int {
    if by.negative { -(by.nsecs as int) } else { by.nsecs as int }
}

/// Day number `v` moved by the months, then by the days of `by`; `None`
/// where a year leaves 32 bits or the result leaves 64.
pub open spec fn offset_day(v: int, by: Duration) -> Option<int> {
    if !representable_day(v) {
        None
    } else {
        let (y, m, d) = add_months_spec(date_of_day(v), by.signed_months());
        if !(i32::MIN <= y <= i32::MAX) {
            None
        } else {
            let r = day_number_of(y, m, d) + signed_days(by);
            if fits_i64(r) { Some(r) } else { None }
        }
    }
}

/// Ticks of unit `u` in one day.
pub open spec fn ticks_per_day(u: TimeUnit) -> int {
    86400 * pow10(unit_exponent(u))
}

/// A datetime of `v` ticks moved by `by`: its date is offset as a day
/// number, its time of day is kept, and the nanoseconds are added in the
/// column's unit.
pub open spec fn offset_ticks(v: int, u: TimeUnit, by: Duration) -> Option<int> {
    let t = ticks_per_day(u);
    match offset_day(v / t, by) {
        None => None,
        Some(nd) => {
            let r = nd * t + v % t + rescale(signed_nsecs(by), TimeUnit::Nanoseconds, u);
            if fits_i64(r) { Some(r) } else { None }
        },
    }
}

/// One value offset: a day number where `unit` is `None`, else ticks.
pub open spec fn offset_value(v: int, unit: Option<TimeUnit>, by: Duration) -> Option<int> {
    match unit {
        None => offset_day(v, by),
        Some(u) => offset_ticks(v, u, by),
    }
}

pub open spec fn all_offset(vals: Seq<Option<i64>>, unit: Option<TimeUnit>, by: Duration) -> bool {
    forall|i: int| 0 <= i < vals.len() && #[trigger] vals[i] is Some ==> offset_value(
        vals[i]->0 as int,
        unit,
        by,
    ) is Some
}

pub open spec fn offset_all(vals: Seq<Option<i64>>, unit: Option<TimeUnit>, by: Duration) -> Seq<Option<i64>> {
    vals.map_values(
        |x: Option<i64>|
            match x {
                Some(v) => Some(offset_value(v as int, unit, by)->0 as i64),
                None => None,
            },
    )
}

/// What offsetting a column by `by` gives.
pub open spec fn date_offset_spec(c: ColumnModel, by: Duration) -> Result<ColumnModel, FunctionError> {
    let unit = match c.dtype {
        DataType::Datetime(u, _) => Some(u),
        _ => None,
    };
    if !(c.dtype is Date || c.dtype is Datetime) {
        Err(FunctionError::NotDateLike(c.dtype))
    } else if all_offset(c.values, unit, by) {
        Ok(ColumnModel { name: c.name, dtype: c.dtype, values: offset_all(c.values, unit, by) })
    } else {
        Err(FunctionError::Overflow)
    }
}

fn offset_day_exec(v: i128, by: &Duration) -> (r: Option<i64>)
    ensures
        r is Some <==> offset_day(v as int, *by) is Some,
        r is Some ==> r->0 == offset_day(v as int, *by)->0,
{
    let date = match from_day_number(v) {
        Some(d) => d,
        None => return None,
    };
    let k: i128 = if by.negative { -(by.months as i128) } else { by.months as i128 };
    let moved = match add_months(date, k) {
        Some(d) => d,
        None => return None,
    };
    let nd = to_day_number(moved);
    let x: i128 = 7 * (by.weeks as i128) + by.days as i128;
    let sd: i128 = if by.negative { -x } else { x };
    let r: i128 = nd as i128 + sd;
    if r < i64::MIN as i128 || r > i64::MAX as i128 {
        return None;
    }
    Some(r as i64)
}

fn offset_ticks_exec(v: i64, u: TimeUnit, by: &Duration) -> (r: Option<i64>)
    ensures
        r is Some <==> offset_ticks(v as int, u, *by) is Some,
        r is Some ==> r->0 == offset_ticks(v as int, u, *by)->0,
{
    let e = exponent(u);
    let t: i128 = 86400 * power_of_ten(e) as i128;
    let big: i128 = 9223372036854775808;
    proof {
        assert(t >= 86400 && t <= 86400 * 1_000_000_000);
        assert(t * big <= 86400 * 1_000_000_000 * 9223372036854775808) by (nonlinear_arith)
            requires 0 < t <= 86400 * 1_000_000_000, big == 9223372036854775808;
        assert(t * big >= 9223372036854775808) by (nonlinear_arith)
            requires t >= 1, big == 9223372036854775808;
    }
    let w: i128 = v as i128 + t * big;
    proof {
        crate::calendar::lemma_div_shift(v as int, t as int, big as int);
    }
    let day: i128 = w / t - big;
    let tod: i128 = w % t;
    proof {
        assert(w / t <= w) by (nonlinear_arith)
            requires w >= 0, t >= 1;
    }
    let nd = match offset_day_exec(day, by) {
        Some(x) => x,
        None => return None,
    };
    let f: i128 = power_of_ten(9 - e) as i128;
    let ns: i128 = if by.negative { -(by.nsecs as i128) } else { by.nsecs as i128 };
    let part: i128 = if ns >= 0 { ns / f } else { -((-ns) / f) };
    proof {
        assert(ns / f <= ns || ns < 0) by (nonlinear_arith)
            requires f >= 1;
        assert((-(ns as int)) / (f as int) <= -(ns as int) || ns >= 0) by (nonlinear_arith)
            requires f >= 1;
        assert(ns / f >= 0 || ns < 0) by (nonlinear_arith)
            requires f >= 1;
        assert((-(ns as int)) / (f as int) >= 0 || ns >= 0) by (nonlinear_arith)
            requires f >= 1;
        if u == TimeUnit::Nanoseconds {
            assert(f == 1);
            assert(ns / 1 == ns);
            assert((-(ns as int)) / 1 == -(ns as int));
        }
        assert(nd * t <= 9223372036854775807 * (86400 * 1_000_000_000)) by (nonlinear_arith)
            requires nd <= 9223372036854775807, 0 < t <= 86400 * 1_000_000_000;
        assert(nd * t >= -9223372036854775808 * (86400 * 1_000_000_000)) by (nonlinear_arith)
            requires nd >= -9223372036854775808, 0 < t <= 86400 * 1_000_000_000;
    }
    let r: i128 = nd as i128 * t + tod + part;
    if r < i64::MIN as i128 || r > i64::MAX as i128 {
        return None;
    }
    Some(r as i64)
}

fn offset_value_exec(v: i64, unit: Option<TimeUnit>, by: &Duration) -> (r: Option<i64>)
    ensures
        r is Some <==> offset_value(v as int, unit, *by) is Some,
        r is Some ==> r->0 == offset_value(v as int, unit, *by)->0,
{
    match unit {
        None => offset_day_exec(v as i128, by),
        Some(u) => offset_ticks_exec(v, u, by),
    }
}

/// Offsets every date or datetime of a column by a calendar-aware
/// duration: months first (a day past the end of the target month becomes
/// its last day), then weeks and days, then the fixed nanoseconds; the time
/// of day is kept.
pub fn date_offset(s: Column, by: Duration) -> (r: Result<Column, FunctionError>)
    ensures
        result_model(r) == date_offset_spec(s@, by),
{
    let ghost model = s@;
    let Column { name, dtype, values } = s;
    let unit: Option<TimeUnit> = match &dtype {
        DataType::Date => None,
        DataType::Datetime(u, _) => Some(*u),
        _ => return Err(FunctionError::NotDateLike(dtype)),
    };
    let mut out: Vec<Option<i64>> = Vec::new();
    let mut i: usize = 0;
    while i < values.len()
        invariant
            i <= values.len(),
            out@ == offset_all(values@.subrange(0, i as int), unit, by),
            model == s@,
            model.values == values@,
            model.dtype == dtype,
            model.dtype is Date || model.dtype is Datetime,
            unit == (match model.dtype {
                DataType::Datetime(u, _) => Some(u),
                _ => None,
            }),
            forall|j: int| 0 <= j < i && #[trigger] values@[j] is Some ==> offset_value(
                values@[j]->0 as int,
                unit,
                by,
            ) is Some,
        decreases values.len() - i,
    {
        match values[i] {
            None => out.push(None),
            Some(v) => match offset_value_exec(v, unit, &by) {
                None => {
                    assert(!all_offset(values@, unit, by)) by {
                        assert(values@[i as int] is Some);
                    }
                    assert(date_offset_spec(model, by) == Err::<ColumnModel, FunctionError>(
                        FunctionError::Overflow,
                    ));
                    return Err(FunctionError::Overflow);
                },
                Some(w) => out.push(Some(w)),
            },
        }
        assert(values@.subrange(0, i + 1) == values@.subrange(0, i as int).push(values@[i as int]));
        i = i + 1;
    }
    assert(values@.subrange(0, i as int) == values@);
    Ok(Column { name, dtype, values: out })
}

} // verus!
