use vstd::prelude::*;
use crate::calendar::{
    CalendarDate, add_months_spec, date_of_day, day_number, day_number_of, days_before_year, days_in_month,
    epoch_days, lemma_date_bounds, lemma_day_number_injective, lemma_days_before_year_increasing,
    representable_day,
};
use crate::duration::Duration;
use crate::offset::{date_offset_spec, offset_day, offset_ticks, ticks_per_day};
use crate::column::{ColumnModel, FunctionError};
use crate::datatypes::{DataType, TimeUnit};
use crate::dt::temporal_rule;
use crate::function_expr::{FunctionExpr, Scalar, TemporalFunction};
use crate::handle::{has_kernel, invoke_spec};
use crate::datatypes::unit_exponent;
use crate::kernels::pow10;
use crate::kernels::{
    cast_time_unit_spec, fits_i64, lemma_rescale_compose, rescale, rescale_all, with_time_unit_spec,
};
use crate::output::{OutputTypeRule, TypeMapping};

verus! {

/// For every operation whose kernel this library runs, a column whose type
/// lies in the domain of the operation's rule gives a result (or, for a
/// rescale, an overflow error) whose type is the one the rule predicts.
pub proof fn lemma_kernel_output_matches_rule(t: TemporalFunction, cols: Seq<ColumnModel>)
    requires
        has_kernel(FunctionExpr::TemporalExpr(t)),
        cols.len() >= 1,
        temporal_rule(t).accepts(seq![cols[0].dtype]),
    ensures
        invoke_spec(FunctionExpr::TemporalExpr(t), cols) is Ok || (t is CastTimeUnit
            && invoke_spec(FunctionExpr::TemporalExpr(t), cols) == Err::<ColumnModel, FunctionError>(
            FunctionError::Overflow,
        )),
        invoke_spec(FunctionExpr::TemporalExpr(t), cols) is Ok ==> invoke_spec(
            FunctionExpr::TemporalExpr(t),
            cols,
        )->Ok_0.dtype == temporal_rule(t).resolve_spec(seq![cols[0].dtype]),
{
}

/// Relabelling the time unit keeps every integer value as it is and
/// reports the new unit.
pub proof fn lemma_with_time_unit_keeps_values(c: ColumnModel, u: TimeUnit)
    requires
        c.dtype.has_time_unit(),
    ensures
        with_time_unit_spec(c, u) is Ok,
        with_time_unit_spec(c, u)->Ok_0.values == c.values,
        with_time_unit_spec(c, u)->Ok_0.dtype.time_unit_spec() == Some(u),
{
}

/// Casting the time unit reports the new unit and rescales the values.
pub proof fn lemma_cast_time_unit_rescales(c: ColumnModel, u: TimeUnit)
    requires
        cast_time_unit_spec(c, u) is Ok,
    ensures
        cast_time_unit_spec(c, u)->Ok_0.dtype.time_unit_spec() == Some(u),
        cast_time_unit_spec(c, u)->Ok_0.values == rescale_all(
            c.values,
            c.dtype.time_unit_spec()->0,
            u,
        ),
{
}

/// A cast of a duration gives a duration of the target unit; a cast of a
/// datetime gives a datetime of the target unit in the same zone. The rule
/// predicts the same.
pub proof fn lemma_cast_time_unit_keeps_zone(c: ColumnModel, u: TimeUnit)
    requires
        cast_time_unit_spec(c, u) is Ok,
    ensures
        c.dtype is Duration ==> cast_time_unit_spec(c, u)->Ok_0.dtype == DataType::Duration(u),
        c.dtype matches DataType::Datetime(_, z) ==> cast_time_unit_spec(c, u)->Ok_0.dtype
            == DataType::Datetime(u, z),
        OutputTypeRule::MappedFromInput(TypeMapping::SetTimeUnit(u)).resolve_spec(seq![c.dtype])
            == cast_time_unit_spec(c, u)->Ok_0.dtype,
{
}

/// The time-unit and time-zone operations fail with a typed error, naming
/// the column's type, on text and numeric columns.
pub proof fn lemma_unit_ops_reject_untimed(t: TemporalFunction, c: ColumnModel)
    requires
        t is CastTimeUnit || t is WithTimeUnit || t is WithTimeZone,
        c.dtype is Utf8 || c.dtype.is_numeric_spec(),
    ensures
        t is WithTimeZone ==> invoke_spec(FunctionExpr::TemporalExpr(t), seq![c]) == Err::<
            ColumnModel,
            FunctionError,
        >(FunctionError::NoTimeZone(c.dtype)),
        !(t is WithTimeZone) ==> invoke_spec(FunctionExpr::TemporalExpr(t), seq![c]) == Err::<
            ColumnModel,
            FunctionError,
        >(FunctionError::NoTimeUnit(c.dtype)),
{
}

/// A clip's display name follows from which bounds are present, not from
/// their values: both give "clip", a minimum alone "clip_min", a maximum
/// alone "clip_max".
pub proof fn lemma_clip_display_name(min: Option<Scalar>, max: Option<Scalar>)
    requires
        min is Some || max is Some,
    ensures
        min is Some && max is Some ==> (FunctionExpr::Clip { min, max }).name_spec() == "clip"@,
        min is Some && max is None ==> (FunctionExpr::Clip { min, max }).name_spec() == "clip_min"@,
        min is None && max is Some ==> (FunctionExpr::Clip { min, max }).name_spec() == "clip_max"@,
{
}

/// Operations built by the same call render the same display name,
/// whatever their parameters.
pub proof fn lemma_display_name_ignores_parameters(a: FunctionExpr, b: FunctionExpr)
    requires
        a.wf(),
        b.wf(),
        same_call(a, b),
    ensures
        a.name_spec() == b.name_spec(),
{
}

/// Whether two operations come from the same construction call, their
/// parameters aside (for a clip: the same bounds present).
pub open spec fn same_call(a: FunctionExpr, b: FunctionExpr) -> bool {
    match (a, b) {
        (FunctionExpr::Clip { min: m1, max: x1 }, FunctionExpr::Clip { min: m2, max: x2 }) => {
            (m1 is Some == m2 is Some) && (x1 is Some == x2 is Some)
        },
        (FunctionExpr::TemporalExpr(t1), FunctionExpr::TemporalExpr(t2)) => same_temporal_call(t1, t2),
        (FunctionExpr::Hash(..), FunctionExpr::Hash(..)) => true,
        (FunctionExpr::DateOffset(_), FunctionExpr::DateOffset(_)) => true,
        (FunctionExpr::FillNull { .. }, FunctionExpr::FillNull { .. }) => true,
        (FunctionExpr::RollingSkew { .. }, FunctionExpr::RollingSkew { .. }) => true,
        (FunctionExpr::ShiftAndFill { .. }, FunctionExpr::ShiftAndFill { .. }) => true,
        (FunctionExpr::TopK { .. }, FunctionExpr::TopK { .. }) => true,
        (FunctionExpr::Shift(_), FunctionExpr::Shift(_)) => true,
        _ => a == b,
    }
}

pub open spec fn same_temporal_call(a: TemporalFunction, b: TemporalFunction) -> bool {
    match (a, b) {
        (TemporalFunction::TimeStamp(_), TemporalFunction::TimeStamp(_)) => true,
        (TemporalFunction::Strftime(_), TemporalFunction::Strftime(_)) => true,
        (TemporalFunction::CastTimeUnit(_), TemporalFunction::CastTimeUnit(_)) => true,
        (TemporalFunction::WithTimeUnit(_), TemporalFunction::WithTimeUnit(_)) => true,
        (TemporalFunction::WithTimeZone(_), TemporalFunction::WithTimeZone(_)) => true,
        _ => a == b,
    }
}

/// Casting to `u1` and then to `u2` gives what a single cast to `u2`
/// gives, provided `u1` is at least as fine as the coarser of the column's
/// unit and `u2` (a coarser step in between would drop digits) and both
/// results exist.
pub proof fn lemma_cast_time_unit_composes(c: ColumnModel, u1: TimeUnit, u2: TimeUnit)
    requires
        cast_time_unit_spec(c, u1) is Ok,
        cast_time_unit_spec(c, u2) is Ok,
        unit_exponent(u1) >= unit_exponent(c.dtype.time_unit_spec()->0) || unit_exponent(u1)
            >= unit_exponent(u2),
    ensures
        cast_time_unit_spec(cast_time_unit_spec(c, u1)->Ok_0, u2) == cast_time_unit_spec(c, u2),
{
    let o = c.dtype.time_unit_spec()->0;
    let mid = cast_time_unit_spec(c, u1)->Ok_0;
    assert forall|i: int| 0 <= i < c.values.len() && c.values[i] is Some implies rescale(
        rescale(c.values[i]->0 as int, o, u1) as i64 as int,
        u1,
        u2,
    ) == rescale(c.values[i]->0 as int, o, u2) && fits_i64(rescale(c.values[i]->0 as int, o, u2)) by {
        assert(fits_i64(rescale(c.values[i]->0 as int, o, u1)));
        lemma_rescale_compose(c.values[i]->0 as int, o, u1, u2);
    }
    assert(mid.values.len() == c.values.len());
    assert forall|i: int| 0 <= i < mid.values.len() && #[trigger] mid.values[i] is Some implies fits_i64(
        rescale(mid.values[i]->0 as int, u1, u2),
    ) by {
        assert(c.values[i] is Some);
    }
    assert(rescale_all(mid.values, u1, u2) =~= rescale_all(c.values, o, u2));
}

/// Casting twice to the same unit is casting once.
pub proof fn lemma_cast_time_unit_idempotent(c: ColumnModel, u: TimeUnit)
    requires
        cast_time_unit_spec(c, u) is Ok,
    ensures
        cast_time_unit_spec(cast_time_unit_spec(c, u)->Ok_0, u) == cast_time_unit_spec(c, u),
{
    lemma_cast_time_unit_composes(c, u, u);
}

/// A date on the last day of its month, offset by one month into a month
/// no longer than its own, lands on the last day of the next month, which
/// is a real date.
pub proof fn lemma_month_end_offset(d: CalendarDate)
    requires
        d.wf(),
        d.day == days_in_month(d.year as int, d.month as int),
        days_in_month(add_months_spec(d, 1).0, add_months_spec(d, 1).1) <= d.day,
    ensures
        add_months_spec(d, 1).1 == (if d.month == 12 { 1 } else { d.month + 1 }),
        add_months_spec(d, 1).0 == (if d.month == 12 { d.year + 1 } else { d.year as int }),
        add_months_spec(d, 1).2 == days_in_month(add_months_spec(d, 1).0, add_months_spec(d, 1).1),
        1 <= add_months_spec(d, 1).2,
{
    let t = d.month_index() + 1;
    if d.month == 12 {
        vstd::arithmetic::div_mod::lemma_fundamental_div_mod_converse(t, 12, d.year + 1, 0);
    } else {
        vstd::arithmetic::div_mod::lemma_fundamental_div_mod_converse(t, 12, d.year as int, d.month as int);
    }
}

/// Offsetting a date or datetime column keeps its type, as the
/// same-as-input rule of `offset_by` predicts; any other column gets a typed
/// error.
pub proof fn lemma_date_offset_keeps_type(c: ColumnModel, by: Duration)
    ensures
        (c.dtype is Date || c.dtype is Datetime) ==> (date_offset_spec(c, by) is Ok
            || date_offset_spec(c, by) == Err::<ColumnModel, FunctionError>(FunctionError::Overflow)),
        date_offset_spec(c, by) is Ok ==> date_offset_spec(c, by)->Ok_0.dtype
            == OutputTypeRule::SameAsInput.resolve_spec(seq![c.dtype]),
        !(c.dtype is Date || c.dtype is Datetime) ==> date_offset_spec(c, by) == Err::<
            ColumnModel,
            FunctionError,
        >(FunctionError::NotDateLike(c.dtype)),
{
}

/// One calendar month.
pub open spec fn one_month() -> Duration {
    Duration { months: 1, weeks: 0, days: 0, nsecs: 0, negative: false }
}

/// The offset kernel moves the day number of a month's last day by one
/// month to the day number of the next month's last day, where the next
/// month is no longer.
pub proof fn lemma_offset_month_end_day(d: CalendarDate)
    requires
        d.wf(),
        d.year < i32::MAX,
        d.day == days_in_month(d.year as int, d.month as int),
        days_in_month(add_months_spec(d, 1).0, add_months_spec(d, 1).1) <= d.day,
    ensures
        offset_day(day_number(d), one_month()) == Some(
            day_number_of(
                add_months_spec(d, 1).0,
                add_months_spec(d, 1).1,
                days_in_month(add_months_spec(d, 1).0, add_months_spec(d, 1).1),
            ),
        ),
{
    let n = day_number(d);
    lemma_date_bounds(d);
    if d.year > i32::MIN {
        lemma_days_before_year_increasing(i32::MIN as int, d.year as int);
    }
    if d.year + 1 < i32::MAX {
        lemma_days_before_year_increasing(d.year + 1, i32::MAX as int);
    }
    assert(representable_day(n));
    assert(date_of_day(n).wf() && day_number(date_of_day(n)) == n);
    lemma_day_number_injective(date_of_day(n), d);
    lemma_month_end_offset(d);
    let y2 = add_months_spec(d, 1).0;
    let m2 = add_months_spec(d, 1).1;
    let nd = CalendarDate { year: y2 as i32, month: m2 as u8, day: days_in_month(y2, m2) as u8 };
    assert(nd.wf());
    lemma_date_bounds(nd);
    if y2 > i32::MIN {
        lemma_days_before_year_increasing(i32::MIN as int, y2);
    }
    if y2 + 1 < i32::MAX {
        lemma_days_before_year_increasing(y2 + 1, i32::MAX as int);
    }
    assert(days_before_year(i32::MIN as int) - epoch_days() > i64::MIN);
    assert(days_before_year(i32::MAX as int + 1) - epoch_days() < i64::MAX);
    crate::calendar::lemma_year_length(i32::MAX as int);
}

/// On a datetime column, the offset kernel moves a time on a month's last
/// day by one month to the same time of day on the next month's last day,
/// where the next month is no longer and the result fits in 64 bits.
pub proof fn lemma_offset_month_end_datetime(d: CalendarDate, u: TimeUnit, tod: int)
    requires
        d.wf(),
        d.year < i32::MAX,
        d.day == days_in_month(d.year as int, d.month as int),
        days_in_month(add_months_spec(d, 1).0, add_months_spec(d, 1).1) <= d.day,
        0 <= tod < ticks_per_day(u),
        fits_i64(
            day_number_of(
                add_months_spec(d, 1).0,
                add_months_spec(d, 1).1,
                days_in_month(add_months_spec(d, 1).0, add_months_spec(d, 1).1),
            ) * ticks_per_day(u) + tod,
        ),
    ensures
        offset_ticks(day_number(d) * ticks_per_day(u) + tod, u, one_month()) == Some(
            day_number_of(
                add_months_spec(d, 1).0,
                add_months_spec(d, 1).1,
                days_in_month(add_months_spec(d, 1).0, add_months_spec(d, 1).1),
            ) * ticks_per_day(u) + tod,
        ),
{
    let t = ticks_per_day(u);
    crate::kernels::lemma_pow10_pos(unit_exponent(u));
    crate::kernels::lemma_pow10_pos((9 - unit_exponent(u)) as nat);
    assert(t > 0) by (nonlinear_arith)
        requires t == 86400 * pow10(unit_exponent(u)), pow10(unit_exponent(u)) >= 1;
    vstd::arithmetic::div_mod::lemma_fundamental_div_mod_converse(
        day_number(d) * t + tod,
        t,
        day_number(d),
        tod,
    );
    lemma_offset_month_end_day(d);
    let p = pow10((9 - unit_exponent(u)) as nat);
    assert(0int / p == 0) by (nonlinear_arith)
        requires p >= 1;
    assert(0int * pow10(0) == 0);
    assert(rescale(0, TimeUnit::Nanoseconds, u) == 0);
}

} // verus!
