use vstd::prelude::*;
use crate::datatypes::{DataType, TimeUnit, copy_zone};
use crate::duration::Duration;
use crate::expr::{Expr, is_application};
use crate::function_expr::{FunctionExpr, TemporalFunction};
use crate::output::{OutputTypeRule, TypeMapping};

verus! {

/// Temporal operations on an expression of dates, datetimes, durations or
/// times.
pub struct DateLikeNameSpace(pub Expr);

/// The output-type rule that each temporal operation is built with.
pub open spec fn temporal_rule(t: TemporalFunction) -> OutputTypeRule {
    match t {
        TemporalFunction::Year | TemporalFunction::IsoYear => OutputTypeRule::Fixed(DataType::Int32),
        TemporalFunction::Month | TemporalFunction::Quarter | TemporalFunction::Week
        | TemporalFunction::WeekDay | TemporalFunction::Day | TemporalFunction::OrdinalDay
        | TemporalFunction::Hour | TemporalFunction::Minute | TemporalFunction::Second
        | TemporalFunction::NanoSecond => OutputTypeRule::Fixed(DataType::UInt32),
        TemporalFunction::TimeStamp(_) => OutputTypeRule::Fixed(DataType::Int64),
        TemporalFunction::Strftime(_) => OutputTypeRule::Fixed(DataType::Utf8),
        TemporalFunction::CastTimeUnit(u) | TemporalFunction::WithTimeUnit(u) => {
            OutputTypeRule::MappedFromInput(TypeMapping::SetTimeUnit(u))
        },
        TemporalFunction::WithTimeZone(z) => OutputTypeRule::MappedFromInput(TypeMapping::SetTimeZone(z)),
    }
}

impl Expr {
    /// The temporal namespace of this expression.
    pub fn dt(self) -> (r: DateLikeNameSpace)
        ensures
            r.0 == self,
    {
        DateLikeNameSpace(self)
    }
}

impl DateLikeNameSpace {
    /// Format dates or datetimes as text with a strftime-style format.
    pub fn strftime(self, fmt: &str) -> (r: Expr)
        ensures
            r matches Expr::Function { input, function, output } && {
                &&& *input == self.0
                &&& function matches FunctionExpr::TemporalExpr(TemporalFunction::Strftime(f))
                &&& function->TemporalExpr_0->Strftime_0@ == fmt@
                &&& output == temporal_rule(function->TemporalExpr_0)
            },
    {
        let fmt = String::from_str(fmt);
        self.0.apply(
            FunctionExpr::TemporalExpr(TemporalFunction::Strftime(fmt)),
            OutputTypeRule::Fixed(DataType::Utf8),
        )
    }

    /// Change the time unit and rescale the values to it.
    pub fn cast_time_unit(self, tu: TimeUnit) -> (r: Expr)
        ensures
            is_application(
                r,
                self.0,
                FunctionExpr::TemporalExpr(TemporalFunction::CastTimeUnit(tu)),
                temporal_rule(TemporalFunction::CastTimeUnit(tu)),
            ),
    {
        self.0.apply(
            FunctionExpr::TemporalExpr(TemporalFunction::CastTimeUnit(tu)),
            OutputTypeRule::MappedFromInput(TypeMapping::SetTimeUnit(tu)),
        )
    }

    /// Change the time unit without touching the values.
    pub fn with_time_unit(self, tu: TimeUnit) -> (r: Expr)
        ensures
            is_application(
                r,
                self.0,
                FunctionExpr::TemporalExpr(TemporalFunction::WithTimeUnit(tu)),
                temporal_rule(TemporalFunction::WithTimeUnit(tu)),
            ),
    {
        self.0.apply(
            FunctionExpr::TemporalExpr(TemporalFunction::WithTimeUnit(tu)),
            OutputTypeRule::MappedFromInput(TypeMapping::SetTimeUnit(tu)),
        )
    }

    /// Change the time zone of datetimes without touching the values.
    pub fn with_time_zone(self, tz: Option<String>) -> (r: Expr)
        ensures
            is_application(
                r,
                self.0,
                FunctionExpr::TemporalExpr(TemporalFunction::WithTimeZone(tz)),
                temporal_rule(TemporalFunction::WithTimeZone(tz)),
            ),
    {
        let zone = copy_zone(&tz);
        self.0.apply(
            FunctionExpr::TemporalExpr(TemporalFunction::WithTimeZone(tz)),
            OutputTypeRule::MappedFromInput(TypeMapping::SetTimeZone(zone)),
        )
    }

    /// Get the year of a date or datetime.
    pub fn year(self) -> (r: Expr)
        ensures
            is_application(
                r,
                self.0,
                FunctionExpr::TemporalExpr(TemporalFunction::Year),
                temporal_rule(TemporalFunction::Year),
            ),
    {
        self.0.apply(
            FunctionExpr::TemporalExpr(TemporalFunction::Year),
            OutputTypeRule::Fixed(DataType::Int32),
        )
    }

    /// Get the ISO year of a date or datetime; it may differ from the calendar year.
    pub fn iso_year(self) -> (r: Expr)
        ensures
            is_application(
                r,
                self.0,
                FunctionExpr::TemporalExpr(TemporalFunction::IsoYear),
                temporal_rule(TemporalFunction::IsoYear),
            ),
    {
        self.0.apply(
            FunctionExpr::TemporalExpr(TemporalFunction::IsoYear),
            OutputTypeRule::Fixed(DataType::Int32),
        )
    }

    /// Get the month (1 to 12) of a date or datetime.
    pub fn month(self) -> (r: Expr)
        ensures
            is_application(
                r,
                self.0,
                FunctionExpr::TemporalExpr(TemporalFunction::Month),
                temporal_rule(TemporalFunction::Month),
            ),
    {
        self.0.apply(
            FunctionExpr::TemporalExpr(TemporalFunction::Month),
            OutputTypeRule::Fixed(DataType::UInt32),
        )
    }

    /// Get the quarter (1 to 4) of a date or datetime.
    pub fn quarter(self) -> (r: Expr)
        ensures
            is_application(
                r,
                self.0,
                FunctionExpr::TemporalExpr(TemporalFunction::Quarter),
                temporal_rule(TemporalFunction::Quarter),
            ),
    {
        self.0.apply(
            FunctionExpr::TemporalExpr(TemporalFunction::Quarter),
            OutputTypeRule::Fixed(DataType::UInt32),
        )
    }

    /// Get the ISO week number (1 to 53) of a date or datetime.
    pub fn week(self) -> (r: Expr)
        ensures
            is_application(
                r,
                self.0,
                FunctionExpr::TemporalExpr(TemporalFunction::Week),
                temporal_rule(TemporalFunction::Week),
            ),
    {
        self.0.apply(
            FunctionExpr::TemporalExpr(TemporalFunction::Week),
            OutputTypeRule::Fixed(DataType::UInt32),
        )
    }

    /// Get the weekday of a date or datetime, Monday being 0 and Sunday 6.
    pub fn weekday(self) -> (r: Expr)
        ensures
            is_application(
                r,
                self.0,
                FunctionExpr::TemporalExpr(TemporalFunction::WeekDay),
                temporal_rule(TemporalFunction::WeekDay),
            ),
    {
        self.0.apply(
            FunctionExpr::TemporalExpr(TemporalFunction::WeekDay),
            OutputTypeRule::Fixed(DataType::UInt32),
        )
    }

    /// Get the day of the month of a date or datetime.
    pub fn day(self) -> (r: Expr)
        ensures
            is_application(
                r,
                self.0,
                FunctionExpr::TemporalExpr(TemporalFunction::Day),
                temporal_rule(TemporalFunction::Day),
            ),
    {
        self.0.apply(
            FunctionExpr::TemporalExpr(TemporalFunction::Day),
            OutputTypeRule::Fixed(DataType::UInt32),
        )
    }

    /// Get the day of the year of a date or datetime.
    pub fn ordinal_day(self) -> (r: Expr)
        ensures
            is_application(
                r,
                self.0,
                FunctionExpr::TemporalExpr(TemporalFunction::OrdinalDay),
                temporal_rule(TemporalFunction::OrdinalDay),
            ),
    {
        self.0.apply(
            FunctionExpr::TemporalExpr(TemporalFunction::OrdinalDay),
            OutputTypeRule::Fixed(DataType::UInt32),
        )
    }

    /// Get the hour of a datetime or time.
    pub fn hour(self) -> (r: Expr)
        ensures
            is_application(
                r,
                self.0,
                FunctionExpr::TemporalExpr(TemporalFunction::Hour),
                temporal_rule(TemporalFunction::Hour),
            ),
    {
        self.0.apply(
            FunctionExpr::TemporalExpr(TemporalFunction::Hour),
            OutputTypeRule::Fixed(DataType::UInt32),
        )
    }

    /// Get the minute of a datetime or time.
    pub fn minute(self) -> (r: Expr)
        ensures
            is_application(
                r,
                self.0,
                FunctionExpr::TemporalExpr(TemporalFunction::Minute),
                temporal_rule(TemporalFunction::Minute),
            ),
    {
        self.0.apply(
            FunctionExpr::TemporalExpr(TemporalFunction::Minute),
            OutputTypeRule::Fixed(DataType::UInt32),
        )
    }

    /// Get the second of a datetime or time.
    pub fn second(self) -> (r: Expr)
        ensures
            is_application(
                r,
                self.0,
                FunctionExpr::TemporalExpr(TemporalFunction::Second),
                temporal_rule(TemporalFunction::Second),
            ),
    {
        self.0.apply(
            FunctionExpr::TemporalExpr(TemporalFunction::Second),
            OutputTypeRule::Fixed(DataType::UInt32),
        )
    }

    /// Get the nanosecond part of a datetime or time.
    pub fn nanosecond(self) -> (r: Expr)
        ensures
            is_application(
                r,
                self.0,
                FunctionExpr::TemporalExpr(TemporalFunction::NanoSecond),
                temporal_rule(TemporalFunction::NanoSecond),
            ),
    {
        self.0.apply(
            FunctionExpr::TemporalExpr(TemporalFunction::NanoSecond),
            OutputTypeRule::Fixed(DataType::UInt32),
        )
    }

    /// Get the number of ticks of the given unit since the epoch.
    pub fn timestamp(self, tu: TimeUnit) -> (r: Expr)
        ensures
            is_application(
                r,
                self.0,
                FunctionExpr::TemporalExpr(TemporalFunction::TimeStamp(tu)),
                temporal_rule(TemporalFunction::TimeStamp(tu)),
            ),
    {
        self.0.apply(
            FunctionExpr::TemporalExpr(TemporalFunction::TimeStamp(tu)),
            OutputTypeRule::Fixed(DataType::Int64),
        )
    }

    /// Offset dates or datetimes by a calendar-aware duration.
    pub fn offset_by(self, by: Duration) -> (r: Expr)
        ensures
            is_application(r, self.0, FunctionExpr::DateOffset(by), OutputTypeRule::SameAsInput),
    {
        self.0.apply(FunctionExpr::DateOffset(by), OutputTypeRule::SameAsInput)
    }
}

} // verus!
