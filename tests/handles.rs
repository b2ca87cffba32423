use polars_lazy::calendar::{add_months, from_day_number, to_day_number, CalendarDate};
use polars_lazy::column::{Column, FunctionError, Parameter};
use polars_lazy::datatypes::{DataType, TimeUnit};
use polars_lazy::duration::Duration;
use polars_lazy::function_expr::{
    FunctionExpr, ListFunction, NanFunction, Scalar, StringFunction, StrptimeOptions, StructFunction,
    TemporalFunction, TrigonometricFunction,
};
use polars_lazy::handle::{InputMode, KernelRegistry};

fn catalog() -> Vec<FunctionExpr> {
    let temporal = vec![
        TemporalFunction::Year,
        TemporalFunction::IsoYear,
        TemporalFunction::Month,
        TemporalFunction::Quarter,
        TemporalFunction::Week,
        TemporalFunction::WeekDay,
        TemporalFunction::Day,
        TemporalFunction::OrdinalDay,
        TemporalFunction::Hour,
        TemporalFunction::Minute,
        TemporalFunction::Second,
        TemporalFunction::NanoSecond,
        TemporalFunction::TimeStamp(TimeUnit::Seconds),
        TemporalFunction::Strftime("%Y".to_string()),
        TemporalFunction::CastTimeUnit(TimeUnit::Seconds),
        TemporalFunction::WithTimeUnit(TimeUnit::Seconds),
        TemporalFunction::WithTimeZone(None),
    ];
    let strings = vec![
        StringFunction::Contains { pat: "a".to_string(), literal: true },
        StringFunction::StartsWith("a".to_string()),
        StringFunction::EndsWith("a".to_string()),
        StringFunction::Extract { pat: "(a)".to_string(), group_index: 1 },
        StringFunction::ExtractAll("a".to_string()),
        StringFunction::CountMatch("a".to_string()),
        StringFunction::Zfill(3),
        StringFunction::LJust { width: 3, fillchar: ' ' },
        StringFunction::RJust { width: 3, fillchar: ' ' },
        StringFunction::Strptime(StrptimeOptions { date_dtype: DataType::Date, fmt: None, strict: true, exact: true }),
        StringFunction::ConcatVertical(",".to_string()),
        StringFunction::ConcatHorizontal(",".to_string()),
        StringFunction::Replace { all: true, literal: false },
        StringFunction::Uppercase,
        StringFunction::Lowercase,
    ];
    let trig = vec![
        TrigonometricFunction::Sin,
        TrigonometricFunction::Cos,
        TrigonometricFunction::Tan,
        TrigonometricFunction::ArcSin,
        TrigonometricFunction::ArcCos,
        TrigonometricFunction::ArcTan,
        TrigonometricFunction::Sinh,
        TrigonometricFunction::Cosh,
        TrigonometricFunction::Tanh,
        TrigonometricFunction::ArcSinh,
        TrigonometricFunction::ArcCosh,
        TrigonometricFunction::ArcTanh,
    ];
    let mut all = vec![
        FunctionExpr::NullCount,
        FunctionExpr::Pow,
        FunctionExpr::Hash(1, 2, 3, 4),
        FunctionExpr::IsIn,
        FunctionExpr::ArgWhere,
        FunctionExpr::SearchSorted,
        FunctionExpr::DateOffset(Duration::new(1, 0, 0, 0, false)),
        FunctionExpr::Sign,
        FunctionExpr::FillNull { super_type: DataType::Int64 },
        FunctionExpr::ListContains,
        FunctionExpr::RollingSkew { window_size: 3, bias: true },
        FunctionExpr::ShiftAndFill { periods: 1 },
        FunctionExpr::Nan(NanFunction::IsNan),
        FunctionExpr::Nan(NanFunction::IsNotNan),
        FunctionExpr::Nan(NanFunction::DropNans),
        FunctionExpr::Clip { min: Some(Scalar::Int(0)), max: None },
        FunctionExpr::ListExpr(ListFunction::Concat),
        FunctionExpr::StructExpr(StructFunction::FieldByIndex(0)),
        FunctionExpr::StructExpr(StructFunction::FieldByName("a".to_string())),
        FunctionExpr::TopK { k: 2, reverse: false },
        FunctionExpr::Shift(1),
        FunctionExpr::Reverse,
        FunctionExpr::IsNull,
        FunctionExpr::IsNotNull,
        FunctionExpr::Not,
        FunctionExpr::IsUnique,
        FunctionExpr::IsDuplicated,
    ];
    all.extend(temporal.into_iter().map(FunctionExpr::TemporalExpr));
    all.extend(strings.into_iter().map(FunctionExpr::StringExpr));
    all.extend(trig.into_iter().map(FunctionExpr::Trigonometry));
    all
}

#[test]
fn every_operation_has_a_handle_and_a_name() {
    let mut reg = KernelRegistry::new();
    let all = catalog();
    let n = all.len();
    for f in all {
        assert!(reg.can_issue());
        let name = f.display_name();
        assert!(!name.is_empty());
        let h = reg.to_kernel_handle(f);
        assert_eq!(h.operation().display_name(), name);
    }
    assert_eq!(n, 71);
}

#[test]
fn handles_of_equal_operations_are_distinct_instances() {
    let mut reg = KernelRegistry::new();
    let a = reg.to_kernel_handle(FunctionExpr::Reverse);
    let b = reg.to_kernel_handle(FunctionExpr::Reverse);
    assert!(!a.same_instance(&b));
    assert!(a.same_instance(&a));
    assert_eq!(a.operation(), b.operation());
}

#[test]
fn input_modes_follow_kernel_shape() {
    let mut reg = KernelRegistry::new();
    assert_eq!(reg.to_kernel_handle(FunctionExpr::Pow).input_mode(), InputMode::Slice);
    assert_eq!(reg.to_kernel_handle(FunctionExpr::Reverse).input_mode(), InputMode::Primary);
    assert_eq!(
        reg.to_kernel_handle(FunctionExpr::Clip { min: None, max: Some(Scalar::Int(1)) }).input_mode(),
        InputMode::OwnedPrimary
    );
    assert_eq!(
        reg.to_kernel_handle(FunctionExpr::StringExpr(StringFunction::Replace { all: false, literal: true }))
            .input_mode(),
        InputMode::Slice
    );
    assert_eq!(
        reg.to_kernel_handle(FunctionExpr::TemporalExpr(TemporalFunction::Year)).input_mode(),
        InputMode::Primary
    );
}

#[test]
fn invoke_runs_cast_kernel_and_matches_prediction() {
    let mut reg = KernelRegistry::new();
    let h = reg.to_kernel_handle(FunctionExpr::TemporalExpr(TemporalFunction::CastTimeUnit(TimeUnit::Milliseconds)));
    let col = Column::new("t", DataType::Datetime(TimeUnit::Seconds, Some("UTC".to_string())), vec![Some(2)]);
    let r = h.invoke(vec![col]).unwrap();
    assert_eq!(r.dtype, DataType::Datetime(TimeUnit::Milliseconds, Some("UTC".to_string())));
    assert_eq!(r.values, vec![Some(2_000)]);
}

#[test]
fn invoke_reports_typed_errors() {
    let mut reg = KernelRegistry::new();
    let h = reg.to_kernel_handle(FunctionExpr::TemporalExpr(TemporalFunction::WithTimeUnit(TimeUnit::Seconds)));
    let text = Column::new("s", DataType::Utf8, vec![]);
    assert_eq!(h.invoke(vec![text]), Err(FunctionError::NoTimeUnit(DataType::Utf8)));
    assert_eq!(h.invoke(vec![]), Err(FunctionError::MissingInput));
    let y = reg.to_kernel_handle(FunctionExpr::TemporalExpr(TemporalFunction::Year));
    let d = Column::new("d", DataType::Date, vec![Some(0)]);
    assert_eq!(y.invoke(vec![d]), Err(FunctionError::KernelNotProvided));
}

fn date(year: i32, month: u8, day: u8) -> CalendarDate {
    CalendarDate { year, month, day }
}

#[test]
fn month_end_offset_lands_on_month_end() {
    assert_eq!(add_months(date(2023, 1, 31), 1), Some(date(2023, 2, 28)));
    assert_eq!(add_months(date(2024, 1, 31), 1), Some(date(2024, 2, 29)));
    assert_eq!(add_months(date(2023, 3, 31), 1), Some(date(2023, 4, 30)));
    assert_eq!(add_months(date(2023, 12, 31), 1), Some(date(2024, 1, 31)));
}

#[test]
fn month_offsets_cross_years_both_ways() {
    assert_eq!(add_months(date(2023, 3, 15), -3), Some(date(2022, 12, 15)));
    assert_eq!(add_months(date(2000, 2, 29), 12), Some(date(2001, 2, 28)));
    assert_eq!(add_months(date(1900, 1, 29), 1), Some(date(1900, 2, 28)));
    assert_eq!(add_months(date(-1, 12, 1), 1), Some(date(0, 1, 1)));
    assert_eq!(add_months(date(i32::MAX, 12, 1), 1), None);
}

#[test]
fn invoke_rejects_out_of_range_parameters() {
    let mut reg = KernelRegistry::new();
    let skew = reg.to_kernel_handle(FunctionExpr::RollingSkew { window_size: 0, bias: false });
    let col = Column::new("x", DataType::Int64, vec![Some(1)]);
    assert_eq!(skew.invoke(vec![col]), Err(FunctionError::InvalidParameter(Parameter::WindowSize)));
    let clip = reg.to_kernel_handle(FunctionExpr::Clip { min: None, max: None });
    let col = Column::new("x", DataType::Int64, vec![Some(1)]);
    assert_eq!(clip.invoke(vec![col]), Err(FunctionError::InvalidParameter(Parameter::ClipBounds)));
    let fine = reg.to_kernel_handle(FunctionExpr::RollingSkew { window_size: 3, bias: false });
    let col = Column::new("x", DataType::Int64, vec![Some(1)]);
    assert_eq!(fine.invoke(vec![col]), Err(FunctionError::KernelNotProvided));
}

#[test]
fn null_count_kernel_counts_nulls_of_primary() {
    let mut reg = KernelRegistry::new();
    let h = reg.to_kernel_handle(FunctionExpr::NullCount);
    let col = Column::new("x", DataType::Int64, vec![Some(1), None, Some(3), None]);
    let other = Column::new("y", DataType::Int64, vec![None]);
    let r = h.invoke(vec![col, other]).unwrap();
    assert_eq!(r, Column::new("x", DataType::UInt32, vec![Some(2)]));
    let empty = Column::new("e", DataType::Utf8, vec![]);
    assert_eq!(h.invoke(vec![empty]).unwrap().values, vec![Some(0)]);
}

#[test]
fn day_numbers_round_trip() {
    assert_eq!(to_day_number(date(1970, 1, 1)), 0);
    assert_eq!(to_day_number(date(2021, 1, 31)), 18658);
    assert_eq!(to_day_number(date(1969, 12, 31)), -1);
    assert_eq!(from_day_number(18686), Some(date(2021, 2, 28)));
    assert_eq!(from_day_number(-1), Some(date(1969, 12, 31)));
    assert_eq!(from_day_number(to_day_number(date(2000, 2, 29)) as i128), Some(date(2000, 2, 29)));
    assert_eq!(from_day_number(i64::MAX as i128), None);
}

fn one_month() -> Duration {
    Duration::new(1, 0, 0, 0, false)
}

#[test]
fn offset_by_month_end_dates_land_on_next_month_end() {
    let mut reg = KernelRegistry::new();
    let h = reg.to_kernel_handle(FunctionExpr::DateOffset(one_month()));
    let days: Vec<Option<i64>> = vec![
        Some(to_day_number(date(2021, 1, 31))),
        Some(to_day_number(date(2021, 3, 31))),
        None,
        Some(to_day_number(date(2021, 12, 31))),
        Some(to_day_number(date(2024, 1, 31))),
    ];
    let r = h.invoke(vec![Column::new("d", DataType::Date, days)]).unwrap();
    assert_eq!(r.dtype, DataType::Date);
    assert_eq!(
        r.values,
        vec![
            Some(to_day_number(date(2021, 2, 28))),
            Some(to_day_number(date(2021, 4, 30))),
            None,
            Some(to_day_number(date(2022, 1, 31))),
            Some(to_day_number(date(2024, 2, 29))),
        ]
    );
}

#[test]
fn offset_by_datetime_keeps_time_of_day() {
    let mut reg = KernelRegistry::new();
    let h = reg.to_kernel_handle(FunctionExpr::DateOffset(one_month()));
    let day_ms: i64 = 86_400_000;
    let noon: i64 = 12 * 3_600_000;
    let v = to_day_number(date(2021, 1, 31)) * day_ms + noon;
    let dtype = DataType::Datetime(TimeUnit::Milliseconds, Some("UTC".to_string()));
    let r = h.invoke(vec![Column::new("t", dtype, vec![Some(v)])]).unwrap();
    assert_eq!(r.dtype, DataType::Datetime(TimeUnit::Milliseconds, Some("UTC".to_string())));
    assert_eq!(r.values, vec![Some(to_day_number(date(2021, 2, 28)) * day_ms + noon)]);
    let before_epoch = -day_ms + noon;
    let r = h.invoke(vec![Column::new("t", DataType::Datetime(TimeUnit::Milliseconds, None), vec![Some(before_epoch)])])
        .unwrap();
    assert_eq!(r.values, vec![Some(to_day_number(date(1970, 1, 31)) * day_ms + noon)]);
}

#[test]
fn offset_by_days_weeks_and_nanoseconds() {
    let mut reg = KernelRegistry::new();
    let by = Duration::new(0, 1, 2, 1_500, false);
    let h = reg.to_kernel_handle(FunctionExpr::DateOffset(by));
    let r = h.invoke(vec![Column::new("t", DataType::Datetime(TimeUnit::Microseconds, None), vec![Some(0)])])
        .unwrap();
    assert_eq!(r.values, vec![Some(9 * 86_400_000_000 + 1)]);
    let back = reg.to_kernel_handle(FunctionExpr::DateOffset(Duration::new(2, 0, 1, 0, true)));
    let r = back.invoke(vec![Column::new("d", DataType::Date, vec![Some(to_day_number(date(2021, 3, 31)))])]).unwrap();
    assert_eq!(r.values, vec![Some(to_day_number(date(2021, 1, 30)))]);
}

#[test]
fn offset_by_rejects_other_types() {
    let mut reg = KernelRegistry::new();
    let h = reg.to_kernel_handle(FunctionExpr::DateOffset(one_month()));
    let text = Column::new("s", DataType::Utf8, vec![None]);
    assert_eq!(h.invoke(vec![text]), Err(FunctionError::NotDateLike(DataType::Utf8)));
    let dur = Column::new("d", DataType::Duration(TimeUnit::Seconds), vec![Some(1)]);
    assert_eq!(
        h.invoke(vec![dur]),
        Err(FunctionError::NotDateLike(DataType::Duration(TimeUnit::Seconds)))
    );
    let huge = Column::new("d", DataType::Date, vec![Some(i64::MAX)]);
    assert_eq!(h.invoke(vec![huge]), Err(FunctionError::Overflow));
}

#[test]
fn field_extraction_rejects_types_outside_its_domain() {
    let mut reg = KernelRegistry::new();
    let year = reg.to_kernel_handle(FunctionExpr::TemporalExpr(TemporalFunction::Year));
    let text = Column::new("s", DataType::Utf8, vec![None]);
    assert_eq!(year.invoke(vec![text]), Err(FunctionError::UnsupportedType(DataType::Utf8)));
    let hour = reg.to_kernel_handle(FunctionExpr::TemporalExpr(TemporalFunction::Hour));
    let dates = Column::new("d", DataType::Date, vec![Some(1)]);
    assert_eq!(hour.invoke(vec![dates]), Err(FunctionError::UnsupportedType(DataType::Date)));
    let times = Column::new("t", DataType::Time, vec![Some(1)]);
    assert_eq!(hour.invoke(vec![times]), Err(FunctionError::KernelNotProvided));
}

#[test]
fn shared_and_cloned_handles_are_the_same_instance() {
    let mut reg = KernelRegistry::new();
    let a = reg.to_kernel_handle(FunctionExpr::Pow);
    let b = a.share();
    let c = a.clone();
    let d = reg.to_kernel_handle(FunctionExpr::Pow);
    assert!(a.same_instance(&b));
    assert!(a.same_instance(&c));
    assert!(!a.same_instance(&d));
    assert_eq!(b.operation(), &FunctionExpr::Pow);
    assert_eq!(c.input_mode(), InputMode::Slice);
}
