use polars_lazy::column::{Column, FunctionError};
use polars_lazy::datatypes::{DataType, TimeUnit};
use polars_lazy::kernels::{cast_time_unit, with_time_unit, with_time_zone};

fn datetime(unit: TimeUnit, tz: Option<&str>, values: Vec<Option<i64>>) -> Column {
    Column::new("ts", DataType::Datetime(unit, tz.map(|z| z.to_string())), values)
}

#[test]
fn cast_to_finer_unit_multiplies() {
    let c = datetime(TimeUnit::Milliseconds, None, vec![Some(1), None, Some(-2)]);
    let r = cast_time_unit(c, TimeUnit::Nanoseconds).unwrap();
    assert_eq!(r.dtype, DataType::Datetime(TimeUnit::Nanoseconds, None));
    assert_eq!(r.values, vec![Some(1_000_000), None, Some(-2_000_000)]);
    assert_eq!(r.name, "ts");
}

#[test]
fn cast_to_coarser_unit_truncates_toward_zero() {
    let c = datetime(TimeUnit::Nanoseconds, None, vec![Some(1_500), Some(-1_500), Some(999)]);
    let r = cast_time_unit(c, TimeUnit::Microseconds).unwrap();
    assert_eq!(r.values, vec![Some(1), Some(-1), Some(0)]);
}

#[test]
fn cast_keeps_zone() {
    let c = datetime(TimeUnit::Seconds, Some("Asia/Tokyo"), vec![Some(3)]);
    let r = cast_time_unit(c, TimeUnit::Milliseconds).unwrap();
    assert_eq!(r.dtype, DataType::Datetime(TimeUnit::Milliseconds, Some("Asia/Tokyo".to_string())));
    assert_eq!(r.values, vec![Some(3_000)]);
}

#[test]
fn cast_duration_gives_duration_of_target() {
    let c = Column::new("d", DataType::Duration(TimeUnit::Microseconds), vec![Some(2_500_000)]);
    let r = cast_time_unit(c, TimeUnit::Seconds).unwrap();
    assert_eq!(r.dtype, DataType::Duration(TimeUnit::Seconds));
    assert_eq!(r.values, vec![Some(2)]);
}

#[test]
fn cast_overflow_is_an_error() {
    let c = datetime(TimeUnit::Seconds, None, vec![Some(i64::MAX / 10)]);
    assert_eq!(cast_time_unit(c, TimeUnit::Nanoseconds), Err(FunctionError::Overflow));
}

#[test]
fn cast_twice_to_same_unit_is_cast_once() {
    let once = cast_time_unit(datetime(TimeUnit::Nanoseconds, None, vec![Some(1_234_567)]), TimeUnit::Microseconds)
        .unwrap();
    let twice = cast_time_unit(
        cast_time_unit(datetime(TimeUnit::Nanoseconds, None, vec![Some(1_234_567)]), TimeUnit::Microseconds)
            .unwrap(),
        TimeUnit::Microseconds,
    )
    .unwrap();
    assert_eq!(once, twice);
    assert_eq!(once.values, vec![Some(1_234)]);
}

#[test]
fn cast_through_finer_unit_composes() {
    let direct = cast_time_unit(datetime(TimeUnit::Milliseconds, None, vec![Some(-1_999), Some(7)]), TimeUnit::Seconds)
        .unwrap();
    let via = cast_time_unit(
        cast_time_unit(datetime(TimeUnit::Milliseconds, None, vec![Some(-1_999), Some(7)]), TimeUnit::Nanoseconds)
            .unwrap(),
        TimeUnit::Seconds,
    )
    .unwrap();
    assert_eq!(direct, via);
    assert_eq!(direct.values, vec![Some(-1), Some(0)]);
}

#[test]
fn cast_through_coarser_unit_loses_digits() {
    let direct = cast_time_unit(datetime(TimeUnit::Nanoseconds, None, vec![Some(1_500_000_000)]), TimeUnit::Milliseconds)
        .unwrap();
    let via = cast_time_unit(
        cast_time_unit(datetime(TimeUnit::Nanoseconds, None, vec![Some(1_500_000_000)]), TimeUnit::Seconds).unwrap(),
        TimeUnit::Milliseconds,
    )
    .unwrap();
    assert_eq!(direct.values, vec![Some(1_500)]);
    assert_eq!(via.values, vec![Some(1_000)]);
}

#[test]
fn with_time_unit_keeps_values() {
    let c = datetime(TimeUnit::Milliseconds, Some("UTC"), vec![Some(42), None]);
    let r = with_time_unit(c, TimeUnit::Nanoseconds).unwrap();
    assert_eq!(r.dtype, DataType::Datetime(TimeUnit::Nanoseconds, Some("UTC".to_string())));
    assert_eq!(r.values, vec![Some(42), None]);
    let d = Column::new("d", DataType::Duration(TimeUnit::Seconds), vec![Some(5)]);
    let r = with_time_unit(d, TimeUnit::Milliseconds).unwrap();
    assert_eq!(r.dtype, DataType::Duration(TimeUnit::Milliseconds));
    assert_eq!(r.values, vec![Some(5)]);
}

#[test]
fn with_time_zone_replaces_zone_only() {
    let c = datetime(TimeUnit::Microseconds, Some("UTC"), vec![Some(9)]);
    let r = with_time_zone(c, Some("America/Lima".to_string())).unwrap();
    assert_eq!(r.dtype, DataType::Datetime(TimeUnit::Microseconds, Some("America/Lima".to_string())));
    assert_eq!(r.values, vec![Some(9)]);
}

#[test]
fn unit_ops_reject_text_and_numbers() {
    let text = Column::new("s", DataType::Utf8, vec![None]);
    assert_eq!(cast_time_unit(text, TimeUnit::Seconds), Err(FunctionError::NoTimeUnit(DataType::Utf8)));
    let ints = Column::new("i", DataType::Int64, vec![Some(1)]);
    assert_eq!(with_time_unit(ints, TimeUnit::Seconds), Err(FunctionError::NoTimeUnit(DataType::Int64)));
    let floats = Column::new("f", DataType::Float64, vec![]);
    assert_eq!(with_time_zone(floats, None), Err(FunctionError::NoTimeZone(DataType::Float64)));
    let dur = Column::new("d", DataType::Duration(TimeUnit::Seconds), vec![]);
    assert_eq!(
        with_time_zone(dur, None),
        Err(FunctionError::NoTimeZone(DataType::Duration(TimeUnit::Seconds)))
    );
}
