use vstd::prelude::*;
use crate::datatypes::{DataType, TimeUnit};
use crate::duration::Duration;

verus! {

/// A literal value, as used for clip bounds.
#[derive(Debug, PartialEq, Eq, Hash)]
pub enum Scalar {
    Null,
    Boolean(bool),
    Int(i64),
    UInt(u64),
    Utf8(String),
}

/// Options of string-to-temporal parsing.
#[derive(Debug, PartialEq, Eq, Hash)]
pub struct StrptimeOptions {
    pub date_dtype: DataType,
    pub fmt: Option<String>,
    pub strict: bool,
    pub exact: bool,
}

/// Operations of the string sub-catalog.
#[derive(Debug, PartialEq, Eq, Hash)]
pub enum StringFunction {
    Contains { pat: String, literal: bool },
    StartsWith(String),
    EndsWith(String),
    Extract { pat: String, group_index: usize },
    ExtractAll(String),
    CountMatch(String),
    Zfill(usize),
    LJust { width: usize, fillchar: char },
    RJust { width: usize, fillchar: char },
    Strptime(StrptimeOptions),
    ConcatVertical(String),
    ConcatHorizontal(String),
    Replace { all: bool, literal: bool },
    Uppercase,
    Lowercase,
}

/// Operations of the temporal sub-catalog.
#[derive(Debug, PartialEq, Eq, Hash)]
pub enum TemporalFunction {
    Year,
    IsoYear,
    Month,
    Quarter,
    Week,
    WeekDay,
    Day,
    OrdinalDay,
    Hour,
    Minute,
    Second,
    NanoSecond,
    TimeStamp(TimeUnit),
    Strftime(String),
    CastTimeUnit(TimeUnit),
    WithTimeUnit(TimeUnit),
    WithTimeZone(Option<String>),
}

/// Operations of the list sub-catalog.
#[derive(Clone, Copy, Debug, PartialEq, Eq, Hash, Structural)]
pub enum ListFunction {
    Concat,
}

/// Operations of the struct sub-catalog.
#[derive(Debug, PartialEq, Eq, Hash)]
pub enum StructFunction {
    FieldByIndex(i64),
    FieldByName(String),
}

/// Operations of the trigonometric sub-catalog.
#[derive(Clone, Copy, Debug, PartialEq, Eq, Hash, Structural)]
pub enum TrigonometricFunction {
    Sin,
    Cos,
    Tan,
    ArcSin,
    ArcCos,
    ArcTan,
    Sinh,
    Cosh,
    Tanh,
    ArcSinh,
    ArcCosh,
    ArcTanh,
}

/// Operations on not-a-number values.
#[derive(Clone, Copy, Debug, PartialEq, Eq, Hash, Structural)]
pub enum NanFunction {
    IsNan,
    IsNotNan,
    DropNans,
}

/// The closed catalog of built-in operations, each with its literal
/// parameters.
#[derive(Debug, PartialEq, Eq, Hash)]
pub enum FunctionExpr {
    NullCount,
    Pow,
    Hash(u64, u64, u64, u64),
    IsIn,
    ArgWhere,
    SearchSorted,
    StringExpr(StringFunction),
    TemporalExpr(TemporalFunction),
    DateOffset(Duration),
    Trigonometry(TrigonometricFunction),
    Sign,
    FillNull { super_type: DataType },
    ListContains,
    RollingSkew { window_size: usize, bias: bool },
    ShiftAndFill { periods: i64 },
    Nan(NanFunction),
    Clip { min: Option<Scalar>, max: Option<Scalar> },
    ListExpr(ListFunction),
    StructExpr(StructFunction),
    TopK { k: usize, reverse: bool },
    Shift(i64),
    Reverse,
    IsNull,
    IsNotNull,
    Not,
    IsUnique,
    IsDuplicated,
}

pub open spec fn string_function_name(f: StringFunction) -> Seq<char> {
    match f {
        StringFunction::Contains { .. } => "str.contains"@,
        StringFunction::StartsWith(_) => "str.starts_with"@,
        StringFunction::EndsWith(_) => "str.ends_with"@,
        StringFunction::Extract { .. } => "str.extract"@,
        StringFunction::ExtractAll(_) => "str.extract_all"@,
        StringFunction::CountMatch(_) => "str.count_match"@,
        StringFunction::Zfill(_) => "str.zfill"@,
        StringFunction::LJust { .. } => "str.ljust"@,
        StringFunction::RJust { .. } => "str.rjust"@,
        StringFunction::Strptime(_) => "str.strptime"@,
        StringFunction::ConcatVertical(_) => "str.concat_vertical"@,
        StringFunction::ConcatHorizontal(_) => "str.concat_horizontal"@,
        StringFunction::Replace { .. } => "str.replace"@,
        StringFunction::Uppercase => "str.uppercase"@,
        StringFunction::Lowercase => "str.lowercase"@,
    }
}

pub open spec fn temporal_function_name(f: TemporalFunction) -> Seq<char> {
    match f {
        TemporalFunction::Year => "dt.year"@,
        TemporalFunction::IsoYear => "dt.iso_year"@,
        TemporalFunction::Month => "dt.month"@,
        TemporalFunction::Quarter => "dt.quarter"@,
        TemporalFunction::Week => "dt.week"@,
        TemporalFunction::WeekDay => "dt.weekday"@,
        TemporalFunction::Day => "dt.day"@,
        TemporalFunction::OrdinalDay => "dt.ordinal_day"@,
        TemporalFunction::Hour => "dt.hour"@,
        TemporalFunction::Minute => "dt.minute"@,
        TemporalFunction::Second => "dt.second"@,
        TemporalFunction::NanoSecond => "dt.nanosecond"@,
        TemporalFunction::TimeStamp(_) => "dt.timestamp"@,
        TemporalFunction::Strftime(_) => "strftime"@,
        TemporalFunction::CastTimeUnit(_) => "dt.cast_time_unit"@,
        TemporalFunction::WithTimeUnit(_) => "dt.with_time_unit"@,
        TemporalFunction::WithTimeZone(_) => "dt.with_time_zone"@,
    }
}

pub open spec fn trigonometric_function_name(f: TrigonometricFunction) -> Seq<char> {
    match f {
        TrigonometricFunction::Sin => "sin"@,
        TrigonometricFunction::Cos => "cos"@,
        TrigonometricFunction::Tan => "tan"@,
        TrigonometricFunction::ArcSin => "arcsin"@,
        TrigonometricFunction::ArcCos => "arccos"@,
        TrigonometricFunction::ArcTan => "arctan"@,
        TrigonometricFunction::Sinh => "sinh"@,
        TrigonometricFunction::Cosh => "cosh"@,
        TrigonometricFunction::Tanh => "tanh"@,
        TrigonometricFunction::ArcSinh => "arcsinh"@,
        TrigonometricFunction::ArcCosh => "arccosh"@,
        TrigonometricFunction::ArcTanh => "arctanh"@,
    }
}

pub open spec fn nan_function_name(f: NanFunction) -> Seq<char> {
    match f {
        NanFunction::IsNan => "is_nan"@,
        NanFunction::IsNotNan => "is_not_nan"@,
        NanFunction::DropNans => "drop_nans"@,
    }
}

impl FunctionExpr {
    /// Only a clip with at least one bound can be built.
    pub open spec fn wf(&self) -> bool {
        self matches FunctionExpr::Clip { min, max } ==> (min is Some || max is Some)
    }

    /// The display name of the operation.
    pub open spec fn name_spec(&self) -> Seq<char> {
        match self {
            FunctionExpr::NullCount => "null_count"@,
            FunctionExpr::Pow => "pow"@,
            FunctionExpr::Hash(..) => "hash"@,
            FunctionExpr::IsIn => "is_in"@,
            FunctionExpr::ArgWhere => "arg_where"@,
            FunctionExpr::SearchSorted => "search_sorted"@,
            FunctionExpr::StringExpr(s) => string_function_name(*s),
            FunctionExpr::TemporalExpr(t) => temporal_function_name(*t),
            FunctionExpr::DateOffset(_) => "dt.offset_by"@,
            FunctionExpr::Trigonometry(t) => trigonometric_function_name(*t),
            FunctionExpr::Sign => "sign"@,
            FunctionExpr::FillNull { .. } => "fill_null"@,
            FunctionExpr::ListContains => "arr.contains"@,
            FunctionExpr::RollingSkew { .. } => "rolling_skew"@,
            FunctionExpr::ShiftAndFill { .. } => "shift_and_fill"@,
            FunctionExpr::Nan(n) => nan_function_name(*n),
            FunctionExpr::Clip { min, max } => if min is Some && max is Some {
                "clip"@
            } else if min is Some {
                "clip_min"@
            } else {
                "clip_max"@
            },
            FunctionExpr::ListExpr(_) => "arr.concat"@,
            FunctionExpr::StructExpr(_) => "struct.field"@,
            FunctionExpr::TopK { .. } => "top_k"@,
            FunctionExpr::Shift(_) => "shift"@,
            FunctionExpr::Reverse => "reverse"@,
            FunctionExpr::IsNull => "is_null"@,
            FunctionExpr::IsNotNull => "is_not_null"@,
            FunctionExpr::Not => "is_not"@,
            FunctionExpr::IsUnique => "is_unique"@,
            FunctionExpr::IsDuplicated => "is_duplicated"@,
        }
    }

    /// The display name, used in plan printing and diagnostics.
    pub fn display_name(&self) -> (r: String)
        requires
            self.wf(),
        ensures
            r@ == self.name_spec(),
    {
        let s: &str = match self {
            FunctionExpr::NullCount => "null_count",
            FunctionExpr::Pow => "pow",
            FunctionExpr::Hash(..) => "hash",
            FunctionExpr::IsIn => "is_in",
            FunctionExpr::ArgWhere => "arg_where",
            FunctionExpr::SearchSorted => "search_sorted",
            FunctionExpr::StringExpr(s) => string_name(s),
            FunctionExpr::TemporalExpr(t) => temporal_name(t),
            FunctionExpr::DateOffset(_) => "dt.offset_by",
            FunctionExpr::Trigonometry(t) => trigonometric_name(*t),
            FunctionExpr::Sign => "sign",
            FunctionExpr::FillNull { .. } => "fill_null",
            FunctionExpr::ListContains => "arr.contains",
            FunctionExpr::RollingSkew { .. } => "rolling_skew",
            FunctionExpr::ShiftAndFill { .. } => "shift_and_fill",
            FunctionExpr::Nan(n) => nan_name(*n),
            FunctionExpr::Clip { min, max } => match (min, max) {
                (Some(_), Some(_)) => "clip",
                (None, Some(_)) => "clip_max",
                (Some(_), None) => "clip_min",
                // excluded by the precondition
                (None, None) => "clip",
            },
            FunctionExpr::ListExpr(_) => "arr.concat",
            FunctionExpr::StructExpr(_) => "struct.field",
            FunctionExpr::TopK { .. } => "top_k",
            FunctionExpr::Shift(_) => "shift",
            FunctionExpr::Reverse => "reverse",
            FunctionExpr::IsNull => "is_null",
            FunctionExpr::IsNotNull => "is_not_null",
            FunctionExpr::Not => "is_not",
            FunctionExpr::IsUnique => "is_unique",
            FunctionExpr::IsDuplicated => "is_duplicated",
        };
        String::from_str(s)
    }
}

fn string_name(f: &StringFunction) -> (r: &'static str)
    ensures
        r@ == string_function_name(*f),
{
    match f {
        StringFunction::Contains { .. } => "str.contains",
        StringFunction::StartsWith(_) => "str.starts_with",
        StringFunction::EndsWith(_) => "str.ends_with",
        StringFunction::Extract { .. } => "str.extract",
        StringFunction::ExtractAll(_) => "str.extract_all",
        StringFunction::CountMatch(_) => "str.count_match",
        StringFunction::Zfill(_) => "str.zfill",
        StringFunction::LJust { .. } => "str.ljust",
        StringFunction::RJust { .. } => "str.rjust",
        StringFunction::Strptime(_) => "str.strptime",
        StringFunction::ConcatVertical(_) => "str.concat_vertical",
        StringFunction::ConcatHorizontal(_) => "str.concat_horizontal",
        StringFunction::Replace { .. } => "str.replace",
        StringFunction::Uppercase => "str.uppercase",
        StringFunction::Lowercase => "str.lowercase",
    }
}

fn temporal_name(f: &TemporalFunction) -> (r: &'static str)
    ensures
        r@ == temporal_function_name(*f),
{
    match f {
        TemporalFunction::Year => "dt.year",
        TemporalFunction::IsoYear => "dt.iso_year",
        TemporalFunction::Month => "dt.month",
        TemporalFunction::Quarter => "dt.quarter",
        TemporalFunction::Week => "dt.week",
        TemporalFunction::WeekDay => "dt.weekday",
        TemporalFunction::Day => "dt.day",
        TemporalFunction::OrdinalDay => "dt.ordinal_day",
        TemporalFunction::Hour => "dt.hour",
        TemporalFunction::Minute => "dt.minute",
        TemporalFunction::Second => "dt.second",
        TemporalFunction::NanoSecond => "dt.nanosecond",
        TemporalFunction::TimeStamp(_) => "dt.timestamp",
        TemporalFunction::Strftime(_) => "strftime",
        TemporalFunction::CastTimeUnit(_) => "dt.cast_time_unit",
        TemporalFunction::WithTimeUnit(_) => "dt.with_time_unit",
        TemporalFunction::WithTimeZone(_) => "dt.with_time_zone",
    }
}

fn trigonometric_name(f: TrigonometricFunction) -> (r: &'static str)
    ensures
        r@ == trigonometric_function_name(f),
{
    match f {
        TrigonometricFunction::Sin => "sin",
        TrigonometricFunction::Cos => "cos",
        TrigonometricFunction::Tan => "tan",
        TrigonometricFunction::ArcSin => "arcsin",
        TrigonometricFunction::ArcCos => "arccos",
        TrigonometricFunction::ArcTan => "arctan",
        TrigonometricFunction::Sinh => "sinh",
        TrigonometricFunction::Cosh => "cosh",
        TrigonometricFunction::Tanh => "tanh",
        TrigonometricFunction::ArcSinh => "arcsinh",
        TrigonometricFunction::ArcCosh => "arccosh",
        TrigonometricFunction::ArcTanh => "arctanh",
    }
}

fn nan_name(f: NanFunction) -> (r: &'static str)
    ensures
        r@ == nan_function_name(f),
{
    match f {
        NanFunction::IsNan => "is_nan",
        NanFunction::IsNotNan => "is_not_nan",
        NanFunction::DropNans => "drop_nans",
    }
}

} // verus!
