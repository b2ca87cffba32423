use vstd::prelude::*;

verus! {

/// Resolution of the integer representation of a temporal value.
#[derive(Clone, Copy, Debug, PartialEq, Eq, Hash, Structural)]
pub enum TimeUnit {
    Seconds,
    Milliseconds,
    Microseconds,
    Nanoseconds,
}

/// Decimal exponent of the number of ticks per second.
pub open spec fn unit_exponent(u: TimeUnit) -> nat {
    match u {
        TimeUnit::Seconds => 0,
        TimeUnit::Milliseconds => 3,
        TimeUnit::Microseconds => 6,
        TimeUnit::Nanoseconds => 9,
    }
}

/// A name and a type, as found in a struct type.
#[derive(Debug, PartialEq, Eq, Hash)]
pub struct Field {
    pub name: String,
    pub dtype: DataType,
}

/// Element type of a column.
#[derive(Debug, PartialEq, Eq, Hash)]
pub enum DataType {
    Boolean,
    UInt8,
    UInt16,
    UInt32,
    UInt64,
    Int8,
    Int16,
    Int32,
    Int64,
    Float32,
    Float64,
    Utf8,
    /// Days since the epoch.
    Date,
    /// Ticks since the epoch, with an optional time zone.
    Datetime(TimeUnit, Option<String>),
    /// Elapsed ticks.
    Duration(TimeUnit),
    /// Nanoseconds since midnight.
    Time,
    List(Box<DataType>),
    Struct(Vec<Field>),
    Null,
    Unknown,
}

impl DataType {
    /// The resolution carried by a datetime or duration type.
    pub open spec fn time_unit_spec(&self) -> Option<TimeUnit> {
        match self {
            DataType::Datetime(u, _) => Some(*u),
            DataType::Duration(u) => Some(*u),
            _ => None,
        }
    }

    /// Whether the type carries a time unit.
    pub open spec fn has_time_unit(&self) -> bool {
        self is Datetime || self is Duration
    }

    pub fn time_unit(&self) -> (r: Option<TimeUnit>)
        ensures
            r == self.time_unit_spec(),
    {
        match self {
            DataType::Datetime(u, _) => Some(*u),
            DataType::Duration(u) => Some(*u),
            _ => None,
        }
    }

    /// Whether the type is one of the fixed-width numeric kinds.
    pub open spec fn is_numeric_spec(&self) -> bool {
        match self {
            DataType::UInt8 | DataType::UInt16 | DataType::UInt32 | DataType::UInt64
            | DataType::Int8 | DataType::Int16 | DataType::Int32 | DataType::Int64
            | DataType::Float32 | DataType::Float64 => true,
            _ => false,
        }
    }

    pub fn is_numeric(&self) -> (r: bool)
        ensures
            r == self.is_numeric_spec(),
    {
        match self {
            DataType::UInt8 | DataType::UInt16 | DataType::UInt32 | DataType::UInt64
            | DataType::Int8 | DataType::Int16 | DataType::Int32 | DataType::Int64
            | DataType::Float32 | DataType::Float64 => true,
            _ => false,
        }
    }
}

/// A copy of an optional zone name.
pub fn copy_zone(tz: &Option<String>) -> (r: Option<String>)
    ensures
        r == *tz,
{
    match tz {
        Some(s) => Some(s.clone()),
        None => None,
    }
}

/// The type with its time unit replaced, for a datetime or duration type;
/// any zone is kept.
pub open spec fn with_unit(dtype: DataType, u: TimeUnit) -> DataType {
    match dtype {
        DataType::Datetime(_, tz) => DataType::Datetime(u, tz),
        DataType::Duration(_) => DataType::Duration(u),
        other => other,
    }
}

} // verus!
