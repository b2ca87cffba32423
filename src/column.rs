use vstd::prelude::*;
use crate::datatypes::DataType;

verus! {

/// A named, typed column held in its physical integer representation
/// (days for dates, ticks for datetimes and durations), with nulls.
#[derive(Debug, PartialEq, Eq)]
pub struct Column {
    pub name: String,
    pub dtype: DataType,
    pub values: Vec<Option<i64>>,
}

/// The mathematical content of a column.
pub struct ColumnModel {
    pub name: Seq<char>,
    pub dtype: DataType,
    pub values: Seq<Option<i64>>,
}

impl View for Column {
    type V = ColumnModel;

    open spec fn view(&self) -> ColumnModel {
        ColumnModel { name: self.name@, dtype: self.dtype, values: self.values@ }
    }
}

impl Column {
    pub fn new(name: &str, dtype: DataType, values: Vec<Option<i64>>) -> (r: Column)
        ensures
            r@ == (ColumnModel { name: name@, dtype, values: values@ }),
    {
        Column { name: String::from_str(name), dtype, values }
    }
}

/// A failure of a kernel on the data it was given.
#[derive(Debug, PartialEq, Eq)]
pub enum FunctionError {
    /// The column's type carries no time unit.
    NoTimeUnit(DataType),
    /// The column's type carries no time zone.
    NoTimeZone(DataType),
    /// The column's type is neither a date nor a datetime.
    NotDateLike(DataType),
    /// The operation is not defined on the column's type.
    UnsupportedType(DataType),
    /// A rescaled value does not fit in 64 bits.
    Overflow,
    /// The operation's kernel lives outside this library.
    KernelNotProvided,
    /// The handle was invoked without any column.
    MissingInput,
    /// A parameter of the operation is out of its range.
    InvalidParameter(Parameter),
}

/// A parameter of an operation that can be out of range.
#[derive(Clone, Copy, Debug, PartialEq, Eq, Hash, Structural)]
pub enum Parameter {
    /// A rolling window of zero rows.
    WindowSize,
    /// A clip with neither bound.
    ClipBounds,
}

/// The model of a kernel's result.
pub open spec fn result_model(r: Result<Column, FunctionError>) -> Result<ColumnModel, FunctionError> {
    match r {
        Ok(c) => Ok(c@),
        Err(e) => Err(e),
    }
}

} // verus!
