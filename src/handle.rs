use vstd::prelude::*;
use std::sync::Arc;
use crate::column::{Column, ColumnModel, FunctionError, Parameter, result_model};
use crate::datatypes::{DataType, copy_zone};
use crate::function_expr::{FunctionExpr, StringFunction, TemporalFunction};
use crate::kernels::{
    cast_time_unit, cast_time_unit_spec, null_count_column, null_count_spec, with_time_unit,
    with_time_unit_spec, with_time_zone, with_time_zone_spec,
};
use crate::offset::{date_offset, date_offset_spec};

verus! {

/// How a kernel receives its columns.
#[derive(Clone, Copy, Debug, PartialEq, Eq, Hash, Structural)]
pub enum InputMode {
    /// Reads the first column.
    Primary,
    /// Takes the first column over.
    OwnedPrimary,
    /// Receives every column, the first being the primary input.
    Slice,
}

pub open spec fn string_input_mode(f: StringFunction) -> InputMode {
    match f {
        StringFunction::ConcatHorizontal(_) | StringFunction::Replace { .. } => InputMode::Slice,
        _ => InputMode::Primary,
    }
}

pub open spec fn temporal_input_mode(f: TemporalFunction) -> InputMode {
    match f {
        TemporalFunction::Strftime(_) | TemporalFunction::CastTimeUnit(_)
        | TemporalFunction::WithTimeUnit(_) | TemporalFunction::WithTimeZone(_) => InputMode::OwnedPrimary,
        _ => InputMode::Primary,
    }
}

/// The input mode of each operation's kernel; defined on every operation.
pub open spec fn input_mode_of(f: FunctionExpr) -> InputMode {
    match f {
        FunctionExpr::Pow | FunctionExpr::IsIn | FunctionExpr::ArgWhere | FunctionExpr::SearchSorted
        | FunctionExpr::FillNull { .. } | FunctionExpr::ListContains | FunctionExpr::ShiftAndFill { .. }
        | FunctionExpr::ListExpr(_) => InputMode::Slice,
        FunctionExpr::DateOffset(_) | FunctionExpr::Clip { .. } => InputMode::OwnedPrimary,
        FunctionExpr::StringExpr(s) => string_input_mode(s),
        FunctionExpr::TemporalExpr(t) => temporal_input_mode(t),
        _ => InputMode::Primary,
    }
}

/// Whether this library runs the kernel of the operation itself.
pub open spec fn has_kernel(f: FunctionExpr) -> bool {
    match f {
        FunctionExpr::TemporalExpr(TemporalFunction::CastTimeUnit(_))
        | FunctionExpr::TemporalExpr(TemporalFunction::WithTimeUnit(_))
        | FunctionExpr::TemporalExpr(TemporalFunction::WithTimeZone(_)) => true,
        _ => false,
    }
}

/// The parameter of `f` that is out of range, if any.
pub open spec fn parameter_error(f: FunctionExpr) -> Option<Parameter> {
    match f {
        FunctionExpr::RollingSkew { window_size, .. } => if window_size == 0 {
            Some(Parameter::WindowSize)
        } else {
            None
        },
        FunctionExpr::Clip { min, max } => if min is None && max is None {
            Some(Parameter::ClipBounds)
        } else {
            None
        },
        _ => None,
    }
}

/// Checks the parameters of an operation before its kernel runs.
pub fn check_parameters(f: &FunctionExpr) -> (r: Option<Parameter>)
    ensures
        r == parameter_error(*f),
{
    match f {
        FunctionExpr::RollingSkew { window_size, .. } => if *window_size == 0 {
            Some(Parameter::WindowSize)
        } else {
            None
        },
        FunctionExpr::Clip { min, max } => if min.is_none() && max.is_none() {
            Some(Parameter::ClipBounds)
        } else {
            None
        },
        _ => None,
    }
}

/// The column types that a field extraction accepts: calendar fields need
/// a date, time-of-day fields a time; a datetime has both.
pub open spec fn field_domain(t: TemporalFunction, dtype: DataType) -> bool {
    match t {
        TemporalFunction::Hour | TemporalFunction::Minute | TemporalFunction::Second
        | TemporalFunction::NanoSecond => dtype is Datetime || dtype is Time,
        _ => dtype is Date || dtype is Datetime,
    }
}

/// Whether `t` extracts an integer field of a date or time.
pub open spec fn is_field_extraction(t: TemporalFunction) -> bool {
    !(t is Strftime || t is CastTimeUnit || t is WithTimeUnit || t is WithTimeZone)
}

fn in_field_domain(t: &TemporalFunction, dtype: &DataType) -> (r: bool)
    ensures
        r == field_domain(*t, *dtype),
{
    match t {
        TemporalFunction::Hour | TemporalFunction::Minute | TemporalFunction::Second
        | TemporalFunction::NanoSecond => matches!(dtype, DataType::Datetime(..) | DataType::Time),
        _ => matches!(dtype, DataType::Date | DataType::Datetime(..)),
    }
}

/// What invoking the kernel of `f` on `cols` gives. Field extractions
/// reject column types outside their domain; their computation itself lies
/// outside this library.
pub open spec fn invoke_spec(f: FunctionExpr, cols: Seq<ColumnModel>) -> Result<ColumnModel, FunctionError> {
    if cols.len() == 0 {
        Err(FunctionError::MissingInput)
    } else if parameter_error(f) is Some {
        Err(FunctionError::InvalidParameter(parameter_error(f)->0))
    } else {
        match f {
            FunctionExpr::TemporalExpr(TemporalFunction::CastTimeUnit(tu)) => cast_time_unit_spec(cols[0], tu),
            FunctionExpr::TemporalExpr(TemporalFunction::WithTimeUnit(tu)) => with_time_unit_spec(cols[0], tu),
            FunctionExpr::TemporalExpr(TemporalFunction::WithTimeZone(tz)) => with_time_zone_spec(cols[0], tz),
            FunctionExpr::NullCount => null_count_spec(cols[0]),
            FunctionExpr::DateOffset(by) => date_offset_spec(cols[0], by),
            FunctionExpr::TemporalExpr(t) => if is_field_extraction(t) && !field_domain(t, cols[0].dtype) {
                Err(FunctionError::UnsupportedType(cols[0].dtype))
            } else {
                Err(FunctionError::KernelNotProvided)
            },
            _ => Err(FunctionError::KernelNotProvided),
        }
    }
}

pub open spec fn models(cols: Seq<Column>) -> Seq<ColumnModel> {
    cols.map_values(|c: Column| c@)
}

/// An invokable, shareable handle on the kernel of one operation. Clones
/// share the operation and keep the instance token, so a clone is the same
/// instance; handles that a registry builds separately, even for equal
/// operations, are different instances. Tokens identify instances within
/// the registry that issued them, and handles are compared only with
/// handles of the same registry.
#[derive(Clone)]
pub struct KernelHandle {
    function: Arc<FunctionExpr>,
    input_mode: InputMode,
    instance: u64,
    registry: Ghost<int>,
}

/// Hands out kernel handles, each with a fresh instance token.
pub struct KernelRegistry {
    next: u64,
    id: Ghost<int>,
}

/// Relies on `Arc::clone`: the new pointer shares the allocation, so it
/// points to the same value.
#[verifier::external_body]
fn share_operation(f: &Arc<FunctionExpr>) -> (r: Arc<FunctionExpr>)
    ensures
        *r == **f,
{
    Arc::clone(f)
}

impl KernelHandle {
    pub closed spec fn function(&self) -> FunctionExpr {
        *self.function
    }

    /// The registry that issued the handle.
    pub closed spec fn registry(&self) -> int {
        self.registry@
    }

    /// Another reference to this same instance.
    pub fn share(&self) -> (r: KernelHandle)
        ensures
            r.function() == self.function(),
            r.input_mode_spec() == self.input_mode_spec(),
            r.instance() == self.instance(),
            r.registry() == self.registry(),
    {
        KernelHandle {
            function: share_operation(&self.function),
            input_mode: self.input_mode,
            instance: self.instance,
            registry: self.registry,
        }
    }

    pub closed spec fn input_mode_spec(&self) -> InputMode {
        self.input_mode
    }

    pub closed spec fn instance(&self) -> u64 {
        self.instance
    }

    /// How the kernel receives its columns.
    pub fn input_mode(&self) -> (r: InputMode)
        ensures
            r == self.input_mode_spec(),
    {
        self.input_mode
    }

    /// Whether both handles, of one registry, are the same instance.
    pub fn same_instance(&self, other: &KernelHandle) -> (r: bool)
        requires
            self.registry() == other.registry(),
        ensures
            r == (self.instance() == other.instance()),
    {
        self.instance == other.instance
    }

    /// The operation the handle runs.
    pub fn operation(&self) -> (r: &FunctionExpr)
        ensures
            *r == self.function(),
    {
        &*self.function
    }

    /// Runs the kernel on `columns`, the first being the primary input.
    pub fn invoke(&self, columns: Vec<Column>) -> (r: Result<Column, FunctionError>)
        ensures
            result_model(r) == invoke_spec(self.function(), models(columns@)),
    {
        let mut columns = columns;
        if columns.len() == 0 {
            return Err(FunctionError::MissingInput);
        }
        if let Some(p) = check_parameters(&*self.function) {
            return Err(FunctionError::InvalidParameter(p));
        }
        proof {
            assert(models(columns@)[0] == columns@[0]@);
        }
        match &*self.function {
            FunctionExpr::TemporalExpr(TemporalFunction::CastTimeUnit(tu)) => {
                cast_time_unit(columns.remove(0), *tu)
            },
            FunctionExpr::TemporalExpr(TemporalFunction::WithTimeUnit(tu)) => {
                with_time_unit(columns.remove(0), *tu)
            },
            FunctionExpr::TemporalExpr(TemporalFunction::WithTimeZone(tz)) => {
                with_time_zone(columns.remove(0), copy_zone(tz))
            },
            FunctionExpr::NullCount => null_count_column(&columns[0]),
            FunctionExpr::DateOffset(by) => date_offset(columns.remove(0), *by),
            FunctionExpr::TemporalExpr(t) => {
                let field = match t {
                    TemporalFunction::Strftime(_) | TemporalFunction::CastTimeUnit(_)
                    | TemporalFunction::WithTimeUnit(_) | TemporalFunction::WithTimeZone(_) => false,
                    _ => true,
                };
                if field && !in_field_domain(t, &columns[0].dtype) {
                    let c = columns.remove(0);
                    Err(FunctionError::UnsupportedType(c.dtype))
                } else {
                    Err(FunctionError::KernelNotProvided)
                }
            },
            _ => Err(FunctionError::KernelNotProvided),
        }
    }
}

fn string_mode(f: &StringFunction) -> (r: InputMode)
    ensures
        r == string_input_mode(*f),
{
    match f {
        StringFunction::ConcatHorizontal(_) | StringFunction::Replace { .. } => InputMode::Slice,
        _ => InputMode::Primary,
    }
}

fn temporal_mode(f: &TemporalFunction) -> (r: InputMode)
    ensures
        r == temporal_input_mode(*f),
{
    match f {
        TemporalFunction::Strftime(_) | TemporalFunction::CastTimeUnit(_)
        | TemporalFunction::WithTimeUnit(_) | TemporalFunction::WithTimeZone(_) => InputMode::OwnedPrimary,
        _ => InputMode::Primary,
    }
}

/// The input mode of an operation's kernel.
pub fn kernel_input_mode(f: &FunctionExpr) -> (r: InputMode)
    ensures
        r == input_mode_of(*f),
{
    match f {
        FunctionExpr::Pow | FunctionExpr::IsIn | FunctionExpr::ArgWhere | FunctionExpr::SearchSorted
        | FunctionExpr::FillNull { .. } | FunctionExpr::ListContains | FunctionExpr::ShiftAndFill { .. }
        | FunctionExpr::ListExpr(_) => InputMode::Slice,
        FunctionExpr::DateOffset(_) | FunctionExpr::Clip { .. } => InputMode::OwnedPrimary,
        FunctionExpr::StringExpr(s) => string_mode(s),
        FunctionExpr::TemporalExpr(t) => temporal_mode(t),
        _ => InputMode::Primary,
    }
}

impl KernelRegistry {
    pub closed spec fn issued(&self) -> u64 {
        self.next
    }

    /// The identity of this registry.
    pub closed spec fn id(&self) -> int {
        self.id@
    }

    /// A registry that has handed out no handle yet.
    pub fn new() -> (r: KernelRegistry)
        ensures
            r.issued() == 0,
    {
        KernelRegistry { next: 0, id: Ghost(arbitrary()) }
    }

    /// Whether another handle can still be given a fresh token.
    pub fn can_issue(&self) -> (r: bool)
        ensures
            r == (self.issued() < u64::MAX),
    {
        self.next < u64::MAX
    }

    /// The handle on the kernel of `function`. Defined on every operation of
    /// the catalog; each call yields a new instance.
    pub fn to_kernel_handle(&mut self, function: FunctionExpr) -> (r: KernelHandle)
        requires
            old(self).issued() < u64::MAX,
        ensures
            r.function() == function,
            r.input_mode_spec() == input_mode_of(function),
            r.instance() == old(self).issued(),
            r.registry() == old(self).id(),
            final(self).issued() == old(self).issued() + 1,
            final(self).id() == old(self).id(),
    {
        let input_mode = kernel_input_mode(&function);
        let instance = self.next;
        self.next = self.next + 1;
        KernelHandle { function: Arc::new(function), input_mode, instance, registry: self.id }
    }
}

} // verus!
