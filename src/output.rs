use vstd::prelude::*;
use crate::datatypes::{DataType, TimeUnit, with_unit};

verus! {

/// A mapping of input types whose domain is limited to the temporal types
/// named on each variant.
#[derive(Debug, PartialEq, Eq, Hash)]
pub enum TypeMapping {
    /// `Duration(_)` to `Duration(u)`, `Datetime(_, z)` to `Datetime(u, z)`.
    SetTimeUnit(TimeUnit),
    /// `Datetime(u, _)` to `Datetime(u, z)`.
    SetTimeZone(Option<String>),
}

/// How the output type of an operation follows from its input types.
#[derive(Debug, PartialEq, Eq, Hash)]
pub enum OutputTypeRule {
    Fixed(DataType),
    SameAsInput,
    MappedFromInput(TypeMapping),
}

impl TypeMapping {
    /// The input types on which the mapping is defined.
    pub open spec fn domain(&self, dtype: DataType) -> bool {
        match self {
            TypeMapping::SetTimeUnit(_) => dtype.has_time_unit(),
            TypeMapping::SetTimeZone(_) => dtype is Datetime,
        }
    }

    pub open spec fn apply(&self, dtype: DataType) -> DataType {
        match self {
            TypeMapping::SetTimeUnit(u) => with_unit(dtype, *u),
            TypeMapping::SetTimeZone(z) => match dtype {
                DataType::Datetime(u, _) => DataType::Datetime(u, *z),
                other => other,
            },
        }
    }
}

impl OutputTypeRule {
    /// The input type lists that the rule may be evaluated on.
    pub open spec fn accepts(&self, inputs: Seq<DataType>) -> bool {
        match self {
            OutputTypeRule::Fixed(_) => true,
            OutputTypeRule::SameAsInput => inputs.len() >= 1,
            OutputTypeRule::MappedFromInput(m) => inputs.len() >= 1 && m.domain(inputs[0]),
        }
    }

    /// The predicted output type.
    pub open spec fn resolve_spec(&self, inputs: Seq<DataType>) -> DataType {
        match self {
            OutputTypeRule::Fixed(t) => *t,
            OutputTypeRule::SameAsInput => inputs[0],
            OutputTypeRule::MappedFromInput(m) => m.apply(inputs[0]),
        }
    }

    /// Predicts the output type from the input types, without touching data.
    /// A mapped rule on a type outside its domain is a malformed plan and is
    /// excluded by the precondition.
    pub fn resolve_output_type(self, input_types: Vec<DataType>) -> (r: DataType)
        requires
            self.accepts(input_types@),
        ensures
            r == self.resolve_spec(input_types@),
    {
        let mut input_types = input_types;
        match self {
            OutputTypeRule::Fixed(t) => t,
            OutputTypeRule::SameAsInput => input_types.remove(0),
            OutputTypeRule::MappedFromInput(m) => {
                let first = input_types.remove(0);
                match m {
                    TypeMapping::SetTimeUnit(u) => match first {
                        DataType::Datetime(_, tz) => DataType::Datetime(u, tz),
                        DataType::Duration(_) => DataType::Duration(u),
                        other => other,
                    },
                    TypeMapping::SetTimeZone(z) => match first {
                        DataType::Datetime(u, _) => DataType::Datetime(u, z),
                        other => other,
                    },
                }
            },
        }
    }
}

} // verus!
