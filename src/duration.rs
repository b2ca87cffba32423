use vstd::prelude::*;

verus! {

/// A calendar-aware offset: whole months (years count as twelve months),
/// weeks, days and a fixed number of nanoseconds, with one sign for all.
#[derive(Clone, Copy, Debug, PartialEq, Eq, Hash, Structural)]
pub struct Duration {
    pub months: i64,
    pub weeks: i64,
    pub days: i64,
    pub nsecs: i64,
    pub negative: bool,
}

impl Duration {
    /// An offset of the given parts and sign.
    pub fn new(months: i64, weeks: i64, days: i64, nsecs: i64, negative: bool) -> (r: Duration)
        ensures
            r == (Duration { months, weeks, days, nsecs, negative }),
    {
        Duration { months, weeks, days, nsecs, negative }
    }

    /// The month part with the sign applied.
    pub open spec fn signed_months(&self) -> int {
        if self.negative { -(self.months as int) } else { self.months as int }
    }
}

} // verus!
