//! The records that cross the foreign boundary for the audio module.
use vstd::prelude::*;

verus! {

/// A time range as the foreign side holds it: two counts of microseconds, the
/// offset first and the length second.
#[allow(non_camel_case_types)]
#[derive(Clone, Copy, PartialEq, Eq, Structural, Debug)]
pub struct sfTimeSpan {
    /// The beginning offset of the time range, in microseconds.
    pub offset: i64,
    /// The length of the time range, in microseconds.
    pub length: i64,
}

} // verus!
