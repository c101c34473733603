//! Ranges of time.
use crate::ffi::sfTimeSpan;
use crate::system::Time;
use vstd::prelude::*;

verus! {

/// Structure defining a time range: it begins at `offset` and goes on for
/// `length`. Nothing is asked of the two values: a range of negative length
/// can be written down, and is stored as it stands.
#[derive(Debug, Clone, Copy)]
pub struct TimeSpan {
    /// The beginning offset of the time range.
    pub offset: Time,
    /// The length of the time range.
    pub length: Time,
}

impl TimeSpan {
    /// The time range that the record `raw` stands for, in specifications.
    pub open spec fn spec_from_raw(raw: sfTimeSpan) -> TimeSpan {
        TimeSpan {
            offset: Time::spec_microseconds(raw.offset),
            length: Time::spec_microseconds(raw.length),
        }
    }

    /// The record that stands for `self`, in specifications.
    pub open spec fn spec_into_raw(self) -> sfTimeSpan {
        sfTimeSpan {
            offset: self.offset.spec_as_microseconds(),
            length: self.length.spec_as_microseconds(),
        }
    }

    /// Reads a time range from the record of the foreign side, field by field.
    #[verifier::when_used_as_spec(spec_from_raw)]
    pub fn from_raw(raw: sfTimeSpan) -> (span: TimeSpan)
        ensures
            span == TimeSpan::spec_from_raw(raw),
            span.offset@ == raw.offset,
            span.length@ == raw.length,
    {
        TimeSpan { offset: Time::microseconds(raw.offset), length: Time::microseconds(raw.length) }
    }

    /// Writes a time range as the record of the foreign side, field by field.
    #[verifier::when_used_as_spec(spec_into_raw)]
    pub fn into_raw(self) -> (raw: sfTimeSpan)
        ensures
            raw == self.spec_into_raw(),
            raw.offset == self.offset@,
            raw.length == self.length@,
    {
        sfTimeSpan {
            offset: self.offset.as_microseconds(),
            length: self.length.as_microseconds(),
        }
    }

    /// A time range that has gone to the foreign side and come back is the
    /// range it was, in both of its fields.
    pub proof fn lemma_raw_round_trip(self)
        ensures
            TimeSpan::spec_from_raw(self.spec_into_raw()) == self,
            TimeSpan::spec_from_raw(self.spec_into_raw()).offset == self.offset,
            TimeSpan::spec_from_raw(self.spec_into_raw()).length == self.length,
    {
        self.offset.lemma_determined_by_microseconds();
        self.length.lemma_determined_by_microseconds();
    }

    /// A record that has been read as a time range and written again is the
    /// record it was.
    pub proof fn lemma_record_round_trip(raw: sfTimeSpan)
        ensures
            TimeSpan::spec_from_raw(raw).spec_into_raw() == raw,
    {
        Time::lemma_microseconds_round_trip(raw.offset);
        Time::lemma_microseconds_round_trip(raw.length);
    }
}

impl Default for TimeSpan {
    /// The empty range at offset zero.
    fn default() -> (span: TimeSpan)
        ensures
            span.offset@ == 0,
            span.length@ == 0,
    {
        TimeSpan { offset: Time::zero(), length: Time::zero() }
    }
}

} // verus!
