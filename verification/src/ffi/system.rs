//! The records of the system module, and the monotonic clock of the standard
//! library, which is taken on trust.
use vstd::prelude::*;

verus! {

/// An instant of the standard library's monotonic clock. Nothing is known of
/// what it holds: a clock keeps one and measures from it.
#[verifier::external_type_specification]
#[verifier::external_body]
pub struct ExInstant(std::time::Instant);

/// `Instant::now` of the standard library: the present instant of the
/// monotonic clock. Nothing is claimed of the instant that comes back. A
/// system that cannot read its monotonic clock ends the program there.
pub assume_specification[ std::time::Instant::now ]() -> (now: std::time::Instant);

/// `Instant::saturating_duration_since` of the standard library: the time from
/// `earlier` to `instant`, or no time at all where `earlier` is the later of
/// the two. Nothing is claimed of the duration that comes back.
pub assume_specification[ std::time::Instant::saturating_duration_since ](
    instant: &std::time::Instant,
    earlier: std::time::Instant,
) -> (elapsed: std::time::Duration);

/// `Duration::as_micros` of the standard library: the whole microseconds that
/// a duration holds. Nothing is claimed of the count that comes back.
pub assume_specification[ std::time::Duration::as_micros ](duration: &std::time::Duration) -> (microseconds: u128);

/// Represents a time value.
///
/// Time encapsulates a time value in a flexible way.
///
/// It allows to define a time value either as a number of milliseconds or
/// microseconds. It also works the other way round: you can read a time value
/// as either a number of milliseconds or microseconds.
///
/// Time values support the usual mathematical operations: you can add or
/// subtract two times, multiply or divide a time by a whole number, take the
/// remainder of a time by another, compare two times for equality.
///
/// Since they represent a time span and not an absolute time value, times can
/// also be negative.
///
/// # Usage example
/// ```
/// # use sfml::system::Time;
/// let t2 = Time::milliseconds(30);
/// assert_eq!(t2.as_microseconds(), 30_000);
///
/// let t3 = Time::microseconds(-800_000);
/// assert_eq!(t3.as_milliseconds(), -800);
/// ```
#[allow(non_camel_case_types)]
#[derive(Clone, Copy, PartialEq, Eq, Structural, Debug)]
pub struct sfTime {
    pub(crate) microseconds: i64,
}

/// Utility type that measures the elapsed time.
///
/// It reads the monotonic clock of the standard library, which means that the
/// returned time can never go backward, even if the system time is changed.
///
/// A clock counts in microseconds from its epoch, the instant at which it was
/// made. It keeps the reading at which it was last started.
///
/// # Usage example
/// ```
/// # use sfml::system::Clock;
/// let mut clock = Clock::start();
/// // ...
/// let time1 = clock.elapsed_time();
/// // ...
/// let time2 = clock.restart();
/// ```
#[allow(non_camel_case_types)]
#[derive(Debug, Clone, Copy)]
pub struct sfClock {
    pub(crate) epoch: std::time::Instant,
    pub(crate) start_time: sfTime,
}

/// The place of a walk through a foreign vector of strings, from its first
/// item to its last.
///
/// The vector itself stays on the foreign side. The walk holds its length and
/// the index of the item that comes next, and hands out the indices one by
/// one: the caller fetches the item at each.
#[allow(non_camel_case_types)]
#[derive(Debug, Clone, Copy)]
pub struct sfStdStringVectorIter {
    len: usize,
    cursor: usize,
}

impl sfStdStringVectorIter {
    /// The length of the vector that is walked through.
    pub closed spec fn len(self) -> nat {
        self.len as nat
    }

    /// The index of the item that comes next.
    pub closed spec fn cursor(self) -> nat {
        self.cursor as nat
    }

    /// The indices that the walk has yet to hand out, in the order in which
    /// they come.
    pub open spec fn remaining(self) -> Seq<nat> {
        if self.cursor() < self.len() {
            Seq::new((self.len() - self.cursor()) as nat, |i: int| (self.cursor() + i) as nat)
        } else {
            Seq::empty()
        }
    }

    /// Begins a walk through a vector of `len` items, at its first item.
    pub fn new(len: usize) -> (walk: sfStdStringVectorIter)
        ensures
            walk.len() == len,
            walk.cursor() == 0,
    {
        sfStdStringVectorIter { len, cursor: 0 }
    }

    /// Hands out the index of the next item and moves past it, or nothing
    /// where no item is left; the walk then stays where it is.
    pub fn next(&mut self) -> (index: Option<usize>)
        ensures
            final(self).len() == old(self).len(),
            old(self).cursor() < old(self).len() ==> index == Some(old(self).cursor() as usize)
                && final(self).cursor() == old(self).cursor() + 1,
            old(self).cursor() >= old(self).len() ==> index.is_none() && *final(self) == *old(self),
            index matches Some(i) ==> old(self).remaining().len() > 0 && i == old(self).remaining()[0]
                && final(self).remaining() == old(self).remaining().skip(1),
            index.is_none() <==> old(self).remaining().len() == 0,
    {
        if self.cursor >= self.len {
            return None;
        }
        let index: usize = self.cursor;
        self.cursor = index + 1;
        Some(index)
    }
}

} // verus!
