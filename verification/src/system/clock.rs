//! A stopwatch on the monotonic clock.
//!
//! A [`Clock`] is always running. Each of its operations takes one reading of
//! the monotonic clock and works on that reading; what it then computes is
//! stated, for every reading, by [`Clock::elapsed_at`] and
//! [`Clock::restart_at`].
use crate::system::time::{wrap64, Time};
use std::time::Instant;
use vstd::prelude::*;
use vstd::std_specs::ops::SubSpec;

pub use crate::ffi::system::sfClock as Clock;

verus! {

impl Clock {
    /// The reading at which the clock was last started.
    pub closed spec fn start_time(self) -> Time {
        self.start_time
    }

    /// The instant from which the clock counts its readings.
    pub closed spec fn epoch(self) -> Instant {
        self.epoch
    }

    /// A clock is well formed when its start is a reading of its own: a count
    /// of microseconds since its epoch, hence not negative.
    pub open spec fn wf(self) -> bool {
        self.start_time()@ >= 0
    }

    /// The time that the clock shows at the reading `now`.
    pub open spec fn spec_elapsed_at(self, now: Time) -> Time {
        now.sub_spec(self.start_time())
    }

    /// The clock as it is once restarted at the reading `now`.
    pub closed spec fn spec_restarted_at(self, now: Time) -> Clock {
        Clock { epoch: self.epoch, start_time: now }
    }

    /// Creates a new Clock and starts it automatically.
    #[must_use]
    pub fn start() -> (clock: Clock)
        ensures
            clock.start_time()@ == 0,
            clock.wf(),
    {
        Clock { epoch: Instant::now(), start_time: Time::zero() }
    }

    /// The reading that stands for a count of `microseconds` gone by since the
    /// epoch: the count itself, or `i64::MAX` where it does not fit in 64 bits.
    pub open spec fn spec_reading_of(microseconds: u128) -> Time {
        if microseconds > i64::MAX {
            Time::spec_microseconds(i64::MAX)
        } else {
            Time::spec_microseconds(microseconds as i64)
        }
    }

    /// Makes a reading of a count of `microseconds` gone by since the epoch:
    /// the count itself, or `i64::MAX` where it does not fit in 64 bits.
    #[verifier::when_used_as_spec(spec_reading_of)]
    pub fn reading_of(microseconds: u128) -> (now: Time)
        ensures
            now == Clock::spec_reading_of(microseconds),
            now@ == if microseconds > i64::MAX {
                i64::MAX as int
            } else {
                microseconds as int
            },
            now@ >= 0,
    {
        if microseconds > 0x7fff_ffff_ffff_ffff {
            Time::microseconds(i64::MAX)
        } else {
            Time::microseconds(microseconds as i64)
        }
    }

    /// Takes a reading of the monotonic clock: the whole microseconds gone by
    /// since the epoch of this clock, made into a reading by [`reading_of`]. A
    /// reading is never negative.
    ///
    /// [`reading_of`]: Clock::reading_of
    pub fn reading(&self) -> (now: Time)
        ensures
            exists|microseconds: u128| now == #[trigger] Clock::spec_reading_of(microseconds),
            now@ >= 0,
    {
        let microseconds: u128 = Instant::now().saturating_duration_since(self.epoch).as_micros();
        Clock::reading_of(microseconds)
    }

    /// The time that the clock shows at the reading `now`: the span from its
    /// start to `now`. The clock is left as it is.
    pub fn elapsed_at(&self, now: Time) -> (elapsed: Time)
        ensures
            elapsed == self.spec_elapsed_at(now),
            elapsed@ == wrap64(now@ - self.start_time()@),
    {
        now - self.start_time
    }

    /// Restarts the clock at the reading `now`, and returns the time that it
    /// showed at that reading.
    pub fn restart_at(&mut self, now: Time) -> (elapsed: Time)
        ensures
            elapsed == old(self).spec_elapsed_at(now),
            elapsed@ == wrap64(now@ - old(self).start_time()@),
            *final(self) == old(self).spec_restarted_at(now),
            final(self).start_time() == now,
            final(self).epoch() == old(self).epoch(),
    {
        let elapsed = now - self.start_time;
        self.start_time = now;
        elapsed
    }

    /// Gets the elapsed time.
    ///
    /// This function returns the time elapsed since the last call to
    /// [`restart`] (or the construction of the instance if [`restart`] has not
    /// been called): it takes a reading and returns what [`elapsed_at`] gives
    /// for it.
    ///
    /// [`restart`]: Clock::restart
    /// [`elapsed_at`]: Clock::elapsed_at
    #[must_use]
    pub fn elapsed_time(&self) -> (elapsed: Time)
        ensures
            exists|now: Time|
                now@ >= 0 && elapsed == #[trigger] self.spec_elapsed_at(now) && elapsed@ == wrap64(
                    now@ - self.start_time()@,
                ),
    {
        let now = self.reading();
        self.elapsed_at(now)
    }

    /// Restarts the clock.
    ///
    /// This function puts the time counter back to zero. It also returns the
    /// time elapsed since the clock was started: it takes a reading and does
    /// what [`restart_at`] does with it.
    ///
    /// [`restart_at`]: Clock::restart_at
    pub fn restart(&mut self) -> (elapsed: Time)
        ensures
            final(self).start_time()@ >= 0,
            final(self).wf(),
            elapsed == old(self).spec_elapsed_at(final(self).start_time()),
            elapsed@ == wrap64(final(self).start_time()@ - old(self).start_time()@),
            *final(self) == old(self).spec_restarted_at(final(self).start_time()),
            final(self).epoch() == old(self).epoch(),
    {
        let now = self.reading();
        self.restart_at(now)
    }

    /// What a clock restarted at `now` holds.
    pub proof fn lemma_restarted_at(self, now: Time)
        ensures
            self.spec_restarted_at(now).start_time() == now,
            self.spec_restarted_at(now).epoch() == self.epoch(),
            self.spec_restarted_at(now).wf() <==> now@ >= 0,
    {
    }

    /// At a reading that is not before its start, a well-formed clock shows
    /// the exact span between the two, which is not negative.
    pub proof fn lemma_elapsed_is_exact(self, now: Time)
        requires
            self.wf(),
            self.start_time()@ <= now@,
        ensures
            self.spec_elapsed_at(now)@ == now@ - self.start_time()@,
            self.spec_elapsed_at(now)@ >= 0,
    {
        now.lemma_exact_in_range(self.start_time(), 1);
    }

    /// The elapsed time never decreases: of two readings, the later one shows
    /// no less time than the earlier one.
    pub proof fn lemma_elapsed_never_decreases(self, earlier: Time, later: Time)
        requires
            self.wf(),
            0 <= earlier@ <= later@,
        ensures
            self.spec_elapsed_at(earlier)@ <= self.spec_elapsed_at(later)@,
    {
        earlier.lemma_exact_in_range(self.start_time(), 1);
        later.lemma_exact_in_range(self.start_time(), 1);
    }

    /// Right after a restart the counter is back at zero, and from then on it
    /// shows the span since the restart, which is not negative.
    pub proof fn lemma_elapsed_after_restart(self, at: Time, later: Time)
        requires
            0 <= at@ <= later@,
        ensures
            self.spec_restarted_at(at).spec_elapsed_at(at)@ == 0,
            self.spec_restarted_at(at).spec_elapsed_at(later)@ == later@ - at@,
            self.spec_restarted_at(at).spec_elapsed_at(later)@ >= 0,
    {
        at.lemma_exact_in_range(at, 1);
        later.lemma_exact_in_range(at, 1);
    }
}

impl Default for Clock {
    /// Equivalent to `Clock::start()`.
    fn default() -> (clock: Clock)
        ensures
            clock.start_time()@ == 0,
            clock.wf(),
    {
        Clock::start()
    }
}

} // verus!
