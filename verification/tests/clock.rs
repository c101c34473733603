use sfml::system::{Clock, Time};

#[test]
fn a_new_clock_starts_at_its_epoch() {
    let clock = Clock::start();
    assert_eq!(clock.elapsed_at(Time::zero()), Time::zero());
    assert_eq!(clock.elapsed_at(Time::microseconds(12)).as_microseconds(), 12);
}

#[test]
fn elapsed_at_is_the_span_since_the_start() {
    let mut clock = Clock::start();
    clock.restart_at(Time::microseconds(20));
    assert_eq!(clock.elapsed_at(Time::microseconds(50)).as_microseconds(), 30);
    assert_eq!(clock.elapsed_at(Time::microseconds(20)).as_microseconds(), 0);
    // A reading from before the start shows a negative span.
    assert_eq!(clock.elapsed_at(Time::microseconds(5)).as_microseconds(), -15);
}

#[test]
fn elapsed_at_leaves_the_clock_as_it_is() {
    let mut clock = Clock::start();
    clock.restart_at(Time::microseconds(20));
    let _ = clock.elapsed_at(Time::microseconds(70));
    assert_eq!(clock.elapsed_at(Time::microseconds(50)).as_microseconds(), 30);
}

#[test]
fn restart_at_returns_the_elapsed_time_and_starts_anew() {
    let mut clock = Clock::start();
    assert_eq!(clock.restart_at(Time::microseconds(20)).as_microseconds(), 20);
    assert_eq!(clock.restart_at(Time::microseconds(50)).as_microseconds(), 30);
    assert_eq!(clock.elapsed_at(Time::microseconds(50)).as_microseconds(), 0);
    assert_eq!(clock.elapsed_at(Time::microseconds(51)).as_microseconds(), 1);
}

#[test]
fn elapsed_at_never_decreases_with_the_reading() {
    let mut clock = Clock::start();
    clock.restart_at(Time::microseconds(1_000));
    let readings = [1_000, 1_001, 5_000, 5_000, 1 << 40, i64::MAX];
    let mut last = clock.elapsed_at(Time::microseconds(readings[0])).as_microseconds();
    for reading in readings {
        let shown = clock.elapsed_at(Time::microseconds(reading)).as_microseconds();
        assert!(shown >= last);
        assert_eq!(shown, reading - 1_000);
        last = shown;
    }
}

#[test]
fn a_reading_is_never_negative_and_never_goes_back() {
    let clock = Clock::start();
    let first = clock.reading().as_microseconds();
    let second = clock.reading().as_microseconds();
    assert!(first >= 0);
    assert!(second >= first);
}

#[test]
fn elapsed_time_never_decreases() {
    let clock = Clock::start();
    let mut last = clock.elapsed_time().as_microseconds();
    assert!(last >= 0);
    for _ in 0..1000 {
        let now = clock.elapsed_time().as_microseconds();
        assert!(now >= last);
        last = now;
    }
}

#[test]
fn elapsed_time_follows_the_monotonic_clock() {
    let clock = Clock::start();
    let before = std::time::Instant::now();
    let mut spin = 0u64;
    while before.elapsed().as_micros() < 2_000 {
        spin = spin.wrapping_add(1);
    }
    let shown = clock.elapsed_time().as_microseconds();
    assert!(shown >= 2_000);
    // The clock was started before `before` was taken, and read after the wait.
    assert!(shown < 60_000_000);
    assert!(spin > 0);
}

#[test]
fn restart_returns_the_elapsed_time_and_puts_the_counter_back() {
    let mut clock = Clock::start();
    let before = std::time::Instant::now();
    while before.elapsed().as_micros() < 2_000 {}
    let run = clock.restart().as_microseconds();
    assert!(run >= 2_000);
    let after = clock.elapsed_time().as_microseconds();
    assert!(after >= 0);
    // The counter went back: it does not show the wait a second time.
    assert!(after < 10_000_000);
    assert!(clock.restart().as_microseconds() >= after);
}

#[test]
fn right_after_a_restart_little_time_has_elapsed() {
    let mut clock = Clock::start();
    let _ = clock.restart();
    let shown = clock.elapsed_time().as_microseconds();
    assert!(shown >= 0);
    // A fraction of a millisecond as a rule; far less than this on any machine.
    assert!(shown < 10_000_000);
}

#[test]
fn the_default_clock_is_a_started_clock() {
    let clock = Clock::default();
    assert_eq!(clock.elapsed_at(Time::microseconds(7)).as_microseconds(), 7);
    assert!(clock.elapsed_time().as_microseconds() >= 0);
}

#[test]
fn a_copy_of_a_clock_counts_from_the_same_start() {
    let mut clock = Clock::start();
    clock.restart_at(Time::microseconds(20));
    let copy = clock;
    clock.restart_at(Time::microseconds(40));
    assert_eq!(copy.elapsed_at(Time::microseconds(50)).as_microseconds(), 30);
    assert_eq!(clock.elapsed_at(Time::microseconds(50)).as_microseconds(), 10);
}

#[test]
fn a_reading_is_the_count_of_microseconds() {
    assert_eq!(Clock::reading_of(0), Time::zero());
    assert_eq!(Clock::reading_of(1), Time::microseconds(1));
    assert_eq!(Clock::reading_of(2_000_000).as_milliseconds(), 2_000);
    assert_eq!(Clock::reading_of(i64::MAX as u128).as_microseconds(), i64::MAX);
}

#[test]
fn a_reading_too_large_for_64_bits_is_the_greatest_one() {
    assert_eq!(Clock::reading_of(i64::MAX as u128 + 1).as_microseconds(), i64::MAX);
    assert_eq!(Clock::reading_of(u64::MAX as u128).as_microseconds(), i64::MAX);
    assert_eq!(Clock::reading_of(u128::MAX).as_microseconds(), i64::MAX);
}
