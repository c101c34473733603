use sfml::system::Time;

#[test]
fn milliseconds_hold_a_thousand_microseconds_each() {
    assert_eq!(Time::milliseconds(30).as_microseconds(), 30_000);
    assert_eq!(Time::milliseconds(-30).as_microseconds(), -30_000);
    assert_eq!(Time::milliseconds(0).as_microseconds(), 0);
}

#[test]
fn milliseconds_never_overflow() {
    assert_eq!(Time::milliseconds(i32::MAX).as_microseconds(), 2_147_483_647_000);
    assert_eq!(Time::milliseconds(i32::MIN).as_microseconds(), -2_147_483_648_000);
}

#[test]
fn microseconds_are_kept_as_they_are() {
    for us in [0, 1, -1, 999, -800_000, i64::MAX, i64::MIN] {
        assert_eq!(Time::microseconds(us).as_microseconds(), us);
    }
}

#[test]
fn zero_is_no_time() {
    assert_eq!(Time::zero().as_microseconds(), 0);
    assert_eq!(Time::zero(), Time::microseconds(0));
    assert_eq!(Time::default(), Time::zero());
}

#[test]
fn as_milliseconds_rounds_toward_zero() {
    assert_eq!(Time::microseconds(1_999).as_milliseconds(), 1);
    assert_eq!(Time::microseconds(-1_999).as_milliseconds(), -1);
    assert_eq!(Time::microseconds(999).as_milliseconds(), 0);
    assert_eq!(Time::microseconds(-999).as_milliseconds(), 0);
    assert_eq!(Time::microseconds(-800_000).as_milliseconds(), -800);
}

#[test]
fn as_milliseconds_reads_whole_milliseconds_back() {
    for ms in [0, 1, -1, 250, i32::MAX, i32::MIN] {
        assert_eq!(Time::milliseconds(ms).as_milliseconds(), ms);
    }
}

#[test]
fn as_milliseconds_keeps_the_low_32_bits() {
    // 5_000_000_000 milliseconds do not fit: 5_000_000_000 - 2^32 is left.
    assert_eq!(Time::microseconds(5_000_000_000_000).as_milliseconds(), 705_032_704);
    // 2^31 milliseconds wrap to the least value.
    assert_eq!(Time::microseconds(2_147_483_648_000).as_milliseconds(), i32::MIN);
    assert_eq!(Time::microseconds(-2_147_483_649_000).as_milliseconds(), i32::MAX);
    assert_eq!(Time::microseconds(i64::MAX).as_milliseconds(), (i64::MAX / 1000) as i32);
    assert_eq!(Time::microseconds(i64::MIN).as_milliseconds(), (i64::MIN / 1000) as i32);
}

#[test]
fn a_tenth_of_a_second_is_100_milliseconds() {
    // The count of microseconds in a number of seconds: the product with a
    // million, cut off toward zero.
    let tenth = Time::microseconds((0.1f32 * 1000000.) as i64);
    assert_eq!(tenth.as_milliseconds(), 100);
}

#[test]
fn thirty_milliseconds_are_30000_microseconds() {
    let t2 = Time::milliseconds(30);
    assert_eq!(t2.as_microseconds(), 30_000);
}

#[test]
fn negative_microseconds_in_seconds() {
    let t3 = Time::microseconds(-800_000);
    assert_eq!(t3.as_microseconds() as f32 / 1000000., -0.8);
}

#[test]
fn ratio_of_two_times() {
    let whole = Time::milliseconds(1000);
    let quarter = Time::milliseconds(250);
    let ratio = (whole.as_microseconds() as f32 / 1000000.) / (quarter.as_microseconds() as f32 / 1000000.);
    assert_eq!(ratio, 4.0f32);
    assert_eq!((whole / 4).as_microseconds(), quarter.as_microseconds());
}

#[test]
fn negation() {
    assert_eq!((-Time::microseconds(5)).as_microseconds(), -5);
    assert_eq!((-Time::microseconds(-5)).as_microseconds(), 5);
    assert_eq!((-Time::zero()).as_microseconds(), 0);
    assert_eq!((-Time::microseconds(i64::MAX)).as_microseconds(), i64::MIN + 1);
}

#[test]
fn negation_of_the_least_value_wraps() {
    assert_eq!((-Time::microseconds(i64::MIN)).as_microseconds(), i64::MIN);
}

#[test]
fn addition_and_subtraction() {
    let a = Time::milliseconds(30);
    let b = Time::microseconds(-800_000);
    assert_eq!((a + b).as_microseconds(), -770_000);
    assert_eq!((a - b).as_microseconds(), 830_000);
    assert_eq!((b - a).as_microseconds(), -830_000);
}

#[test]
fn addition_wraps_around() {
    let top = Time::microseconds(i64::MAX);
    let one = Time::microseconds(1);
    assert_eq!((top + one).as_microseconds(), i64::MIN);
    assert_eq!((Time::microseconds(i64::MIN) - one).as_microseconds(), i64::MAX);
    assert_eq!((top + top).as_microseconds(), -2);
}

#[test]
fn adding_then_subtracting_gives_the_first_value_back() {
    let values = [0, 1, -1, 12_345, -800_000, i64::MAX, i64::MIN, i64::MAX - 7, i64::MIN + 7];
    for a in values {
        for b in values {
            let (a, b) = (Time::microseconds(a), Time::microseconds(b));
            assert_eq!((a + b) - b, a);
            assert_eq!((a - b) + b, a);
        }
    }
}

#[test]
fn in_place_addition_and_subtraction() {
    let mut t = Time::milliseconds(1);
    t += Time::microseconds(5);
    assert_eq!(t.as_microseconds(), 1_005);
    t -= Time::milliseconds(2);
    assert_eq!(t.as_microseconds(), -995);
    let mut top = Time::microseconds(i64::MAX);
    top += Time::microseconds(2);
    assert_eq!(top.as_microseconds(), i64::MIN + 1);
    let mut bottom = Time::microseconds(i64::MIN);
    bottom -= Time::microseconds(2);
    assert_eq!(bottom.as_microseconds(), i64::MAX - 1);
}

#[test]
fn scaling_by_a_whole_number() {
    let t = Time::milliseconds(30);
    assert_eq!((t * 3).as_microseconds(), 90_000);
    assert_eq!((3 * t).as_microseconds(), 90_000);
    assert_eq!((t * -2).as_microseconds(), -60_000);
    assert_eq!((t * 0).as_microseconds(), 0);
    let mut u = t;
    u *= 5;
    assert_eq!(u.as_microseconds(), 150_000);
}

#[test]
fn scaling_wraps_around() {
    let t = Time::microseconds(i64::MAX);
    assert_eq!((t * 2).as_microseconds(), -2);
    assert_eq!((2 * t).as_microseconds(), -2);
    assert_eq!((Time::microseconds(i64::MIN) * -1).as_microseconds(), i64::MIN);
    assert_eq!((Time::microseconds(1 << 62) * 4).as_microseconds(), 0);
    let mut u = Time::microseconds(i64::MIN);
    u *= 3;
    assert_eq!(u.as_microseconds(), i64::MIN);
}

#[test]
fn division_by_a_whole_number_rounds_toward_zero() {
    let t = Time::microseconds(-800_000);
    assert_eq!((t / 7).as_microseconds(), -114_285);
    assert_eq!((t / -7).as_microseconds(), 114_285);
    assert_eq!((Time::microseconds(800_000) / 7).as_microseconds(), 114_285);
    assert_eq!((Time::microseconds(800_000) / -7).as_microseconds(), -114_285);
    assert_eq!((Time::microseconds(5) / 10).as_microseconds(), 0);
    assert_eq!((Time::microseconds(i64::MIN) / 1).as_microseconds(), i64::MIN);
    assert_eq!((Time::microseconds(i64::MAX) / -1).as_microseconds(), -i64::MAX);
    let mut u = Time::milliseconds(1);
    u /= 3;
    assert_eq!(u.as_microseconds(), 333);
}

#[test]
fn division_of_the_least_value_by_minus_one_wraps() {
    assert_eq!((Time::microseconds(i64::MIN) / -1).as_microseconds(), i64::MIN);
    let mut u = Time::microseconds(i64::MIN);
    u /= -1;
    assert_eq!(u.as_microseconds(), i64::MIN);
}

#[test]
fn remainder_has_the_sign_of_the_dividend() {
    let seven = Time::microseconds(7);
    assert_eq!((Time::microseconds(-800_000) % seven).as_microseconds(), -5);
    assert_eq!((Time::microseconds(800_000) % seven).as_microseconds(), 5);
    assert_eq!((Time::microseconds(800_000) % -seven).as_microseconds(), 5);
    assert_eq!((Time::microseconds(-800_000) % -seven).as_microseconds(), -5);
    assert_eq!((Time::milliseconds(1) % Time::milliseconds(1)).as_microseconds(), 0);
    assert_eq!((Time::microseconds(i64::MIN) % Time::microseconds(-1)).as_microseconds(), 0);
    assert_eq!((Time::microseconds(i64::MIN) % Time::microseconds(i64::MAX)).as_microseconds(), -1);
    let mut u = Time::microseconds(10);
    u %= Time::microseconds(4);
    assert_eq!(u.as_microseconds(), 2);
}

#[test]
fn quotient_and_remainder_make_up_the_dividend() {
    for (a, b) in [(800_000i64, 7i64), (-800_000, 7), (800_000, -7), (-800_000, -7), (5, 10), (i64::MAX, 3)] {
        let t = Time::microseconds(a);
        let q = (t / b).as_microseconds();
        let r = (t % Time::microseconds(b)).as_microseconds();
        assert_eq!(q * b + r, a);
    }
}

#[test]
fn equal_counts_are_equal_times() {
    assert_eq!(Time::milliseconds(1), Time::microseconds(1000));
    assert_ne!(Time::milliseconds(1), Time::microseconds(1001));
    let t = Time::microseconds(42);
    let copy = t;
    assert_eq!(t, copy);
    assert_eq!(format!("{:?}", t).contains("42"), true);
}
