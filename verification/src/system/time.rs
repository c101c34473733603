//! Signed durations at microsecond resolution.
//!
//! A [`Time`] is a span of time, not a point in time: it may be negative. Its
//! whole state is a signed 64-bit count of microseconds, and its arithmetic is
//! two's-complement arithmetic on that count: a result that leaves the 64-bit
//! range wraps around silently.
use std::ops::{Add, AddAssign, Div, DivAssign, Mul, MulAssign, Neg, Rem, RemAssign, Sub, SubAssign};
use vstd::prelude::*;
use vstd::std_specs::ops::{AddSpec, DivSpec, MulSpec, NegSpec, RemSpec, SubSpec};

pub use crate::ffi::system::sfTime as Time;

verus! {

/// The 64-bit two's-complement value of `x`: the one integer in
/// `[-2^63, 2^63)` that differs from `x` by a multiple of `2^64`.
pub open spec fn wrap64(x: int) -> int {
    let m = x % 0x1_0000_0000_0000_0000;
    if m >= 0x8000_0000_0000_0000 {
        m - 0x1_0000_0000_0000_0000
    } else {
        m
    }
}

/// The 32-bit two's-complement value of `x`: the one integer in
/// `[-2^31, 2^31)` that differs from `x` by a multiple of `2^32`.
pub open spec fn wrap32(x: int) -> int {
    let m = x % 0x1_0000_0000;
    if m >= 0x8000_0000 {
        m - 0x1_0000_0000
    } else {
        m
    }
}

/// The quotient of `a` by `b`, rounded toward zero.
pub open spec fn div_toward_zero(a: int, b: int) -> int
    recommends
        b != 0,
{
    if a >= 0 {
        a / b
    } else {
        -((-a) / b)
    }
}

/// The remainder that goes with [`div_toward_zero`]: it has the sign of `a`.
pub open spec fn rem_toward_zero(a: int, b: int) -> int
    recommends
        b != 0,
{
    if a >= 0 {
        a % b
    } else {
        -((-a) % b)
    }
}

/// `wrap64` gives a value of the 64-bit range that differs from its argument
/// by a multiple of `2^64`, and leaves alone what is in that range already.
pub proof fn lemma_wrap64(x: int)
    ensures
        i64::MIN <= wrap64(x) <= i64::MAX,
        (wrap64(x) - x) % 0x1_0000_0000_0000_0000 == 0,
        i64::MIN <= x <= i64::MAX ==> wrap64(x) == x,
{
}

/// `wrap32` gives a value of the 32-bit range that differs from its argument
/// by a multiple of `2^32`, and leaves alone what is in that range already.
pub proof fn lemma_wrap32(x: int)
    ensures
        i32::MIN <= wrap32(x) <= i32::MAX,
        (wrap32(x) - x) % 0x1_0000_0000 == 0,
        i32::MIN <= x <= i32::MAX ==> wrap32(x) == x,
{
}

/// Quotient and remainder toward zero make up the dividend, and the remainder
/// is nearer to zero than the divisor and on the side of the dividend.
pub proof fn lemma_div_rem_toward_zero(a: int, b: int)
    requires
        b != 0,
    ensures
        a == b * div_toward_zero(a, b) + rem_toward_zero(a, b),
        a >= 0 ==> 0 <= rem_toward_zero(a, b),
        a <= 0 ==> rem_toward_zero(a, b) <= 0,
        b > 0 ==> -b < rem_toward_zero(a, b) < b,
        b < 0 ==> b < rem_toward_zero(a, b) < -b,
{
    if a >= 0 {
        assert(a == b * (a / b) + a % b && 0 <= a % b && (b > 0 ==> a % b < b) && (b < 0 ==> a % b < -b))
            by (nonlinear_arith)
            requires
                b != 0,
        ;
        assert(0int % b == 0) by (nonlinear_arith)
            requires
                b != 0,
        ;
    } else {
        let n = -a;
        assert(n == b * (n / b) + n % b && 0 <= n % b && (b > 0 ==> n % b < b) && (b < 0 ==> n % b < -b))
            by (nonlinear_arith)
            requires
                b != 0,
        ;
        assert(b * (-(n / b)) == -(b * (n / b))) by (nonlinear_arith);
    }
}

impl View for Time {
    type V = int;

    /// The number of microseconds in this time value.
    open spec fn view(&self) -> int {
        self.spec_as_microseconds() as int
    }
}

impl Time {
    /// The time value of `microseconds` microseconds, for use in specifications.
    pub closed spec fn spec_microseconds(microseconds: i64) -> Time {
        Time { microseconds }
    }

    /// The time value of `milliseconds` milliseconds, for use in specifications.
    pub open spec fn spec_milliseconds(milliseconds: i32) -> Time {
        Time::spec_microseconds((milliseconds * 1000) as i64)
    }

    /// The count of microseconds of `self`, for use in specifications.
    pub closed spec fn spec_as_microseconds(self) -> i64 {
        self.microseconds
    }

    /// The count of milliseconds of `self`, for use in specifications.
    pub open spec fn spec_as_milliseconds(self) -> i32 {
        wrap32(div_toward_zero(self@, 1000)) as i32
    }

    /// The zero time value.
    #[must_use]
    pub fn zero() -> (time: Time)
        ensures
            time@ == 0,
    {
        Time { microseconds: 0 }
    }

    /// Constructs a time value from a number of milliseconds.
    #[must_use]
    #[verifier::when_used_as_spec(spec_milliseconds)]
    pub fn milliseconds(milliseconds: i32) -> (time: Time)
        ensures
            time == Time::spec_milliseconds(milliseconds),
            time@ == milliseconds * 1000,
    {
        Time { microseconds: milliseconds as i64 * 1000 }
    }

    /// Constructs a time value from a number of microseconds.
    #[must_use]
    #[verifier::when_used_as_spec(spec_microseconds)]
    pub fn microseconds(microseconds: i64) -> (time: Time)
        ensures
            time == Time::spec_microseconds(microseconds),
            time@ == microseconds,
    {
        Time { microseconds }
    }

    /// Returns the time value as a number of milliseconds.
    ///
    /// The count of microseconds is divided by 1000, rounding toward zero. A
    /// quotient outside the range of `i32` keeps its low 32 bits.
    #[must_use]
    #[verifier::when_used_as_spec(spec_as_milliseconds)]
    pub fn as_milliseconds(self) -> (milliseconds: i32)
        ensures
            milliseconds == self.spec_as_milliseconds(),
            milliseconds == wrap32(div_toward_zero(self@, 1000)),
    {
        let quotient: i64 = self.microseconds / 1000;
        let narrowed: i32 = #[verifier::truncate] (quotient as i32);
        proof {
            lemma_low_half(quotient);
        }
        narrowed
    }

    /// Returns the time value as a number of microseconds.
    #[must_use]
    #[verifier::when_used_as_spec(spec_as_microseconds)]
    pub fn as_microseconds(self) -> (microseconds: i64)
        ensures
            microseconds == self.spec_as_microseconds(),
            microseconds == self@,
    {
        self.microseconds
    }
}

impl vstd::std_specs::ops::NegSpecImpl for Time {
    open spec fn obeys_neg_spec() -> bool {
        true
    }

    open spec fn neg_req(self) -> bool {
        true
    }

    open spec fn neg_spec(self) -> Time {
        Time::spec_microseconds(wrap64(-self@) as i64)
    }
}

impl Neg for Time {
    type Output = Time;

    /// The opposite time value. The opposite of the least value is itself.
    fn neg(self) -> (opposite: Time)
        ensures
            opposite@ == wrap64(-self@),
    {
        Time { microseconds: 0i64.wrapping_sub(self.microseconds) }
    }
}

impl vstd::std_specs::ops::AddSpecImpl for Time {
    open spec fn obeys_add_spec() -> bool {
        true
    }

    open spec fn add_req(self, rhs: Time) -> bool {
        true
    }

    open spec fn add_spec(self, rhs: Time) -> Time {
        Time::spec_microseconds(wrap64(self@ + rhs@) as i64)
    }
}

impl Add for Time {
    type Output = Time;

    /// The sum of two time values.
    fn add(self, rhs: Time) -> (sum: Time)
        ensures
            sum@ == wrap64(self@ + rhs@),
    {
        Time::microseconds(self.microseconds.wrapping_add(rhs.microseconds))
    }
}

impl AddAssign for Time {
    /// Adds a time value in place.
    fn add_assign(&mut self, rhs: Time)
        ensures
            *final(self) == old(self).add_spec(rhs),
            final(self)@ == wrap64(old(self)@ + rhs@),
    {
        self.microseconds = self.microseconds.wrapping_add(rhs.microseconds);
    }
}

impl vstd::std_specs::ops::SubSpecImpl for Time {
    open spec fn obeys_sub_spec() -> bool {
        true
    }

    open spec fn sub_req(self, rhs: Time) -> bool {
        true
    }

    open spec fn sub_spec(self, rhs: Time) -> Time {
        Time::spec_microseconds(wrap64(self@ - rhs@) as i64)
    }
}

impl Sub for Time {
    type Output = Time;

    /// The difference of two time values.
    fn sub(self, rhs: Time) -> (difference: Time)
        ensures
            difference@ == wrap64(self@ - rhs@),
    {
        Time::microseconds(self.microseconds.wrapping_sub(rhs.microseconds))
    }
}

impl SubAssign for Time {
    /// Subtracts a time value in place.
    fn sub_assign(&mut self, rhs: Time)
        ensures
            *final(self) == old(self).sub_spec(rhs),
            final(self)@ == wrap64(old(self)@ - rhs@),
    {
        self.microseconds = self.microseconds.wrapping_sub(rhs.microseconds);
    }
}

impl vstd::std_specs::ops::MulSpecImpl<i64> for Time {
    open spec fn obeys_mul_spec() -> bool {
        true
    }

    open spec fn mul_req(self, rhs: i64) -> bool {
        true
    }

    open spec fn mul_spec(self, rhs: i64) -> Time {
        Time::spec_microseconds(wrap64(self@ * rhs) as i64)
    }
}

impl Mul<i64> for Time {
    type Output = Time;

    /// Overload of binary * operator to scale a time value by a whole number:
    /// the count of microseconds is multiplied.
    fn mul(self, rhs: i64) -> (product: Time)
        ensures
            product@ == wrap64(self@ * rhs),
    {
        Time::microseconds(self.as_microseconds().wrapping_mul(rhs))
    }
}

impl vstd::std_specs::ops::MulSpecImpl<Time> for i64 {
    open spec fn obeys_mul_spec() -> bool {
        true
    }

    open spec fn mul_req(self, rhs: Time) -> bool {
        true
    }

    open spec fn mul_spec(self, rhs: Time) -> Time {
        Time::spec_microseconds(wrap64(rhs@ * self) as i64)
    }
}

impl Mul<Time> for i64 {
    type Output = Time;

    /// Overload of binary * operator to scale a time value by a whole number.
    fn mul(self, rhs: Time) -> (product: Time)
        ensures
            product@ == wrap64(rhs@ * self),
    {
        rhs * self
    }
}

impl MulAssign<i64> for Time {
    /// Overload of binary *= operator to scale/assign a time value.
    fn mul_assign(&mut self, rhs: i64)
        ensures
            *final(self) == old(self).mul_spec(rhs),
            final(self)@ == wrap64(old(self)@ * rhs),
    {
        *self = *self * rhs;
    }
}

impl vstd::std_specs::ops::DivSpecImpl<i64> for Time {
    open spec fn obeys_div_spec() -> bool {
        true
    }

    open spec fn div_req(self, rhs: i64) -> bool {
        rhs != 0
    }

    open spec fn div_spec(self, rhs: i64) -> Time {
        Time::spec_microseconds(wrap64(div_toward_zero(self@, rhs as int)) as i64)
    }
}

impl Div<i64> for Time {
    type Output = Time;

    /// Overload of binary / operator to scale a time value by a whole number:
    /// the count of microseconds is divided, rounding toward zero. The divisor
    /// must not be zero. The one quotient that leaves the 64-bit range, that of
    /// the least value by -1, wraps around to the least value.
    fn div(self, rhs: i64) -> (quotient: Time)
        ensures
            quotient@ == wrap64(div_toward_zero(self@, rhs as int)),
    {
        let dividend: i64 = self.as_microseconds();
        if rhs == -1 {
            Time::microseconds(0i64.wrapping_sub(dividend))
        } else {
            proof {
                lemma_quotient_fits(dividend as int, rhs as int);
            }
            Time::microseconds(dividend / rhs)
        }
    }
}

impl DivAssign<i64> for Time {
    /// Overload of binary /= operator to scale/assign a time value. The
    /// divisor must not be zero.
    fn div_assign(&mut self, rhs: i64)
        requires
            rhs != 0,
        ensures
            *final(self) == old(self).div_spec(rhs),
            final(self)@ == wrap64(div_toward_zero(old(self)@, rhs as int)),
    {
        *self = *self / rhs;
    }
}

impl vstd::std_specs::ops::RemSpecImpl for Time {
    open spec fn obeys_rem_spec() -> bool {
        true
    }

    open spec fn rem_req(self, rhs: Time) -> bool {
        rhs@ != 0
    }

    open spec fn rem_spec(self, rhs: Time) -> Time {
        Time::spec_microseconds(rem_toward_zero(self@, rhs@) as i64)
    }
}

impl Rem for Time {
    type Output = Time;

    /// What is left of `self` after taking out as many whole `rhs` as fit,
    /// counting toward zero: it has the sign of `self`. The divisor must not be
    /// the zero time value.
    fn rem(self, rhs: Time) -> (remainder: Time)
        ensures
            remainder@ == rem_toward_zero(self@, rhs@),
    {
        if rhs.microseconds == -1 {
            Time::microseconds(0)
        } else {
            Time::microseconds(self.microseconds % rhs.microseconds)
        }
    }
}

impl RemAssign for Time {
    /// In-place remainder. The divisor must not be the zero time value.
    fn rem_assign(&mut self, rhs: Time)
        requires
            rhs@ != 0,
        ensures
            *final(self) == old(self).rem_spec(rhs),
            final(self)@ == rem_toward_zero(old(self)@, rhs@),
    {
        *self = *self % rhs;
    }
}

impl Default for Time {
    /// The zero time value.
    fn default() -> (time: Time)
        ensures
            time@ == 0,
    {
        Time::zero()
    }
}

impl Time {
    /// A time value made of a count of microseconds gives that count back.
    pub proof fn lemma_microseconds_round_trip(microseconds: i64)
        ensures
            Time::spec_microseconds(microseconds).spec_as_microseconds() == microseconds,
            Time::spec_microseconds(microseconds)@ == microseconds,
    {
    }

    /// A time value is the one made of its own count of microseconds, so two
    /// time values with the same count are the same value.
    pub proof fn lemma_determined_by_microseconds(self)
        ensures
            Time::spec_microseconds(self.spec_as_microseconds()) == self,
            forall|other: Time| other@ == self@ ==> other == self,
    {
    }

    /// A time value made of a count of milliseconds holds exactly a thousand
    /// times as many microseconds, whatever the count.
    pub proof fn lemma_milliseconds_in_microseconds(milliseconds: i32)
        ensures
            Time::spec_milliseconds(milliseconds).spec_as_microseconds() == milliseconds * 1000,
    {
    }

    /// A whole count of milliseconds is read back unchanged.
    pub proof fn lemma_milliseconds_round_trip(milliseconds: i32)
        ensures
            Time::spec_milliseconds(milliseconds).spec_as_milliseconds() == milliseconds,
    {
    }

    /// Adding a time value and then subtracting it again gives the value one
    /// started from, also where the sum has wrapped around.
    pub proof fn lemma_add_then_sub(self, other: Time)
        ensures
            self.add_spec(other).sub_spec(other) == self,
    {
    }

    /// Subtracting a time value and then adding it again gives the value one
    /// started from, also where the difference has wrapped around.
    pub proof fn lemma_sub_then_add(self, other: Time)
        ensures
            self.sub_spec(other).add_spec(other) == self,
    {
    }

    /// Where the exact result fits in 64 bits, the operators give it.
    pub proof fn lemma_exact_in_range(self, other: Time, factor: i64)
        ensures
            i64::MIN <= self@ + other@ <= i64::MAX ==> self.add_spec(other)@ == self@ + other@,
            i64::MIN <= self@ - other@ <= i64::MAX ==> self.sub_spec(other)@ == self@ - other@,
            i64::MIN <= self@ * factor <= i64::MAX ==> self.mul_spec(factor)@ == self@ * factor,
            self@ != i64::MIN ==> self.neg_spec()@ == -self@,
    {
    }
}

/// With a divisor other than -1, a quotient is no farther from zero than its
/// dividend, and that of a negative dividend is less than the dividend's
/// opposite: the quotient rounded toward zero fits wherever the dividend does.
proof fn lemma_quotient_fits(a: int, b: int)
    requires
        b != 0,
        b != -1,
    ensures
        a >= 0 ==> -a <= a / b <= a,
        a < 0 ==> a < (-a) / b <= -a,
{
    if a >= 0 {
        assert(-a <= a / b <= a) by (nonlinear_arith)
            requires
                a >= 0,
                b != 0,
        ;
    } else {
        assert(a < (-a) / b <= -a) by (nonlinear_arith)
            requires
                a < 0,
                b != 0,
                b != -1,
        ;
    }
}

/// Narrowing a 64-bit integer to 32 bits keeps `wrap32` of it.
proof fn lemma_low_half(q: i64)
    ensures
        (q as i32) as int == wrap32(q as int),
{
    assert((q as i32) as int == (if (q & 0xffff_ffff) >= 0x8000_0000 {
        (q & 0xffff_ffff) - 0x1_0000_0000
    } else {
        (q & 0xffff_ffff) as int
    })) by (bit_vector);
    assert((q & 0xffff_ffff) as int == (q as int) % 0x1_0000_0000) by (bit_vector);
}

} // verus!
