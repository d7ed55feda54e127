//! Exact decimal amounts.
//!
//! A [`Money`] holds the two plain values that describe a
//! `rust_decimal::Decimal`: a signed mantissa of at most 96 bits and a scale
//! between 0 and 28.  Its numeric value is `mantissa / 10^scale`.  Comparison
//! and arithmetic are delegated to `rust_decimal`.

use vstd::prelude::*;
use rust_decimal::Decimal;

verus! {

/// Largest mantissa magnitude that a decimal can hold (2^96 - 1).
pub const MAX_MANTISSA: i128 = 79228162514264337593543950335i128;

/// Largest scale that a decimal can hold.
pub const MAX_SCALE: u32 = 28u32;

/// `10^n`.
pub open spec fn pow10(n: nat) -> int
    decreases n,
{
    if n == 0 {
        1
    } else {
        10 * pow10((n - 1) as nat)
    }
}

pub proof fn lemma_pow10_positive(n: nat)
    ensures
        pow10(n) > 0,
    decreases n,
{
    if n > 0 {
        lemma_pow10_positive((n - 1) as nat);
    }
}

/// An exact decimal amount `mantissa / 10^scale`.
#[derive(Clone, Copy, Debug)]
pub struct Money {
    mantissa: i128,
    scale: u32,
}

impl Money {
    #[verifier::type_invariant]
    spec fn in_range(self) -> bool {
        &&& -MAX_MANTISSA <= self.mantissa <= MAX_MANTISSA
        &&& self.scale <= MAX_SCALE
    }

    pub closed spec fn spec_mantissa(&self) -> i128 {
        self.mantissa
    }

    pub closed spec fn spec_scale(&self) -> u32 {
        self.scale
    }

    /// The mantissa and the scale, the plain values that identify the amount.
    pub open spec fn parts(self) -> (i128, u32) {
        (self.mantissa(), self.scale())
    }

    /// The amount whose mantissa and scale are `p`.
    pub closed spec fn from_parts(p: (i128, u32)) -> Money {
        Money { mantissa: p.0, scale: p.1 }
    }

    pub proof fn lemma_from_parts(self)
        ensures
            Money::from_parts(self.parts()) == self,
    {
    }

    pub proof fn lemma_parts_of_from_parts(p: (i128, u32))
        ensures
            Money::from_parts(p).parts() == p,
    {
    }

    /// What every amount satisfies: a 96-bit mantissa and a scale of at most 28.
    pub open spec fn valid(self) -> bool {
        &&& -MAX_MANTISSA <= self.mantissa() <= MAX_MANTISSA
        &&& self.scale() <= MAX_SCALE
    }

    #[verifier::when_used_as_spec(spec_mantissa)]
    pub fn mantissa(&self) -> (r: i128)
        ensures
            r == self.spec_mantissa(),
    {
        self.mantissa
    }

    #[verifier::when_used_as_spec(spec_scale)]
    pub fn scale(&self) -> (r: u32)
        ensures
            r == self.spec_scale(),
    {
        self.scale
    }

    /// Every amount is valid.
    fn check_valid(&self)
        ensures
            self.valid(),
    {
        proof {
            use_type_invariant(self);
        }
    }

    /// The amount `mantissa / 10^scale`, or `None` where the mantissa needs
    /// more than 96 bits or the scale exceeds 28.
    pub fn new(mantissa: i128, scale: u32) -> (r: Option<Money>)
        ensures
            r is Some <==> (-MAX_MANTISSA <= mantissa <= MAX_MANTISSA && scale <= MAX_SCALE),
            r matches Some(m) ==> m.mantissa() == mantissa && m.scale() == scale,
    {
        if -MAX_MANTISSA <= mantissa && mantissa <= MAX_MANTISSA && scale <= MAX_SCALE {
            Some(Money { mantissa, scale })
        } else {
            None
        }
    }

    /// Zero, with scale 0 (the value of `Decimal::ZERO`).
    pub fn zero() -> (r: Money)
        ensures
            r.mantissa() == 0,
            r.scale() == 0,
    {
        Money { mantissa: 0, scale: 0 }
    }
}

/// `a < b` as numbers: `a.m / 10^a.s < b.m / 10^b.s`, compared without division.
pub open spec fn money_lt(a: Money, b: Money) -> bool {
    a.mantissa() * pow10(b.scale() as nat) < b.mantissa() * pow10(a.scale() as nat)
}

/// `Decimal < Decimal` (through `Ord::cmp`, which `rust_decimal` implements in
/// `ops::cmp_impl`): the comparison is exact, by numeric value; where
/// rescaling one operand to the other's scale exceeds 96 bits that operand is
/// the larger in magnitude, which `cmp_impl` takes into account.
#[verifier::external_body]
fn decimal_less_than(a: Money, b: Money) -> (r: bool)
    requires
        a.valid(),
        b.valid(),
    ensures
        r == money_lt(a, b),
{
    Decimal::from_i128_with_scale(a.mantissa, a.scale) < Decimal::from_i128_with_scale(b.mantissa, b.scale)
}

/// The plain values of an optional amount.
pub open spec fn parts_of(r: Option<Money>) -> Option<(i128, u32)> {
    match r {
        Some(m) => Some(m.parts()),
        None => None,
    }
}

/// What `Decimal::checked_add` returns on two decimals, each given as
/// `(mantissa, scale)`, where [`sum_result`] does not state it: `None` on
/// overflow, else the sum, which `rust_decimal` rescales and, where it needs
/// more than 96 bits, rounds to a smaller scale.
pub uninterp spec fn decimal_sum(a: (i128, u32), b: (i128, u32)) -> Option<(i128, u32)>;

/// What `Decimal::checked_sub` returns on two decimals, each given as
/// `(mantissa, scale)`, where [`difference_result`] does not state it.
pub uninterp spec fn decimal_difference(a: (i128, u32), b: (i128, u32)) -> Option<(i128, u32)>;

/// Whether an exact mantissa fits in 96 bits.
pub open spec fn fits(m: int) -> bool {
    -MAX_MANTISSA <= m <= MAX_MANTISSA
}

/// The larger of the two scales.
pub open spec fn common_scale(a: Money, b: Money) -> u32 {
    if a.scale() >= b.scale() {
        a.scale()
    } else {
        b.scale()
    }
}

/// The mantissa of `a` at scale `s` (for `s >= a.scale()`): `a.m * 10^(s - a.s)`.
pub open spec fn aligned(a: Money, s: u32) -> int {
    a.mantissa() * pow10((s - a.scale()) as nat)
}

/// The exact sum of the mantissas at the common scale.
pub open spec fn aligned_sum(a: Money, b: Money) -> int {
    aligned(a, common_scale(a, b)) + aligned(b, common_scale(a, b))
}

/// The exact difference of the mantissas at the common scale.
pub open spec fn aligned_difference(a: Money, b: Money) -> int {
    aligned(a, common_scale(a, b)) - aligned(b, common_scale(a, b))
}

/// The parts of `Decimal::checked_add(a, b)`: the other operand where one is
/// zero, the exact sum at the common scale where it fits in 96 bits, else the
/// name (rounding to a smaller scale, or overflow).
pub open spec fn sum_result(a: Money, b: Money) -> Option<(i128, u32)> {
    if a.mantissa() == 0 {
        Some(b.parts())
    } else if b.mantissa() == 0 {
        Some(a.parts())
    } else if fits(aligned_sum(a, b)) {
        Some((aligned_sum(a, b) as i128, common_scale(a, b)))
    } else {
        decimal_sum(a.parts(), b.parts())
    }
}

/// The parts of `Decimal::checked_sub(a, b)`: `-b` where `a` is zero, `a`
/// where `b` is zero, the exact difference at the common scale where it fits
/// in 96 bits, else the name (rounding to a smaller scale, or overflow).
pub open spec fn difference_result(a: Money, b: Money) -> Option<(i128, u32)> {
    if a.mantissa() == 0 {
        Some(((-b.mantissa()) as i128, b.scale()))
    } else if b.mantissa() == 0 {
        Some(a.parts())
    } else if fits(aligned_difference(a, b)) {
        Some((aligned_difference(a, b) as i128, common_scale(a, b)))
    } else {
        decimal_difference(a.parts(), b.parts())
    }
}

/// Whether an optional result, where there is one, has a mantissa of at least zero.
pub open spec fn not_negative(r: Option<(i128, u32)>) -> bool {
    match r {
        Some(p) => p.0 >= 0,
        None => true,
    }
}

/// The value of `a` times `10^28`: an integer, so that amounts of any scale
/// can be added and compared exactly.
pub open spec fn scaled(a: Money) -> int {
    aligned(a, MAX_SCALE)
}

/// Whether [`sum_result`] is the exact sum: one operand is zero, or the exact
/// sum fits in 96 bits at the larger scale.
pub open spec fn sum_is_exact(a: Money, b: Money) -> bool {
    a.mantissa() == 0 || b.mantissa() == 0 || fits(aligned_sum(a, b))
}

/// Whether [`difference_result`] is the exact difference.
pub open spec fn difference_is_exact(a: Money, b: Money) -> bool {
    a.mantissa() == 0 || b.mantissa() == 0 || fits(aligned_difference(a, b))
}

pub proof fn lemma_pow10_add(x: nat, y: nat)
    ensures
        pow10(x + y) == pow10(x) * pow10(y),
    decreases x,
{
    if x > 0 {
        lemma_pow10_add((x - 1) as nat, y);
        assert(pow10(x + y) == 10 * pow10((x - 1 + y) as nat));
        assert(10 * (pow10((x - 1) as nat) * pow10(y)) == (10 * pow10((x - 1) as nat)) * pow10(y))
            by (nonlinear_arith);
    }
}

/// An amount brought to a larger scale and then to scale 28 is its scaled value.
proof fn lemma_aligned_scaled(a: Money, s: u32)
    requires
        a.valid(),
        a.scale() <= s <= MAX_SCALE,
    ensures
        aligned(a, s) * pow10((MAX_SCALE - s) as nat) == scaled(a),
{
    let x = (s - a.scale()) as nat;
    let y = (MAX_SCALE - s) as nat;
    lemma_pow10_add(x, y);
    assert(x + y == (MAX_SCALE - a.scale()) as nat);
    let m = a.mantissa() as int;
    assert(m * pow10(x) * pow10(y) == m * (pow10(x) * pow10(y))) by (nonlinear_arith);
}

/// Where [`sum_result`] is exact, the scaled value of the sum is the sum of
/// the scaled values.
pub proof fn lemma_sum_exact(a: Money, b: Money)
    requires
        a.valid(),
        b.valid(),
        sum_is_exact(a, b),
    ensures
        sum_result(a, b) matches Some(p) && Money::from_parts(p).valid() && scaled(
            Money::from_parts(p),
        ) == scaled(a) + scaled(b),
{
    let pa = pow10((MAX_SCALE - a.scale()) as nat);
    let pb = pow10((MAX_SCALE - b.scale()) as nat);
    if a.mantissa() == 0 {
        a.lemma_from_parts();
        b.lemma_from_parts();
        assert(scaled(a) == 0 * pa);
    } else if b.mantissa() == 0 {
        a.lemma_from_parts();
        assert(scaled(b) == 0 * pb);
    } else {
        let s = common_scale(a, b);
        let p = (aligned_sum(a, b) as i128, s);
        Money::lemma_parts_of_from_parts(p);
        let r = Money::from_parts(p);
        let q = pow10((MAX_SCALE - s) as nat);
        lemma_aligned_scaled(a, s);
        lemma_aligned_scaled(b, s);
        assert(r.mantissa() == aligned(a, s) + aligned(b, s));
        assert(aligned(r, MAX_SCALE) == r.mantissa() * q);
        assert((aligned(a, s) + aligned(b, s)) * q == aligned(a, s) * q + aligned(b, s) * q)
            by (nonlinear_arith);
    }
}

/// Where [`difference_result`] is exact, the scaled value of the difference is
/// the difference of the scaled values.
pub proof fn lemma_difference_exact(a: Money, b: Money)
    requires
        a.valid(),
        b.valid(),
        difference_is_exact(a, b),
    ensures
        difference_result(a, b) matches Some(p) && Money::from_parts(p).valid() && scaled(
            Money::from_parts(p),
        ) == scaled(a) - scaled(b),
{
    let pa = pow10((MAX_SCALE - a.scale()) as nat);
    let pb = pow10((MAX_SCALE - b.scale()) as nat);
    if a.mantissa() == 0 {
        let p = ((-b.mantissa()) as i128, b.scale());
        Money::lemma_parts_of_from_parts(p);
        assert(scaled(a) == 0 * pa);
        assert((-b.mantissa()) * pb == -(b.mantissa() * pb)) by (nonlinear_arith);
    } else if b.mantissa() == 0 {
        a.lemma_from_parts();
        assert(scaled(b) == 0 * pb);
    } else {
        let s = common_scale(a, b);
        let p = (aligned_difference(a, b) as i128, s);
        Money::lemma_parts_of_from_parts(p);
        let r = Money::from_parts(p);
        let q = pow10((MAX_SCALE - s) as nat);
        lemma_aligned_scaled(a, s);
        lemma_aligned_scaled(b, s);
        assert(r.mantissa() == aligned(a, s) - aligned(b, s));
        assert(aligned(r, MAX_SCALE) == r.mantissa() * q);
        assert((aligned(a, s) - aligned(b, s)) * q == aligned(a, s) * q - aligned(b, s) * q)
            by (nonlinear_arith);
    }
}

/// `money_lt` is the order of the scaled values.
pub proof fn lemma_lt_is_scaled_order(a: Money, b: Money)
    requires
        a.valid(),
        b.valid(),
    ensures
        money_lt(a, b) <==> scaled(a) < scaled(b),
{
    let pa = pow10(a.scale() as nat);
    let pb = pow10(b.scale() as nat);
    let xa = pow10((MAX_SCALE - a.scale()) as nat);
    let xb = pow10((MAX_SCALE - b.scale()) as nat);
    let t = pow10(MAX_SCALE as nat);
    lemma_pow10_add(a.scale() as nat, (MAX_SCALE - a.scale()) as nat);
    lemma_pow10_add(b.scale() as nat, (MAX_SCALE - b.scale()) as nat);
    lemma_pow10_positive(a.scale() as nat);
    lemma_pow10_positive(b.scale() as nat);
    lemma_pow10_positive(MAX_SCALE as nat);
    let ma = a.mantissa() as int;
    let mb = b.mantissa() as int;
    assert(pa * xa == t && pb * xb == t);
    assert((ma * xa) * (pa * pb) == (ma * pb) * (pa * xa)) by (nonlinear_arith);
    assert((mb * xb) * (pa * pb) == (mb * pa) * (pb * xb)) by (nonlinear_arith);
    assert(pa * pb > 0) by (nonlinear_arith)
        requires
            pa > 0,
            pb > 0,
    ;
    assert((ma * xa < mb * xb) <==> ((ma * xa) * (pa * pb) < (mb * xb) * (pa * pb))) by (nonlinear_arith)
        requires
            pa * pb > 0,
    ;
    assert((ma * pb < mb * pa) <==> ((ma * pb) * t < (mb * pa) * t)) by (nonlinear_arith)
        requires
            t > 0,
    ;
}

/// An amount's scaled value has the sign of its mantissa.
pub proof fn lemma_scaled_sign(a: Money)
    requires
        a.valid(),
    ensures
        (scaled(a) >= 0) <==> (a.mantissa() >= 0),
{
    let x = pow10((MAX_SCALE - a.scale()) as nat);
    lemma_pow10_positive((MAX_SCALE - a.scale()) as nat);
    let m = a.mantissa() as int;
    assert((m * x >= 0) <==> (m >= 0)) by (nonlinear_arith)
        requires
            x > 0,
    ;
}

/// `Decimal::checked_add`.  In `ops::add_impl` (`add_sub_internal`):
/// - a zero left operand gives the right one and a zero right operand the
///   left one (the zero checks of the 32-bit fast path and of the slower path);
/// - otherwise the lower-scale mantissa is multiplied up to the larger scale
///   without loss (`rescale32`/`fast_add`, the 64-bit path, `unaligned_add`'s
///   96-bit loop and its `Buf24` buffer), and the scale is only reduced, with
///   rounding, where the result needs more than 96 bits (`reduce_scale`,
///   `Buf24::rescale`); so a result that fits in 96 bits at the larger scale
///   is exact there;
/// - the sign of the result is that of the exact sum (`negative` is taken
///   from the left operand, or flipped where the right one's magnitude is
///   larger), and rounding only reduces the magnitude, so two operands of at
///   least zero never give a negative result.
/// What the rounded result is is left to the name [`decimal_sum`].  The parts
/// of any `Decimal` lie in the range that [`Money`] requires.
#[verifier::external_body]
fn decimal_checked_add(a: Money, b: Money) -> (r: Option<Money>)
    requires
        a.valid(),
        b.valid(),
    ensures
        a.mantissa() == 0 ==> parts_of(r) == Some(b.parts()),
        a.mantissa() != 0 && b.mantissa() == 0 ==> parts_of(r) == Some(a.parts()),
        a.mantissa() != 0 && b.mantissa() != 0 && fits(aligned_sum(a, b))
            ==> parts_of(r) == Some((aligned_sum(a, b) as i128, common_scale(a, b))),
        a.mantissa() != 0 && b.mantissa() != 0 && !fits(aligned_sum(a, b))
            ==> parts_of(r) == decimal_sum(a.parts(), b.parts()),
        a.mantissa() >= 0 && b.mantissa() >= 0 ==> not_negative(parts_of(r)),
{
    let x = Decimal::from_i128_with_scale(a.mantissa, a.scale);
    let y = Decimal::from_i128_with_scale(b.mantissa, b.scale);
    match x.checked_add(y) {
        Some(d) => Some(Money { mantissa: d.mantissa(), scale: d.scale() }),
        None => None,
    }
}

/// `Decimal::checked_sub`.  In `ops::sub_impl` (`add_sub_internal` with
/// `subtract`):
/// - a zero left operand gives the right one with its sign flipped, a zero
///   right operand the left one;
/// - otherwise, as for addition, a difference that fits in 96 bits at the
///   larger scale is exact there;
/// - the sign of the result is that of the exact difference (`flip_sign` in
///   `aligned_add`, the magnitude comparison of the 64-bit path, the
///   `negative` handed to `unaligned_add`), and rounding only reduces the
///   magnitude, so where `a` is not below `b` the result is not negative.
/// What the rounded result is is left to the name [`decimal_difference`].
/// The parts of any `Decimal` lie in the range that [`Money`] requires.
#[verifier::external_body]
fn decimal_checked_sub(a: Money, b: Money) -> (r: Option<Money>)
    requires
        a.valid(),
        b.valid(),
    ensures
        a.mantissa() == 0 ==> parts_of(r) == Some(((-b.mantissa()) as i128, b.scale())),
        a.mantissa() != 0 && b.mantissa() == 0 ==> parts_of(r) == Some(a.parts()),
        a.mantissa() != 0 && b.mantissa() != 0 && fits(aligned_difference(a, b)) ==> parts_of(r) == Some((aligned_difference(a, b) as i128, common_scale(a, b))),
        a.mantissa() != 0 && b.mantissa() != 0 && !fits(aligned_difference(a, b)) ==> parts_of(r) == decimal_difference(a.parts(), b.parts()),
        !money_lt(a, b) ==> not_negative(parts_of(r)),
{
    let x = Decimal::from_i128_with_scale(a.mantissa, a.scale);
    let y = Decimal::from_i128_with_scale(b.mantissa, b.scale);
    match x.checked_sub(y) {
        Some(d) => Some(Money { mantissa: d.mantissa(), scale: d.scale() }),
        None => None,
    }
}

impl Money {
    /// `self + other`, or `None` where the sum overflows (where `Decimal`'s
    /// `+` panics with "Addition overflowed").
    pub fn checked_add(&self, other: &Money) -> (r: Option<Money>)
        ensures
            parts_of(r) == sum_result(*self, *other),
            self.mantissa() >= 0 && other.mantissa() >= 0 ==> not_negative(parts_of(r)),
    {
        self.check_valid();
        other.check_valid();
        decimal_checked_add(*self, *other)
    }

    /// `self - other`, or `None` where the difference overflows (where
    /// `Decimal`'s `-` panics with "Subtraction overflowed").
    pub fn checked_sub(&self, other: &Money) -> (r: Option<Money>)
        ensures
            parts_of(r) == difference_result(*self, *other),
            !money_lt(*self, *other) ==> not_negative(parts_of(r)),
    {
        self.check_valid();
        other.check_valid();
        decimal_checked_sub(*self, *other)
    }

    /// Whether `self < other` as numbers.
    pub fn less_than(&self, other: &Money) -> (r: bool)
        ensures
            r == money_lt(*self, *other),
    {
        self.check_valid();
        other.check_valid();
        decimal_less_than(*self, *other)
    }

    /// Whether the amount is greater than zero (`!(self <= Decimal::ZERO)`).
    pub fn is_positive(&self) -> (r: bool)
        ensures
            r == (self.mantissa() > 0),
    {
        let zero = Money::zero();
        let r = zero.less_than(self);
        proof {
            lemma_pow10_positive(self.scale() as nat);
            assert(pow10(0) == 1);
        }
        r
    }
}

} // verus!
