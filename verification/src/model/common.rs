//! Identifiers and amounts shared by the whole model.

use core::cmp::Ordering;
use vstd::arithmetic::power::pow;
use vstd::prelude::*;

verus! {

/// The client id.
#[derive(Debug, PartialEq, Eq, Structural, Hash, Clone, Copy)]
pub struct Client(pub u16);

/// The transaction id.
#[derive(Debug, PartialEq, Eq, Structural, Hash, Clone, Copy)]
pub struct Tx(pub u32);

/// The largest scale a decimal can carry: 28 fractional digits.
pub const MAX_SCALE: u32 = 28;

/// The largest mantissa a decimal can carry: `2^96 - 1`.
pub const MAX_MANTISSA: i128 = 79_228_162_514_264_337_593_543_950_335;

/// `10^n`.
pub open spec fn pow10(n: nat) -> int {
    pow(10, n)
}

/// A decimal number in plain form: it stands for `mantissa * 10^-scale`.
///
/// Two values of this type are equal when both parts are: `1.0` and `1.00`
/// are different parts of equal value.
#[derive(Debug, PartialEq, Eq, Structural, Clone, Copy)]
pub struct DecimalParts {
    mantissa: i128,
    scale: u32,
}

impl DecimalParts {
    /// The mantissa, as a mathematical integer.
    pub closed spec fn spec_mantissa(&self) -> i128 {
        self.mantissa
    }

    /// The number of fractional digits.
    pub closed spec fn spec_scale(&self) -> u32 {
        self.scale
    }

    /// Both parts are within what a 96-bit decimal can hold.
    #[verifier::type_invariant]
    pub open spec fn wf(self) -> bool {
        &&& -MAX_MANTISSA <= self.spec_mantissa() <= MAX_MANTISSA
        &&& self.spec_scale() <= MAX_SCALE
    }

    /// Builds a decimal from its parts, if they are within range.
    pub fn new(mantissa: i128, scale: u32) -> (r: Option<DecimalParts>)
        ensures
            r is Some <==> -MAX_MANTISSA <= mantissa <= MAX_MANTISSA && scale <= MAX_SCALE,
            r matches Some(d) ==> d.spec_mantissa() == mantissa && d.spec_scale() == scale && d.wf(),
    {
        if scale <= MAX_SCALE && -MAX_MANTISSA <= mantissa && mantissa <= MAX_MANTISSA {
            Some(DecimalParts { mantissa, scale })
        } else {
            None
        }
    }

    /// The mantissa.
    #[verifier::when_used_as_spec(spec_mantissa)]
    pub fn mantissa(&self) -> (m: i128)
        ensures
            m == self.spec_mantissa(),
    {
        self.mantissa
    }

    /// The scale.
    #[verifier::when_used_as_spec(spec_scale)]
    pub fn scale(&self) -> (s: u32)
        ensures
            s == self.spec_scale(),
    {
        self.scale
    }
}

/// The larger of the two scales: the scale at which both decimals can be
/// written without losing a digit.
pub open spec fn wider_scale(a: DecimalParts, b: DecimalParts) -> u32 {
    if a.scale() >= b.scale() {
        a.scale()
    } else {
        b.scale()
    }
}

impl DecimalParts {
    /// The value counted in units of `10^-28`, the finest step a decimal has.
    pub open spec fn units(&self) -> int {
        self.mantissa() * pow10((MAX_SCALE - self.scale()) as nat)
    }

    /// The mantissa this decimal has when it is written with `scale`
    /// fractional digits, for a `scale` that is not below its own.
    pub open spec fn mantissa_at(&self, scale: u32) -> int {
        self.mantissa() * pow10((scale - self.scale()) as nat)
    }
}

/// The sum of two decimals is exact when one of them is zero, or when the
/// sum of their mantissas at the wider scale still fits in 96 bits.
pub open spec fn sum_fits(a: DecimalParts, b: DecimalParts) -> bool {
    let t = wider_scale(a, b);
    a.mantissa() == 0 || b.mantissa() == 0 || a.mantissa_at(t) + b.mantissa_at(t) <= MAX_MANTISSA
}

/// The sum of two decimals: a zero operand leaves the other as it is, and
/// otherwise the mantissas are added at the wider scale.
pub closed spec fn decimal_sum(a: DecimalParts, b: DecimalParts) -> DecimalParts {
    let t = wider_scale(a, b);
    if a.mantissa == 0 {
        b
    } else if b.mantissa == 0 {
        a
    } else {
        DecimalParts { mantissa: (a.mantissa_at(t) + b.mantissa_at(t)) as i128, scale: t }
    }
}

/// The difference of two decimals is exact when one of them is zero, or when
/// the minuend's mantissa at the wider scale still fits in 96 bits.
pub open spec fn difference_fits(a: DecimalParts, b: DecimalParts) -> bool {
    let t = wider_scale(a, b);
    a.mantissa() == 0 || b.mantissa() == 0 || a.mantissa_at(t) <= MAX_MANTISSA
}

/// The difference `a - b` of two decimals with `a >= b >= 0`: a zero operand
/// leaves the other as it is, and otherwise the mantissas are subtracted at
/// the wider scale.
pub closed spec fn decimal_difference(a: DecimalParts, b: DecimalParts) -> DecimalParts {
    let t = wider_scale(a, b);
    if a.mantissa == 0 {
        b
    } else if b.mantissa == 0 {
        a
    } else {
        DecimalParts { mantissa: (a.mantissa_at(t) - b.mantissa_at(t)) as i128, scale: t }
    }
}

/// A power of ten is positive.
pub proof fn lemma_pow10_positive(n: nat)
    ensures
        pow10(n) > 0,
{
    vstd::arithmetic::power::lemma_pow_positive(10, n);
}

/// The sign of a decimal's value is the sign of its mantissa.
pub proof fn lemma_units_sign(a: DecimalParts)
    requires
        a.wf(),
    ensures
        a.units() >= 0 <==> a.mantissa() >= 0,
        a.units() == 0 <==> a.mantissa() == 0,
{
    let p = pow10((MAX_SCALE - a.scale()) as nat);
    let m = a.mantissa() as int;
    lemma_pow10_positive((MAX_SCALE - a.scale()) as nat);
    assert((m * p >= 0 <==> m >= 0) && (m * p == 0 <==> m == 0)) by (nonlinear_arith)
        requires
            p > 0,
    ;
}

/// Writing a decimal with more fractional digits does not change its value.
pub proof fn lemma_units_at(a: DecimalParts, scale: u32)
    requires
        a.wf(),
        a.scale() <= scale <= MAX_SCALE,
    ensures
        a.units() == a.mantissa_at(scale) * pow10((MAX_SCALE - scale) as nat),
{
    let up = (scale - a.scale()) as nat;
    let rest = (MAX_SCALE - scale) as nat;
    let m = a.mantissa() as int;
    vstd::arithmetic::power::lemma_pow_adds(10, up, rest);
    assert(up + rest == (MAX_SCALE - a.scale()) as nat);
    assert(m * (pow10(up) * pow10(rest)) == (m * pow10(up)) * pow10(rest)) by (nonlinear_arith);
}

/// Where the sum of two non-negative decimals fits, it is a non-negative
/// decimal within range whose value is the sum of the two values. Its parts
/// are those of the other operand when one is zero, and else the sum of the
/// mantissas at the wider scale.
pub proof fn lemma_decimal_sum(a: DecimalParts, b: DecimalParts)
    requires
        a.wf(),
        b.wf(),
        a.mantissa() >= 0,
        b.mantissa() >= 0,
        sum_fits(a, b),
    ensures
        decimal_sum(a, b).wf(),
        decimal_sum(a, b).mantissa() >= 0,
        decimal_sum(a, b).units() == a.units() + b.units(),
        a.mantissa() == 0 ==> decimal_sum(a, b) == b,
        a.mantissa() != 0 && b.mantissa() == 0 ==> decimal_sum(a, b) == a,
        a.mantissa() != 0 && b.mantissa() != 0 ==> {
            &&& decimal_sum(a, b).scale() == wider_scale(a, b)
            &&& decimal_sum(a, b).mantissa() == a.mantissa_at(wider_scale(a, b)) + b.mantissa_at(
                wider_scale(a, b),
            )
        },
{
    let t = wider_scale(a, b);
    lemma_units_sign(a);
    lemma_units_sign(b);
    if a.mantissa() != 0 && b.mantissa() != 0 {
        let x = a.mantissa_at(t);
        let y = b.mantissa_at(t);
        let rest = pow10((MAX_SCALE - t) as nat);
        lemma_pow10_positive((t - a.scale()) as nat);
        lemma_pow10_positive((t - b.scale()) as nat);
        assert(x >= 0) by (nonlinear_arith)
            requires
                x == a.mantissa() * pow10((t - a.scale()) as nat),
                a.mantissa() >= 0,
                pow10((t - a.scale()) as nat) > 0,
        ;
        assert(y >= 0) by (nonlinear_arith)
            requires
                y == b.mantissa() * pow10((t - b.scale()) as nat),
                b.mantissa() >= 0,
                pow10((t - b.scale()) as nat) > 0,
        ;
        lemma_units_at(a, t);
        lemma_units_at(b, t);
        assert((x + y) * rest == x * rest + y * rest) by (nonlinear_arith);
    }
}

/// Where the difference of two non-negative decimals fits, and the first is
/// not the smaller, it is a non-negative decimal within range whose value is
/// the difference of the two values. Its parts are those of the other
/// operand when one is zero, and else the difference of the mantissas at
/// the wider scale.
pub proof fn lemma_decimal_difference(a: DecimalParts, b: DecimalParts)
    requires
        a.wf(),
        b.wf(),
        0 <= b.units() <= a.units(),
        difference_fits(a, b),
    ensures
        decimal_difference(a, b).wf(),
        decimal_difference(a, b).mantissa() >= 0,
        decimal_difference(a, b).units() == a.units() - b.units(),
        a.mantissa() == 0 ==> decimal_difference(a, b) == b,
        a.mantissa() != 0 && b.mantissa() == 0 ==> decimal_difference(a, b) == a,
        a.mantissa() != 0 && b.mantissa() != 0 ==> {
            &&& decimal_difference(a, b).scale() == wider_scale(a, b)
            &&& decimal_difference(a, b).mantissa() == a.mantissa_at(wider_scale(a, b))
                - b.mantissa_at(wider_scale(a, b))
        },
{
    let t = wider_scale(a, b);
    lemma_units_sign(a);
    lemma_units_sign(b);
    if a.mantissa() != 0 && b.mantissa() != 0 {
        let x = a.mantissa_at(t);
        let y = b.mantissa_at(t);
        let rest = pow10((MAX_SCALE - t) as nat);
        lemma_pow10_positive((MAX_SCALE - t) as nat);
        lemma_pow10_positive((t - b.scale()) as nat);
        assert(y >= 0) by (nonlinear_arith)
            requires
                y == b.mantissa() * pow10((t - b.scale()) as nat),
                b.mantissa() >= 0,
                pow10((t - b.scale()) as nat) > 0,
        ;
        lemma_units_at(a, t);
        lemma_units_at(b, t);
        assert(y <= x) by (nonlinear_arith)
            requires
                y * rest <= x * rest,
                rest > 0,
        ;
        assert((x - y) * rest == x * rest - y * rest) by (nonlinear_arith);
    }
}

/// Adds two non-negative decimals with `rust_decimal`'s `+` on `Decimal`
/// (its `Add::add`). The operands are handed over with
/// `Decimal::from_i128_with_scale`, and the sum is read back with
/// `Decimal::mantissa` and `Decimal::scale`.
///
/// Trusted, not proved: on operands whose sum fits (see [`sum_fits`]) the
/// operator does not overflow, does not round, and returns exactly
/// [`decimal_sum`]: the other operand unchanged when one is zero, else the
/// sum of the mantissas at the wider of the two scales. Outside this range
/// the operator rounds or panics, so the range is demanded.
#[verifier::external_body]
fn decimal_add(a: DecimalParts, b: DecimalParts) -> (r: DecimalParts)
    requires
        a.wf(),
        b.wf(),
        a.mantissa() >= 0,
        b.mantissa() >= 0,
        sum_fits(a, b),
    ensures
        r == decimal_sum(a, b),
{
    let x = rust_decimal::Decimal::from_i128_with_scale(a.mantissa, a.scale);
    let y = rust_decimal::Decimal::from_i128_with_scale(b.mantissa, b.scale);
    let sum = x + y;
    DecimalParts { mantissa: sum.mantissa(), scale: sum.scale() }
}

/// Subtracts a non-negative decimal from one that is not smaller, with
/// `rust_decimal`'s `-` on `Decimal` (its `Sub::sub`). The operands are
/// handed over with `Decimal::from_i128_with_scale`, and the difference is
/// read back with `Decimal::mantissa` and `Decimal::scale`.
///
/// Trusted, not proved: on operands whose difference fits (see
/// [`difference_fits`]) the operator does not round and returns exactly
/// [`decimal_difference`]: the other operand unchanged when one is zero,
/// else the difference of the mantissas at the wider of the two scales.
/// Outside this range the operator rounds, so the range is demanded.
#[verifier::external_body]
fn decimal_sub(a: DecimalParts, b: DecimalParts) -> (r: DecimalParts)
    requires
        a.wf(),
        b.wf(),
        0 <= b.units() <= a.units(),
        difference_fits(a, b),
    ensures
        r == decimal_difference(a, b),
{
    let x = rust_decimal::Decimal::from_i128_with_scale(a.mantissa, a.scale);
    let y = rust_decimal::Decimal::from_i128_with_scale(b.mantissa, b.scale);
    let difference = x - y;
    DecimalParts { mantissa: difference.mantissa(), scale: difference.scale() }
}

/// Compares two decimals with `rust_decimal`'s `<` on `Decimal` (its
/// `PartialOrd::lt`, which goes by `Ord::cmp`). The operands are handed
/// over with `Decimal::from_i128_with_scale`.
///
/// Trusted, not proved: the operator orders decimals of either sign by
/// their value, whatever their scales.
#[verifier::external_body]
fn decimal_lt(a: DecimalParts, b: DecimalParts) -> (r: bool)
    requires
        a.wf(),
        b.wf(),
    ensures
        r == (a.units() < b.units()),
{
    let x = rust_decimal::Decimal::from_i128_with_scale(a.mantissa, a.scale);
    let y = rust_decimal::Decimal::from_i128_with_scale(b.mantissa, b.scale);
    x < y
}

/// Compares two decimals with `rust_decimal`'s `==` on `Decimal` (its
/// `PartialEq::eq`). The operands are handed over with
/// `Decimal::from_i128_with_scale`.
///
/// Trusted, not proved: two decimals are equal when their values are,
/// whatever their scales.
#[verifier::external_body]
fn decimal_eq(a: DecimalParts, b: DecimalParts) -> (r: bool)
    requires
        a.wf(),
        b.wf(),
    ensures
        r == (a.units() == b.units()),
{
    let x = rust_decimal::Decimal::from_i128_with_scale(a.mantissa, a.scale);
    let y = rust_decimal::Decimal::from_i128_with_scale(b.mantissa, b.scale);
    x == y
}

/// The mantissa `mantissa * 10^digits`, or `None` where it leaves the range.
fn scaled_mantissa(mantissa: i128, digits: u32) -> (r: Option<i128>)
    requires
        0 <= mantissa <= MAX_MANTISSA,
        digits <= MAX_SCALE,
    ensures
        r is Some <==> mantissa * pow10(digits as nat) <= MAX_MANTISSA,
        r matches Some(x) ==> x == mantissa * pow10(digits as nat),
{
    let mut x: i128 = mantissa;
    let mut i: u32 = 0;
    proof {
        vstd::arithmetic::power::lemma_pow0(10);
    }
    while i < digits
        invariant
            i <= digits <= MAX_SCALE,
            0 <= mantissa,
            0 <= x <= MAX_MANTISSA,
            x == mantissa * pow10(i as nat),
        decreases digits - i,
    {
        proof {
            let m = mantissa as int;
            let p = pow10(i as nat);
            vstd::arithmetic::power::lemma_pow_adds(10, i as nat, 1);
            vstd::arithmetic::power::lemma_pow1(10);
            assert(m * (p * 10) == (m * p) * 10) by (nonlinear_arith);
            assert(mantissa * pow10((i + 1) as nat) == x * 10);
        }
        if x > MAX_MANTISSA / 10 {
            proof {
                let m = mantissa as int;
                let done = pow10((i + 1) as nat);
                let rest = pow10((digits - i - 1) as nat);
                vstd::arithmetic::power::lemma_pow_adds(10, (i + 1) as nat, (digits - i - 1) as nat);
                lemma_pow10_positive((digits - i - 1) as nat);
                assert(m * (done * rest) == (m * done) * rest) by (nonlinear_arith);
                assert((m * done) * rest >= m * done) by (nonlinear_arith)
                    requires
                        m * done >= 0,
                        rest >= 1,
                ;
            }
            return None;
        }
        x = x * 10;
        i = i + 1;
    }
    Some(x)
}

/// Whether the sum of two non-negative decimals can be held exactly.
fn decimal_sum_fits(a: DecimalParts, b: DecimalParts) -> (r: bool)
    requires
        a.mantissa() >= 0,
        b.mantissa() >= 0,
    ensures
        r == sum_fits(a, b),
{
    proof {
        use_type_invariant(&a);
        use_type_invariant(&b);
    }
    if a.mantissa == 0 || b.mantissa == 0 {
        return true;
    }
    let t = if a.scale >= b.scale { a.scale } else { b.scale };
    let x = scaled_mantissa(a.mantissa, t - a.scale);
    let y = scaled_mantissa(b.mantissa, t - b.scale);
    proof {
        lemma_pow10_positive((t - a.scale) as nat);
        lemma_pow10_positive((t - b.scale) as nat);
        let m = a.mantissa as int;
        let n = b.mantissa as int;
        let p = pow10((t - a.scale) as nat);
        let q = pow10((t - b.scale) as nat);
        assert(m * p >= 0 && n * q >= 0) by (nonlinear_arith)
            requires
                m >= 0,
                n >= 0,
                p > 0,
                q > 0,
        ;
    }
    match (x, y) {
        (Some(x), Some(y)) => x + y <= MAX_MANTISSA,
        _ => false,
    }
}

/// Whether the difference of two non-negative decimals can be held exactly
/// where the first is not the smaller.
fn decimal_difference_fits(a: DecimalParts, b: DecimalParts) -> (r: bool)
    requires
        a.mantissa() >= 0,
        b.mantissa() >= 0,
    ensures
        r == difference_fits(a, b),
{
    proof {
        use_type_invariant(&a);
        use_type_invariant(&b);
    }
    if a.mantissa == 0 || b.mantissa == 0 {
        return true;
    }
    let t = if a.scale >= b.scale { a.scale } else { b.scale };
    scaled_mantissa(a.mantissa, t - a.scale).is_some()
}

/// An amount of money: a decimal that is never negative.
///
/// It is built with [`Amount::try_from`] and combined with `+` and `-`; no
/// operation on amounts yields a negative one.
#[derive(Debug, Clone, Copy)]
pub struct Amount(DecimalParts);

/// The failure of building an amount from a negative decimal.
#[derive(Debug, PartialEq, Eq, Structural, Clone, Copy)]
pub struct NegativeAmountError;

impl Amount {
    /// The decimal this amount holds.
    pub closed spec fn spec_parts(&self) -> DecimalParts {
        self.0
    }

    /// The amount that holds a given decimal.
    pub closed spec fn of(parts: DecimalParts) -> Amount {
        Amount(parts)
    }

    /// An amount holds a decimal within range that is not negative.
    #[verifier::type_invariant]
    pub open spec fn wf(self) -> bool {
        &&& self.spec_parts().wf()
        &&& self.spec_parts().mantissa() >= 0
    }

    /// The value counted in units of `10^-28`.
    pub open spec fn units(&self) -> int {
        self.spec_parts().units()
    }

    /// The zero amount, written without fractional digits.
    pub closed spec fn spec_zero() -> Amount {
        Amount(DecimalParts { mantissa: 0, scale: 0 })
    }

    /// The sum of two amounts, where it fits.
    pub closed spec fn plus(self, rhs: Amount) -> Amount {
        Amount(decimal_sum(self.0, rhs.0))
    }

    /// The difference of two amounts, where `self` is not the smaller and
    /// the difference fits.
    pub closed spec fn minus(self, rhs: Amount) -> Amount {
        Amount(decimal_difference(self.0, rhs.0))
    }

    /// Whether `self + rhs` can be held exactly.
    pub open spec fn spec_can_add(&self, rhs: &Amount) -> bool {
        sum_fits(self.spec_parts(), rhs.spec_parts())
    }

    /// Whether `self - rhs` can be held exactly, given that `rhs` is not the
    /// larger.
    pub open spec fn spec_can_sub(&self, rhs: &Amount) -> bool {
        difference_fits(self.spec_parts(), rhs.spec_parts())
    }

    /// The zero amount.
    #[verifier::when_used_as_spec(spec_zero)]
    pub fn zero() -> (r: Amount)
        ensures
            r == Amount::spec_zero(),
    {
        Amount(DecimalParts { mantissa: 0, scale: 0 })
    }

    /// The decimal this amount holds.
    #[verifier::when_used_as_spec(spec_parts)]
    pub fn parts(&self) -> (r: DecimalParts)
        ensures
            r == self.spec_parts(),
    {
        self.0
    }

    /// Whether `self + rhs` can be held exactly.
    #[verifier::when_used_as_spec(spec_can_add)]
    pub fn can_add(&self, rhs: &Amount) -> (r: bool)
        ensures
            r == self.spec_can_add(rhs),
    {
        proof {
            use_type_invariant(self);
            use_type_invariant(rhs);
        }
        decimal_sum_fits(self.0, rhs.0)
    }

    /// Whether `self - rhs` can be held exactly, given that `rhs` is not the
    /// larger.
    #[verifier::when_used_as_spec(spec_can_sub)]
    pub fn can_sub(&self, rhs: &Amount) -> (r: bool)
        ensures
            r == self.spec_can_sub(rhs),
    {
        proof {
            use_type_invariant(self);
            use_type_invariant(rhs);
        }
        decimal_difference_fits(self.0, rhs.0)
    }
}

impl Amount {
    /// An amount holds exactly the decimal it was made of, and two amounts
    /// that hold the same decimal are the same amount.
    pub proof fn lemma_parts(self, parts: DecimalParts)
        ensures
            Amount::of(parts).spec_parts() == parts,
            Amount::of(self.spec_parts()) == self,
    {
    }

    /// The zero amount is `0` without fractional digits; its value is zero.
    pub proof fn lemma_zero()
        ensures
            Amount::spec_zero().wf(),
            Amount::spec_zero().units() == 0,
            Amount::spec_zero().spec_parts().mantissa() == 0,
            Amount::spec_zero().spec_parts().scale() == 0,
    {
        let zero = Amount::spec_zero().spec_parts();
        assert(zero.mantissa() * pow10((MAX_SCALE - zero.scale()) as nat) == 0) by (nonlinear_arith)
            requires
                zero.mantissa() == 0,
        ;
    }

    /// No amount has a negative value.
    pub proof fn lemma_never_negative(self)
        requires
            self.wf(),
        ensures
            self.units() >= 0,
    {
        lemma_units_sign(self.0);
    }

    /// Where a sum fits, it is an amount whose value is the sum of the two
    /// values, held as [`decimal_sum`] says.
    pub proof fn lemma_plus(self, rhs: Amount)
        requires
            self.wf(),
            rhs.wf(),
            self.spec_can_add(&rhs),
        ensures
            self.plus(rhs).wf(),
            self.plus(rhs).units() == self.units() + rhs.units(),
            self.plus(rhs).spec_parts() == decimal_sum(self.spec_parts(), rhs.spec_parts()),
    {
        lemma_decimal_sum(self.0, rhs.0);
    }

    /// Where a difference fits and `rhs` is not the larger, it is an amount
    /// whose value is the difference of the two values, held as
    /// [`decimal_difference`] says.
    pub proof fn lemma_minus(self, rhs: Amount)
        requires
            self.wf(),
            rhs.wf(),
            self.units() >= rhs.units(),
            self.spec_can_sub(&rhs),
        ensures
            self.minus(rhs).wf(),
            self.minus(rhs).units() == self.units() - rhs.units(),
            self.minus(rhs).spec_parts() == decimal_difference(self.spec_parts(), rhs.spec_parts()),
    {
        lemma_units_sign(rhs.0);
        lemma_decimal_difference(self.0, rhs.0);
    }
}

impl TryFrom<DecimalParts> for Amount {
    type Error = NegativeAmountError;

    /// Builds an amount from a decimal, unless the decimal is negative.
    fn try_from(d: DecimalParts) -> (r: Result<Self, Self::Error>) {
        proof {
            use_type_invariant(&d);
            lemma_units_sign(d);
        }
        let zero = DecimalParts { mantissa: 0, scale: 0 };
        proof {
            lemma_units_sign(zero);
        }
        if decimal_lt(d, zero) {
            Err(NegativeAmountError)
        } else {
            Ok(Amount(d))
        }
    }
}

impl vstd::std_specs::convert::TryFromSpecImpl<DecimalParts> for Amount {
    open spec fn obeys_try_from_spec() -> bool {
        true
    }

    open spec fn try_from_spec(d: DecimalParts) -> Result<Self, Self::Error> {
        if d.mantissa() < 0 {
            Err(NegativeAmountError)
        } else {
            Ok(Amount::of(d))
        }
    }
}

impl core::ops::Add for Amount {
    type Output = Amount;

    /// Adds two amounts.
    fn add(self, rhs: Amount) -> (r: Amount) {
        proof {
            use_type_invariant(&self);
            use_type_invariant(&rhs);
            lemma_decimal_sum(self.0, rhs.0);
        }
        Amount(decimal_add(self.0, rhs.0))
    }
}

impl vstd::std_specs::ops::AddSpecImpl for Amount {
    open spec fn obeys_add_spec() -> bool {
        true
    }

    open spec fn add_req(self, rhs: Amount) -> bool {
        self.spec_can_add(&rhs)
    }

    open spec fn add_spec(self, rhs: Amount) -> Amount {
        self.plus(rhs)
    }
}

impl core::ops::Sub for Amount {
    type Output = Amount;

    /// Subtracts `rhs`, stopping at zero where `rhs` is the larger.
    fn sub(self, rhs: Amount) -> (r: Amount) {
        proof {
            use_type_invariant(&self);
            use_type_invariant(&rhs);
            lemma_units_sign(rhs.0);
        }
        if decimal_lt(self.0, rhs.0) {
            Amount::zero()
        } else {
            proof {
                lemma_decimal_difference(self.0, rhs.0);
            }
            Amount(decimal_sub(self.0, rhs.0))
        }
    }
}

impl vstd::std_specs::ops::SubSpecImpl for Amount {
    open spec fn obeys_sub_spec() -> bool {
        true
    }

    open spec fn sub_req(self, rhs: Amount) -> bool {
        self.units() >= rhs.units() ==> self.spec_can_sub(&rhs)
    }

    open spec fn sub_spec(self, rhs: Amount) -> Amount {
        if self.units() < rhs.units() {
            Amount::zero()
        } else {
            self.minus(rhs)
        }
    }
}

impl core::ops::AddAssign for Amount {
    /// Adds `rhs` to this amount.
    fn add_assign(&mut self, rhs: Amount)
        requires
            old(self).spec_can_add(&rhs),
        ensures
            *final(self) == old(self).plus(rhs),
    {
        *self = *self + rhs;
    }
}

impl core::ops::SubAssign for Amount {
    /// Subtracts `rhs` from this amount, stopping at zero where `rhs` is
    /// the larger.
    fn sub_assign(&mut self, rhs: Amount)
        requires
            old(self).units() >= rhs.units() ==> old(self).spec_can_sub(&rhs),
        ensures
            *final(self) == if old(self).units() < rhs.units() {
                Amount::zero()
            } else {
                old(self).minus(rhs)
            },
    {
        *self = *self - rhs;
    }
}

impl PartialEq for Amount {
    /// Two amounts are equal when their values are, whatever their scales.
    fn eq(&self, other: &Amount) -> (r: bool) {
        proof {
            use_type_invariant(self);
            use_type_invariant(other);
        }
        decimal_eq(self.0, other.0)
    }
}

impl vstd::std_specs::cmp::PartialEqSpecImpl for Amount {
    open spec fn obeys_eq_spec() -> bool {
        true
    }

    open spec fn eq_spec(&self, other: &Amount) -> bool {
        self.units() == other.units()
    }
}

impl PartialOrd for Amount {
    /// Amounts are ordered by their values, whatever their scales.
    fn partial_cmp(&self, other: &Amount) -> (r: Option<Ordering>) {
        proof {
            use_type_invariant(self);
            use_type_invariant(other);
        }
        if decimal_lt(self.0, other.0) {
            Some(Ordering::Less)
        } else if decimal_lt(other.0, self.0) {
            Some(Ordering::Greater)
        } else {
            Some(Ordering::Equal)
        }
    }
}

impl vstd::std_specs::cmp::PartialOrdSpecImpl for Amount {
    open spec fn obeys_partial_cmp_spec() -> bool {
        true
    }

    open spec fn partial_cmp_spec(&self, other: &Amount) -> Option<Ordering> {
        if self.units() < other.units() {
            Some(Ordering::Less)
        } else if self.units() > other.units() {
            Some(Ordering::Greater)
        } else {
            Some(Ordering::Equal)
        }
    }
}

} // verus!
