//! Exact rationals: a mathematical model, and the contracts under which the
//! arbitrary-precision types of `num` are used.
//!
//! `BigUint` and `Ratio<BigUint>` are opaque here. What they hold is named by
//! `big_value`, `ratio_numer` and `ratio_denom`, and each function marked
//! `external_body` states, without proof, what one call into `num` does to
//! those values. Everything else in this module is proved.

use num::rational::Ratio;
use num::BigUint;
use num::Zero;
use vstd::arithmetic::div_mod::lemma_mod_multiples_basic;
use vstd::arithmetic::power::pow;
use vstd::prelude::*;

verus! {

/// `num::BigUint`, an unsigned integer of any size.
#[verifier::external_type_specification]
#[verifier::external_body]
pub struct ExBigUint(num::BigUint);

/// `num::rational::Ratio`, a numerator and a denominator.
#[verifier::external_type_specification]
#[verifier::external_body]
#[verifier::reject_recursive_types(T)]
pub struct ExRatio<T>(num::rational::Ratio<T>);

/// The natural number that a `BigUint` holds.
pub uninterp spec fn big_value(n: BigUint) -> nat;

/// The stored numerator of a ratio.
pub uninterp spec fn ratio_numer(r: Ratio<BigUint>) -> nat;

/// The stored denominator of a ratio.
pub uninterp spec fn ratio_denom(r: Ratio<BigUint>) -> nat;

/// A non-negative fraction `num / den`, not necessarily in lowest terms.
pub struct Rat {
    pub num: nat,
    pub den: nat,
}

impl Rat {
    /// The fraction `n / 1`.
    pub open spec fn whole(n: nat) -> Rat {
        Rat { num: n, den: 1 }
    }

    /// Equality as rational numbers, by cross-multiplication.
    pub open spec fn same(self, other: Rat) -> bool {
        self.num * other.den == other.num * self.den
    }

    /// The product of two fractions.
    pub open spec fn times(self, other: Rat) -> Rat {
        Rat { num: self.num * other.num, den: self.den * other.den }
    }

    /// The quotient of two fractions.
    pub open spec fn over(self, other: Rat) -> Rat {
        Rat { num: self.num * other.den, den: self.den * other.num }
    }

    /// `self >= other` as rational numbers, for positive denominators.
    pub open spec fn at_least(self, other: Rat) -> bool {
        self.num * other.den >= other.num * self.den
    }

    /// No common divisor above one, and a positive denominator.
    pub open spec fn lowest_terms(self) -> bool {
        &&& self.den > 0
        &&& forall|d: nat|
            d > 1 ==> !(#[trigger] (self.num % d) == 0 && #[trigger] (self.den % d) == 0)
    }
}

/// The fraction that a ratio stands for.
pub open spec fn rat_of(r: Ratio<BigUint>) -> Rat {
    Rat { num: ratio_numer(r), den: ratio_denom(r) }
}

/// Equality of fractions is transitive through a fraction with a positive
/// denominator.
pub proof fn lemma_same_transitive(a: Rat, b: Rat, c: Rat)
    requires
        a.same(b),
        b.same(c),
        b.den > 0,
    ensures
        a.same(c),
{
    let x = a.num * c.den;
    let y = c.num * a.den;
    assert(x * b.den == y * b.den) by (nonlinear_arith)
        requires
            a.num * b.den == b.num * a.den,
            b.num * c.den == c.num * b.den,
            x == a.num * c.den,
            y == c.num * a.den,
    ;
    assert(x == y) by (nonlinear_arith)
        requires
            x * b.den == y * b.den,
            b.den > 0,
    ;
}

/// Multiplication respects equality of fractions.
pub proof fn lemma_times_respects_same(a: Rat, a2: Rat, b: Rat, b2: Rat)
    requires
        a.same(a2),
        b.same(b2),
    ensures
        a.times(b).same(a2.times(b2)),
{
    assert((a.num * b.num) * (a2.den * b2.den) == (a2.num * b2.num) * (a.den * b.den))
        by (nonlinear_arith)
        requires
            a.num * a2.den == a2.num * a.den,
            b.num * b2.den == b2.num * b.den,
    ;
}

/// Division respects equality of fractions.
pub proof fn lemma_over_respects_same(a: Rat, a2: Rat, b: Rat, b2: Rat)
    requires
        a.same(a2),
        b.same(b2),
    ensures
        a.over(b).same(a2.over(b2)),
{
    assert((a.num * b.den) * (a2.den * b2.num) == (a2.num * b2.den) * (a.den * b.num))
        by (nonlinear_arith)
        requires
            a.num * a2.den == a2.num * a.den,
            b.num * b2.den == b2.num * b.den,
    ;
}

/// Two fractions that are equal as rationals are both multiples of one
/// fraction: the result is that fraction and the two multipliers.
pub proof fn lemma_common_unit(a: Rat, b: Rat) -> (r: (Rat, nat, nat))
    requires
        a.same(b),
        a.den > 0,
        b.den > 0,
    ensures
        r.0.den > 0,
        r.1 >= 1,
        r.2 >= 1,
        a.num == r.1 * r.0.num,
        a.den == r.1 * r.0.den,
        b.num == r.2 * r.0.num,
        b.den == r.2 * r.0.den,
    decreases a.den + b.den,
{
    if a.den == b.den {
        assert(a.num == b.num) by (nonlinear_arith)
            requires
                a.num * b.den == b.num * a.den,
                a.den == b.den,
                a.den > 0,
        ;
        assert(a.num == 1 * a.num && a.den == 1 * a.den);
        (a, 1, 1)
    } else if a.den < b.den {
        assert(b.num >= a.num) by (nonlinear_arith)
            requires
                a.num * b.den == b.num * a.den,
                a.den < b.den,
                a.den > 0,
        ;
        let rest = Rat { num: (b.num - a.num) as nat, den: (b.den - a.den) as nat };
        assert(a.same(rest)) by (nonlinear_arith)
            requires
                a.num * b.den == b.num * a.den,
                rest.num == b.num - a.num,
                rest.den == b.den - a.den,
        ;
        let (unit, s, t) = lemma_common_unit(a, rest);
        assert(b.num == (s + t) * unit.num && b.den == (s + t) * unit.den) by (nonlinear_arith)
            requires
                a.num == s * unit.num,
                a.den == s * unit.den,
                b.num - a.num == t * unit.num,
                b.den - a.den == t * unit.den,
        ;
        (unit, s, s + t)
    } else {
        assert(a.num >= b.num) by (nonlinear_arith)
            requires
                a.num * b.den == b.num * a.den,
                b.den < a.den,
                b.den > 0,
        ;
        let rest = Rat { num: (a.num - b.num) as nat, den: (a.den - b.den) as nat };
        assert(rest.same(b)) by (nonlinear_arith)
            requires
                a.num * b.den == b.num * a.den,
                rest.num == a.num - b.num,
                rest.den == a.den - b.den,
        ;
        let (unit, s, t) = lemma_common_unit(rest, b);
        assert(a.num == (s + t) * unit.num && a.den == (s + t) * unit.den) by (nonlinear_arith)
            requires
                b.num == t * unit.num,
                b.den == t * unit.den,
                a.num - b.num == s * unit.num,
                a.den - b.den == s * unit.den,
        ;
        (unit, s + t, t)
    }
}

/// A fraction in lowest terms that is a multiple of another is that other
/// fraction.
proof fn lemma_lowest_terms_multiple(a: Rat, unit: Rat, s: nat)
    requires
        a.lowest_terms(),
        s >= 1,
        a.num == s * unit.num,
        a.den == s * unit.den,
    ensures
        a == unit,
{
    lemma_mod_multiples_basic(unit.num as int, s as int);
    lemma_mod_multiples_basic(unit.den as int, s as int);
    assert(a.num % s == 0) by (nonlinear_arith)
        requires
            a.num == s * unit.num,
            ((unit.num as int) * (s as int)) % (s as int) == 0,
            s >= 1,
    ;
    assert(a.den % s == 0) by (nonlinear_arith)
        requires
            a.den == s * unit.den,
            ((unit.den as int) * (s as int)) % (s as int) == 0,
            s >= 1,
    ;
    assert(s == 1);
    assert(a.num == unit.num && a.den == unit.den) by (nonlinear_arith)
        requires
            s == 1,
            a.num == s * unit.num,
            a.den == s * unit.den,
    ;
}

/// Lowest terms are unique: two fractions in lowest terms that are equal as
/// rationals have the same numerator and the same denominator. So a
/// contract that gives a result's value and says that it is in lowest terms
/// fixes both of its parts.
pub proof fn lemma_lowest_terms_unique(a: Rat, b: Rat)
    requires
        a.same(b),
        a.lowest_terms(),
        b.lowest_terms(),
    ensures
        a == b,
{
    let (unit, s, t) = lemma_common_unit(a, b);
    lemma_lowest_terms_multiple(a, unit, s);
    lemma_lowest_terms_multiple(b, unit, t);
}

/// `BigUint::from(u64)`: the result holds the given number.
#[verifier::external_body]
pub(crate) fn big_from_u64(x: u64) -> (r: BigUint)
    ensures
        big_value(r) == x,
{
    BigUint::from(x)
}

/// `BigUint::pow`: the result holds the base raised to the exponent.
#[verifier::external_body]
pub(crate) fn big_pow(base: &BigUint, exponent: u32) -> (r: BigUint)
    ensures
        big_value(r) == pow(big_value(*base) as int, exponent as nat),
{
    base.pow(exponent)
}

/// `BigUint::clone`: the copy holds the same number.
#[verifier::external_body]
pub(crate) fn big_clone(n: &BigUint) -> (r: BigUint)
    ensures
        big_value(r) == big_value(*n),
{
    n.clone()
}

/// `Ratio::clone`: the copy has the same numerator and denominator.
#[verifier::external_body]
pub(crate) fn ratio_clone(q: &Ratio<BigUint>) -> (r: Ratio<BigUint>)
    ensures
        ratio_numer(r) == ratio_numer(*q),
        ratio_denom(r) == ratio_denom(*q),
{
    q.clone()
}

/// `Zero::is_zero` on a `BigUint`: whether the number is zero.
#[verifier::external_body]
pub(crate) fn big_is_zero(n: &BigUint) -> (r: bool)
    ensures
        r == (big_value(*n) == 0),
{
    n.is_zero()
}

/// `Ratio::denom`: a copy of the stored denominator.
#[verifier::external_body]
pub(crate) fn ratio_denominator(q: &Ratio<BigUint>) -> (r: BigUint)
    ensures
        big_value(r) == ratio_denom(*q),
{
    q.denom().clone()
}

/// `Ratio::new`: with a denominator other than zero the call returns the
/// fraction of the two numbers, brought to lowest terms.
#[verifier::external_body]
pub(crate) fn ratio_new(numer: BigUint, denom: BigUint) -> (r: Ratio<BigUint>)
    requires
        big_value(denom) > 0,
    ensures
        rat_of(r).same(Rat { num: big_value(numer), den: big_value(denom) }),
        rat_of(r).lowest_terms(),
{
    Ratio::new(numer, denom)
}

/// `Ratio::from_integer`: the result is stored as the number over one.
#[verifier::external_body]
pub(crate) fn ratio_from_integer(n: BigUint) -> (r: Ratio<BigUint>)
    ensures
        ratio_numer(r) == big_value(n),
        ratio_denom(r) == 1,
{
    Ratio::from_integer(n)
}

/// `Ratio * Ratio`: with positive denominators the call returns the product,
/// brought to lowest terms.
#[verifier::external_body]
pub(crate) fn ratio_mul(a: &Ratio<BigUint>, b: &Ratio<BigUint>) -> (r: Ratio<BigUint>)
    requires
        ratio_denom(*a) > 0,
        ratio_denom(*b) > 0,
    ensures
        rat_of(r).same(rat_of(*a).times(rat_of(*b))),
        rat_of(r).lowest_terms(),
{
    a * b
}

/// `Ratio / Ratio`: with positive denominators and a divisor other than zero
/// the call returns the quotient, brought to lowest terms.
#[verifier::external_body]
pub(crate) fn ratio_div(a: &Ratio<BigUint>, b: &Ratio<BigUint>) -> (r: Ratio<BigUint>)
    requires
        ratio_denom(*a) > 0,
        ratio_denom(*b) > 0,
        ratio_numer(*b) > 0,
    ensures
        rat_of(r).same(rat_of(*a).over(rat_of(*b))),
        rat_of(r).lowest_terms(),
{
    a / b
}

/// `Zero::is_zero` on a ratio: whether the stored numerator is zero.
#[verifier::external_body]
pub(crate) fn ratio_is_zero(q: &Ratio<BigUint>) -> (r: bool)
    ensures
        r == (ratio_numer(*q) == 0),
{
    q.is_zero()
}

/// `>=` on ratios: with positive denominators, the order of the two rational
/// numbers.
#[verifier::external_body]
pub(crate) fn ratio_ge(a: &Ratio<BigUint>, b: &Ratio<BigUint>) -> (r: bool)
    requires
        ratio_denom(*a) > 0,
        ratio_denom(*b) > 0,
    ensures
        r == rat_of(*a).at_least(rat_of(*b)),
{
    a >= b
}

/// Whether a ratio can be computed with: its denominator is not zero.
pub fn has_positive_denominator(q: &Ratio<BigUint>) -> (ok: bool)
    ensures
        ok == (ratio_denom(*q) > 0),
{
    let denom = ratio_denominator(q);
    !big_is_zero(&denom)
}

/// The fraction of two numbers in lowest terms, or nothing where the
/// denominator is zero.
pub fn checked_ratio(numer: BigUint, denom: BigUint) -> (r: Option<Ratio<BigUint>>)
    ensures
        r is None <==> big_value(denom) == 0,
        r is Some ==> {
            &&& rat_of(r->Some_0).same(Rat { num: big_value(numer), den: big_value(denom) })
            &&& rat_of(r->Some_0).lowest_terms()
        },
{
    if big_is_zero(&denom) {
        None
    } else {
        Some(ratio_new(numer, denom))
    }
}

} // verus!
