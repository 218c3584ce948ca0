//! Exact rational numbers of bounded size.
//!
//! A [`Ratio`] is a fraction of two 64-bit integers in lowest terms. Its view
//! is the real number it denotes. Arithmetic is exact: an operation either
//! returns the true result or, when that result cannot be written with a
//! numerator and a denominator of at most [`LIMIT`], returns `None`.

use vstd::prelude::*;
use crate::number_theory::{
    gcd, greatest_common_divisor, lemma_gcd_quotients_coprime, lemma_lowest_terms_least,
    lemma_lowest_terms_unique,
};

verus! {

/// The largest numerator, in absolute value, and the largest denominator
/// that a [`Ratio`] holds.
pub const LIMIT: i64 = 0x7fff_ffff_ffff_ffff;

/// The real number `n / d`.
pub open spec fn quot(n: int, d: int) -> real {
    (n as real) / (d as real)
}

/// Whether `n / d` is a fraction that a [`Ratio`] may hold as written.
pub open spec fn storable(n: int, d: int) -> bool {
    -LIMIT <= n <= LIMIT && 0 < d <= LIMIT
}

/// Whether the real number `q` is the value of some [`Ratio`].
pub open spec fn fits(q: real) -> bool {
    exists|n: int, d: int| storable(n, d) && q == #[trigger] quot(n, d)
}

/// The absolute value of an integer.
pub open spec fn magnitude(n: int) -> nat {
    if n < 0 {
        (-n) as nat
    } else {
        n as nat
    }
}

/// Two fractions are equal exactly when their cross products are.
pub proof fn lemma_quot_eq(an: int, ad: int, bn: int, bd: int)
    by (nonlinear_arith)
    requires
        ad > 0,
        bd > 0,
    ensures
        quot(an, ad) == quot(bn, bd) <==> an * bd == bn * ad,
{
}

/// Changing the sign of both parts of a fraction keeps its value.
pub proof fn lemma_quot_flip(n: int, d: int)
    by (nonlinear_arith)
    requires
        d != 0,
    ensures
        quot(n, d) == quot(-n, -d),
{
}

/// A fraction with a positive denominator has the sign of its numerator.
pub proof fn lemma_quot_sign(n: int, d: int)
    by (nonlinear_arith)
    requires
        d > 0,
    ensures
        quot(n, d) == 0real <==> n == 0,
        quot(n, d) > 0real <==> n > 0,
{
}

/// Fractions with positive denominators are ordered as their cross products.
pub proof fn lemma_quot_lt(an: int, ad: int, bn: int, bd: int)
    by (nonlinear_arith)
    requires
        ad > 0,
        bd > 0,
    ensures
        quot(an, ad) < quot(bn, bd) <==> an * bd < bn * ad,
{
}

/// The sum of two fractions.
pub proof fn lemma_quot_add(an: int, ad: int, bn: int, bd: int)
    by (nonlinear_arith)
    requires
        ad > 0,
        bd > 0,
    ensures
        quot(an, ad) + quot(bn, bd) == quot(an * bd + bn * ad, ad * bd),
{
}

/// The difference of two fractions.
pub proof fn lemma_quot_sub(an: int, ad: int, bn: int, bd: int)
    by (nonlinear_arith)
    requires
        ad > 0,
        bd > 0,
    ensures
        quot(an, ad) - quot(bn, bd) == quot(an * bd - bn * ad, ad * bd),
{
}

/// The product of two fractions.
pub proof fn lemma_quot_mul(an: int, ad: int, bn: int, bd: int)
    by (nonlinear_arith)
    requires
        ad > 0,
        bd > 0,
    ensures
        quot(an, ad) * quot(bn, bd) == quot(an * bn, ad * bd),
{
}

/// The quotient of two fractions.
pub proof fn lemma_quot_div(an: int, ad: int, bn: int, bd: int)
    by (nonlinear_arith)
    requires
        ad > 0,
        bd > 0,
        bn != 0,
    ensures
        quot(an, ad) / quot(bn, bd) == quot(an * bd, ad * bn),
{
}

/// The negation of a fraction.
pub proof fn lemma_quot_neg(n: int, d: int)
    by (nonlinear_arith)
    requires
        d > 0,
    ensures
        -quot(n, d) == quot(-n, d),
{
}

/// A fraction with denominator one is its numerator.
pub proof fn lemma_quot_one(n: int)
    by (nonlinear_arith)
    ensures
        quot(n, 1) == n as real,
{
}

/// The bound on a product of two numbers bounded by the limit.
proof fn lemma_product_bound(x: int, y: int)
    by (nonlinear_arith)
    requires
        -LIMIT <= x <= LIMIT,
        -LIMIT <= y <= LIMIT,
    ensures
        -(LIMIT * LIMIT) <= x * y <= LIMIT * LIMIT,
        (x > 0 && y > 0) ==> x * y > 0,
        (x > 0 && y < 0) ==> x * y < 0,
{
}

/// An exact rational number: a fraction of two integers in lowest terms.
#[derive(Clone, Copy, Debug, PartialEq, Eq, Structural)]
pub struct Ratio {
    num: i64,
    den: i64,
}

impl View for Ratio {
    type V = real;

    closed spec fn view(&self) -> real {
        quot(self.num as int, self.den as int)
    }
}

impl Ratio {
    #[verifier::type_invariant]
    spec fn lowest_terms(self) -> bool {
        &&& storable(self.num as int, self.den as int)
        &&& gcd(magnitude(self.num as int), self.den as nat) == 1
    }

    /// Brings `n / d` to lowest terms and stores it if it then fits.
    fn reduce(n: i128, d: i128) -> (r: Option<Ratio>)
        requires
            d > 0,
            n > i128::MIN,
        ensures
            r is Some <==> fits(quot(n as int, d as int)),
            r matches Some(v) ==> v@ == quot(n as int, d as int),
    {
        let negative = n < 0;
        let a: u128 = if negative {
            (-n) as u128
        } else {
            n as u128
        };
        let b: u128 = d as u128;
        let g: u128 = greatest_common_divisor(a, b);
        proof {
            lemma_gcd_quotients_coprime(a as nat, b as nat);
        }
        let a1: u128 = a / g;
        let b1: u128 = b / g;
        let ghost signed: int = if negative {
            -(a1 as int)
        } else {
            a1 as int
        };
        proof {
            assert(n * b1 == signed * d) by (nonlinear_arith)
                requires
                    a == a1 * g,
                    b == b1 * g,
                    d == b,
                    n == (if negative {
                        -(a as int)
                    } else {
                        a as int
                    }),
                    signed == (if negative {
                        -(a1 as int)
                    } else {
                        a1 as int
                    }),
            ;
            lemma_quot_eq(n as int, d as int, signed, b1 as int);
        }
        if a1 <= LIMIT as u128 && b1 <= LIMIT as u128 {
            let m: i64 = a1 as i64;
            let num: i64 = if negative {
                -m
            } else {
                m
            };
            assert(magnitude(num as int) == a1);
            assert(storable(num as int, b1 as int));
            Some(Ratio { num, den: b1 as i64 })
        } else {
            proof {
                assert forall|m: int, e: int| storable(m, e) implies quot(n as int, d as int)
                    != #[trigger] quot(m, e) by {
                    if quot(n as int, d as int) == quot(m, e) {
                        lemma_quot_eq(signed, b1 as int, m, e);
                        let mm = magnitude(m);
                        assert(mm * b1 == a1 * e && mm <= LIMIT) by (nonlinear_arith)
                            requires
                                signed * e == m * b1,
                                signed == (if negative {
                                    -(a1 as int)
                                } else {
                                    a1 as int
                                }),
                                e > 0,
                                b1 > 0,
                                mm == magnitude(m),
                                -LIMIT <= m <= LIMIT,
                        ;
                        lemma_lowest_terms_least(a1 as nat, b1 as nat, mm, e as nat);
                    }
                }
            }
            None
        }
    }

    /// The fraction `num / den`, brought to lowest terms.
    ///
    /// `None` when `den` is zero.
    pub fn new(num: i64, den: i64) -> (r: Option<Ratio>)
        ensures
            r is Some <==> den != 0 && fits(quot(num as int, den as int)),
            r matches Some(v) ==> v@ == quot(num as int, den as int),
    {
        if den == 0 {
            None
        } else if den > 0 {
            Self::reduce(num as i128, den as i128)
        } else {
            proof {
                lemma_quot_flip(num as int, den as int);
            }
            Self::reduce(-(num as i128), -(den as i128))
        }
    }

    /// The integer `n`.
    pub fn from_int(n: i32) -> (r: Ratio)
        ensures
            r@ == n as real,
    {
        proof {
            assert(gcd(magnitude(n as int), 1) == 1) by {
                reveal_with_fuel(gcd, 3);
            }
            lemma_quot_one(n as int);
        }
        Ratio { num: n as i64, den: 1 }
    }

    /// Zero.
    pub fn zero() -> (r: Ratio)
        ensures
            r@ == 0real,
    {
        Self::from_int(0)
    }

    /// One.
    pub fn one() -> (r: Ratio)
        ensures
            r@ == 1real,
    {
        Self::from_int(1)
    }

    /// The numerator of the fraction in lowest terms; it carries the sign.
    pub closed spec fn numerator(self) -> int {
        self.num as int
    }

    /// The denominator of the fraction in lowest terms.
    pub closed spec fn denominator(self) -> int {
        self.den as int
    }

    /// The numerator of the fraction in lowest terms; it carries the sign.
    pub fn numer(&self) -> (n: i64)
        ensures
            n == self.numerator(),
            self@ == quot(self.numerator(), self.denominator()),
            storable(self.numerator(), self.denominator()),
            gcd(magnitude(self.numerator()), self.denominator() as nat) == 1,
    {
        proof {
            use_type_invariant(self);
        }
        self.num
    }

    /// The denominator of the fraction in lowest terms; it is positive.
    pub fn denom(&self) -> (d: i64)
        ensures
            d == self.denominator(),
            self@ == quot(self.numerator(), self.denominator()),
            storable(self.numerator(), self.denominator()),
            gcd(magnitude(self.numerator()), self.denominator() as nat) == 1,
    {
        proof {
            use_type_invariant(self);
        }
        self.den
    }

    /// Whether the value is zero.
    pub fn is_zero(&self) -> (b: bool)
        ensures
            b == (self@ == 0real),
    {
        proof {
            use_type_invariant(self);
            lemma_quot_sign(self.num as int, self.den as int);
        }
        self.num == 0
    }

    /// Whether the value is greater than zero.
    pub fn is_positive(&self) -> (b: bool)
        ensures
            b == (self@ > 0real),
    {
        proof {
            use_type_invariant(self);
            lemma_quot_sign(self.num as int, self.den as int);
        }
        self.num > 0
    }

    /// Whether the two values are equal. Because fractions are kept in
    /// lowest terms, equal values have equal parts, and `==` says the same.
    pub fn same(&self, other: &Ratio) -> (b: bool)
        ensures
            b == (self@ == other@),
            b == (*self == *other),
    {
        proof {
            use_type_invariant(self);
            use_type_invariant(other);
            let n1 = self.num as int;
            let d1 = self.den as int;
            let n2 = other.num as int;
            let d2 = other.den as int;
            if self@ == other@ {
                lemma_quot_eq(n1, d1, n2, d2);
                assert(magnitude(n2) * d1 == magnitude(n1) * d2 && (n1 < 0 <==> n2 < 0))
                    by (nonlinear_arith)
                    requires
                        n1 * d2 == n2 * d1,
                        d1 > 0,
                        d2 > 0,
                ;
                lemma_lowest_terms_unique(
                    magnitude(n1),
                    d1 as nat,
                    magnitude(n2),
                    d2 as nat,
                );
            }
        }
        self.num == other.num && self.den == other.den
    }

    /// Whether this value is less than the other.
    pub fn lt(&self, other: &Ratio) -> (b: bool)
        ensures
            b == (self@ < other@),
    {
        proof {
            use_type_invariant(self);
            use_type_invariant(other);
            lemma_quot_lt(self.num as int, self.den as int, other.num as int, other.den as int);
            lemma_product_bound(self.num as int, other.den as int);
            lemma_product_bound(other.num as int, self.den as int);
        }
        (self.num as i128) * (other.den as i128) < (other.num as i128) * (self.den as i128)
    }

    /// The value with its sign changed.
    pub fn neg(&self) -> (r: Ratio)
        ensures
            r@ == -self@,
    {
        proof {
            use_type_invariant(self);
            lemma_quot_neg(self.num as int, self.den as int);
            assert(magnitude(-(self.num as int)) == magnitude(self.num as int));
        }
        Ratio { num: -self.num, den: self.den }
    }

    /// The sum, if it fits.
    pub fn checked_add(&self, rhs: &Ratio) -> (r: Option<Ratio>)
        ensures
            r is Some <==> fits(self@ + rhs@),
            r matches Some(v) ==> v@ == self@ + rhs@,
    {
        proof {
            use_type_invariant(self);
            use_type_invariant(rhs);
            lemma_quot_add(self.num as int, self.den as int, rhs.num as int, rhs.den as int);
            lemma_product_bound(self.num as int, rhs.den as int);
            lemma_product_bound(rhs.num as int, self.den as int);
            lemma_product_bound(self.den as int, rhs.den as int);
        }
        let n: i128 = (self.num as i128) * (rhs.den as i128) + (rhs.num as i128) * (self.den
            as i128);
        let d: i128 = (self.den as i128) * (rhs.den as i128);
        Self::reduce(n, d)
    }

    /// The difference, if it fits.
    pub fn checked_sub(&self, rhs: &Ratio) -> (r: Option<Ratio>)
        ensures
            r is Some <==> fits(self@ - rhs@),
            r matches Some(v) ==> v@ == self@ - rhs@,
    {
        proof {
            use_type_invariant(self);
            use_type_invariant(rhs);
            lemma_quot_sub(self.num as int, self.den as int, rhs.num as int, rhs.den as int);
            lemma_product_bound(self.num as int, rhs.den as int);
            lemma_product_bound(rhs.num as int, self.den as int);
            lemma_product_bound(self.den as int, rhs.den as int);
        }
        let n: i128 = (self.num as i128) * (rhs.den as i128) - (rhs.num as i128) * (self.den
            as i128);
        let d: i128 = (self.den as i128) * (rhs.den as i128);
        Self::reduce(n, d)
    }

    /// The product, if it fits.
    pub fn checked_mul(&self, rhs: &Ratio) -> (r: Option<Ratio>)
        ensures
            r is Some <==> fits(self@ * rhs@),
            r matches Some(v) ==> v@ == self@ * rhs@,
    {
        proof {
            use_type_invariant(self);
            use_type_invariant(rhs);
            lemma_quot_mul(self.num as int, self.den as int, rhs.num as int, rhs.den as int);
            lemma_product_bound(self.num as int, rhs.num as int);
            lemma_product_bound(self.den as int, rhs.den as int);
        }
        let n: i128 = (self.num as i128) * (rhs.num as i128);
        let d: i128 = (self.den as i128) * (rhs.den as i128);
        Self::reduce(n, d)
    }

    /// The quotient, if the divisor is not zero and the quotient fits.
    pub fn checked_div(&self, rhs: &Ratio) -> (r: Option<Ratio>)
        ensures
            r is Some <==> rhs@ != 0real && fits(self@ / rhs@),
            r matches Some(v) ==> v@ == self@ / rhs@,
    {
        proof {
            use_type_invariant(self);
            use_type_invariant(rhs);
            lemma_quot_sign(rhs.num as int, rhs.den as int);
            lemma_product_bound(self.num as int, rhs.den as int);
            lemma_product_bound(self.den as int, rhs.num as int);
        }
        if rhs.num == 0 {
            None
        } else {
            proof {
                lemma_quot_div(self.num as int, self.den as int, rhs.num as int, rhs.den as int);
            }
            let n: i128 = (self.num as i128) * (rhs.den as i128);
            let d: i128 = (self.den as i128) * (rhs.num as i128);
            if rhs.num > 0 {
                Self::reduce(n, d)
            } else {
                proof {
                    lemma_quot_flip(n as int, d as int);
                }
                Self::reduce(-n, -d)
            }
        }
    }
}

} // verus!
