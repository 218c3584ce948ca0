//! Greatest common divisors and fractions in lowest terms.
//!
//! The rational numbers of this crate are kept in lowest terms, so that
//! whether a value can be stored depends on the value alone and not on the
//! way it was computed. The facts that justify this are proved here.

use vstd::prelude::*;

verus! {

/// The greatest common divisor, by Euclid's recursion. `gcd(a, 0) == a`.
pub open spec fn gcd(a: nat, b: nat) -> nat
    decreases b,
{
    if b == 0 {
        a
    } else {
        gcd(b, a % b)
    }
}

/// `d` divides `n`.
pub open spec fn divides(d: nat, n: nat) -> bool {
    d > 0 && n % d == 0
}

proof fn lemma_multiple_divides(d: nat, k: nat)
    requires
        d > 0,
    ensures
        divides(d, k * d),
        divides(d, d * k),
{
    vstd::arithmetic::div_mod::lemma_mod_multiples_basic(k as int, d as int);
    assert(k * d == d * k) by (nonlinear_arith);
}

proof fn lemma_divides_gives_multiple(d: nat, n: nat)
    requires
        divides(d, n),
    ensures
        n == d * (n / d),
        n == (n / d) * d,
{
    vstd::arithmetic::div_mod::lemma_fundamental_div_mod(n as int, d as int);
    assert(d * (n / d) == (n / d) * d) by (nonlinear_arith);
}

proof fn lemma_divides_combination(d: nat, x: nat, k: nat, y: nat)
    requires
        divides(d, x),
        divides(d, y),
    ensures
        divides(d, x * k + y),
{
    lemma_divides_gives_multiple(d, x);
    lemma_divides_gives_multiple(d, y);
    let xq = x / d;
    let yq = y / d;
    assert(x * k + y == (xq * k + yq) * d) by (nonlinear_arith)
        requires
            x == xq * d,
            y == yq * d,
    ;
    lemma_multiple_divides(d, xq * k + yq);
}

/// The greatest common divisor of two numbers that are not both zero is
/// positive and divides each of them.
pub proof fn lemma_gcd_divides(a: nat, b: nat)
    requires
        a > 0 || b > 0,
    ensures
        gcd(a, b) > 0,
        divides(gcd(a, b), a),
        divides(gcd(a, b), b),
    decreases b,
{
    if b == 0 {
        vstd::arithmetic::div_mod::lemma_mod_multiples_basic(1, a as int);
        assert(0nat % a == 0);
    } else {
        let r = a % b;
        lemma_gcd_divides(b, r);
        let g = gcd(b, r);
        vstd::arithmetic::div_mod::lemma_fundamental_div_mod(a as int, b as int);
        assert(b * (a / b) == b * (a / b)) by (nonlinear_arith);
        lemma_divides_combination(g, b, a / b, r);
    }
}

/// Bezout's identity: the greatest common divisor is an integer combination
/// of its arguments. The coefficients are returned.
pub proof fn lemma_bezout(a: nat, b: nat) -> (c: (int, int))
    ensures
        a * c.0 + b * c.1 == gcd(a, b),
    decreases b,
{
    if b == 0 {
        (1, 0)
    } else {
        let r = a % b;
        let q = a / b;
        let (x, y) = lemma_bezout(b, r);
        vstd::arithmetic::div_mod::lemma_fundamental_div_mod(a as int, b as int);
        assert(a * y + b * (x - q * y) == b * x + r * y) by (nonlinear_arith)
            requires
                a == b * q + r,
        ;
        (y, x - q * y)
    }
}

/// Dividing two numbers by their greatest common divisor leaves them coprime.
pub proof fn lemma_gcd_quotients_coprime(a: nat, b: nat)
    requires
        b > 0,
    ensures
        gcd(a, b) > 0,
        gcd(a / gcd(a, b), b / gcd(a, b)) == 1,
        a == (a / gcd(a, b)) * gcd(a, b),
        b == (b / gcd(a, b)) * gcd(a, b),
        b / gcd(a, b) > 0,
{
    lemma_gcd_divides(a, b);
    let g = gcd(a, b);
    let a1 = a / g;
    let b1 = b / g;
    lemma_divides_gives_multiple(g, a);
    lemma_divides_gives_multiple(g, b);
    assert(b1 > 0) by (nonlinear_arith)
        requires
            b == b1 * g,
            b > 0,
            g > 0,
    ;
    let (x, y) = lemma_bezout(a, b);
    assert(a1 * x + b1 * y == 1) by (nonlinear_arith)
        requires
            a * x + b * y == g,
            a == a1 * g,
            b == b1 * g,
            g > 0,
    ;
    lemma_gcd_divides(a1, b1);
    let h = gcd(a1, b1);
    lemma_divides_gives_multiple(h, a1);
    lemma_divides_gives_multiple(h, b1);
    let a2 = a1 / h;
    let b2 = b1 / h;
    assert(h == 1) by (nonlinear_arith)
        requires
            a1 * x + b1 * y == 1,
            a1 == a2 * h,
            b1 == b2 * h,
            h > 0,
    {
        assert(h * (a2 * x + b2 * y) == 1);
    }
}

/// A fraction in lowest terms has the smallest numerator and denominator
/// among all fractions of its value: if `m / e == a / d` with `a` and `d`
/// coprime, then `a <= m` and `d <= e`.
pub proof fn lemma_lowest_terms_least(a: nat, d: nat, m: nat, e: nat)
    requires
        gcd(a, d) == 1,
        d > 0,
        e > 0,
        m * d == a * e,
    ensures
        a <= m,
        d <= e,
{
    let (x, y) = lemma_bezout(a, d);
    let k = m * x + e * y;
    assert(e == d * k) by (nonlinear_arith)
        requires
            a * x + d * y == 1,
            m * d == a * e,
            k == m * x + e * y,
    {
        assert(e * (a * x + d * y) == e);
        assert(e * (a * x) == (a * e) * x);
        assert((m * d) * x + e * (d * y) == d * (m * x + e * y));
    }
    assert(k >= 1 && d <= e) by (nonlinear_arith)
        requires
            e == d * k,
            e > 0,
            d > 0,
    ;
    assert(m == a * k) by (nonlinear_arith)
        requires
            m * d == a * e,
            e == d * k,
            d > 0,
    {
        assert(m * d == (a * k) * d);
    }
    assert(a <= m) by (nonlinear_arith)
        requires
            m == a * k,
            k >= 1,
    ;
}

/// Two fractions in lowest terms with positive denominators and the same
/// value are the same fraction.
pub proof fn lemma_lowest_terms_unique(a: nat, d: nat, m: nat, e: nat)
    requires
        gcd(a, d) == 1,
        gcd(m, e) == 1,
        d > 0,
        e > 0,
        m * d == a * e,
    ensures
        a == m,
        d == e,
{
    lemma_lowest_terms_least(a, d, m, e);
    assert(a * e == m * d);
    lemma_lowest_terms_least(m, e, a, d);
}

/// Euclid's algorithm.
pub fn greatest_common_divisor(a: u128, b: u128) -> (g: u128)
    ensures
        g == gcd(a as nat, b as nat),
{
    let mut x: u128 = a;
    let mut y: u128 = b;
    while y != 0
        invariant
            gcd(x as nat, y as nat) == gcd(a as nat, b as nat),
        decreases y,
    {
        let r: u128 = x % y;
        x = y;
        y = r;
    }
    x
}

} // verus!
