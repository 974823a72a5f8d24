//! Frequencies as whole number plus fraction, and their reduction to lowest
//! terms.

use vstd::prelude::*;
use vstd::arithmetic::div_mod::{
    lemma_fundamental_div_mod, lemma_mod_multiples_basic, lemma_small_mod,
};

verus! {

/// The greatest common divisor of `a` and `b`; `gcd(a, 0)` is `a`.
pub open spec fn gcd(a: nat, b: nat) -> nat
    decreases b,
{
    if b == 0 {
        a
    } else {
        gcd(b, a % b)
    }
}

/// Whether `d` divides `n`.
pub open spec fn divides(d: nat, n: nat) -> bool {
    d > 0 && n % d == 0
}

/// The value `integer + num / den` of a rate, over the natural numbers.
pub struct Rational {
    pub integer: nat,
    pub num: nat,
    pub den: nat,
}

impl Rational {
    /// A proper fraction in lowest terms beside the whole part.
    pub open spec fn is_reduced(self) -> bool {
        self.num < self.den && gcd(self.num, self.den) == 1
    }

    /// The same value with all whole multiples of `den` moved from `num`
    /// into `integer` and the fraction in lowest terms. A zero denominator
    /// is left as it is.
    pub open spec fn reduced(self) -> Rational {
        let whole = if self.den > 0 {
            self.num / self.den
        } else {
            0
        };
        let rest = (self.num - whole * self.den) as nat;
        let g = gcd(rest, self.den);
        if g > 0 {
            Rational { integer: self.integer + whole, num: rest / g, den: self.den / g }
        } else {
            Rational { integer: self.integer + whole, num: rest, den: self.den }
        }
    }

    /// Twice the value, reduced.
    pub open spec fn doubled(self) -> Rational {
        Rational { integer: 2 * self.integer, num: 2 * self.num, den: self.den }.reduced()
    }

    /// Whether two rates with positive denominators have the same value.
    pub open spec fn same_value(self, other: Rational) -> bool {
        (self.integer * self.den + self.num) * other.den == (other.integer * other.den
            + other.num) * self.den
    }
}

/// A common divisor of two numbers divides the remainder of one by the other.
proof fn lemma_divides_remainder(d: nat, a: nat, b: nat)
    requires
        b > 0,
        divides(d, a),
        divides(d, b),
    ensures
        divides(d, a % b),
{
    let q = a / b;
    let m = b / d;
    let n = a / d;
    let r = (a % b) as int;
    let k = n as int - (m as int) * (q as int);
    lemma_fundamental_div_mod(a as int, b as int);
    lemma_fundamental_div_mod(a as int, d as int);
    lemma_fundamental_div_mod(b as int, d as int);
    assert(r == k * d) by (nonlinear_arith)
        requires
            a == b * q + r,
            a == d * n,
            b == d * m,
            k == n - m * q,
    ;
    assert(k >= 0) by (nonlinear_arith)
        requires
            r == k * d,
            r >= 0,
            d > 0,
    ;
    lemma_mod_multiples_basic(k, d as int);
}

/// A common divisor of `b` and `a % b` divides `a`.
proof fn lemma_divides_dividend(d: nat, a: nat, b: nat)
    requires
        b > 0,
        divides(d, b),
        divides(d, a % b),
    ensures
        divides(d, a),
{
    let q = a / b;
    let m = b / d;
    let r = a % b;
    let n = r / d;
    let k = (m as int) * (q as int) + n as int;
    lemma_fundamental_div_mod(a as int, b as int);
    lemma_fundamental_div_mod(r as int, d as int);
    lemma_fundamental_div_mod(b as int, d as int);
    assert(a == k * d) by (nonlinear_arith)
        requires
            a == b * q + r,
            r == d * n,
            b == d * m,
            k == m * q + n,
    ;
    assert(k >= 0) by (nonlinear_arith)
        requires
            k == m * q + n,
            m >= 0,
            q >= 0,
            n >= 0,
    ;
    lemma_mod_multiples_basic(k, d as int);
}

/// Taking the whole multiples of `den` out of `num` leaves `num % den`.
pub proof fn lemma_rest_is_remainder(num: nat, den: nat)
    requires
        den > 0,
    ensures
        (num / den) * den <= num,
        num - (num / den) * den == num % den,
{
    lemma_fundamental_div_mod(num as int, den as int);
    assert((num / den) * den == den * (num / den)) by (nonlinear_arith);
}

/// The gcd is positive unless both numbers are zero.
pub proof fn lemma_gcd_positive(a: nat, b: nat)
    requires
        a > 0 || b > 0,
    ensures
        gcd(a, b) > 0,
    decreases b,
{
    if b > 0 {
        lemma_gcd_positive(b, a % b);
    }
}

/// The gcd divides both numbers.
pub proof fn lemma_gcd_divides(a: nat, b: nat)
    requires
        a > 0 || b > 0,
    ensures
        divides(gcd(a, b), a),
        divides(gcd(a, b), b),
    decreases b,
{
    lemma_gcd_positive(a, b);
    if b == 0 {
        lemma_mod_multiples_basic(1, a as int);
        lemma_small_mod(0, a);
    } else {
        lemma_gcd_divides(b, a % b);
        let g = gcd(a, b);
        if a % b == 0 {
            // g == b
            lemma_mod_multiples_basic(1, b as int);
            lemma_small_mod(0, g);
        }
        lemma_divides_dividend(g, a, b);
    }
}

/// Every common divisor divides the gcd: the gcd is the greatest.
pub proof fn lemma_gcd_greatest(d: nat, a: nat, b: nat)
    requires
        divides(d, a),
        divides(d, b),
    ensures
        divides(d, gcd(a, b)),
        a > 0 || b > 0 ==> d <= gcd(a, b),
    decreases b,
{
    if b > 0 {
        lemma_divides_remainder(d, a, b);
        lemma_gcd_greatest(d, b, a % b);
    }
    if a > 0 || b > 0 {
        lemma_gcd_positive(a, b);
        let g = gcd(a, b);
        if d > g {
            lemma_small_mod(g, d);
        }
    }
}

/// Dividing two numbers by their gcd leaves them without a common divisor.
pub proof fn lemma_gcd_quotients_coprime(a: nat, b: nat)
    requires
        a > 0 || b > 0,
    ensures
        gcd(a, b) > 0,
        gcd(a / gcd(a, b), b / gcd(a, b)) == 1,
{
    let g = gcd(a, b);
    lemma_gcd_positive(a, b);
    lemma_gcd_divides(a, b);
    let x = a / g;
    let y = b / g;
    lemma_fundamental_div_mod(a as int, g as int);
    lemma_fundamental_div_mod(b as int, g as int);
    assert(x > 0 || y > 0) by (nonlinear_arith)
        requires
            a == g * x,
            b == g * y,
            a > 0 || b > 0,
    ;
    let h = gcd(x, y);
    lemma_gcd_positive(x, y);
    lemma_gcd_divides(x, y);
    lemma_fundamental_div_mod(x as int, h as int);
    lemma_fundamental_div_mod(y as int, h as int);
    let hg = h * g;
    assert(hg > 0) by (nonlinear_arith)
        requires
            hg == h * g,
            h > 0,
            g > 0,
    ;
    assert(a == (x / h) * hg) by (nonlinear_arith)
        requires
            a == g * x,
            x == h * (x / h),
            hg == h * g,
    ;
    assert(b == (y / h) * hg) by (nonlinear_arith)
        requires
            b == g * y,
            y == h * (y / h),
            hg == h * g,
    ;
    lemma_mod_multiples_basic((x / h) as int, hg as int);
    lemma_mod_multiples_basic((y / h) as int, hg as int);
    lemma_gcd_greatest(hg, a, b);
    assert(h == 1) by (nonlinear_arith)
        requires
            h * g <= g,
            h > 0,
            g > 0,
    ;
}

/// Reduction ends in a proper fraction in lowest terms.
pub proof fn lemma_reduced_is_reduced(q: Rational)
    requires
        q.den > 0,
    ensures
        q.reduced().den > 0,
        q.reduced().is_reduced(),
{
    let whole = q.num / q.den;
    let rest = (q.num - whole * q.den) as nat;
    lemma_rest_is_remainder(q.num, q.den);
    let g = gcd(rest, q.den);
    lemma_gcd_quotients_coprime(rest, q.den);
    lemma_gcd_divides(rest, q.den);
    lemma_fundamental_div_mod(rest as int, g as int);
    lemma_fundamental_div_mod(q.den as int, g as int);
    assert(rest / g < q.den / g && q.den / g > 0) by (nonlinear_arith)
        requires
            rest == g * (rest / g),
            q.den == g * (q.den / g),
            rest < q.den,
            g > 0,
            q.den > 0,
    ;
}

/// Reducing a reduced rate changes nothing, whatever the rate.
pub proof fn lemma_reduced_idempotent(q: Rational)
    ensures
        q.reduced().reduced() == q.reduced(),
{
    let r = q.reduced();
    if q.den > 0 {
        lemma_reduced_is_reduced(q);
        lemma_small_mod(r.num, r.den);
        vstd::arithmetic::div_mod::lemma_basic_div(r.num as int, r.den as int);
        assert(r.num / r.den == 0);
        assert(0 * r.den == 0);
        assert(r.num / 1 == r.num && r.den / 1 == r.den);
    } else {
        // nothing whole to move; the gcd with 0 is the numerator itself
        assert(0 * q.den == 0);
        assert(gcd(q.num, 0) == q.num);
        if q.num > 0 {
            vstd::arithmetic::div_mod::lemma_div_by_self(q.num as int);
            assert(0nat / q.num == 0) by (nonlinear_arith)
                requires
                    q.num > 0,
            ;
            assert(r.num == 1 && r.den == 0);
            assert(0 * r.den == 0);
            assert(gcd(1, 0) == 1);
            assert(1nat / 1 == 1 && 0nat / 1 == 0);
        } else {
            assert(r.num == 0 && r.den == 0);
            assert(0 * r.den == 0);
            assert(gcd(0, 0) == 0);
        }
    }
}

/// Reduction keeps the value.
pub proof fn lemma_reduced_same_value(q: Rational)
    requires
        q.den > 0,
    ensures
        q.same_value(q.reduced()),
{
    let whole = q.num / q.den;
    let rest = (q.num - whole * q.den) as nat;
    lemma_rest_is_remainder(q.num, q.den);
    let g = gcd(rest, q.den);
    lemma_gcd_positive(rest, q.den);
    lemma_gcd_divides(rest, q.den);
    lemma_fundamental_div_mod(rest as int, g as int);
    lemma_fundamental_div_mod(q.den as int, g as int);
    let n = rest / g;
    let d = q.den / g;
    assert((q.integer * q.den + q.num) * d == ((q.integer + whole) * d + n) * q.den)
        by (nonlinear_arith)
        requires
            rest == g * n,
            q.den == g * d,
            q.num == whole * q.den + rest,
    ;
}

/// Doubling doubles the value.
pub proof fn lemma_doubled_value(q: Rational)
    requires
        q.den > 0,
    ensures
        2 * (q.integer * q.den + q.num) * q.doubled().den == (q.doubled().integer
            * q.doubled().den + q.doubled().num) * q.den,
{
    let twice = Rational { integer: 2 * q.integer, num: 2 * q.num, den: q.den };
    lemma_reduced_same_value(twice);
    assert(twice.integer * twice.den + twice.num == 2 * (q.integer * q.den + q.num))
        by (nonlinear_arith)
        requires
            twice.integer == 2 * q.integer,
            twice.num == 2 * q.num,
            twice.den == q.den,
    ;
}

} // verus!
