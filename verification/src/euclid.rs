//! Euclid's algorithm: a small program of the kind that Hoare triples speak
//! about. Its loop keeps the common divisors of the two numbers, which is the
//! invariant a derivation with the while rule rests on.

use vstd::prelude::*;

verus! {

/// `d` divides `n`: `n` is a multiple of `d`.
pub open spec fn divides(d: int, n: int) -> bool {
    exists|k: int| n == #[trigger] (k * d)
}

/// `d` divides both `a` and `b`.
pub open spec fn divides_both(d: int, a: int, b: int) -> bool {
    divides(d, a) && divides(d, b)
}

/// `g` is the greatest common divisor of `a` and `b`: it divides both, and
/// whatever divides both divides it.
pub open spec fn is_gcd(g: int, a: int, b: int) -> bool {
    &&& g >= 0
    &&& divides_both(g, a, b)
    &&& forall|d: int| #[trigger] divides_both(d, a, b) ==> divides(d, g)
}

/// Every number divides zero, and every number divides itself.
pub proof fn lemma_divides_trivially(d: int)
    ensures
        divides(d, 0),
        divides(d, d),
{
    assert(0 == 0 * d);
    assert(d == 1 * d);
}

/// The common divisors of `a` and `b` are those of `b` and the remainder of
/// `a` by `b`.
pub proof fn lemma_remainder_keeps_divisors(d: int, a: int, b: int)
    requires
        0 <= a,
        0 < b,
    ensures
        divides_both(d, a, b) <==> divides_both(d, b, a % b),
{
    let q = a / b;
    let r = a % b;
    assert(a == q * b + r) by {
        vstd::arithmetic::div_mod::lemma_fundamental_div_mod(a, b);
    }
    if divides_both(d, a, b) {
        let k = choose|k: int| a == #[trigger] (k * d);
        let m = choose|m: int| b == #[trigger] (m * d);
        assert(r == (k - q * m) * d) by (nonlinear_arith)
            requires
                a == q * b + r,
                a == k * d,
                b == m * d,
        ;
    }
    if divides_both(d, b, r) {
        let m = choose|m: int| b == #[trigger] (m * d);
        let n = choose|n: int| r == #[trigger] (n * d);
        assert(a == (q * m + n) * d) by (nonlinear_arith)
            requires
                a == q * b + r,
                b == m * d,
                r == n * d,
        ;
    }
}

/// Two numbers have one greatest common divisor.
pub proof fn lemma_gcd_is_unique(g: int, h: int, a: int, b: int)
    requires
        is_gcd(g, a, b),
        is_gcd(h, a, b),
    ensures
        g == h,
{
    assert(divides(g, h)) by {
        assert(divides_both(g, a, b));
    }
    assert(divides(h, g)) by {
        assert(divides_both(h, a, b));
    }
    let k = choose|k: int| h == #[trigger] (k * g);
    let m = choose|m: int| g == #[trigger] (m * h);
    assert(g == h) by (nonlinear_arith)
        requires
            h == k * g,
            g == m * h,
            g >= 0,
            h >= 0,
    ;
}

/// The greatest common divisor of `a` and `b`, by repeated remainders.
pub fn gcd(a: u32, b: u32) -> (g: u32)
    ensures
        is_gcd(g as int, a as int, b as int),
{
    let ghost first = a as int;
    let ghost second = b as int;
    let mut a: u32 = a;
    let mut b: u32 = b;
    while b != 0
        invariant
            forall|d: int|
                #[trigger] divides_both(d, a as int, b as int) <==> divides_both(d, first, second),
        decreases b,
    {
        proof {
            assert forall|d: int| #[trigger]
                divides_both(d, b as int, (a % b) as int) <==> divides_both(
                    d,
                    first,
                    second,
                ) by {
                lemma_remainder_keeps_divisors(d, a as int, b as int);
            }
        }
        let temp: u32 = b;
        b = a % b;
        a = temp;
    }
    proof {
        lemma_divides_trivially(a as int);
        assert(divides_both(a as int, a as int, 0));
        assert forall|d: int| #[trigger] divides_both(d, first, second) implies divides(
            d,
            a as int,
        ) by {
            assert(divides_both(d, a as int, b as int));
        }
    }
    a
}

} // verus!
