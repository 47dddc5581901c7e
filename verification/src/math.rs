//! Greatest common divisor.

use vstd::prelude::*;

verus! {

/// The greatest common divisor of `a` and `b`, by Euclid's recurrence.
/// `gcd_spec(a, 0) == a`, so `gcd_spec(0, 0) == 0`.
pub open spec fn gcd_spec(a: nat, b: nat) -> nat
    decreases b,
{
    if b == 0 {
        a
    } else {
        gcd_spec(b, a % b)
    }
}

/// `d` divides `n` (every number divides 0; 0 divides only 0).
pub open spec fn divides(d: nat, n: nat) -> bool {
    exists|k: nat| #[trigger] (d * k) == n
}

/// Parameters of a GCD request: the two numbers.
pub struct GcdParameters {
    pub n: u64,
    pub m: u64,
}

/// Computes the greatest common divisor of `a` and `b` with Euclid's
/// algorithm. `gcd(a, 0) == a` and `gcd(0, 0) == 0`.
pub fn gcd(a: u64, b: u64) -> (r: u64)
    ensures
        r == gcd_spec(a as nat, b as nat),
{
    let mut a = a;
    let mut b = b;
    let ghost target = gcd_spec(a as nat, b as nat);
    while b != 0
        invariant
            gcd_spec(a as nat, b as nat) == target,
        decreases b,
    {
        let temp = a % b;
        a = b;
        b = temp;
    }
    a
}

/// GCD is symmetric in its arguments.
pub proof fn lemma_gcd_commutative(a: nat, b: nat)
    ensures
        gcd_spec(a, b) == gcd_spec(b, a),
{
    if a == b {
    } else if b == 0 {
        assert(gcd_spec(0, a) == gcd_spec(a, 0nat % a));
    } else if a == 0 {
        assert(gcd_spec(0, b) == gcd_spec(b, 0nat % b));
    } else if a < b {
        assert(a % b == a) by {
            vstd::arithmetic::div_mod::lemma_small_mod(a, b);
        }
    } else {
        assert(b % a == b) by {
            vstd::arithmetic::div_mod::lemma_small_mod(b, a);
        }
    }
}

/// The result of `gcd` divides both arguments, and every common divisor of
/// the arguments divides it: it is their greatest common divisor.
pub proof fn lemma_gcd_is_greatest_common_divisor(a: nat, b: nat)
    ensures
        divides(gcd_spec(a, b), a),
        divides(gcd_spec(a, b), b),
        forall|d: nat| divides(d, a) && divides(d, b) ==> #[trigger] divides(d, gcd_spec(a, b)),
    decreases b,
{
    let g = gcd_spec(a, b);
    if b == 0 {
        assert(a * 1 == a);
        assert(a * 0 == 0);
    } else {
        let q = a / b;
        let r = a % b;
        lemma_gcd_is_greatest_common_divisor(b, r);
        assert(g == gcd_spec(b, r));
        assert(a == b * q + r) by {
            vstd::arithmetic::div_mod::lemma_fundamental_div_mod(a as int, b as int);
        }
        let k1 = choose|k: nat| #[trigger] (g * k) == b;
        let k2 = choose|k: nat| #[trigger] (g * k) == r;
        assert(g * (k1 * q + k2) == a) by (nonlinear_arith)
            requires
                g * k1 == b,
                g * k2 == r,
                a == b * q + r,
        ;
        assert(divides(g, a));
        assert forall|d: nat| divides(d, a) && divides(d, b) implies #[trigger] divides(d, g) by {
            let j1 = choose|k: nat| #[trigger] (d * k) == a;
            let j2 = choose|k: nat| #[trigger] (d * k) == b;
            assert(d > 0) by {
                if d == 0 {
                    assert(d * j2 == 0);
                }
            }
            assert(r == d * (j1 - j2 * q)) by (nonlinear_arith)
                requires
                    d * j1 == a,
                    d * j2 == b,
                    a == b * q + r,
            ;
            assert(j1 - j2 * q >= 0) by (nonlinear_arith)
                requires
                    r == d * (j1 - j2 * q),
                    d > 0,
                    r >= 0,
            ;
            let w: nat = (j1 - j2 * q) as nat;
            assert(d * w == r);
            assert(divides(d, r));
        }
    }
}

} // verus!
