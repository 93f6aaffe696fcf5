//! Rounded division on naturals, with the facts the curve's proofs rest on.

use vstd::prelude::*;

verus! {

/// The direction in which a division that leaves a remainder is rounded.
#[derive(Clone, Copy, Debug, PartialEq, Eq, Structural)]
pub enum RoundDirection {
    /// Discard the remainder.
    Floor,
    /// Count any remainder as one more unit.
    Ceiling,
}

/// The quotient of `numerator` by `denominator`, rounded up.
pub open spec fn ceil_div(numerator: nat, denominator: nat) -> nat
    recommends
        denominator > 0,
{
    if numerator % denominator == 0 {
        numerator / denominator
    } else {
        numerator / denominator + 1
    }
}

/// The quotient of `numerator` by `denominator`, rounded as `round` says.
pub open spec fn round_div(numerator: nat, denominator: nat, round: RoundDirection) -> nat
    recommends
        denominator > 0,
{
    match round {
        RoundDirection::Floor => numerator / denominator,
        RoundDirection::Ceiling => ceil_div(numerator, denominator),
    }
}

/// Euclidean division: `n` is `d` times its quotient plus a remainder below `d`.
pub proof fn lemma_div_mod_parts(n: nat, d: nat)
    requires
        d > 0,
    ensures
        n == d * (n / d) + n % d,
        n % d < d,
        (n / d) * d <= n,
        n < (n / d + 1) * d,
{
    vstd::arithmetic::div_mod::lemma_fundamental_div_mod(n as int, d as int);
    vstd::arithmetic::div_mod::lemma_mod_bound(n as int, d as int);
    let q = n / d;
    let r = n % d;
    assert(q * d == d * q && (q + 1) * d == d * q + d) by (nonlinear_arith);
}

/// The floor quotient is the one `q` with `q * d <= n < (q + 1) * d`.
pub proof fn lemma_floor_div_unique(n: nat, d: nat, q: nat)
    requires
        d > 0,
        q * d <= n,
        n < (q + 1) * d,
    ensures
        q == n / d,
{
    lemma_div_mod_parts(n, d);
    let p = n / d;
    assert(p == q) by (nonlinear_arith)
        requires
            d > 0,
            q * d <= n,
            n < (q + 1) * d,
            p * d <= n,
            n < (p + 1) * d,
    ;
}

/// The ceiling quotient is the least `q` with `q * d >= n`.
pub proof fn lemma_ceil_div_bounds(n: nat, d: nat)
    requires
        d > 0,
    ensures
        ceil_div(n, d) * d >= n,
        ceil_div(n, d) * d < n + d,
        n > 0 ==> ceil_div(n, d) > 0,
        n == 0 ==> ceil_div(n, d) == 0,
{
    lemma_div_mod_parts(n, d);
    let q = n / d;
    let r = n % d;
    assert((q + 1) * d == q * d + d && q * d == d * q) by (nonlinear_arith);
    if n == 0 {
        assert(q == 0) by (nonlinear_arith)
            requires
                d > 0,
                q * d <= 0,
        ;
    }
}

/// Any `q` with `n <= q * d < n + d` is the ceiling quotient.
pub proof fn lemma_ceil_div_unique(n: nat, d: nat, q: nat)
    requires
        d > 0,
        q * d >= n,
        q * d < n + d,
    ensures
        q == ceil_div(n, d),
{
    lemma_ceil_div_bounds(n, d);
    let c = ceil_div(n, d);
    assert(c == q) by (nonlinear_arith)
        requires
            d > 0,
            q * d >= n,
            q * d < n + d,
            c * d >= n,
            c * d < n + d,
    ;
}

/// A multiple of the divisor divides without remainder.
pub proof fn lemma_div_of_multiple(k: nat, d: nat)
    requires
        d > 0,
    ensures
        (k * d) / d == k,
        (k * d) % d == 0,
        ceil_div(k * d, d) == k,
{
    assert((k + 1) * d == k * d + d) by (nonlinear_arith);
    lemma_floor_div_unique(k * d, d, k);
    lemma_div_mod_parts(k * d, d);
    assert(d * k == k * d) by (nonlinear_arith);
}

/// The floor quotient grows with the numerator and shrinks with the divisor.
pub proof fn lemma_floor_div_monotonic(n1: nat, d1: nat, n2: nat, d2: nat)
    requires
        0 < d2 <= d1,
        n1 <= n2,
    ensures
        n1 / d1 <= n2 / d2,
{
    lemma_div_mod_parts(n1, d1);
    lemma_div_mod_parts(n2, d2);
    let q1 = n1 / d1;
    let q2 = n2 / d2;
    assert(q1 <= q2) by (nonlinear_arith)
        requires
            0 < d2 <= d1,
            n1 <= n2,
            q1 * d1 <= n1,
            n2 < (q2 + 1) * d2,
    ;
}

/// Divides `numerator` by `denominator` and rounds as `round` says.
pub fn divide_rounded(numerator: u128, denominator: u128, round: RoundDirection) -> (quotient: u128)
    requires
        denominator > 0,
    ensures
        quotient == round_div(numerator as nat, denominator as nat, round),
{
    let floor: u128 = numerator / denominator;
    let remainder: u128 = numerator % denominator;
    match round {
        RoundDirection::Floor => floor,
        RoundDirection::Ceiling => {
            if remainder == 0 {
                floor
            } else {
                proof {
                    lemma_div_mod_parts(numerator as nat, denominator as nat);
                    assert(floor < u128::MAX) by (nonlinear_arith)
                        requires
                            numerator == denominator * floor + remainder,
                            0 < remainder < denominator,
                            numerator <= u128::MAX,
                    ;
                }
                floor + 1
            }
        },
    }
}

} // verus!
