//! Integer square root.

use vstd::prelude::*;

verus! {

/// `root` is the square root of `value`, rounded down.
pub open spec fn is_integer_sqrt(value: nat, root: nat) -> bool {
    root * root <= value && value < (root + 1) * (root + 1)
}

/// Squaring keeps the order of naturals.
pub proof fn lemma_square_monotonic(smaller: nat, larger: nat)
    requires
        smaller <= larger,
    ensures
        smaller * smaller <= larger * larger,
{
    assert(smaller * smaller <= larger * larger) by (nonlinear_arith)
        requires
            smaller <= larger,
    ;
}

/// A number has one rounded-down square root.
pub proof fn lemma_integer_sqrt_unique(value: nat, first: nat, second: nat)
    requires
        is_integer_sqrt(value, first),
        is_integer_sqrt(value, second),
    ensures
        first == second,
{
    if first < second {
        lemma_square_monotonic(first + 1, second);
    } else if second < first {
        lemma_square_monotonic(second + 1, first);
    }
}

/// The square root of `value`, rounded down.
pub open spec fn integer_sqrt_spec(value: nat) -> nat {
    choose|root: nat| is_integer_sqrt(value, root)
}

/// Every natural has a rounded-down square root.
pub proof fn lemma_integer_sqrt_exists(value: nat)
    ensures
        is_integer_sqrt(value, integer_sqrt_spec(value)),
    decreases value,
{
    if value == 0 {
        assert(is_integer_sqrt(0, 0)) by (nonlinear_arith);
    } else {
        lemma_integer_sqrt_exists((value - 1) as nat);
        let below = integer_sqrt_spec((value - 1) as nat);
        if value < (below + 1) * (below + 1) {
            assert(is_integer_sqrt(value, below));
        } else {
            assert(is_integer_sqrt(value, below + 1)) by (nonlinear_arith)
                requires
                    value - 1 < (below + 1) * (below + 1),
                    value >= (below + 1) * (below + 1),
            ;
        }
    }
}

/// Whatever squares to at most `value`, with its successor squaring beyond
/// it, is the rounded-down square root of `value`.
pub proof fn lemma_integer_sqrt_is(value: nat, root: nat)
    requires
        is_integer_sqrt(value, root),
    ensures
        integer_sqrt_spec(value) == root,
{
    lemma_integer_sqrt_unique(value, root, integer_sqrt_spec(value));
}

/// The square root of `value`, rounded down.  The root of a 128-bit number
/// always fits in 64 bits.
pub fn integer_sqrt(value: u128) -> (root: u64)
    ensures
        is_integer_sqrt(value as nat, root as nat),
        root == integer_sqrt_spec(value as nat),
{
    let mut low: u128 = 0;
    let mut high: u128 = 0x1_0000_0000_0000_0000;
    assert(0x1_0000_0000_0000_0000u128 * 0x1_0000_0000_0000_0000u128 > u128::MAX)
        by (nonlinear_arith);
    while high - low > 1
        invariant
            low < high <= 0x1_0000_0000_0000_0000,
            low * low <= value,
            value < high * high,
        decreases high - low,
    {
        let middle: u128 = low + (high - low) / 2;
        assert(middle * middle <= u128::MAX) by (nonlinear_arith)
            requires
                middle < 0x1_0000_0000_0000_0000,
        ;
        if middle * middle <= value {
            low = middle;
        } else {
            high = middle;
        }
    }
    proof {
        lemma_integer_sqrt_is(value as nat, low as nat);
    }
    low as u64
}

} // verus!
