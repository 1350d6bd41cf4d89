//! Integer square roots, for orbital periods.

use vstd::prelude::*;

verus! {

/// The largest number whose square does not exceed `value`.
pub open spec fn integer_root(value: nat) -> nat
    decreases value,
{
    if value == 0 {
        0
    } else {
        let below = integer_root((value - 1) as nat);
        if (below + 1) * (below + 1) <= value {
            below + 1
        } else {
            below
        }
    }
}

/// The square of `integer_root(value)` does not exceed `value`, and the
/// square of the next number does.
pub proof fn integer_root_bounds(value: nat)
    ensures
        integer_root(value) * integer_root(value) <= value,
        value < (integer_root(value) + 1) * (integer_root(value) + 1),
    decreases value,
{
    let root = integer_root(value);
    if value == 0 {
        assert(root == 0);
        assert(root * root == 0 && (root + 1) * (root + 1) == 1) by (nonlinear_arith)
            requires
                root == 0,
        ;
    } else {
        integer_root_bounds((value - 1) as nat);
        let below = integer_root((value - 1) as nat);
        if (below + 1) * (below + 1) <= value {
            assert(root == below + 1);
            assert((root + 1) * (root + 1) > root * root) by (nonlinear_arith);
        } else {
            assert(root == below);
        }
    }
}

/// Only `integer_root(value)` lies between the bounds that
/// `integer_root_bounds` states.
pub proof fn integer_root_unique(value: nat, root: nat)
    requires
        root * root <= value,
        value < (root + 1) * (root + 1),
    ensures
        root == integer_root(value),
{
    integer_root_bounds(value);
    let other = integer_root(value);
    if root < other {
        assert((root + 1) * (root + 1) <= other * other) by (nonlinear_arith)
            requires
                root + 1 <= other,
        ;
    } else if other < root {
        assert((other + 1) * (other + 1) <= root * root) by (nonlinear_arith)
            requires
                other + 1 <= root,
        ;
    }
}

/// Computes the integer square root by bisection.
pub fn isqrt(value: u128) -> (root: u64)
    ensures
        root == integer_root(value as nat),
{
    let mut low: u128 = 0;
    let mut high: u128 = 0x1_0000_0000_0000_0000;
    assert(high * high > value) by (nonlinear_arith)
        requires
            high == 0x1_0000_0000_0000_0000,
            value <= u128::MAX,
    ;
    while high - low > 1
        invariant
            low < high <= 0x1_0000_0000_0000_0000,
            low * low <= value,
            value < high * high,
        decreases high - low,
    {
        let middle: u128 = low + (high - low) / 2;
        assert(middle * middle <= 0xffff_ffff_ffff_ffff * 0xffff_ffff_ffff_ffff)
            by (nonlinear_arith)
            requires
                middle <= 0xffff_ffff_ffff_ffff,
        ;
        if middle * middle <= value {
            low = middle;
        } else {
            high = middle;
        }
    }
    proof {
        integer_root_unique(value as nat, low as nat);
    }
    low as u64
}

} // verus!
