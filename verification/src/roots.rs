//! Integer square roots: the definition that the fixed-point square root is
//! stated over, and the facts about one step of the Babylonian iteration.

use vstd::prelude::*;

verus! {

/// `r` is the integer square root of `n`: the largest integer whose square
/// does not exceed `n`.
pub open spec fn is_floor_sqrt(n: int, r: int) -> bool {
    0 <= r && r * r <= n < (r + 1) * (r + 1)
}

/// The integer square root of `n` (for `n >= 0`).
pub open spec fn floor_sqrt(n: int) -> int {
    choose|r: int| is_floor_sqrt(n, r)
}

/// One step of the Babylonian iteration for the square root of `n`, from the
/// estimate `y`, in truncating integer arithmetic.
pub open spec fn babylonian_step(n: int, y: int) -> int {
    (n / y + y) / 2
}

/// At most one integer is the integer square root of `n`.
pub proof fn lemma_floor_sqrt_unique(n: int, a: int, b: int)
    requires
        is_floor_sqrt(n, a),
        is_floor_sqrt(n, b),
    ensures
        a == b,
{
    assert(a < b + 1) by (nonlinear_arith)
        requires
            0 <= a,
            0 <= b,
            a * a < (b + 1) * (b + 1),
    ;
    assert(b < a + 1) by (nonlinear_arith)
        requires
            0 <= a,
            0 <= b,
            b * b < (a + 1) * (a + 1),
    ;
}

/// Every natural number has an integer square root.
pub proof fn lemma_floor_sqrt_exists(n: int)
    requires
        0 <= n,
    ensures
        is_floor_sqrt(n, floor_sqrt(n)),
    decreases n,
{
    if n == 0 {
        assert(is_floor_sqrt(0, 0));
    } else {
        lemma_floor_sqrt_exists(n - 1);
        let r = floor_sqrt(n - 1);
        if n < (r + 1) * (r + 1) {
            assert(is_floor_sqrt(n, r));
        } else {
            assert((r + 1) * (r + 1) <= n < (r + 2) * (r + 2)) by (nonlinear_arith)
                requires
                    0 <= r,
                    n - 1 < (r + 1) * (r + 1),
                    n >= (r + 1) * (r + 1),
            ;
            assert(is_floor_sqrt(n, r + 1));
        }
    }
}

/// The integer that satisfies the definition is the integer square root.
pub proof fn lemma_floor_sqrt_is(n: int, r: int)
    requires
        is_floor_sqrt(n, r),
    ensures
        floor_sqrt(n) == r,
{
    lemma_floor_sqrt_unique(n, floor_sqrt(n), r);
}

/// A Babylonian step never lands below the integer square root: whatever
/// the estimate, the square of the successor of the next estimate exceeds `n`.
/// With an estimate that is itself no lower, the step's sum also stays
/// within twice the estimate plus two.
pub proof fn lemma_babylonian_step_stays_above(n: int, y: int)
    requires
        1 <= n,
        1 <= y,
    ensures
        1 <= babylonian_step(n, y),
        (babylonian_step(n, y) + 1) * (babylonian_step(n, y) + 1) > n,
        (y + 1) * (y + 1) > n ==> 0 <= n / y <= y + 2,
{
    let q = n / y;
    let next = babylonian_step(n, y);
    vstd::arithmetic::div_mod::lemma_fundamental_div_mod(n, y);
    vstd::arithmetic::div_mod::lemma_mod_bound(n, y);
    vstd::arithmetic::div_mod::lemma_div_pos_is_pos(n, y);
    assert(n == y * q + n % y);
    assert(y * q <= n < y * q + y);
    assert(q >= 1 || y >= 2) by (nonlinear_arith)
        requires
            1 <= n,
            1 <= y,
            0 <= q,
            n < y * q + y,
    ;
    assert(4 * ((next + 1) * (next + 1)) > 4 * n) by (nonlinear_arith)
        requires
            0 <= q,
            1 <= y,
            n < y * q + y,
            2 * (next + 1) >= q + y + 1,
    ;
    if (y + 1) * (y + 1) > n {
        assert(q <= y + 2) by (nonlinear_arith)
            requires
                1 <= y,
                0 <= q,
                y * q <= n,
                n < (y + 1) * (y + 1),
        ;
    }
}

/// Where a Babylonian step does not go down, the estimate's square is at most `n`.
pub proof fn lemma_babylonian_fixpoint_is_below(n: int, z: int)
    requires
        0 <= n,
        1 <= z,
        babylonian_step(n, z) >= z,
    ensures
        z * z <= n,
{
    let q = n / z;
    vstd::arithmetic::div_mod::lemma_fundamental_div_mod(n, z);
    vstd::arithmetic::div_mod::lemma_mod_bound(n, z);
    assert(q >= z);
    assert(z * z <= n) by (nonlinear_arith)
        requires
            1 <= z,
            q >= z,
            n == z * q + n % z,
            0 <= n % z,
    ;
}

} // verus!
