//! Double-precision arithmetic on counts, worked out on integers.
//!
//! Byte counts are shown in double precision, where an integer keeps its 53 leading bits and is
//! otherwise the nearest value that has no more. A tie goes to the even neighbour.

use vstd::prelude::*;

verus! {

/// Every integer below this bound (2^53) is a double-precision value.
pub const EXACT_BOUND: u128 = 9007199254740992;

/// Bound on the integers that are rounded here (2^120).
pub const WIDE_BOUND: u128 = 0x100_0000_0000_0000_0000_0000_0000_0000;

/// `n / d` rounded to the nearest integer, a tie going to the even one.
pub open spec fn round_div(n: nat, d: nat) -> nat
    recommends
        d > 0,
{
    let q = n / d;
    let r = n % d;
    if 2 * r > d || (2 * r == d && q % 2 == 1) {
        q + 1
    } else {
        q
    }
}

/// The distance between neighbouring double-precision values at `n`.
pub open spec fn double_spacing(n: nat) -> nat
    decreases n,
{
    if n < EXACT_BOUND {
        1
    } else {
        2 * double_spacing(n / 2)
    }
}

/// The double-precision value nearest to `n`.
pub open spec fn nearest_double(n: nat) -> nat {
    round_div(n, double_spacing(n)) * double_spacing(n)
}

/// Rounds a quotient of integers.
pub(crate) fn rounded_quotient(n: u128, d: u128) -> (r: u128)
    requires
        0 < d,
        d <= u128::MAX / 4,
    ensures
        r == round_div(n as nat, d as nat),
        r <= n / d + 1,
{
    let q: u128 = n / d;
    let r: u128 = n % d;
    proof {
        assert(0 <= n % d < d) by (nonlinear_arith)
            requires
                d > 0,
        ;
        if 2 * r > d || 2 * r == d {
            assert(d >= 2 && n / d <= u128::MAX / 2) by {
                assert(n / d * 2 <= n) by (nonlinear_arith)
                    requires
                        d >= 2,
                ;
            }
        }
    }
    if 2 * r > d || (2 * r == d && q % 2 == 1) {
        q + 1
    } else {
        q
    }
}

fn spacing_at(n: u128) -> (r: u128)
    requires
        n < WIDE_BOUND,
    ensures
        r == double_spacing(n as nat),
        1 <= r,
        r <= n || r == 1,
    decreases n,
{
    if n < EXACT_BOUND {
        1
    } else {
        let half: u128 = spacing_at(n / 2);
        2 * half
    }
}

/// Rounds an integer to double precision.
pub(crate) fn to_nearest_double(n: u128) -> (r: u128)
    requires
        n < WIDE_BOUND,
    ensures
        r == nearest_double(n as nat),
        r <= 2 * n,
{
    let spacing: u128 = spacing_at(n);
    let count: u128 = rounded_quotient(n, spacing);
    proof {
        assert(n / spacing * spacing <= n) by (nonlinear_arith)
            requires
                spacing > 0,
        ;
        assert(count * spacing <= (n / spacing + 1) * spacing) by (nonlinear_arith)
            requires
                count <= n / spacing + 1,
                spacing > 0,
        ;
        assert((n / spacing + 1) * spacing == n / spacing * spacing + spacing) by (nonlinear_arith);
        if n == 0 {
            assert(count == 0);
            assert(count * spacing == 0);
        }
    }
    count * spacing
}

/// Integers below 2^53 are kept as they are.
pub proof fn law_small_integers_are_exact(n: nat)
    requires
        n < EXACT_BOUND,
    ensures
        nearest_double(n) == n,
{
    lemma_round_div_exact(n, 1);
}

proof fn lemma_round_div_exact(q: nat, d: nat)
    requires
        d > 0,
    ensures
        round_div(q * d, d) == q,
{
    assert(q * d / d == q && (q * d) % d == 0) by (nonlinear_arith)
        requires
            d > 0,
    ;
}

} // verus!
