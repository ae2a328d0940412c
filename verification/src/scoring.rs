//! The zero-sum faction scoring rule.
//!
//! Each faction has one designated target and one predator in a fixed
//! triangle; its score is the difference of their deposit shares, in
//! fixed-point units scaled by `SCORE_SCALE` and truncated toward zero.

use vstd::prelude::*;

use vstd::arithmetic::div_mod::{
    lemma_div_is_ordered, lemma_div_multiples_vanish, lemma_fundamental_div_mod, lemma_mod_bound,
};
use vstd::arithmetic::mul::lemma_mul_inequality;

use crate::state::SCORE_SCALE;

verus! {

/// Quotient of `n` by `d` rounded toward zero (unlike `/` on `int`, which
/// rounds toward negative infinity for a positive divisor).
pub open spec fn tdiv(n: int, d: int) -> int {
    if n >= 0 {
        n / d
    } else {
        -((-n) / d)
    }
}

/// The faction whose share feeds faction `fid`'s score positively.
pub open spec fn spec_target_of(fid: int) -> int {
    if fid == 0 {
        2
    } else if fid == 1 {
        0
    } else {
        1
    }
}

/// The faction whose share feeds faction `fid`'s score negatively.
pub open spec fn spec_predator_of(fid: int) -> int {
    if fid == 0 {
        1
    } else if fid == 1 {
        2
    } else {
        0
    }
}

/// Score of a faction whose target holds `target_tvl` and whose predator
/// holds `predator_tvl` out of a total of `total`: the share difference,
/// scaled by `SCORE_SCALE` and truncated toward zero.
pub open spec fn spec_score(target_tvl: u64, predator_tvl: u64, total: u64) -> int {
    tdiv((target_tvl - predator_tvl) * SCORE_SCALE, total as int)
}

/// The remainder `n - d * tdiv(n, d)` left by truncating division stays
/// strictly below `d` in magnitude.
pub proof fn lemma_tdiv_remainder(n: int, d: int)
    requires
        d > 0,
    ensures
        -(d - 1) <= n - d * tdiv(n, d) <= d - 1,
{
    if n >= 0 {
        lemma_fundamental_div_mod(n, d);
        lemma_mod_bound(n, d);
    } else {
        lemma_fundamental_div_mod(-n, d);
        lemma_mod_bound(-n, d);
        assert(d * tdiv(n, d) == -(d * ((-n) / d))) by (nonlinear_arith)
            requires
                tdiv(n, d) == -((-n) / d),
        ;
    }
}

/// A score never leaves the fixed-point range: its magnitude is at most
/// `SCORE_SCALE`.
pub proof fn lemma_score_bounds(target_tvl: u64, predator_tvl: u64, total: u64)
    requires
        total > 0,
        target_tvl <= total,
        predator_tvl <= total,
    ensures
        -(SCORE_SCALE as int) <= spec_score(target_tvl, predator_tvl, total) <= SCORE_SCALE as int,
{
    let d = total as int;
    let scale = SCORE_SCALE as int;
    if target_tvl >= predator_tvl {
        let diff = target_tvl - predator_tvl;
        lemma_mul_inequality(diff, d, scale);
        lemma_div_is_ordered(diff * scale, d * scale, d);
        lemma_div_multiples_vanish(scale, d);
        assert(diff * scale <= d * scale);
    } else {
        let diff = predator_tvl - target_tvl;
        lemma_mul_inequality(diff, d, scale);
        lemma_div_is_ordered(diff * scale, d * scale, d);
        lemma_div_multiples_vanish(scale, d);
        assert(diff * scale <= d * scale);
        assert(spec_score(target_tvl, predator_tvl, total) == -((diff * scale) / d));
    }
}

/// Zero-sum scoring: around the whole triangle the raw share differences
/// cancel exactly, and the three truncated scores sum to within the
/// truncation error bound, which is strictly below the number of factions.
pub proof fn lemma_scores_zero_sum(tvl_0: u64, tvl_1: u64, tvl_2: u64, total: u64)
    requires
        total > 0,
    ensures
        (tvl_2 - tvl_1) + (tvl_0 - tvl_2) + (tvl_1 - tvl_0) == 0,
        -3 < spec_score(tvl_2, tvl_1, total) + spec_score(tvl_0, tvl_2, total) + spec_score(
            tvl_1,
            tvl_0,
            total,
        ) < 3,
{
    let d = total as int;
    let scale = SCORE_SCALE as int;
    let n0 = (tvl_2 - tvl_1) * scale;
    let n1 = (tvl_0 - tvl_2) * scale;
    let n2 = (tvl_1 - tvl_0) * scale;
    assert(n0 + n1 + n2 == 0);
    let s0 = tdiv(n0, d);
    let s1 = tdiv(n1, d);
    let s2 = tdiv(n2, d);
    lemma_tdiv_remainder(n0, d);
    lemma_tdiv_remainder(n1, d);
    lemma_tdiv_remainder(n2, d);
    let sum = s0 + s1 + s2;
    assert(d * s0 + d * s1 + d * s2 == d * sum) by (nonlinear_arith)
        requires
            sum == s0 + s1 + s2,
    ;
    assert(-(3 * d - 3) <= d * sum <= 3 * d - 3);
    assert(-3 < sum < 3) by (nonlinear_arith)
        requires
            d > 0,
            -(3 * d - 3) <= d * sum <= 3 * d - 3,
    ;
}

/// Computes one faction's score.
///
/// The preconditions are the conservation invariant's shadow: each faction's
/// deposits never exceed the global total.
pub fn faction_score(target_tvl: u64, predator_tvl: u64, total: u64) -> (s: i64)
    requires
        total > 0,
        target_tvl <= total,
        predator_tvl <= total,
    ensures
        s == spec_score(target_tvl, predator_tvl, total),
        -(SCORE_SCALE as int) <= s <= SCORE_SCALE as int,
{
    proof {
        lemma_score_bounds(target_tvl, predator_tvl, total);
    }
    if target_tvl >= predator_tvl {
        let diff = (target_tvl - predator_tvl) as u128;
        let q = diff * (SCORE_SCALE as u128) / (total as u128);
        proof {
            lemma_mul_inequality(diff as int, total as int, SCORE_SCALE as int);
            lemma_div_is_ordered(
                diff as int * SCORE_SCALE as int,
                total as int * SCORE_SCALE as int,
                total as int,
            );
            lemma_div_multiples_vanish(SCORE_SCALE as int, total as int);
        }
        q as i64
    } else {
        let diff = (predator_tvl - target_tvl) as u128;
        let q = diff * (SCORE_SCALE as u128) / (total as u128);
        proof {
            lemma_mul_inequality(diff as int, total as int, SCORE_SCALE as int);
            lemma_div_is_ordered(
                diff as int * SCORE_SCALE as int,
                total as int * SCORE_SCALE as int,
                total as int,
            );
            lemma_div_multiples_vanish(SCORE_SCALE as int, total as int);
        }
        -(q as i64)
    }
}

} // verus!
