use vstd::prelude::*;

use vstd::arithmetic::div_mod::{
    lemma_div_is_ordered, lemma_div_multiples_vanish, lemma_div_pos_is_pos,
    lemma_fundamental_div_mod,
};
use vstd::arithmetic::mul::{lemma_mul_inequality, lemma_mul_is_distributive_add_other_way};

use crate::models::AmortizationStrategy;

verus! {

/// The triangular number `n * (n + 1) / 2`: the sum of the accelerated
/// strategy's weights `n, n-1, ..., 1`.
pub open spec fn triangular(n: int) -> int {
    n * (n + 1) / 2
}

/// The sum of the first `k` accelerated weights `n, n-1, ..., n-k+1`.
pub open spec fn weight_sum(n: int, k: int) -> int
    decreases k,
{
    if k <= 0 {
        0
    } else {
        weight_sum(n, k - 1) + (n - (k - 1))
    }
}

/// What the accelerated strategy has allocated to the first `k` periods:
/// the sum of the truncated per-period quotients.
pub open spec fn accel_allocated(base: int, n: int, k: int) -> int
    decreases k,
{
    if k <= 0 {
        0
    } else {
        accel_allocated(base, n, k - 1) + base * (n - (k - 1)) / triangular(n)
    }
}

/// The depreciation amount a schedule posts for zero-based period `i` of
/// `n`, with depreciable base `base`. Zero outside `[0, n)` or for a
/// non-positive base. The last period absorbs all truncation drift, so the
/// amounts of the `n` periods always sum to exactly `base`.
pub open spec fn spec_depreciation_amount(
    strategy: AmortizationStrategy,
    base: int,
    n: int,
    i: int,
) -> int {
    if base <= 0 || n <= 0 || i < 0 || i >= n {
        0
    } else {
        match strategy {
            AmortizationStrategy::Linear => {
                if i == n - 1 {
                    base / n + base % n
                } else {
                    base / n
                }
            },
            AmortizationStrategy::Accelerated => {
                if i == n - 1 {
                    base - accel_allocated(base, n, n - 1)
                } else {
                    base * (n - i) / triangular(n)
                }
            },
        }
    }
}

/// The sum of the depreciation amounts of periods `0, ..., k-1`.
pub open spec fn spec_depreciation_total(
    strategy: AmortizationStrategy,
    base: int,
    n: int,
    k: int,
) -> int
    decreases k,
{
    if k <= 0 {
        0
    } else {
        spec_depreciation_total(strategy, base, n, k - 1) + spec_depreciation_amount(
            strategy,
            base,
            n,
            k - 1,
        )
    }
}

proof fn lemma_weight_sum_closed(n: int, k: int)
    requires
        0 <= k,
    ensures
        2 * weight_sum(n, k) == (2 * n - k + 1) * k,
    decreases k,
{
    if k == 0 {
        assert((2 * n - k + 1) * k == 0) by (nonlinear_arith)
            requires
                k == 0,
        ;
    } else {
        lemma_weight_sum_closed(n, k - 1);
        assert(weight_sum(n, k) == weight_sum(n, k - 1) + (n - (k - 1)));
        assert(2 * weight_sum(n, k) == (2 * n - k + 1) * k) by (nonlinear_arith)
            requires
                2 * weight_sum(n, k - 1) == (2 * n - (k - 1) + 1) * (k - 1),
                weight_sum(n, k) == weight_sum(n, k - 1) + (n - (k - 1)),
        ;
    }
}

proof fn lemma_weight_sum_full(n: int)
    requires
        n >= 1,
    ensures
        weight_sum(n, n) == triangular(n),
        triangular(n) >= 1,
{
    lemma_weight_sum_closed(n, n);
    assert((2 * n - n + 1) * n == n * (n + 1)) by (nonlinear_arith);
    lemma_div_multiples_vanish(weight_sum(n, n), 2);
    assert(weight_sum(n, n) >= 1) by {
        assert(weight_sum(n, 0) == 0);
        assert(weight_sum(n, 1) == n);
        lemma_weight_sum_mono(n, 1, n);
    }
}

proof fn lemma_weight_sum_mono(n: int, k1: int, k2: int)
    requires
        0 <= k1 <= k2 <= n,
    ensures
        weight_sum(n, k1) <= weight_sum(n, k2),
    decreases k2,
{
    if k1 < k2 {
        lemma_weight_sum_mono(n, k1, k2 - 1);
    }
}

/// What the accelerated strategy allocates before the last period never
/// exceeds the base: scaled by the weight denominator, it is bounded by the
/// base times the weights consumed so far.
proof fn lemma_accel_allocated_bound(base: int, n: int, k: int)
    requires
        base >= 0,
        n >= 1,
        0 <= k <= n,
    ensures
        0 <= accel_allocated(base, n, k),
        accel_allocated(base, n, k) * triangular(n) <= base * weight_sum(n, k),
        accel_allocated(base, n, k) <= base,
    decreases k,
{
    lemma_weight_sum_full(n);
    let t = triangular(n);
    if k == 0 {
        assert(accel_allocated(base, n, 0) * t == 0) by (nonlinear_arith);
    } else {
        lemma_accel_allocated_bound(base, n, k - 1);
        let prev = accel_allocated(base, n, k - 1);
        let term = base * (n - (k - 1)) / t;
        assert(base * (n - (k - 1)) >= 0) by (nonlinear_arith)
            requires
                base >= 0,
                k <= n,
        ;
        lemma_div_pos_is_pos(base * (n - (k - 1)), t);
        // term * t <= base * (n - (k - 1)), since the quotient is truncated
        lemma_fundamental_div_mod(base * (n - (k - 1)), t);
        vstd::arithmetic::div_mod::lemma_mod_bound(base * (n - (k - 1)), t);
        assert((prev + term) * t == prev * t + term * t) by {
            lemma_mul_is_distributive_add_other_way(t, prev, term);
        }
        assert(term * t <= base * (n - (k - 1))) by (nonlinear_arith)
            requires
                base * (n - (k - 1)) == t * term + (base * (n - (k - 1))) % t,
                (base * (n - (k - 1))) % t >= 0,
        ;
        assert(base * weight_sum(n, k - 1) + base * (n - (k - 1)) == base * weight_sum(n, k)) by {
            assert(weight_sum(n, k) == weight_sum(n, k - 1) + (n - (k - 1)));
            assert(base * (weight_sum(n, k - 1) + (n - (k - 1))) == base * weight_sum(n, k - 1)
                + base * (n - (k - 1))) by (nonlinear_arith);
        }
        // allocated <= base: cancel the positive factor t
        lemma_weight_sum_mono(n, k, n);
        lemma_mul_inequality(weight_sum(n, k), t, base);
        assert(base * weight_sum(n, k) <= base * t) by (nonlinear_arith)
            requires
                base >= 0,
                weight_sum(n, k) <= t,
        ;
        assert(accel_allocated(base, n, k) <= base) by (nonlinear_arith)
            requires
                accel_allocated(base, n, k) * t <= base * t,
                t >= 1,
        ;
    }
}

proof fn lemma_linear_partial(base: int, n: int, k: int)
    requires
        base > 0,
        n >= 1,
        0 <= k <= n - 1,
    ensures
        spec_depreciation_total(AmortizationStrategy::Linear, base, n, k) == k * (base / n),
    decreases k,
{
    if k == 0 {
        assert(0 * (base / n) == 0) by (nonlinear_arith);
    } else {
        lemma_linear_partial(base, n, k - 1);
        assert((k - 1) * (base / n) + base / n == k * (base / n)) by (nonlinear_arith);
    }
}

proof fn lemma_accel_partial(base: int, n: int, k: int)
    requires
        base > 0,
        n >= 1,
        0 <= k <= n - 1,
    ensures
        spec_depreciation_total(AmortizationStrategy::Accelerated, base, n, k) == accel_allocated(
            base,
            n,
            k,
        ),
    decreases k,
{
    if k > 0 {
        lemma_accel_partial(base, n, k - 1);
    }
}

/// The depreciation sum law: over a whole schedule of `n` periods the
/// posted amounts sum to exactly the depreciable base, for either strategy,
/// regardless of per-period truncation.
pub proof fn lemma_depreciation_total_is_base(strategy: AmortizationStrategy, base: int, n: int)
    requires
        base >= 0,
        n >= 1,
    ensures
        spec_depreciation_total(strategy, base, n, n) == base,
{
    if base == 0 {
        lemma_depreciation_total_zero_base(strategy, base, n, n);
    } else {
        match strategy {
            AmortizationStrategy::Linear => {
                lemma_linear_partial(base, n, n - 1);
                lemma_fundamental_div_mod(base, n);
                assert((n - 1) * (base / n) + (base / n + base % n) == n * (base / n) + base % n)
                    by (nonlinear_arith);
            },
            AmortizationStrategy::Accelerated => {
                lemma_accel_partial(base, n, n - 1);
            },
        }
    }
}

proof fn lemma_depreciation_total_zero_base(
    strategy: AmortizationStrategy,
    base: int,
    n: int,
    k: int,
)
    requires
        base <= 0,
    ensures
        spec_depreciation_total(strategy, base, n, k) == 0,
    decreases k,
{
    if k > 0 {
        lemma_depreciation_total_zero_base(strategy, base, n, k - 1);
    }
}

/// Every per-period amount is non-negative and never exceeds the base.
pub proof fn lemma_depreciation_amount_bounds(
    strategy: AmortizationStrategy,
    base: int,
    n: int,
    i: int,
)
    ensures
        0 <= spec_depreciation_amount(strategy, base, n, i),
        spec_depreciation_amount(strategy, base, n, i) <= if base > 0 {
            base
        } else {
            0
        },
{
    if base > 0 && n > 0 && 0 <= i < n {
        lemma_weight_sum_full(n);
        let t = triangular(n);
        match strategy {
            AmortizationStrategy::Linear => {
                lemma_div_pos_is_pos(base, n);
                lemma_fundamental_div_mod(base, n);
                vstd::arithmetic::div_mod::lemma_mod_bound(base, n);
                if i == n - 1 {
                    assert(base / n + base % n <= base) by (nonlinear_arith)
                        requires
                            base == n * (base / n) + base % n,
                            n >= 1,
                            base / n >= 0,
                    ;
                } else {
                    lemma_div_is_ordered(base, base, n);
                    assert(base / n <= base) by {
                        vstd::arithmetic::div_mod::lemma_div_nonincreasing(base, n);
                    }
                }
            },
            AmortizationStrategy::Accelerated => {
                if i == n - 1 {
                    lemma_accel_allocated_bound(base, n, n - 1);
                } else {
                    assert(base * (n - i) >= 0) by (nonlinear_arith)
                        requires
                            base > 0,
                            i < n,
                    ;
                    lemma_div_pos_is_pos(base * (n - i), t);
                    assert(n - i <= t) by {
                        assert(weight_sum(n, 0) == 0);
                        assert(weight_sum(n, 1) == n);
                        lemma_weight_sum_mono(n, 1, n);
                    }
                    assert(base * (n - i) <= base * t) by (nonlinear_arith)
                        requires
                            base > 0,
                            n - i <= t,
                    ;
                    lemma_div_is_ordered(base * (n - i), base * t, t);
                    lemma_div_multiples_vanish(base, t);
                    assert(base * t / t == base) by {
                        assert(base * t == t * base) by (nonlinear_arith);
                    }
                }
            },
        }
    }
}

/// Computes the depreciation amount a schedule posts for zero-based period
/// `period_index`, out of `total_periods`, on a depreciable base of
/// `depreciable_cents`, under the given strategy.
pub fn calculate_depreciation_amount(
    strategy: &AmortizationStrategy,
    depreciable_cents: i64,
    total_periods: i64,
    period_index: i64,
) -> (r: i64)
    ensures
        r == spec_depreciation_amount(
            *strategy,
            depreciable_cents as int,
            total_periods as int,
            period_index as int,
        ),
        0 <= r <= if depreciable_cents > 0 {
            depreciable_cents
        } else {
            0
        },
{
    proof {
        lemma_depreciation_amount_bounds(
            *strategy,
            depreciable_cents as int,
            total_periods as int,
            period_index as int,
        );
    }
    if depreciable_cents <= 0 || total_periods <= 0 || period_index < 0 || period_index
        >= total_periods {
        return 0;
    }
    let base = depreciable_cents as u128;
    let n = total_periods as u128;
    match strategy {
        AmortizationStrategy::Linear => {
            let q = base / n;
            if period_index == total_periods - 1 {
                let rem = base % n;
                (q + rem) as i64
            } else {
                q as i64
            }
        },
        AmortizationStrategy::Accelerated => {
            proof {
                lemma_weight_sum_full(total_periods as int);
                assert(n * (n + 1) <= u128::MAX) by (nonlinear_arith)
                    requires
                        0 < n <= i64::MAX,
                ;
            }
            let t = n * (n + 1) / 2;
            if period_index == total_periods - 1 {
                let k_end = (total_periods - 1) as u64;
                let mut allocated: u128 = 0;
                let mut j: u64 = 0;
                while j < k_end
                    invariant
                        k_end == total_periods - 1,
                        0 < n == total_periods <= i64::MAX,
                        0 < base == depreciable_cents <= i64::MAX,
                        t == triangular(n as int),
                        t >= 1,
                        j <= k_end,
                        allocated == accel_allocated(base as int, n as int, j as int),
                        allocated <= base,
                    decreases k_end - j,
                {
                    let w = n - (j as u128);
                    proof {
                        assert(base * w <= u128::MAX) by (nonlinear_arith)
                            requires
                                0 <= base <= i64::MAX,
                                0 <= w <= i64::MAX,
                        ;
                        lemma_accel_allocated_bound(base as int, n as int, j as int + 1);
                    }
                    let term = base * w / t;
                    allocated = allocated + term;
                    j = j + 1;
                }
                (base - allocated) as i64
            } else {
                let w = n - (period_index as u128);
                proof {
                    assert(base * w <= u128::MAX) by (nonlinear_arith)
                        requires
                            0 <= base <= i64::MAX,
                            0 <= w <= i64::MAX,
                    ;
                }
                (base * w / t) as i64
            }
        },
    }
}

} // verus!
