use vstd::prelude::*;
use crate::pick::UserPick;
use crate::pool::BetPool;

verus! {

/// The net stake on `side`.
pub open spec fn side_total(pool: BetPool, side: bool) -> u64 {
    if side {
        pool.total_over_amount
    } else {
        pool.total_under_amount
    }
}

/// What the claim of `pick` against the settled `pool` pays.
///
/// A pool where one side has no stake refunds every receipt. Otherwise a
/// final stat equal to the line pays nothing to anyone, a losing receipt pays
/// nothing, and a winning receipt takes its share of both sides in
/// proportion to its stake, rounded down.
pub open spec fn payout_of(pool: BetPool, pick: UserPick) -> int {
    if pool.is_one_sided() {
        pick.bet_amount as int
    } else if pool.final_stat == pool.stat_line {
        0
    } else if pick.pick_side != (pool.final_stat > pool.stat_line) {
        0
    } else {
        (pick.bet_amount * (pool.total_over_amount + pool.total_under_amount)) / (side_total(
            pool,
            pick.pick_side,
        ) as int)
    }
}

/// The payout of a claim, or `None` where it does not fit in 64 bits.
pub fn compute_payout(pool: &BetPool, pick: &UserPick) -> (r: Option<u64>)
    ensures
        match r {
            Some(p) => p == payout_of(*pool, *pick),
            None => payout_of(*pool, *pick) > u64::MAX,
        },
{
    if pool.total_over_amount == 0 || pool.total_under_amount == 0 {
        return Some(pick.bet_amount);
    }
    if pool.final_stat == pool.stat_line {
        return Some(0);
    }
    let over_wins = pool.final_stat > pool.stat_line;
    if pick.pick_side != over_wins {
        return Some(0);
    }
    let (winners, losers) = if over_wins {
        (pool.total_over_amount, pool.total_under_amount)
    } else {
        (pool.total_under_amount, pool.total_over_amount)
    };
    let a = pick.bet_amount;
    proof {
        assert(a * losers <= u64::MAX * u64::MAX) by (nonlinear_arith)
            requires
                a <= u64::MAX,
                losers <= u64::MAX,
        ;
        assert((a * losers) / (winners as int) <= a * losers) by (nonlinear_arith)
            requires
                winners > 0,
                a * losers >= 0,
        ;
        assert(a * (winners + losers) == a * losers + a * winners) by (nonlinear_arith);
        vstd::arithmetic::div_mod::lemma_hoist_over_denominator(
            a * losers,
            a as int,
            winners as nat,
        );
    }
    let share: u128 = (a as u128) + (a as u128) * (losers as u128) / (winners as u128);
    if share > u64::MAX as u128 {
        None
    } else {
        Some(share as u64)
    }
}

} // verus!
