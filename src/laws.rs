//! Properties that hold across calls of the operations.
use vstd::prelude::*;
use crate::address::Address;
use crate::error::ErrorCode;
use crate::escrow::{custody_error, EscrowTokenAccount, ROYALTY_BPS};
use crate::fantasy_sports::{
    admin_update_result_spec, buy_pick_nft_spec, list_pick_nft_spec, place_bet_spec,
    release_spec, settle_claim_spec, AdminUpdateResult, BuyPickNFT, ListPickNFT, PlaceBet,
    SettleClaim,
};
use crate::pool::{lemma_bps_share_bounded, FEE_BPS};
use crate::pick::UserPick;
use crate::pool::BetPool;
use crate::settlement::{payout_of, side_total};

verus! {

/// The records after `bets` (gross amount and side) are offered to
/// `place_bet` in turn, each booked or refused.
pub open spec fn run_bets(ctx: PlaceBet, bets: Seq<(u64, bool)>) -> PlaceBet
    decreases bets.len(),
{
    if bets.len() == 0 {
        ctx
    } else {
        let bet = bets.last();
        place_bet_spec(run_bets(ctx, bets.drop_last()), bet.0, bet.1).0
    }
}

/// The gross amount of the bets among `bets` that were booked.
pub open spec fn booked_gross(ctx: PlaceBet, bets: Seq<(u64, bool)>) -> int
    decreases bets.len(),
{
    if bets.len() == 0 {
        0
    } else {
        let bet = bets.last();
        let booked = place_bet_spec(run_bets(ctx, bets.drop_last()), bet.0, bet.1).1 is Ok;
        booked_gross(ctx, bets.drop_last()) + if booked {
            bet.0 as int
        } else {
            0
        }
    }
}

/// Conservation of stakes: whatever bets are offered, the two side totals
/// and the accrued fees grow by exactly the gross amount of the bets that
/// were booked. For a freshly opened pool they add up to the sum of all gross
/// stakes at every point.
pub proof fn lemma_stake_conservation(ctx: PlaceBet, bets: Seq<(u64, bool)>)
    ensures
        run_bets(ctx, bets).bet_pool.holdings() == ctx.bet_pool.holdings() + booked_gross(
            ctx,
            bets,
        ),
    decreases bets.len(),
{
    if bets.len() > 0 {
        let bet = bets.last();
        lemma_stake_conservation(ctx, bets.drop_last());
        lemma_bps_share_bounded(bet.0, FEE_BPS);
    }
}

/// A claim succeeds at most once: right after a successful claim, the same
/// claim is refused as already claimed and pays nothing.
pub proof fn lemma_claim_idempotent(ctx: SettleClaim)
    ensures
        ({
            let (after, first) = settle_claim_spec(ctx);
            first is Ok ==> settle_claim_spec(after) == (after, Err::<u64, ErrorCode>(
                ErrorCode::AlreadyClaimed,
            ))
        }),
{
}

/// The receipt is claimed by its owner, against its own settled pool, and
/// neither claimed before nor listed for sale.
pub open spec fn claim_admissible(ctx: SettleClaim) -> bool {
    &&& ctx.user_pick.pool == ctx.bet_pool.pool_key()
    &&& ctx.bet_pool.result_published
    &&& !ctx.user_pick.claimed
    &&& ctx.recipient == ctx.user_pick.owner
    &&& !ctx.user_pick.for_sale
}

/// One-sided refund: in a pool where one side has no stake, an admissible
/// claim refunds exactly the receipt's amount, whatever final stat was
/// published.
pub proof fn lemma_one_sided_refund(ctx: SettleClaim, final_stat: u32)
    requires
        ctx.bet_pool.is_one_sided(),
    ensures
        ({
            let settled = SettleClaim { bet_pool: ctx.bet_pool.with_result(final_stat), ..ctx };
            &&& payout_of(settled.bet_pool, settled.user_pick) == ctx.user_pick.bet_amount
            &&& claim_admissible(settled) ==> settle_claim_spec(settled).1 == Ok::<u64, ErrorCode>(
                ctx.user_pick.bet_amount,
            )
        }),
{
}

/// Push: in a pool with stake on both sides whose final stat equals the
/// line, no claim pays anything, on either side.
pub proof fn lemma_push_pays_nothing(ctx: SettleClaim)
    requires
        !ctx.bet_pool.is_one_sided(),
        ctx.bet_pool.final_stat == ctx.bet_pool.stat_line,
    ensures
        payout_of(ctx.bet_pool, ctx.user_pick) == 0,
        claim_admissible(ctx) ==> settle_claim_spec(ctx).1 == Ok::<u64, ErrorCode>(0),
        settle_claim_spec(ctx).1 is Ok ==> settle_claim_spec(ctx).1 == Ok::<u64, ErrorCode>(0),
{
}

/// A pool is settled once: after a successful publication a second one is
/// refused as already published and leaves the result as the first set it;
/// the pool's authority succeeds on an unsettled pool.
pub proof fn lemma_single_settlement(ctx: AdminUpdateResult, first_stat: u32, second_stat: u32)
    ensures
        ({
            let (after_first, first) = admin_update_result_spec(ctx, first_stat);
            let (after_second, second) = admin_update_result_spec(after_first, second_stat);
            &&& ctx.authority == ctx.bet_pool.authority && !ctx.bet_pool.result_published
                ==> first is Ok
            &&& first is Ok ==> second == Err::<(), ErrorCode>(ErrorCode::AlreadyPublished)
                && after_second == after_first
        }),
{
}

/// Listing a receipt and then delisting it, with the ownership token held in
/// escrow alone in between, succeeds and gives back the receipt as it was.
pub proof fn lemma_list_then_delist(ctx: ListPickNFT, escrow: EscrowTokenAccount)
    requires
        custody_error(escrow) is None,
    ensures
        ({
            let (listed, res) = list_pick_nft_spec(ctx);
            res is Ok ==> release_spec(ctx.seller, listed.user_pick, escrow) == (
                ctx.user_pick,
                Ok::<(), ErrorCode>(()),
            )
        }),
{
}

/// Listing a receipt and then selling it, with the ownership token held in
/// escrow alone in between, succeeds: the buyer becomes the owner, the
/// receipt leaves the market, and the seller's part and the royalty add up
/// to the price.
pub proof fn lemma_list_then_buy(
    ctx: ListPickNFT,
    buyer: Address,
    escrow: EscrowTokenAccount,
    sale_price: u64,
)
    requires
        custody_error(escrow) is None,
    ensures
        ({
            let (listed, res) = list_pick_nft_spec(ctx);
            let sale = BuyPickNFT {
                buyer,
                user_pick: listed.user_pick,
                pool: listed.pool,
                escrow_token_account: escrow,
            };
            let (bought, paid) = buy_pick_nft_spec(sale, sale_price);
            res is Ok ==> {
                &&& paid is Ok
                &&& paid->Ok_0.seller == ctx.seller
                &&& paid->Ok_0.seller_amount + paid->Ok_0.royalty == sale_price
                &&& bought.user_pick.owner == buyer
                &&& !bought.user_pick.for_sale
            }
        }),
{
    lemma_bps_share_bounded(sale_price, ROYALTY_BPS);
}

/// The stake of the receipts among `picks` that are on `side`.
pub open spec fn staked_on(picks: Seq<UserPick>, side: bool) -> int
    decreases picks.len(),
{
    if picks.len() == 0 {
        0
    } else {
        staked_on(picks.drop_last(), side) + if picks.last().pick_side == side {
            picks.last().bet_amount as int
        } else {
            0
        }
    }
}

/// What claiming each of `picks` against `pool` pays in all.
pub open spec fn total_payout(pool: BetPool, picks: Seq<UserPick>) -> int
    decreases picks.len(),
{
    if picks.len() == 0 {
        0
    } else {
        total_payout(pool, picks.drop_last()) + payout_of(pool, picks.last())
    }
}

proof fn lemma_total_payout_shape(pool: BetPool, picks: Seq<UserPick>)
    ensures
        staked_on(picks, true) >= 0,
        staked_on(picks, false) >= 0,
        total_payout(pool, picks) >= 0,
        pool.is_one_sided() ==> total_payout(pool, picks) == staked_on(picks, true) + staked_on(
            picks,
            false,
        ),
        !pool.is_one_sided() && pool.final_stat == pool.stat_line ==> total_payout(pool, picks)
            == 0,
        !pool.is_one_sided() && pool.final_stat != pool.stat_line ==> {
            let side = pool.final_stat > pool.stat_line;
            total_payout(pool, picks) * side_total(pool, side) <= staked_on(picks, side) * (
            pool.total_over_amount + pool.total_under_amount)
        },
    decreases picks.len(),
{
    if picks.len() > 0 {
        let rest = picks.drop_last();
        let pick = picks.last();
        lemma_total_payout_shape(pool, rest);
        if !pool.is_one_sided() && pool.final_stat != pool.stat_line {
            let side = pool.final_stat > pool.stat_line;
            let w = side_total(pool, side) as int;
            let t = pool.total_over_amount + pool.total_under_amount;
            if pick.pick_side == side {
                let x = pick.bet_amount * t;
                assert(x >= 0) by (nonlinear_arith)
                    requires
                        x == pick.bet_amount * t,
                        pick.bet_amount >= 0,
                        t >= 0,
                ;
                assert((x / w) * w <= x) by (nonlinear_arith)
                    requires
                        w > 0,
                        x >= 0,
                ;
                assert(payout_of(pool, pick) == x / w);
                assert(payout_of(pool, pick) >= 0) by (nonlinear_arith)
                    requires
                        w > 0,
                        x >= 0,
                        payout_of(pool, pick) == x / w,
                ;
                assert(total_payout(pool, picks) * w == total_payout(pool, rest) * w + (x / w)
                    * w) by (nonlinear_arith)
                    requires
                        total_payout(pool, picks) == total_payout(pool, rest) + x / w,
                ;
                assert(staked_on(picks, side) * t == staked_on(rest, side) * t + x) by (
                nonlinear_arith)
                    requires
                        staked_on(picks, side) == staked_on(rest, side) + pick.bet_amount,
                        x == pick.bet_amount * t,
                ;
            }
        }
    }
}

/// Solvency: for receipts whose stakes on each side add up to no more than
/// that side's total, the claims pay out no more than the stakes of both
/// sides together.
pub proof fn lemma_payouts_within_pot(pool: BetPool, picks: Seq<UserPick>)
    requires
        staked_on(picks, true) <= pool.total_over_amount,
        staked_on(picks, false) <= pool.total_under_amount,
    ensures
        total_payout(pool, picks) <= pool.total_over_amount + pool.total_under_amount,
{
    lemma_total_payout_shape(pool, picks);
    if !pool.is_one_sided() && pool.final_stat != pool.stat_line {
        let side = pool.final_stat > pool.stat_line;
        let w = side_total(pool, side) as int;
        let t = pool.total_over_amount + pool.total_under_amount;
        let p = total_payout(pool, picks);
        let s = staked_on(picks, side);
        assert(p <= t) by (nonlinear_arith)
            requires
                p * w <= s * t,
                s <= w,
                w > 0,
                t >= 0,
                s >= 0,
        ;
    }
}

} // verus!
