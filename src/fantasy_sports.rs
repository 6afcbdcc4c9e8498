//! The operations of the venue. Each takes the records it reads and writes in
//! a context, changes them only on success, and returns the value transfers
//! that the host performs.
use vstd::prelude::*;
use crate::address::Address;
use crate::error::ErrorCode;
use crate::escrow::{check_custody, custody_error, royalty_split, EscrowTokenAccount, SaleSplit, ROYALTY_BPS};
use crate::pick::{UserNonce, UserPick};
use crate::pool::{bps_of, bps_share, decide_outcome, fee_of, net_of, BetPool, Outcome, PoolKey, FEE_BPS};
use crate::settlement::{compute_payout, payout_of};
use crate::registry::PoolRegistry;

verus! {

/// Records and facts that opening a pool needs.
#[derive(Debug)]
pub struct InitializeBetPool {
    /// The principal opening the pool.
    pub admin: Address,
    /// The platform administrator, fixed at deployment.
    pub platform_admin: Address,
    pub pools: PoolRegistry,
    /// Custody record for the new pool's fees.
    pub fee_vault: Address,
    /// The current time.
    pub now: i64,
}

/// The pool that opening a proposition creates.
pub open spec fn opened_pool(
    ctx: InitializeBetPool,
    fixture_id: u64,
    player_id: Address,
    stat_name: [u8; 32],
    stat_line: u32,
    sport_name: [u8; 32],
    betting_deadline: i64,
) -> BetPool {
    BetPool {
        fixture_id,
        sport_name,
        player_id,
        stat_name,
        stat_line,
        deadline: betting_deadline,
        total_over_amount: 0,
        total_under_amount: 0,
        fees_accrued: 0,
        fee_vault: ctx.fee_vault,
        authority: ctx.admin,
        result: Outcome::Pending,
        result_published: false,
        final_stat: 0,
    }
}

/// Why opening a pool is refused, if it is.
pub open spec fn initialize_error(
    ctx: InitializeBetPool,
    key: PoolKey,
    betting_deadline: i64,
) -> Option<ErrorCode> {
    if ctx.admin != ctx.platform_admin {
        Some(ErrorCode::Unauthorized)
    } else if key.fixture_id == 0 {
        Some(ErrorCode::InvalidFixture)
    } else if key.stat_line == 0 {
        Some(ErrorCode::InvalidStatLine)
    } else if betting_deadline <= ctx.now {
        Some(ErrorCode::DeadlinePassed)
    } else if ctx.pools.contains_key(key) {
        Some(ErrorCode::AlreadyExists)
    } else {
        None
    }
}

/// Opens the pool of a proposition, with no stake and no result.
pub fn initialize_bet_pool(
    ctx: &mut InitializeBetPool,
    fixture_id: u64,
    player_id: Address,
    stat_name: [u8; 32],
    stat_line: u32,
    sport_name: [u8; 32],
    betting_deadline: i64,
) -> (r: Result<(), ErrorCode>)
    ensures
        ({
            let key = PoolKey { fixture_id, sport_name, player_id, stat_name, stat_line };
            match initialize_error(*old(ctx), key, betting_deadline) {
                Some(e) => r == Err::<(), ErrorCode>(e) && *final(ctx) == *old(ctx),
                None => {
                    &&& r is Ok
                    &&& final(ctx).pools@ == old(ctx).pools@.push(
                        opened_pool(
                            *old(ctx),
                            fixture_id,
                            player_id,
                            stat_name,
                            stat_line,
                            sport_name,
                            betting_deadline,
                        ),
                    )
                    &&& *final(ctx) == (InitializeBetPool { pools: final(ctx).pools, ..*old(ctx) })
                },
            }
        }),
        old(ctx).pools.wf() ==> final(ctx).pools.wf(),
{
    if ctx.admin != ctx.platform_admin {
        return Err(ErrorCode::Unauthorized);
    }
    if fixture_id == 0 {
        return Err(ErrorCode::InvalidFixture);
    }
    if stat_line == 0 {
        return Err(ErrorCode::InvalidStatLine);
    }
    if betting_deadline <= ctx.now {
        return Err(ErrorCode::DeadlinePassed);
    }
    let key = PoolKey { fixture_id, sport_name, player_id, stat_name, stat_line };
    if ctx.pools.find(&key).is_some() {
        return Err(ErrorCode::AlreadyExists);
    }
    let pool = BetPool {
        fixture_id,
        sport_name,
        player_id,
        stat_name,
        stat_line,
        deadline: betting_deadline,
        total_over_amount: 0,
        total_under_amount: 0,
        fees_accrued: 0,
        fee_vault: ctx.fee_vault,
        authority: ctx.admin,
        result: Outcome::Pending,
        result_published: false,
        final_stat: 0,
    };
    ctx.pools.insert(pool);
    Ok(())
}

/// Records that placing a bet reads and writes.
#[derive(Clone, Copy, Debug)]
pub struct PlaceBet {
    pub bettor: Address,
    pub bet_pool: BetPool,
    /// The bettor's count of bets in this pool.
    pub user_nonce: UserNonce,
    /// The fresh ownership token of the new receipt.
    pub mint: Address,
    /// The fee vault handed in; it must be the pool's.
    pub fee_vault: Address,
    /// The current time.
    pub now: i64,
}

/// A booked bet: the new receipt, and the fee taken from the gross stake.
/// The host moves `fee` to the fee vault, the receipt's amount to the stake
/// pot, and issues the ownership token to the bettor.
#[derive(Clone, Copy, Debug)]
pub struct PlacedBet {
    pub user_pick: UserPick,
    pub fee: u64,
}

/// The records after a bet of `bet_amount` on `pick_side`, and its result.
pub open spec fn place_bet_spec(ctx: PlaceBet, bet_amount: u64, pick_side: bool) -> (
    PlaceBet,
    Result<PlacedBet, ErrorCode>,
) {
    if ctx.fee_vault != ctx.bet_pool.fee_vault {
        (ctx, Err(ErrorCode::InvalidFeeVault))
    } else if ctx.now >= ctx.bet_pool.deadline || ctx.bet_pool.result_published {
        (ctx, Err(ErrorCode::BettingClosed))
    } else if ctx.user_nonce.count == u64::MAX || !ctx.bet_pool.accepts_bet(bet_amount, pick_side) {
        (ctx, Err(ErrorCode::ArithmeticOverflow))
    } else {
        (
            PlaceBet {
                bet_pool: ctx.bet_pool.with_bet(bet_amount, pick_side),
                user_nonce: UserNonce { count: (ctx.user_nonce.count + 1) as u64 },
                ..ctx
            },
            Ok(
                PlacedBet {
                    user_pick: UserPick {
                        owner: ctx.bettor,
                        bet_amount: net_of(bet_amount) as u64,
                        pick_side,
                        pool: ctx.bet_pool.pool_key(),
                        claimed: false,
                        mint: ctx.mint,
                        for_sale: false,
                    },
                    fee: fee_of(bet_amount) as u64,
                },
            ),
        )
    }
}

/// Books a gross stake of `bet_amount` on `pick_side` (`true` for over): the
/// fee goes to the pool's fees, the rest to the chosen side and to a new
/// receipt owned by the bettor.
pub fn place_bet(ctx: &mut PlaceBet, bet_amount: u64, pick_side: bool) -> (r: Result<
    PlacedBet,
    ErrorCode,
>)
    ensures
        (*final(ctx), r) == place_bet_spec(*old(ctx), bet_amount, pick_side),
        old(ctx).bet_pool.wf() ==> final(ctx).bet_pool.wf(),
{
    if ctx.fee_vault != ctx.bet_pool.fee_vault {
        return Err(ErrorCode::InvalidFeeVault);
    }
    if ctx.now >= ctx.bet_pool.deadline || ctx.bet_pool.result_published {
        return Err(ErrorCode::BettingClosed);
    }
    if ctx.user_nonce.count == u64::MAX {
        return Err(ErrorCode::ArithmeticOverflow);
    }
    let fee = bps_of(bet_amount, FEE_BPS);
    let net_amount = bet_amount - fee;
    if ctx.bet_pool.fees_accrued > u64::MAX - fee {
        return Err(ErrorCode::ArithmeticOverflow);
    }
    if pick_side {
        if ctx.bet_pool.total_over_amount > u64::MAX - net_amount {
            return Err(ErrorCode::ArithmeticOverflow);
        }
        ctx.bet_pool.total_over_amount = ctx.bet_pool.total_over_amount + net_amount;
    } else {
        if ctx.bet_pool.total_under_amount > u64::MAX - net_amount {
            return Err(ErrorCode::ArithmeticOverflow);
        }
        ctx.bet_pool.total_under_amount = ctx.bet_pool.total_under_amount + net_amount;
    }
    ctx.bet_pool.fees_accrued = ctx.bet_pool.fees_accrued + fee;
    ctx.user_nonce.count = ctx.user_nonce.count + 1;
    let user_pick = UserPick {
        owner: ctx.bettor,
        bet_amount: net_amount,
        pick_side,
        pool: ctx.bet_pool.key(),
        claimed: false,
        mint: ctx.mint,
        for_sale: false,
    };
    Ok(PlacedBet { user_pick, fee })
}

/// Records that publishing a result reads and writes.
#[derive(Clone, Copy, Debug)]
pub struct AdminUpdateResult {
    pub bet_pool: BetPool,
    /// The principal publishing the result.
    pub authority: Address,
}

/// The records after publishing `new_final_stat`, and the result.
pub open spec fn admin_update_result_spec(ctx: AdminUpdateResult, new_final_stat: u32) -> (
    AdminUpdateResult,
    Result<(), ErrorCode>,
) {
    if ctx.authority != ctx.bet_pool.authority {
        (ctx, Err(ErrorCode::Unauthorized))
    } else if ctx.bet_pool.result_published {
        (ctx, Err(ErrorCode::AlreadyPublished))
    } else {
        (AdminUpdateResult { bet_pool: ctx.bet_pool.with_result(new_final_stat), ..ctx }, Ok(()))
    }
}

/// Publishes the final stat of a pool's proposition, which settles the pool;
/// a pool is settled once.
pub fn admin_update_result(ctx: &mut AdminUpdateResult, new_final_stat: u32) -> (r: Result<
    (),
    ErrorCode,
>)
    ensures
        (*final(ctx), r) == admin_update_result_spec(*old(ctx), new_final_stat),
        old(ctx).bet_pool.wf() ==> final(ctx).bet_pool.wf(),
{
    if ctx.authority != ctx.bet_pool.authority {
        return Err(ErrorCode::Unauthorized);
    }
    if ctx.bet_pool.result_published {
        return Err(ErrorCode::AlreadyPublished);
    }
    ctx.bet_pool.result = decide_outcome(new_final_stat, ctx.bet_pool.stat_line);
    ctx.bet_pool.result_published = true;
    ctx.bet_pool.final_stat = new_final_stat;
    Ok(())
}

/// Records that claiming a receipt reads and writes.
#[derive(Clone, Copy, Debug)]
pub struct SettleClaim {
    pub user_pick: UserPick,
    pub bet_pool: BetPool,
    /// Who receives the payout; it must be the receipt's current owner.
    pub recipient: Address,
}

/// The records after a claim, and what it pays.
pub open spec fn settle_claim_spec(ctx: SettleClaim) -> (SettleClaim, Result<u64, ErrorCode>) {
    if ctx.user_pick.pool != ctx.bet_pool.pool_key() {
        (ctx, Err(ErrorCode::Unauthorized))
    } else if !ctx.bet_pool.result_published {
        (ctx, Err(ErrorCode::PoolNotSettled))
    } else if ctx.user_pick.claimed {
        (ctx, Err(ErrorCode::AlreadyClaimed))
    } else if ctx.recipient != ctx.user_pick.owner {
        (ctx, Err(ErrorCode::Unauthorized))
    } else if ctx.user_pick.for_sale {
        (ctx, Err(ErrorCode::ListedForSale))
    } else if payout_of(ctx.bet_pool, ctx.user_pick) > u64::MAX {
        (ctx, Err(ErrorCode::ArithmeticOverflow))
    } else {
        (
            SettleClaim { user_pick: ctx.user_pick.marked_claimed(), ..ctx },
            Ok(payout_of(ctx.bet_pool, ctx.user_pick) as u64),
        )
    }
}

/// Claims a receipt against its settled pool, once: marks it claimed and
/// returns what the stake pot pays to the recipient.
pub fn settle_claim(ctx: &mut SettleClaim) -> (r: Result<u64, ErrorCode>)
    ensures
        (*final(ctx), r) == settle_claim_spec(*old(ctx)),
{
    let pool_key = ctx.bet_pool.key();
    if ctx.user_pick.pool != pool_key {
        return Err(ErrorCode::Unauthorized);
    }
    if !ctx.bet_pool.result_published {
        return Err(ErrorCode::PoolNotSettled);
    }
    if ctx.user_pick.claimed {
        return Err(ErrorCode::AlreadyClaimed);
    }
    if ctx.recipient != ctx.user_pick.owner {
        return Err(ErrorCode::Unauthorized);
    }
    if ctx.user_pick.for_sale {
        return Err(ErrorCode::ListedForSale);
    }
    match compute_payout(&ctx.bet_pool, &ctx.user_pick) {
        None => Err(ErrorCode::ArithmeticOverflow),
        Some(payout) => {
            ctx.user_pick.claimed = true;
            Ok(payout)
        },
    }
}

/// Below this many accrued fee units a withdrawal moves nothing: the custody
/// primitive refuses transfers that would leave the fee vault under its
/// minimum balance.
pub const FEE_DUST_THRESHOLD: u64 = 890_880;

/// Records that withdrawing a pool's fees reads and writes.
#[derive(Clone, Copy, Debug)]
pub struct WithdrawFees {
    pub bet_pool: BetPool,
    /// The principal asking for the withdrawal.
    pub caller: Address,
    /// The platform administrator, fixed at deployment.
    pub platform_admin: Address,
}

/// The records after a withdrawal, and the amount the fee vault pays out.
pub open spec fn withdraw_fees_spec(ctx: WithdrawFees) -> (WithdrawFees, Result<u64, ErrorCode>) {
    if ctx.caller != ctx.platform_admin {
        (ctx, Err(ErrorCode::Unauthorized))
    } else if ctx.bet_pool.fees_accrued < FEE_DUST_THRESHOLD {
        (ctx, Ok(0))
    } else {
        (
            WithdrawFees { bet_pool: BetPool { fees_accrued: 0, ..ctx.bet_pool }, ..ctx },
            Ok(ctx.bet_pool.fees_accrued),
        )
    }
}

/// Pays out all accrued fees of a pool and zeroes them; below the dust
/// threshold it succeeds and moves nothing.
pub fn withdraw_fees(ctx: &mut WithdrawFees) -> (r: Result<u64, ErrorCode>)
    ensures
        (*final(ctx), r) == withdraw_fees_spec(*old(ctx)),
        old(ctx).bet_pool.wf() ==> final(ctx).bet_pool.wf(),
{
    if ctx.caller != ctx.platform_admin {
        return Err(ErrorCode::Unauthorized);
    }
    let amount = ctx.bet_pool.fees_accrued;
    if amount < FEE_DUST_THRESHOLD {
        return Ok(0);
    }
    ctx.bet_pool.fees_accrued = 0;
    Ok(amount)
}

/// Records that listing a receipt for sale reads and writes.
#[derive(Clone, Copy, Debug)]
pub struct ListPickNFT {
    pub seller: Address,
    pub user_pick: UserPick,
    pub pool: BetPool,
}

/// The records after listing, and the result.
pub open spec fn list_pick_nft_spec(ctx: ListPickNFT) -> (ListPickNFT, Result<(), ErrorCode>) {
    if ctx.user_pick.pool != ctx.pool.pool_key() {
        (ctx, Err(ErrorCode::Unauthorized))
    } else if ctx.seller != ctx.user_pick.owner {
        (ctx, Err(ErrorCode::Unauthorized))
    } else if ctx.user_pick.claimed {
        (ctx, Err(ErrorCode::AlreadyClaimed))
    } else if ctx.pool.result_published {
        (ctx, Err(ErrorCode::PoolNotSettled))
    } else if ctx.user_pick.for_sale {
        (ctx, Err(ErrorCode::ListedForSale))
    } else {
        (ListPickNFT { user_pick: ctx.user_pick.with_listing(true), ..ctx }, Ok(()))
    }
}

/// Lists an unclaimed receipt of an unsettled pool for sale; the host moves
/// its ownership token from the owner into escrow.
pub fn list_pick_nft(ctx: &mut ListPickNFT) -> (r: Result<(), ErrorCode>)
    ensures
        (*final(ctx), r) == list_pick_nft_spec(*old(ctx)),
{
    let pool_key = ctx.pool.key();
    if ctx.user_pick.pool != pool_key {
        return Err(ErrorCode::Unauthorized);
    }
    if ctx.seller != ctx.user_pick.owner {
        return Err(ErrorCode::Unauthorized);
    }
    if ctx.user_pick.claimed {
        return Err(ErrorCode::AlreadyClaimed);
    }
    if ctx.pool.result_published {
        return Err(ErrorCode::PoolNotSettled);
    }
    if ctx.user_pick.for_sale {
        return Err(ErrorCode::ListedForSale);
    }
    ctx.user_pick.for_sale = true;
    Ok(())
}

/// The receipt after its owner takes a listed ownership token back out of
/// escrow, and the result.
pub open spec fn release_spec(seller: Address, pick: UserPick, escrow: EscrowTokenAccount) -> (
    UserPick,
    Result<(), ErrorCode>,
) {
    if !pick.for_sale {
        (pick, Err(ErrorCode::NotListedForSale))
    } else if seller != pick.owner {
        (pick, Err(ErrorCode::Unauthorized))
    } else if custody_error(escrow) is Some {
        (pick, Err(custody_error(escrow).unwrap()))
    } else {
        (pick.with_listing(false), Ok(()))
    }
}

fn release_from_escrow(seller: Address, pick: &mut UserPick, escrow: &EscrowTokenAccount) -> (r:
    Result<(), ErrorCode>)
    ensures
        (*final(pick), r) == release_spec(seller, *old(pick), *escrow),
{
    if !pick.for_sale {
        return Err(ErrorCode::NotListedForSale);
    }
    if seller != pick.owner {
        return Err(ErrorCode::Unauthorized);
    }
    match check_custody(escrow) {
        Err(e) => Err(e),
        Ok(()) => {
            pick.for_sale = false;
            Ok(())
        },
    }
}

/// Records that taking a listed receipt off the market reads and writes.
#[derive(Clone, Copy, Debug)]
pub struct DelistPick {
    pub seller: Address,
    pub user_pick: UserPick,
    pub escrow_token_account: EscrowTokenAccount,
}

/// Takes a listed receipt off the market; the host returns its ownership
/// token from escrow to the seller.
pub fn delist_pick(ctx: &mut DelistPick) -> (r: Result<(), ErrorCode>)
    ensures
        ({
            let (pick, res) = release_spec(
                old(ctx).seller,
                old(ctx).user_pick,
                old(ctx).escrow_token_account,
            );
            &&& r == res
            &&& *final(ctx) == (DelistPick { user_pick: pick, ..*old(ctx) })
        }),
{
    let seller = ctx.seller;
    let escrow = ctx.escrow_token_account;
    release_from_escrow(seller, &mut ctx.user_pick, &escrow)
}

/// Records that reclaiming an unsold receipt reads and writes.
#[derive(Clone, Copy, Debug)]
pub struct ReclaimUnsoldPick {
    pub seller: Address,
    pub user_pick: UserPick,
    pub escrow_token_account: EscrowTokenAccount,
}

/// Takes an unsold receipt back from the market, as `delist_pick` does.
pub fn reclaim_unsold_pick(ctx: &mut ReclaimUnsoldPick) -> (r: Result<(), ErrorCode>)
    ensures
        ({
            let (pick, res) = release_spec(
                old(ctx).seller,
                old(ctx).user_pick,
                old(ctx).escrow_token_account,
            );
            &&& r == res
            &&& *final(ctx) == (ReclaimUnsoldPick { user_pick: pick, ..*old(ctx) })
        }),
{
    let seller = ctx.seller;
    let escrow = ctx.escrow_token_account;
    release_from_escrow(seller, &mut ctx.user_pick, &escrow)
}

/// Records that buying a listed receipt reads and writes.
#[derive(Clone, Copy, Debug)]
pub struct BuyPickNFT {
    pub buyer: Address,
    pub user_pick: UserPick,
    pub pool: BetPool,
    pub escrow_token_account: EscrowTokenAccount,
}

/// The records after a purchase at `sale_price`, and how the price is paid.
pub open spec fn buy_pick_nft_spec(ctx: BuyPickNFT, sale_price: u64) -> (
    BuyPickNFT,
    Result<SaleSplit, ErrorCode>,
) {
    if ctx.user_pick.pool != ctx.pool.pool_key() {
        (ctx, Err(ErrorCode::Unauthorized))
    } else if !ctx.user_pick.for_sale {
        (ctx, Err(ErrorCode::NotListedForSale))
    } else if ctx.user_pick.claimed {
        (ctx, Err(ErrorCode::AlreadyClaimed))
    } else if ctx.pool.result_published {
        (ctx, Err(ErrorCode::PoolNotSettled))
    } else if custody_error(ctx.escrow_token_account) is Some {
        (ctx, Err(custody_error(ctx.escrow_token_account).unwrap()))
    } else {
        (
            BuyPickNFT { user_pick: ctx.user_pick.sold_to(ctx.buyer), ..ctx },
            Ok(
                SaleSplit {
                    seller: ctx.user_pick.owner,
                    seller_amount: (sale_price - bps_share(sale_price, ROYALTY_BPS)) as u64,
                    royalty: bps_share(sale_price, ROYALTY_BPS) as u64,
                },
            ),
        )
    }
}

/// Buys a listed receipt of an unsettled pool: ownership passes to the
/// buyer, and the price is split between the seller and the royalty sink.
/// The host performs both payments and moves the ownership token from escrow
/// to the buyer.
pub fn buy_pick_nft(ctx: &mut BuyPickNFT, sale_price: u64) -> (r: Result<SaleSplit, ErrorCode>)
    ensures
        (*final(ctx), r) == buy_pick_nft_spec(*old(ctx), sale_price),
{
    let pool_key = ctx.pool.key();
    if ctx.user_pick.pool != pool_key {
        return Err(ErrorCode::Unauthorized);
    }
    if !ctx.user_pick.for_sale {
        return Err(ErrorCode::NotListedForSale);
    }
    if ctx.user_pick.claimed {
        return Err(ErrorCode::AlreadyClaimed);
    }
    if ctx.pool.result_published {
        return Err(ErrorCode::PoolNotSettled);
    }
    if let Err(e) = check_custody(&ctx.escrow_token_account) {
        return Err(e);
    }
    let (seller_amount, royalty) = royalty_split(sale_price, ROYALTY_BPS);
    let seller = ctx.user_pick.owner;
    ctx.user_pick.owner = ctx.buyer;
    ctx.user_pick.for_sale = false;
    Ok(SaleSplit { seller, seller_amount, royalty })
}

} // verus!
