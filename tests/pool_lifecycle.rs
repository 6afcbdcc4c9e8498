use fantasy_sports::pool::{bps_of, decide_outcome};
use fantasy_sports::{
    admin_update_result, initialize_bet_pool, place_bet, AdminUpdateResult, Address, BetPool,
    ErrorCode, InitializeBetPool, Outcome, PlaceBet, PoolKey, PoolRegistry, UserNonce,
};

fn addr(n: u8) -> Address {
    Address::new([n; 32])
}

fn name(s: &str) -> [u8; 32] {
    let mut out = [0u8; 32];
    out[..s.len()].copy_from_slice(s.as_bytes());
    out
}

fn open_ctx() -> InitializeBetPool {
    InitializeBetPool {
        admin: addr(1),
        platform_admin: addr(1),
        pools: PoolRegistry::new(),
        fee_vault: addr(9),
        now: 100,
    }
}

fn open(ctx: &mut InitializeBetPool, fixture_id: u64, stat_line: u32, deadline: i64) -> Result<(), ErrorCode> {
    initialize_bet_pool(ctx, fixture_id, addr(7), name("points"), stat_line, name("basketball"), deadline)
}

fn fresh_pool() -> BetPool {
    let mut ctx = open_ctx();
    open(&mut ctx, 42, 25, 1_000).unwrap();
    *ctx.pools.get(0)
}

fn bet_ctx(pool: BetPool) -> PlaceBet {
    PlaceBet {
        bettor: addr(3),
        bet_pool: pool,
        user_nonce: UserNonce { count: 0 },
        mint: addr(4),
        fee_vault: addr(9),
        now: 500,
    }
}

#[test]
fn opening_creates_empty_pending_pool() {
    let mut ctx = open_ctx();
    assert_eq!(open(&mut ctx, 42, 25, 1_000), Ok(()));
    assert_eq!(ctx.pools.len(), 1);
    let pool = ctx.pools.get(0);
    assert_eq!(pool.fixture_id, 42);
    assert_eq!(pool.stat_line, 25);
    assert_eq!(pool.deadline, 1_000);
    assert_eq!(pool.total_over_amount, 0);
    assert_eq!(pool.total_under_amount, 0);
    assert_eq!(pool.fees_accrued, 0);
    assert_eq!(pool.result, Outcome::Pending);
    assert!(!pool.result_published);
    assert_eq!(pool.authority, addr(1));
    assert_eq!(pool.fee_vault, addr(9));
}

#[test]
fn opening_rejects_zero_fixture() {
    let mut ctx = open_ctx();
    assert_eq!(open(&mut ctx, 0, 25, 1_000), Err(ErrorCode::InvalidFixture));
    assert_eq!(ctx.pools.len(), 0);
}

#[test]
fn opening_rejects_zero_stat_line() {
    let mut ctx = open_ctx();
    assert_eq!(open(&mut ctx, 42, 0, 1_000), Err(ErrorCode::InvalidStatLine));
}

#[test]
fn opening_rejects_deadline_not_in_future() {
    let mut ctx = open_ctx();
    assert_eq!(open(&mut ctx, 42, 25, 100), Err(ErrorCode::DeadlinePassed));
    assert_eq!(open(&mut ctx, 42, 25, 99), Err(ErrorCode::DeadlinePassed));
    assert_eq!(open(&mut ctx, 42, 25, 101), Ok(()));
}

#[test]
fn opening_rejects_non_admin() {
    let mut ctx = open_ctx();
    ctx.admin = addr(2);
    assert_eq!(open(&mut ctx, 42, 25, 1_000), Err(ErrorCode::Unauthorized));
}

#[test]
fn opening_same_proposition_twice_collides() {
    let mut ctx = open_ctx();
    assert_eq!(open(&mut ctx, 42, 25, 1_000), Ok(()));
    assert_eq!(open(&mut ctx, 42, 25, 2_000), Err(ErrorCode::AlreadyExists));
    assert_eq!(ctx.pools.len(), 1);
    // Any differing key field makes a new proposition.
    assert_eq!(open(&mut ctx, 42, 26, 1_000), Ok(()));
    assert_eq!(open(&mut ctx, 43, 25, 1_000), Ok(()));
    assert_eq!(ctx.pools.len(), 3);
    let key = PoolKey {
        fixture_id: 43,
        sport_name: name("basketball"),
        player_id: addr(7),
        stat_name: name("points"),
        stat_line: 25,
    };
    assert_eq!(ctx.pools.find(&key), Some(2));
    let missing = PoolKey { stat_name: name("rebounds"), ..key };
    assert_eq!(ctx.pools.find(&missing), None);
}

#[test]
fn fee_is_five_percent_truncated() {
    assert_eq!(bps_of(1_000, 500), 50);
    assert_eq!(bps_of(19, 500), 0);
    assert_eq!(bps_of(20, 500), 1);
    assert_eq!(bps_of(u64::MAX, 500), u64::MAX / 20);
    assert_eq!(bps_of(u64::MAX, 10_000), u64::MAX);
}

#[test]
fn bet_books_net_stake_and_fee() {
    let mut ctx = bet_ctx(fresh_pool());
    let placed = place_bet(&mut ctx, 1_000, true).unwrap();
    assert_eq!(placed.fee, 50);
    assert_eq!(placed.user_pick.bet_amount, 950);
    assert!(placed.user_pick.pick_side);
    assert!(!placed.user_pick.claimed);
    assert!(!placed.user_pick.for_sale);
    assert_eq!(placed.user_pick.owner, addr(3));
    assert_eq!(placed.user_pick.mint, addr(4));
    assert_eq!(placed.user_pick.pool, ctx.bet_pool.key());
    assert_eq!(ctx.bet_pool.total_over_amount, 950);
    assert_eq!(ctx.bet_pool.total_under_amount, 0);
    assert_eq!(ctx.bet_pool.fees_accrued, 50);
    assert_eq!(ctx.user_nonce.count, 1);

    let placed = place_bet(&mut ctx, 333, false).unwrap();
    assert_eq!(placed.fee, 16);
    assert_eq!(placed.user_pick.bet_amount, 317);
    assert_eq!(ctx.bet_pool.total_under_amount, 317);
    assert_eq!(ctx.bet_pool.fees_accrued, 66);
    assert_eq!(ctx.user_nonce.count, 2);
}

#[test]
fn bet_with_wrong_fee_vault_is_refused() {
    let mut ctx = bet_ctx(fresh_pool());
    ctx.fee_vault = addr(8);
    assert_eq!(place_bet(&mut ctx, 1_000, true).unwrap_err(), ErrorCode::InvalidFeeVault);
    assert_eq!(ctx.bet_pool.total_over_amount, 0);
    assert_eq!(ctx.user_nonce.count, 0);
}

#[test]
fn bet_at_or_after_deadline_is_refused() {
    let mut ctx = bet_ctx(fresh_pool());
    ctx.now = 1_000;
    assert_eq!(place_bet(&mut ctx, 1_000, true).unwrap_err(), ErrorCode::BettingClosed);
    ctx.now = 999;
    assert!(place_bet(&mut ctx, 1_000, true).is_ok());
}

#[test]
fn bet_on_settled_pool_is_refused() {
    let mut pool = fresh_pool();
    pool.result_published = true;
    pool.result = Outcome::OverWins;
    let mut ctx = bet_ctx(pool);
    assert_eq!(place_bet(&mut ctx, 1_000, true).unwrap_err(), ErrorCode::BettingClosed);
}

#[test]
fn bet_overflowing_a_total_is_refused() {
    let mut pool = fresh_pool();
    pool.total_over_amount = u64::MAX - 10;
    let mut ctx = bet_ctx(pool);
    assert_eq!(place_bet(&mut ctx, 100, true).unwrap_err(), ErrorCode::ArithmeticOverflow);
    assert_eq!(ctx.bet_pool.total_over_amount, u64::MAX - 10);
    assert_eq!(ctx.bet_pool.fees_accrued, 0);
    // The other side still has room.
    assert!(place_bet(&mut ctx, 100, false).is_ok());
}

#[test]
fn bet_with_exhausted_nonce_is_refused() {
    let mut ctx = bet_ctx(fresh_pool());
    ctx.user_nonce.count = u64::MAX;
    assert_eq!(place_bet(&mut ctx, 100, true).unwrap_err(), ErrorCode::ArithmeticOverflow);
}

#[test]
fn stakes_are_conserved_over_a_run_of_bets() {
    let mut ctx = bet_ctx(fresh_pool());
    let bets: [(u64, bool); 6] = [(1_000, true), (37, false), (19, true), (0, false), (123_456_789, false), (5, true)];
    let mut gross: u64 = 0;
    for (amount, side) in bets {
        place_bet(&mut ctx, amount, side).unwrap();
        gross += amount;
        let p = &ctx.bet_pool;
        assert_eq!(p.total_over_amount + p.total_under_amount + p.fees_accrued, gross);
    }
    // A refused bet adds nothing.
    ctx.now = 2_000;
    assert!(place_bet(&mut ctx, 10_000, true).is_err());
    let p = &ctx.bet_pool;
    assert_eq!(p.total_over_amount + p.total_under_amount + p.fees_accrued, gross);
}

#[test]
fn result_is_published_once() {
    let mut ctx = AdminUpdateResult { bet_pool: fresh_pool(), authority: addr(1) };
    assert_eq!(admin_update_result(&mut ctx, 30), Ok(()));
    assert!(ctx.bet_pool.result_published);
    assert_eq!(ctx.bet_pool.final_stat, 30);
    assert_eq!(ctx.bet_pool.result, Outcome::OverWins);
    assert_eq!(admin_update_result(&mut ctx, 10), Err(ErrorCode::AlreadyPublished));
    assert_eq!(ctx.bet_pool.final_stat, 30);
    assert_eq!(ctx.bet_pool.result, Outcome::OverWins);
}

#[test]
fn result_from_other_principal_is_refused() {
    let mut ctx = AdminUpdateResult { bet_pool: fresh_pool(), authority: addr(2) };
    assert_eq!(admin_update_result(&mut ctx, 30), Err(ErrorCode::Unauthorized));
    assert!(!ctx.bet_pool.result_published);
    assert_eq!(ctx.bet_pool.result, Outcome::Pending);
}

#[test]
fn outcome_follows_the_line() {
    assert_eq!(decide_outcome(26, 25), Outcome::OverWins);
    assert_eq!(decide_outcome(24, 25), Outcome::UnderWins);
    assert_eq!(decide_outcome(25, 25), Outcome::Canceled);
}
