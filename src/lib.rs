//! Settlement and accounting engine for over/under pari-mutuel pools.
//!
//! Every state change of a pool, a stake receipt or an escrow listing is a
//! verified function from plain values to plain values: the host program
//! loads the records, calls the engine and performs the value transfers the
//! engine hands back.

pub mod address;
pub mod error;
pub mod escrow;
pub mod fantasy_sports;
pub mod laws;
pub mod pick;
pub mod pool;
pub mod registry;
pub mod settlement;

pub use address::Address;
pub use error::ErrorCode;
pub use escrow::{EscrowTokenAccount, SaleSplit, ROYALTY_BPS};
pub use fantasy_sports::{
    admin_update_result, buy_pick_nft, delist_pick, initialize_bet_pool, list_pick_nft,
    place_bet, reclaim_unsold_pick, settle_claim, withdraw_fees, AdminUpdateResult, BuyPickNFT,
    DelistPick, InitializeBetPool, ListPickNFT, PlaceBet, PlacedBet, ReclaimUnsoldPick,
    SettleClaim, WithdrawFees, FEE_DUST_THRESHOLD,
};
pub use pick::{UserNonce, UserPick};
pub use pool::{BetPool, Outcome, PoolKey, BPS_DENOMINATOR, FEE_BPS};
pub use registry::PoolRegistry;
