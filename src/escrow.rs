use vstd::prelude::*;
use crate::address::Address;
use crate::error::ErrorCode;
use crate::pool::{bps_of, bps_share, BPS_DENOMINATOR};

verus! {

/// Share of every resale price that goes to the platform, in basis points (2.5%).
pub const ROYALTY_BPS: u64 = 250;

/// What the engine reads of the token account that holds a listed
/// ownership token.
#[derive(Clone, Copy, Debug)]
pub struct EscrowTokenAccount {
    /// Tokens held.
    pub amount: u64,
    /// A party allowed to move the tokens besides the escrow, if any.
    pub delegate: Option<Address>,
    /// A party allowed to close the account besides the escrow, if any.
    pub close_authority: Option<Address>,
}

/// Why the escrow account fails the custody check, if it does: it must hold
/// exactly one token that no one but the escrow can move or close.
pub open spec fn custody_error(account: EscrowTokenAccount) -> Option<ErrorCode> {
    if account.amount != 1 {
        Some(ErrorCode::InvalidTokenBalance)
    } else if account.delegate is Some {
        Some(ErrorCode::UnexpectedDelegate)
    } else if account.close_authority is Some {
        Some(ErrorCode::UnexpectedCloseAuthority)
    } else {
        None
    }
}

pub fn check_custody(account: &EscrowTokenAccount) -> (r: Result<(), ErrorCode>)
    ensures
        r == match custody_error(*account) {
            Some(e) => Err(e),
            None => Ok(()),
        },
{
    if account.amount != 1 {
        Err(ErrorCode::InvalidTokenBalance)
    } else if account.delegate.is_some() {
        Err(ErrorCode::UnexpectedDelegate)
    } else if account.close_authority.is_some() {
        Err(ErrorCode::UnexpectedCloseAuthority)
    } else {
        Ok(())
    }
}

/// How the price of a resale is paid out.
#[derive(Clone, Copy, Debug)]
pub struct SaleSplit {
    /// The owner before the sale, who receives `seller_amount`.
    pub seller: Address,
    pub seller_amount: u64,
    /// What the platform's royalty sink receives.
    pub royalty: u64,
}

/// Splits `sale_price` into what the seller keeps and the royalty at
/// `royalty_bps`; the two parts add up to the price.
pub fn royalty_split(sale_price: u64, royalty_bps: u64) -> (r: (u64, u64))
    requires
        royalty_bps <= BPS_DENOMINATOR,
    ensures
        r.1 == bps_share(sale_price, royalty_bps),
        r.0 + r.1 == sale_price,
{
    let royalty = bps_of(sale_price, royalty_bps);
    (sale_price - royalty, royalty)
}

} // verus!
