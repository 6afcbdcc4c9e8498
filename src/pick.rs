use vstd::prelude::*;
use crate::address::Address;
use crate::pool::PoolKey;

verus! {

/// The receipt of one bet.
#[derive(Clone, Copy, Debug)]
pub struct UserPick {
    /// The current holder of the receipt; changes only by a sale.
    pub owner: Address,
    /// Net stake, fixed when the bet is placed.
    pub bet_amount: u64,
    /// `true` for over, `false` for under.
    pub pick_side: bool,
    /// The pool the bet was placed in.
    pub pool: PoolKey,
    /// Set once, by the claim.
    pub claimed: bool,
    /// The ownership token that carries title to the receipt.
    pub mint: Address,
    /// Whether the ownership token sits in escrow, listed for sale.
    pub for_sale: bool,
}

impl UserPick {
    /// The receipt once its claim is recorded.
    pub open spec fn marked_claimed(self) -> UserPick {
        UserPick { claimed: true, ..self }
    }

    /// The receipt with its ownership token in escrow or back out of it.
    pub open spec fn with_listing(self, for_sale: bool) -> UserPick {
        UserPick { for_sale, ..self }
    }

    /// The receipt once sold to `buyer`.
    pub open spec fn sold_to(self, buyer: Address) -> UserPick {
        UserPick { owner: buyer, for_sale: false, ..self }
    }
}

/// How many bets a bettor has placed in a pool; it addresses the next receipt.
#[derive(Clone, Copy, Debug, PartialEq, Eq, Structural)]
pub struct UserNonce {
    pub count: u64,
}

} // verus!
