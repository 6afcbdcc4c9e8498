use vstd::prelude::*;

verus! {

/// Why an operation was refused. A refused operation changes nothing.
#[derive(Clone, Copy, Debug, PartialEq, Eq, Structural)]
pub enum ErrorCode {
    /// The pick has already been claimed.
    AlreadyClaimed,
    /// The pool is not in the settlement state the operation needs.
    PoolNotSettled,
    /// The caller, recipient or referenced record is not the one required.
    Unauthorized,
    /// The fee vault handed in is not the pool's fee vault.
    InvalidFeeVault,
    /// The fixture id is zero.
    InvalidFixture,
    /// The stat line is zero.
    InvalidStatLine,
    /// The betting deadline is not in the future.
    DeadlinePassed,
    /// The result of the pool has already been published.
    AlreadyPublished,
    /// The pick is not listed for sale.
    NotListedForSale,
    /// The escrow token account does not hold exactly one token.
    InvalidTokenBalance,
    /// The escrow token account has a delegate.
    UnexpectedDelegate,
    /// The escrow token account has a close authority.
    UnexpectedCloseAuthority,
    /// A pool with the same identifying fields already exists.
    AlreadyExists,
    /// The bet arrived after the betting deadline.
    BettingClosed,
    /// The pick is listed for sale.
    ListedForSale,
    /// An amount does not fit in 64 bits.
    ArithmeticOverflow,
}

} // verus!
