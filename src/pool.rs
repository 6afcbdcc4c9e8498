use vstd::prelude::*;
use crate::address::{Address, bytes_equal};

verus! {

/// Denominator of every rate given in basis points.
pub const BPS_DENOMINATOR: u64 = 10_000;

/// Platform fee taken from every gross stake, in basis points (5%).
pub const FEE_BPS: u64 = 500;

/// `amount * bps / 10_000`, truncated toward zero.
pub open spec fn bps_share(amount: u64, bps: u64) -> int {
    (amount * bps) / (BPS_DENOMINATOR as int)
}

/// The fee taken from a gross stake.
pub open spec fn fee_of(gross: u64) -> int {
    bps_share(gross, FEE_BPS)
}

/// What remains of a gross stake once the fee is taken.
pub open spec fn net_of(gross: u64) -> int {
    gross - fee_of(gross)
}

/// Computes `amount * bps / 10_000` in a widened domain; the share never
/// exceeds the amount.
/// A share of at most 10_000 basis points lies between zero and the amount.
pub proof fn lemma_bps_share_bounded(amount: u64, bps: u64)
    requires
        bps <= BPS_DENOMINATOR,
    ensures
        0 <= bps_share(amount, bps) <= amount,
{
    assert(0 <= amount * bps <= amount * BPS_DENOMINATOR) by (nonlinear_arith)
        requires
            bps <= BPS_DENOMINATOR,
    ;
    assert((amount * BPS_DENOMINATOR) / (BPS_DENOMINATOR as int) == amount) by (nonlinear_arith);
    vstd::arithmetic::div_mod::lemma_div_is_ordered(
        amount * bps,
        amount * BPS_DENOMINATOR,
        BPS_DENOMINATOR as int,
    );
    vstd::arithmetic::div_mod::lemma_div_is_ordered(0, amount * bps, BPS_DENOMINATOR as int);
}

/// Computes `amount * bps / 10_000` in a widened domain; the share never
/// exceeds the amount.
pub fn bps_of(amount: u64, bps: u64) -> (r: u64)
    requires
        bps <= BPS_DENOMINATOR,
    ensures
        r == bps_share(amount, bps),
        r <= amount,
{
    proof {
        assert(amount * bps <= u64::MAX * BPS_DENOMINATOR) by (nonlinear_arith)
            requires
                bps <= BPS_DENOMINATOR,
                amount <= u64::MAX,
        ;
        lemma_bps_share_bounded(amount, bps);
    }
    let wide: u128 = (amount as u128) * (bps as u128);
    (wide / (BPS_DENOMINATOR as u128)) as u64
}

/// Settlement state of a pool.
#[derive(Clone, Copy, Debug, PartialEq, Eq, Structural)]
pub enum Outcome {
    /// No result has been published.
    Pending,
    /// The final stat is above the line.
    OverWins,
    /// The final stat is below the line.
    UnderWins,
    /// The final stat equals the line: no side wins.
    Canceled,
}

/// The outcome that a published final stat gives against a line.
pub open spec fn outcome_for(final_stat: u32, stat_line: u32) -> Outcome {
    if final_stat > stat_line {
        Outcome::OverWins
    } else if final_stat < stat_line {
        Outcome::UnderWins
    } else {
        Outcome::Canceled
    }
}

pub fn decide_outcome(final_stat: u32, stat_line: u32) -> (r: Outcome)
    ensures
        r == outcome_for(final_stat, stat_line),
{
    if final_stat > stat_line {
        Outcome::OverWins
    } else if final_stat < stat_line {
        Outcome::UnderWins
    } else {
        Outcome::Canceled
    }
}

/// The fields that identify a proposition. Two pools never share a key.
#[derive(Clone, Copy, Debug)]
pub struct PoolKey {
    pub fixture_id: u64,
    pub sport_name: [u8; 32],
    pub player_id: Address,
    pub stat_name: [u8; 32],
    pub stat_line: u32,
}

impl PartialEq for PoolKey {
    fn eq(&self, other: &PoolKey) -> (r: bool)
        ensures
            r == (*self == *other),
    {
        self.fixture_id == other.fixture_id && self.stat_line == other.stat_line
            && bytes_equal(&self.sport_name, &other.sport_name)
            && self.player_id == other.player_id
            && bytes_equal(&self.stat_name, &other.stat_name)
    }
}

impl vstd::std_specs::cmp::PartialEqSpecImpl for PoolKey {
    open spec fn obeys_eq_spec() -> bool {
        true
    }

    open spec fn eq_spec(&self, other: &PoolKey) -> bool {
        *self == *other
    }
}

impl Eq for PoolKey {}

/// The ledger of one over/under proposition.
#[derive(Clone, Copy, Debug)]
pub struct BetPool {
    pub fixture_id: u64,
    pub sport_name: [u8; 32],
    pub player_id: Address,
    pub stat_name: [u8; 32],
    /// The threshold between over and under.
    pub stat_line: u32,
    /// Bets are accepted strictly before this instant.
    pub deadline: i64,
    /// Net stake on the over side.
    pub total_over_amount: u64,
    /// Net stake on the under side.
    pub total_under_amount: u64,
    /// Platform fees collected and not yet withdrawn.
    pub fees_accrued: u64,
    /// Custody record that receives the fees.
    pub fee_vault: Address,
    /// The only principal allowed to publish the result.
    pub authority: Address,
    pub result: Outcome,
    /// Whether the result is published (the pool is settled).
    pub result_published: bool,
    pub final_stat: u32,
}

impl BetPool {
    pub open spec fn pool_key(self) -> PoolKey {
        PoolKey {
            fixture_id: self.fixture_id,
            sport_name: self.sport_name,
            player_id: self.player_id,
            stat_name: self.stat_name,
            stat_line: self.stat_line,
        }
    }

    /// The settled flag agrees with the result, and a published result is
    /// the one the final stat gives.
    pub open spec fn wf(self) -> bool {
        &&& self.result_published == (self.result != Outcome::Pending)
        &&& self.result_published ==> self.result == outcome_for(
            self.final_stat,
            self.stat_line,
        )
    }

    /// Every net stake and fee taken so far.
    pub open spec fn holdings(self) -> int {
        self.total_over_amount + self.total_under_amount + self.fees_accrued
    }

    /// No stake was ever placed against one of the two sides.
    pub open spec fn is_one_sided(self) -> bool {
        self.total_over_amount == 0 || self.total_under_amount == 0
    }

    /// A bet of `gross` on `side` fits the 64-bit totals.
    pub open spec fn accepts_bet(self, gross: u64, side: bool) -> bool {
        &&& self.fees_accrued + fee_of(gross) <= u64::MAX
        &&& side ==> self.total_over_amount + net_of(gross) <= u64::MAX
        &&& !side ==> self.total_under_amount + net_of(gross) <= u64::MAX
    }

    /// The ledger once a bet of `gross` on `side` is booked.
    pub open spec fn with_bet(self, gross: u64, side: bool) -> BetPool {
        BetPool {
            total_over_amount: if side {
                (self.total_over_amount + net_of(gross)) as u64
            } else {
                self.total_over_amount
            },
            total_under_amount: if side {
                self.total_under_amount
            } else {
                (self.total_under_amount + net_of(gross)) as u64
            },
            fees_accrued: (self.fees_accrued + fee_of(gross)) as u64,
            ..self
        }
    }

    /// The ledger once `final_stat` is published.
    pub open spec fn with_result(self, final_stat: u32) -> BetPool {
        BetPool {
            result: outcome_for(final_stat, self.stat_line),
            result_published: true,
            final_stat,
            ..self
        }
    }

    pub fn key(&self) -> (r: PoolKey)
        ensures
            r == self.pool_key(),
    {
        PoolKey {
            fixture_id: self.fixture_id,
            sport_name: self.sport_name,
            player_id: self.player_id,
            stat_name: self.stat_name,
            stat_line: self.stat_line,
        }
    }
}

} // verus!
