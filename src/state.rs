use vstd::prelude::*;

use anchor_lang::prelude::Pubkey;

verus! {

/// Relies on solana_program's `Pubkey` (re-exported by anchor_lang) as an
/// opaque account address: records carry it, and no logic looks inside.
#[verifier::external_type_specification]
#[verifier::external_body]
pub struct ExPubkey(Pubkey);

/// Configuration and running totals of one sale.
#[derive(Clone, Copy)]
pub struct Pool {
    pub authority: Pubkey,
    pub token_mint: Pubkey,
    pub token_vault: Pubkey,
    pub token_price: u64,
    pub token_ratio: u64,
    pub pool_size: u64,
    pub total_raised: u64,
    pub start_time: i64,
    pub end_time: i64,
    pub finalized: bool,
}

/// One contributor's ledger entry in a pool.
#[derive(Clone, Copy)]
pub struct UserContribution {
    pub amount: u64,
    pub tokens_due: u64,
    pub tokens_claimed: u64,
}

impl Pool {
    /// The cap holds: no more has been accepted than the pool may take.
    pub open spec fn wf(self) -> bool {
        self.total_raised <= self.pool_size
    }
}

/// Where a sale stands at a given time; derived from the clock and the
/// `finalized` flag, never stored.
#[derive(Debug, Clone, Copy, PartialEq, Eq, Structural)]
pub enum SalePhase {
    /// The window has not opened.
    Pending,
    /// Contributions are accepted.
    Open,
    /// The window has closed and the authority may finalize.
    AwaitingFinalization,
    /// Claims are paid out; nothing else changes any more.
    Finalized,
}

impl Pool {
    /// The phase of the sale at time `now`.
    pub open spec fn phase_at(self, now: i64) -> SalePhase {
        if self.finalized {
            SalePhase::Finalized
        } else if now > self.end_time {
            SalePhase::AwaitingFinalization
        } else if now < self.start_time {
            SalePhase::Pending
        } else {
            SalePhase::Open
        }
    }

    /// The phase of the sale at time `now`.
    pub fn phase(&self, now: i64) -> (r: SalePhase)
        ensures
            r == self.phase_at(now),
    {
        if self.finalized {
            SalePhase::Finalized
        } else if now > self.end_time {
            SalePhase::AwaitingFinalization
        } else if now < self.start_time {
            SalePhase::Pending
        } else {
            SalePhase::Open
        }
    }
}

} // verus!
