use vstd::prelude::*;

verus! {

/// Every way an operation on the sale can be refused.
#[derive(Debug, Clone, Copy, PartialEq, Eq, Structural)]
pub enum CustomError {
    /// The contribution window has not opened yet.
    PoolNotStarted,
    /// The contribution window has closed.
    PoolEnded,
    /// `finalize_pool` was called on a sale that is already finalized.
    PoolAlreadyFinalized,
    /// A contribution arrived after the sale was finalized.
    PoolFinalized,
    /// The contribution would raise the total past the pool's cap.
    PoolFull,
    /// `finalize_pool` was called before the window closed.
    PoolNotEnded,
    /// Tokens were claimed before the sale was finalized.
    PoolNotFinalized,
    /// The ledger entry owes no tokens.
    NoTokensToClaim,
    /// Reserved: no operation reports it.
    ContributionTooSmall,
}

} // verus!
