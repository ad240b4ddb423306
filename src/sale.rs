use vstd::prelude::*;

use crate::error::CustomError;
use crate::state::{Pool, UserContribution};
use anchor_lang::prelude::Pubkey;

verus! {

/// Base-currency units (lamports) in one whole unit (SOL); ratios are given
/// in tokens per whole unit.
pub const UNIT_SCALE: u64 = 1_000_000_000;

/// Relies on `solana_program::native_token::LAMPORTS_PER_SOL`, the number of
/// lamports in one SOL, which is the constant one billion.
#[verifier::external_body]
fn lamports_per_sol() -> (r: u64)
    ensures
        r == UNIT_SCALE,
{
    anchor_lang::solana_program::native_token::LAMPORTS_PER_SOL
}

/// Tokens owed for `amount` base units at `ratio` tokens per whole unit,
/// rounded down.
pub open spec fn entitlement_of(amount: int, ratio: int) -> int {
    (amount * ratio) / (UNIT_SCALE as int)
}

/// Why `contribute` refuses `amount` at time `now`, checked in order:
/// the window has opened, has not closed, the sale is not finalized, and
/// the cap leaves room.
pub open spec fn contribute_refusal(pool: Pool, amount: u64, now: i64) -> Option<CustomError> {
    if now < pool.start_time {
        Some(CustomError::PoolNotStarted)
    } else if now > pool.end_time {
        Some(CustomError::PoolEnded)
    } else if pool.finalized {
        Some(CustomError::PoolFinalized)
    } else if pool.total_raised + amount > pool.pool_size {
        Some(CustomError::PoolFull)
    } else {
        None
    }
}

/// Why `finalize_pool` refuses at time `now`.
pub open spec fn finalize_refusal(pool: Pool, now: i64) -> Option<CustomError> {
    if pool.finalized {
        Some(CustomError::PoolAlreadyFinalized)
    } else if now <= pool.end_time {
        Some(CustomError::PoolNotEnded)
    } else {
        None
    }
}

/// Why `claim_tokens` refuses to pay out `entry`.
pub open spec fn claim_refusal(pool: Pool, entry: UserContribution) -> Option<CustomError> {
    if !pool.finalized {
        Some(CustomError::PoolNotFinalized)
    } else if entry.tokens_due == 0 {
        Some(CustomError::NoTokensToClaim)
    } else {
        None
    }
}

/// The crediting of an accepted contribution cannot be narrowed back to
/// 64 bits; the operation aborts on such input.
pub open spec fn credit_overflows(pool: Pool, entry: UserContribution, amount: u64) -> bool {
    ||| entry.amount + amount > u64::MAX
    ||| entry.tokens_due + entitlement_of(amount as int, pool.token_ratio as int) > u64::MAX
}

impl Pool {
    /// The pool after accepting `amount`.
    pub open spec fn credited(self, amount: u64) -> Pool {
        Pool { total_raised: (self.total_raised + amount) as u64, ..self }
    }

    /// The pool after finalization.
    pub open spec fn closed(self) -> Pool {
        Pool { finalized: true, ..self }
    }
}

impl UserContribution {
    /// The entry after a contribution of `amount` that earns `tokens`.
    pub open spec fn credited(self, amount: u64, tokens: int) -> UserContribution {
        UserContribution {
            amount: (self.amount + amount) as u64,
            tokens_due: (self.tokens_due + tokens) as u64,
            tokens_claimed: self.tokens_claimed,
        }
    }

    /// The entry after its outstanding tokens are paid out.
    pub open spec fn drained(self) -> UserContribution {
        UserContribution { amount: self.amount, tokens_due: 0, tokens_claimed: self.tokens_due }
    }
}

/// Tokens earned by `amount` base units at `token_ratio` tokens per whole
/// unit, rounded down; `None` when that does not fit in 64 bits.
pub fn entitlement(amount: u64, token_ratio: u64) -> (r: Option<u64>)
    ensures
        entitlement_of(amount as int, token_ratio as int) <= u64::MAX ==> r == Some(
            entitlement_of(amount as int, token_ratio as int) as u64,
        ),
        entitlement_of(amount as int, token_ratio as int) > u64::MAX ==> r is None,
{
    let scale = lamports_per_sol();
    proof {
        assert((amount as int) * (token_ratio as int) <= u64::MAX * u64::MAX) by (nonlinear_arith)
            requires
                amount <= u64::MAX,
                token_ratio <= u64::MAX,
                0 <= amount,
                0 <= token_ratio,
        ;
    }
    let wide: u128 = (amount as u128) * (token_ratio as u128);
    let tokens: u128 = wide / (scale as u128);
    if tokens <= u64::MAX as u128 {
        Some(tokens as u64)
    } else {
        None
    }
}

/// A new pool: the configuration copied verbatim, nothing raised yet, not
/// finalized. No value is checked here.
pub fn initialize_pool(
    authority: Pubkey,
    token_mint: Pubkey,
    token_vault: Pubkey,
    token_price: u64,
    token_ratio: u64,
    pool_size: u64,
    start_time: i64,
    end_time: i64,
) -> (pool: Pool)
    ensures
        pool == (Pool {
            authority,
            token_mint,
            token_vault,
            token_price,
            token_ratio,
            pool_size,
            total_raised: 0,
            start_time,
            end_time,
            finalized: false,
        }),
        pool.wf(),
{
    Pool {
        authority,
        token_mint,
        token_vault,
        token_price,
        token_ratio,
        pool_size,
        total_raised: 0,
        start_time,
        end_time,
        finalized: false,
    }
}

/// Whether `contribute` would accept `amount` at time `now` yet could not
/// hold the credited amounts in 64 bits: the input on which it aborts.
pub fn contribution_aborts(pool: &Pool, entry: &UserContribution, amount: u64, now: i64) -> (r:
    bool)
    ensures
        r == (contribute_refusal(*pool, amount, now) is None && credit_overflows(
            *pool,
            *entry,
            amount,
        )),
{
    if now < pool.start_time || now > pool.end_time || pool.finalized {
        return false;
    }
    match pool.total_raised.checked_add(amount) {
        Some(t) => {
            if t > pool.pool_size {
                return false;
            }
        },
        None => {
            return false;
        },
    }
    if entry.amount.checked_add(amount).is_none() {
        return true;
    }
    match entitlement(amount, pool.token_ratio) {
        Some(tokens) => entry.tokens_due.checked_add(tokens).is_none(),
        None => true,
    }
}

/// Accepts `amount` base units from a contributor at time `now`.
///
/// Succeeds exactly when `start_time <= now <= end_time`, the sale is not
/// finalized and the cap leaves room for `amount`; the pool's total and the
/// entry's deposit then grow by `amount` and the entry's tokens due by the
/// entitlement, which is returned. Any refusal leaves both records as they
/// were. Crediting that cannot be held in 64 bits aborts, so such input is
/// excluded.
pub fn contribute(pool: &mut Pool, entry: &mut UserContribution, amount: u64, now: i64) -> (r:
    Result<u64, CustomError>)
    requires
        contribute_refusal(*old(pool), amount, now) is None ==> !credit_overflows(
            *old(pool),
            *old(entry),
            amount,
        ),
    ensures
        r is Ok <==> (old(pool).start_time <= now <= old(pool).end_time && !old(pool).finalized
            && old(pool).total_raised + amount <= old(pool).pool_size),
        match r {
            Ok(tokens) => {
                &&& contribute_refusal(*old(pool), amount, now) is None
                &&& tokens == entitlement_of(amount as int, old(pool).token_ratio as int)
                &&& *final(pool) == old(pool).credited(amount)
                &&& *final(entry) == old(entry).credited(amount, tokens as int)
            },
            Err(e) => {
                &&& contribute_refusal(*old(pool), amount, now) == Some(e)
                &&& *final(pool) == *old(pool)
                &&& *final(entry) == *old(entry)
            },
        },
        old(pool).wf() ==> final(pool).wf(),
{
    if now < pool.start_time {
        return Err(CustomError::PoolNotStarted);
    }
    if now > pool.end_time {
        return Err(CustomError::PoolEnded);
    }
    if pool.finalized {
        return Err(CustomError::PoolFinalized);
    }
    let raised = match pool.total_raised.checked_add(amount) {
        Some(t) => t,
        None => {
            return Err(CustomError::PoolFull);
        },
    };
    if raised > pool.pool_size {
        return Err(CustomError::PoolFull);
    }
    // the precondition keeps the entitlement within 64 bits
    let tokens = entitlement(amount, pool.token_ratio).unwrap();
    pool.total_raised = raised;
    entry.amount = entry.amount + amount;
    entry.tokens_due = entry.tokens_due + tokens;
    Ok(tokens)
}

/// Pays out an entry's outstanding tokens once the sale is finalized.
///
/// Succeeds exactly when the pool is finalized and the entry owes tokens;
/// the whole amount due is returned for transfer, the entry owes nothing
/// afterwards and records that amount as claimed. A refusal leaves the
/// entry as it was.
pub fn claim_tokens(pool: &Pool, entry: &mut UserContribution) -> (r: Result<u64, CustomError>)
    ensures
        r is Ok <==> (pool.finalized && old(entry).tokens_due > 0),
        match r {
            Ok(tokens) => {
                &&& claim_refusal(*pool, *old(entry)) is None
                &&& tokens == old(entry).tokens_due
                &&& *final(entry) == old(entry).drained()
            },
            Err(e) => {
                &&& claim_refusal(*pool, *old(entry)) == Some(e)
                &&& *final(entry) == *old(entry)
            },
        },
{
    if !pool.finalized {
        return Err(CustomError::PoolNotFinalized);
    }
    if entry.tokens_due == 0 {
        return Err(CustomError::NoTokensToClaim);
    }
    let tokens = entry.tokens_due;
    entry.tokens_due = 0;
    entry.tokens_claimed = tokens;
    Ok(tokens)
}

/// Closes the sale for good at time `now`.
///
/// Succeeds exactly when the sale is not finalized yet and `now` is past
/// `end_time`; the pool is then finalized and nothing else changes. A
/// refusal leaves the pool as it was.
pub fn finalize_pool(pool: &mut Pool, now: i64) -> (r: Result<(), CustomError>)
    ensures
        r is Ok <==> (!old(pool).finalized && now > old(pool).end_time),
        match r {
            Ok(()) => {
                &&& finalize_refusal(*old(pool), now) is None
                &&& *final(pool) == old(pool).closed()
            },
            Err(e) => {
                &&& finalize_refusal(*old(pool), now) == Some(e)
                &&& *final(pool) == *old(pool)
            },
        },
        old(pool).wf() ==> final(pool).wf(),
{
    if pool.finalized {
        return Err(CustomError::PoolAlreadyFinalized);
    }
    if now <= pool.end_time {
        return Err(CustomError::PoolNotEnded);
    }
    pool.finalized = true;
    Ok(())
}

} // verus!
