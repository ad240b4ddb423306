use vstd::prelude::*;

use crate::error::CustomError;
use crate::sale::{
    UNIT_SCALE,
    claim_refusal,
    contribute_refusal,
    credit_overflows,
    entitlement_of,
    finalize_refusal,
};
use crate::state::{Pool, SalePhase, UserContribution};

verus! {

/// Sum of the deposits recorded in a ledger.
pub open spec fn ledger_total(ledger: Seq<UserContribution>) -> int
    decreases ledger.len(),
{
    if ledger.len() == 0 {
        0
    } else {
        ledger_total(ledger.drop_last()) + ledger.last().amount
    }
}

/// The pool and ledger after contributor `who` offers `amount` at time `now`,
/// as the contract of `contribute` states it for the entry at `who`: an
/// accepted contribution credits both, a refused or aborted one changes
/// nothing.
pub open spec fn after_contribution(
    pool: Pool,
    ledger: Seq<UserContribution>,
    who: int,
    amount: u64,
    now: i64,
) -> (Pool, Seq<UserContribution>) {
    if 0 <= who < ledger.len() && contribute_refusal(pool, amount, now) is None
        && !credit_overflows(pool, ledger[who], amount) {
        (
            pool.credited(amount),
            ledger.update(
                who,
                ledger[who].credited(amount, entitlement_of(amount as int, pool.token_ratio as int)),
            ),
        )
    } else {
        (pool, ledger)
    }
}

/// The pool and ledger after a sequence of contributions, each given as
/// (contributor, amount, time).
pub open spec fn after_contributions(
    pool: Pool,
    ledger: Seq<UserContribution>,
    calls: Seq<(int, u64, i64)>,
) -> (Pool, Seq<UserContribution>)
    decreases calls.len(),
{
    if calls.len() == 0 {
        (pool, ledger)
    } else {
        let (p, l) = after_contributions(pool, ledger, calls.drop_last());
        let c = calls.last();
        after_contribution(p, l, c.0, c.1, c.2)
    }
}

proof fn lemma_ledger_total_update(ledger: Seq<UserContribution>, i: int, v: UserContribution)
    requires
        0 <= i < ledger.len(),
    ensures
        ledger_total(ledger.update(i, v)) == ledger_total(ledger) - ledger[i].amount + v.amount,
    decreases ledger.len(),
{
    let u = ledger.update(i, v);
    if i == ledger.len() - 1 {
        assert(u.drop_last() =~= ledger.drop_last());
    } else {
        assert(u.drop_last() =~= ledger.drop_last().update(i, v));
        lemma_ledger_total_update(ledger.drop_last(), i, v);
    }
}

/// However many contributions arrive, and in whatever order, the total
/// raised never exceeds the pool's cap, and the cap itself never changes.
pub proof fn lemma_cap_never_exceeded(
    pool: Pool,
    ledger: Seq<UserContribution>,
    calls: Seq<(int, u64, i64)>,
)
    requires
        pool.wf(),
    ensures
        after_contributions(pool, ledger, calls).0.wf(),
        after_contributions(pool, ledger, calls).0.pool_size == pool.pool_size,
        after_contributions(pool, ledger, calls).1.len() == ledger.len(),
    decreases calls.len(),
{
    if calls.len() > 0 {
        lemma_cap_never_exceeded(pool, ledger, calls.drop_last());
    }
}

/// However many contributions arrive, the deposits recorded in the ledger
/// add up to the pool's total raised, provided they did so at the start.
pub proof fn lemma_contributions_conserved(
    pool: Pool,
    ledger: Seq<UserContribution>,
    calls: Seq<(int, u64, i64)>,
)
    requires
        ledger_total(ledger) == pool.total_raised,
    ensures
        ledger_total(after_contributions(pool, ledger, calls).1) == after_contributions(
            pool,
            ledger,
            calls,
        ).0.total_raised,
    decreases calls.len(),
{
    if calls.len() > 0 {
        lemma_contributions_conserved(pool, ledger, calls.drop_last());
        let (p, l) = after_contributions(pool, ledger, calls.drop_last());
        let c = calls.last();
        if 0 <= c.0 < l.len() && contribute_refusal(p, c.1, c.2) is None && !credit_overflows(
            p,
            l[c.0],
            c.1,
        ) {
            lemma_ledger_total_update(
                l,
                c.0,
                l[c.0].credited(c.1, entitlement_of(c.1 as int, p.token_ratio as int)),
            );
        }
    }
}

/// The entitlement is the floor of `amount * ratio / UNIT_SCALE`: the
/// largest whole number of tokens whose price in base units does not exceed
/// the deposit.
pub proof fn lemma_entitlement_is_floor(amount: u64, ratio: u64)
    ensures
        entitlement_of(amount as int, ratio as int) >= 0,
        entitlement_of(amount as int, ratio as int) * UNIT_SCALE <= amount * ratio,
        amount * ratio < (entitlement_of(amount as int, ratio as int) + 1) * UNIT_SCALE,
{
    let p = (amount as int) * (ratio as int);
    assert(p >= 0) by (nonlinear_arith)
        requires
            amount >= 0,
            ratio >= 0,
            p == (amount as int) * (ratio as int),
    ;
    let e = p / (UNIT_SCALE as int);
    assert(e * UNIT_SCALE <= p < (e + 1) * UNIT_SCALE && e >= 0) by (nonlinear_arith)
        requires
            p >= 0,
            e == p / (UNIT_SCALE as int),
            UNIT_SCALE == 1_000_000_000,
    ;
}

/// Once a claim has been paid out, a second claim on the same entry is
/// refused with `NoTokensToClaim`.
pub proof fn lemma_second_claim_refused(pool: Pool, entry: UserContribution)
    requires
        claim_refusal(pool, entry) is None,
    ensures
        claim_refusal(pool, entry.drained()) == Some(CustomError::NoTokensToClaim),
{
}

/// Finalization succeeds at most once: on a finalized pool every later
/// attempt is refused with `PoolAlreadyFinalized`.
pub proof fn lemma_finalize_at_most_once(pool: Pool, now: i64, later: i64)
    requires
        finalize_refusal(pool, now) is None,
    ensures
        finalize_refusal(pool.closed(), later) == Some(CustomError::PoolAlreadyFinalized),
{
}

/// After finalization no contribution is ever accepted, whatever room the
/// cap still leaves.
pub proof fn lemma_no_contribution_after_finalization(pool: Pool, amount: u64, now: i64)
    requires
        pool.finalized,
    ensures
        contribute_refusal(pool, amount, now) is Some,
{
}

/// Each operation is admitted in exactly one phase of the sale: contributing
/// while open (and within the cap), finalizing once the window has closed,
/// claiming once finalized (when tokens are owed).
pub proof fn lemma_operations_follow_phases(
    pool: Pool,
    entry: UserContribution,
    amount: u64,
    now: i64,
)
    ensures
        contribute_refusal(pool, amount, now) is None <==> (pool.phase_at(now) == SalePhase::Open
            && pool.total_raised + amount <= pool.pool_size),
        finalize_refusal(pool, now) is None <==> pool.phase_at(now)
            == SalePhase::AwaitingFinalization,
        claim_refusal(pool, entry) is None <==> (pool.phase_at(now) == SalePhase::Finalized
            && entry.tokens_due > 0),
{
}

} // verus!
