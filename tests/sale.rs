use anchor_lang::prelude::Pubkey;
use token_sale::{
    claim_tokens, contribute, contribution_aborts, entitlement, finalize_pool, initialize_pool, CustomError, Pool,
    SalePhase, UserContribution, UNIT_SCALE,
};

const SOL: u64 = 1_000_000_000;

fn key(b: u8) -> Pubkey {
    Pubkey::new_from_array([b; 32])
}

fn new_pool(pool_size: u64, token_ratio: u64, start: i64, end: i64) -> Pool {
    initialize_pool(key(1), key(2), key(3), 7, token_ratio, pool_size, start, end)
}

fn empty_entry() -> UserContribution {
    UserContribution { amount: 0, tokens_due: 0, tokens_claimed: 0 }
}

#[test]
fn initialize_copies_configuration() {
    let pool = initialize_pool(key(1), key(2), key(3), 7, 500, 1000, 100, 200);
    assert_eq!(pool.authority, key(1));
    assert_eq!(pool.token_mint, key(2));
    assert_eq!(pool.token_vault, key(3));
    assert_eq!(pool.token_price, 7);
    assert_eq!(pool.token_ratio, 500);
    assert_eq!(pool.pool_size, 1000);
    assert_eq!(pool.total_raised, 0);
    assert_eq!(pool.start_time, 100);
    assert_eq!(pool.end_time, 200);
    assert!(!pool.finalized);
}

#[test]
fn full_sale_scenario() {
    let mut pool = new_pool(1000 * SOL, 500, 100, 200);
    let mut a = empty_entry();
    let mut b = empty_entry();

    assert_eq!(contribute(&mut pool, &mut a, 600 * SOL, 150), Ok(300000));
    assert_eq!(pool.total_raised, 600 * SOL);
    assert_eq!(a.amount, 600 * SOL);
    assert_eq!(a.tokens_due, 300000);

    assert_eq!(contribute(&mut pool, &mut b, 500 * SOL, 150), Err(CustomError::PoolFull));
    assert_eq!(pool.total_raised, 600 * SOL);
    assert_eq!(b.amount, 0);

    assert_eq!(contribute(&mut pool, &mut b, 400 * SOL, 150), Ok(200000));
    assert_eq!(pool.total_raised, 1000 * SOL);
    assert_eq!(a.amount + b.amount, pool.total_raised);

    assert_eq!(finalize_pool(&mut pool, 250), Ok(()));
    assert!(pool.finalized);

    assert_eq!(claim_tokens(&pool, &mut a), Ok(300000));
    assert_eq!(a.tokens_due, 0);
    assert_eq!(a.tokens_claimed, 300000);
    assert_eq!(claim_tokens(&pool, &mut a), Err(CustomError::NoTokensToClaim));
    assert_eq!(a.tokens_claimed, 300000);
}

#[test]
fn contributions_accumulate() {
    let mut pool = new_pool(10 * SOL, 3, 0, 10);
    let mut a = empty_entry();
    assert_eq!(contribute(&mut pool, &mut a, SOL, 0), Ok(3));
    assert_eq!(contribute(&mut pool, &mut a, 2 * SOL, 10), Ok(6));
    assert_eq!(a.amount, 3 * SOL);
    assert_eq!(a.tokens_due, 9);
    assert_eq!(pool.total_raised, 3 * SOL);
}

#[test]
fn contribute_before_window() {
    let mut pool = new_pool(1000, 500, 100, 200);
    let mut a = empty_entry();
    assert_eq!(contribute(&mut pool, &mut a, 10, 99), Err(CustomError::PoolNotStarted));
    assert_eq!(pool.total_raised, 0);
    assert_eq!(a.amount, 0);
}

#[test]
fn contribute_after_window() {
    let mut pool = new_pool(1000, 500, 100, 200);
    let mut a = empty_entry();
    assert_eq!(contribute(&mut pool, &mut a, 10, 201), Err(CustomError::PoolEnded));
    assert_eq!(pool.total_raised, 0);
}

#[test]
fn contribute_window_bounds_inclusive() {
    let mut pool = new_pool(1000, 500, 100, 200);
    let mut a = empty_entry();
    assert!(contribute(&mut pool, &mut a, 10, 100).is_ok());
    assert!(contribute(&mut pool, &mut a, 10, 200).is_ok());
    assert_eq!(pool.total_raised, 20);
}

#[test]
fn contribute_after_finalization() {
    let mut pool = new_pool(1000, 500, 100, 200);
    pool.finalized = true;
    let mut a = empty_entry();
    assert_eq!(contribute(&mut pool, &mut a, 10, 150), Err(CustomError::PoolFinalized));
    assert_eq!(pool.total_raised, 0);
}

#[test]
fn contribute_up_to_cap_exactly() {
    let mut pool = new_pool(1000, 500, 100, 200);
    let mut a = empty_entry();
    assert!(contribute(&mut pool, &mut a, 1000, 150).is_ok());
    assert_eq!(contribute(&mut pool, &mut a, 1, 150), Err(CustomError::PoolFull));
    assert_eq!(pool.total_raised, 1000);
}

#[test]
fn contribute_sum_past_u64_is_full() {
    let mut pool = new_pool(u64::MAX, 0, 0, 10);
    pool.total_raised = u64::MAX - 5;
    let mut a = empty_entry();
    assert_eq!(contribute(&mut pool, &mut a, 6, 5), Err(CustomError::PoolFull));
    assert_eq!(pool.total_raised, u64::MAX - 5);
}

#[test]
fn zero_contribution_accepted() {
    let mut pool = new_pool(1000, 500, 100, 200);
    let mut a = empty_entry();
    assert_eq!(contribute(&mut pool, &mut a, 0, 150), Ok(0));
    assert_eq!(pool.total_raised, 0);
}

#[test]
fn entitlement_rounds_down() {
    assert_eq!(UNIT_SCALE, 1_000_000_000);
    assert_eq!(entitlement(SOL, 500), Some(500));
    assert_eq!(entitlement(1, 500), Some(0));
    assert_eq!(entitlement(1_999_999_999, 1), Some(1));
    assert_eq!(entitlement(3 * SOL / 2, 3), Some(4));
    assert_eq!(entitlement(0, u64::MAX), Some(0));
}

#[test]
fn entitlement_is_reproducible() {
    assert_eq!(entitlement(123_456_789_012, 987_654), entitlement(123_456_789_012, 987_654));
    assert_eq!(entitlement(123_456_789_012, 987_654), Some(121_932_591));
}

#[test]
fn entitlement_wide_product() {
    // the product exceeds 64 bits, the quotient does not
    assert_eq!(entitlement(u64::MAX, SOL), Some(u64::MAX));
    assert_eq!(entitlement(u64::MAX, SOL + 1), None);
}

#[test]
fn finalize_before_end() {
    let mut pool = new_pool(1000, 500, 100, 200);
    assert_eq!(finalize_pool(&mut pool, 200), Err(CustomError::PoolNotEnded));
    assert!(!pool.finalized);
}

#[test]
fn finalize_twice() {
    let mut pool = new_pool(1000, 500, 100, 200);
    assert_eq!(finalize_pool(&mut pool, 201), Ok(()));
    assert_eq!(finalize_pool(&mut pool, 300), Err(CustomError::PoolAlreadyFinalized));
    assert!(pool.finalized);
}

#[test]
fn claim_before_finalization() {
    let mut pool = new_pool(1000 * SOL, 500, 100, 200);
    let mut a = empty_entry();
    contribute(&mut pool, &mut a, SOL, 150).unwrap();
    assert_eq!(claim_tokens(&pool, &mut a), Err(CustomError::PoolNotFinalized));
    assert_eq!(a.tokens_due, 500);
    assert_eq!(a.tokens_claimed, 0);
}

#[test]
fn claim_with_nothing_due() {
    let mut pool = new_pool(1000, 500, 100, 200);
    finalize_pool(&mut pool, 300).unwrap();
    let mut a = empty_entry();
    assert_eq!(claim_tokens(&pool, &mut a), Err(CustomError::NoTokensToClaim));
}

#[test]
fn phases_follow_clock_and_flag() {
    let mut pool = new_pool(1000, 500, 100, 200);
    assert_eq!(pool.phase(99), SalePhase::Pending);
    assert_eq!(pool.phase(100), SalePhase::Open);
    assert_eq!(pool.phase(200), SalePhase::Open);
    assert_eq!(pool.phase(201), SalePhase::AwaitingFinalization);
    finalize_pool(&mut pool, 201).unwrap();
    assert_eq!(pool.phase(150), SalePhase::Finalized);
}

#[test]
fn contribution_too_small_is_distinct() {
    assert_ne!(CustomError::ContributionTooSmall, CustomError::PoolFull);
}

#[test]
fn aborting_input_detected() {
    let pool = new_pool(u64::MAX, u64::MAX, 0, 10);
    let entry = empty_entry();
    // accepted by the checks, but the entitlement needs more than 64 bits
    assert!(contribution_aborts(&pool, &entry, 2 * SOL, 5));
    // refused by the window check first: no abort
    assert!(!contribution_aborts(&pool, &entry, 2 * SOL, 11));
    // fits
    assert!(!contribution_aborts(&pool, &entry, SOL, 5));
    let due = UserContribution { amount: 0, tokens_due: u64::MAX, tokens_claimed: 0 };
    assert!(contribution_aborts(&pool, &due, SOL, 5));
    assert!(!contribution_aborts(&pool, &due, 0, 5));
}
