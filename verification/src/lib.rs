//! An on-ledger staking program for verified collectibles: holders
//! deposit an asset into program-controlled custody and accrue reward
//! points over time, later redeemable for reward tokens.
//!
//! Every state transition is a pure function from the current ledger
//! state and the transaction's inputs to either a complete new state
//! plus the list of custody-service calls to perform, or an error with
//! no effect at all. The host runtime executes the calls and commits or
//! aborts the whole transaction atomically.

pub mod claim;
pub mod error;
pub mod laws;
pub mod ledger;
pub mod service;
pub mod stake;
pub mod state;
pub mod unstake;

use vstd::prelude::*;

use crate::error::LedgerError;
use crate::ledger::{
    calls_result_matches, claim_arith_ok, claim_result_matches, spec_claim,
    spec_initialize_config, spec_initialize_user, spec_stake, spec_unstake, unstake_arith_ok,
    Ledger,
};
use crate::service::ServiceCall;
use crate::state::{Address, MetadataInfo};

verus! {

/// Sets up the global staking configuration and the reward-issuance
/// authority, single-shot: see `spec_initialize_config`.
pub fn initialize_config(
    ledger: &mut Ledger,
    points_per_stake: u8,
    max_stake: u8,
    freeze_period: u32,
    bump: u8,
    rewards_bump: u8,
) -> (r: Result<(), LedgerError>)
    ensures
        final(ledger)@ == spec_initialize_config(
            old(ledger)@,
            points_per_stake,
            max_stake,
            freeze_period,
            bump,
            rewards_bump,
        ).0,
        r == spec_initialize_config(
            old(ledger)@,
            points_per_stake,
            max_stake,
            freeze_period,
            bump,
            rewards_bump,
        ).1,
        old(ledger)@.wf() ==> final(ledger)@.wf(),
{
    ledger.initialize_config(points_per_stake, max_stake, freeze_period, bump, rewards_bump)
}

/// Creates a holder record to track the participant's staking activity
/// and rewards: see `spec_initialize_user`.
pub fn initialize_user(ledger: &mut Ledger, user: Address, bump: u8) -> (r: Result<
    (),
    LedgerError,
>)
    ensures
        final(ledger)@ == spec_initialize_user(old(ledger)@, user, bump).0,
        r == spec_initialize_user(old(ledger)@, user, bump).1,
        old(ledger)@.wf() ==> final(ledger)@.wf(),
{
    ledger.initialize_user(user, bump)
}

/// Stakes an asset and starts its reward accrual: see `spec_stake`.
pub fn stake(
    ledger: &mut Ledger,
    user: Address,
    mint: Address,
    collection_mint: Address,
    metadata: MetadataInfo,
    now: i64,
    bump: u8,
) -> (r: Result<Vec<ServiceCall>, LedgerError>)
    ensures
        final(ledger)@ == spec_stake(
            old(ledger)@,
            user,
            mint,
            collection_mint,
            metadata,
            now,
            bump,
        ).0,
        calls_result_matches(
            r,
            spec_stake(old(ledger)@, user, mint, collection_mint, metadata, now, bump).1,
        ),
        old(ledger)@.wf() ==> final(ledger)@.wf(),
{
    ledger.stake(user, mint, collection_mint, metadata, now, bump)
}

/// Unstakes an asset and credits the rewards it earned: see
/// `spec_unstake`.
pub fn unstake(ledger: &mut Ledger, user: Address, mint: Address, now: i64) -> (r: Result<
    Vec<ServiceCall>,
    LedgerError,
>)
    requires
        unstake_arith_ok(old(ledger)@, user, mint, now),
    ensures
        final(ledger)@ == spec_unstake(old(ledger)@, user, mint, now).0,
        calls_result_matches(r, spec_unstake(old(ledger)@, user, mint, now).1),
        old(ledger)@.wf() ==> final(ledger)@.wf(),
{
    ledger.unstake(user, mint, now)
}

/// Converts the holder's accumulated points into reward tokens: see
/// `spec_claim`.
pub fn claim(ledger: &mut Ledger, user: Address, rewards_decimals: u8) -> (r: Result<
    (u64, Vec<ServiceCall>),
    LedgerError,
>)
    requires
        claim_arith_ok(old(ledger)@, user, rewards_decimals),
    ensures
        final(ledger)@ == spec_claim(old(ledger)@, user, rewards_decimals).0,
        claim_result_matches(r, spec_claim(old(ledger)@, user, rewards_decimals).1),
        old(ledger)@.wf() ==> final(ledger)@.wf(),
{
    ledger.claim(user, rewards_decimals)
}

} // verus!
