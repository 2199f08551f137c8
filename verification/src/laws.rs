use vstd::prelude::*;

use vstd::arithmetic::div_mod::lemma_basic_div;

use crate::claim::pow10;
use crate::error::{LedgerError, StakeError};
use crate::ledger::{
    spec_claim, spec_initialize_config, spec_initialize_user, spec_stake, spec_unstake,
    unstake_ctx, LedgerState,
};
use crate::service::ServiceCall;
use crate::stake::collection_ok;
use crate::state::{Address, MetadataInfo, StakeAccount, SECONDS_PER_DAY};

verus! {

/// The registry is created exactly once: on an unconfigured ledger the
/// first `initialize_config` succeeds for any valid parameters, and on
/// the ledger it leaves behind every further attempt is refused with
/// `AlreadyConfigured`, whatever its parameters, changing nothing.
pub proof fn lemma_configure_exactly_once(
    l: LedgerState,
    p1: u8,
    m1: u8,
    f1: u32,
    b1: u8,
    rb1: u8,
    p2: u8,
    m2: u8,
    f2: u32,
    b2: u8,
    rb2: u8,
)
    requires
        l.config is None,
    ensures
        spec_initialize_config(l, p1, m1, f1, b1, rb1).1 is Ok,
        spec_initialize_config(spec_initialize_config(l, p1, m1, f1, b1, rb1).0, p2, m2, f2, b2, rb2)
            == (
            spec_initialize_config(l, p1, m1, f1, b1, rb1).0,
            Err::<(), LedgerError>(LedgerError::AlreadyConfigured),
        ),
{
}

/// Once created, the configuration registry is immutable: no transition
/// on a configured ledger touches it, and no operation has an update
/// path.
pub proof fn lemma_config_immutable(
    l: LedgerState,
    user: Address,
    mint: Address,
    collection_mint: Address,
    metadata: MetadataInfo,
    now: i64,
    bump: u8,
    rewards_decimals: u8,
    p: u8,
    m: u8,
    f: u32,
    b: u8,
    rb: u8,
)
    requires
        l.config is Some,
    ensures
        spec_initialize_config(l, p, m, f, b, rb).0.config == l.config,
        spec_initialize_user(l, user, bump).0.config == l.config,
        spec_stake(l, user, mint, collection_mint, metadata, now, bump).0.config == l.config,
        spec_unstake(l, user, mint, now).0.config == l.config,
        spec_claim(l, user, rewards_decimals).0.config == l.config,
{
}

/// A stake record is immutable for its lifetime: a transition either
/// leaves it exactly as it is, or — only the owner's own successful
/// unstake of that very asset — destroys it whole.
pub proof fn lemma_stake_record_immutable(
    l: LedgerState,
    user: Address,
    mint: Address,
    collection_mint: Address,
    metadata: MetadataInfo,
    now: i64,
    bump: u8,
    rewards_decimals: u8,
    watched: Address,
)
    requires
        l.stakes.contains_key(watched),
    ensures
        spec_stake(l, user, mint, collection_mint, metadata, now, bump).0.stakes[watched]
            == l.stakes[watched],
        spec_claim(l, user, rewards_decimals).0.stakes[watched] == l.stakes[watched],
        ({
            let after = spec_unstake(l, user, mint, now).0.stakes;
            after.contains_key(watched) ==> after[watched] == l.stakes[watched]
        }),
        mint != watched ==> spec_unstake(l, user, mint, now).0.stakes.contains_key(watched),
{
    assert(spec_stake(
        l,
        user,
        mint,
        collection_mint,
        metadata,
        now,
        bump,
    ).0.stakes[watched] == l.stakes[watched]);
}

/// Unstaking before a full day has passed — in particular immediately
/// after staking — is refused with `FreezePeriodNotExpired` and changes
/// nothing, whatever minimum holding period is configured: zero elapsed
/// days is never strictly greater than an unsigned minimum.
pub proof fn lemma_unstake_same_day_refused(
    l: LedgerState,
    user: Address,
    mint: Address,
    now: i64,
)
    requires
        l.config is Some,
        l.holders.contains_key(user),
        l.stakes.contains_key(mint),
        l.stakes[mint].staked_at <= now,
        now - l.stakes[mint].staked_at < SECONDS_PER_DAY,
    ensures
        spec_unstake(l, user, mint, now) == (
            l,
            Err::<Seq<ServiceCall>, LedgerError>(
                LedgerError::Program(StakeError::FreezePeriodNotExpired),
            ),
        ),
{
    lemma_basic_div(now - l.stakes[mint].staked_at, SECONDS_PER_DAY as int);
}

/// An unstake signed by anyone but the record's owner is refused with
/// `NotOriginalStaker` and changes nothing, provided the two checks that
/// run first pass: the holding period has expired and the caller has
/// something staked. (Where they do not — immediately after staking,
/// say — the earlier refusal is reported instead.)
pub proof fn lemma_unstake_wrong_owner_refused(
    l: LedgerState,
    user: Address,
    mint: Address,
    now: i64,
)
    requires
        l.config is Some,
        l.holders.contains_key(user),
        l.stakes.contains_key(mint),
        unstake_ctx(l, user, mint).refusal(now) != Some(StakeError::FreezePeriodNotExpired),
        unstake_ctx(l, user, mint).refusal(now) != Some(StakeError::NoStakedTokens),
        l.stakes[mint].owner != user,
    ensures
        spec_unstake(l, user, mint, now) == (
            l,
            Err::<Seq<ServiceCall>, LedgerError>(
                LedgerError::Program(StakeError::NotOriginalStaker),
            ),
        ),
{
}

/// A claim issues the holder's points scaled by the decimal factor and
/// resets them, so a second immediate claim issues exactly zero and the
/// points stay at zero.
pub proof fn lemma_second_claim_issues_zero(
    l: LedgerState,
    user: Address,
    rewards_decimals: u8,
)
    requires
        l.config is Some,
        l.holders.contains_key(user),
        l.holders[user].points * pow10(rewards_decimals as nat) <= u64::MAX,
    ensures
        ({
            let (l1, r1) = spec_claim(l, user, rewards_decimals);
            let (l2, r2) = spec_claim(l1, user, rewards_decimals);
            &&& r1 matches Ok((a1, _)) && a1 == l.holders[user].points * pow10(
                rewards_decimals as nat,
            )
            &&& l1.holders[user].points == 0
            &&& r2 matches Ok((a2, _)) && a2 == 0
            &&& l2.holders[user].points == 0
        }),
{
}

/// Two holders staking two distinct assets do not interfere: with both
/// transactions' preconditions met, both succeed in either order, the
/// second leaves the first's holder and stake records exactly as the
/// first wrote them, and the second's records come out as they would on a
/// ledger where the first had never staked.
pub proof fn lemma_disjoint_stakes_independent(
    l: LedgerState,
    u1: Address,
    m1: Address,
    cm1: Address,
    md1: MetadataInfo,
    now1: i64,
    b1: u8,
    u2: Address,
    m2: Address,
    cm2: Address,
    md2: MetadataInfo,
    now2: i64,
    b2: u8,
)
    requires
        u1 != u2,
        m1 != m2,
        l.config is Some,
        l.holders.contains_key(u1),
        !l.stakes.contains_key(m1),
        collection_ok(md1, cm1),
        l.holders[u1].amount_staked < l.config->0.max_stake,
        l.holders.contains_key(u2),
        !l.stakes.contains_key(m2),
        collection_ok(md2, cm2),
        l.holders[u2].amount_staked < l.config->0.max_stake,
    ensures
        ({
            let (l1, r1) = spec_stake(l, u1, m1, cm1, md1, now1, b1);
            let (l2, r2) = spec_stake(l1, u2, m2, cm2, md2, now2, b2);
            let alone = spec_stake(l, u2, m2, cm2, md2, now2, b2).0;
            &&& r1 is Ok
            &&& r2 is Ok
            &&& l2.holders[u1] == l1.holders[u1]
            &&& l2.stakes[m1] == l1.stakes[m1]
            &&& l2.holders[u2] == alone.holders[u2]
            &&& l2.stakes[m2] == alone.stakes[m2]
        }),
{
}

/// After a completed unstake the asset's derived address is free again:
/// re-staking the same asset succeeds and produces a fresh record at that
/// same address, owned by the holder and timestamped with the new stake
/// time.
pub proof fn lemma_restake_same_address(
    l: LedgerState,
    user: Address,
    mint: Address,
    collection_mint: Address,
    metadata: MetadataInfo,
    now1: i64,
    now2: i64,
    bump2: u8,
)
    requires
        l.config is Some,
        l.holders.contains_key(user),
        l.stakes.contains_key(mint),
        unstake_ctx(l, user, mint).refusal(now1) is None,
        collection_ok(metadata, collection_mint),
        l.holders[user].amount_staked <= l.config->0.max_stake,
    ensures
        ({
            let (l1, r1) = spec_unstake(l, user, mint, now1);
            let (l2, r2) = spec_stake(
                l1,
                user,
                mint,
                collection_mint,
                metadata,
                now2,
                bump2,
            );
            &&& r1 is Ok
            &&& r2 is Ok
            &&& l2.stakes.contains_key(mint)
            &&& l2.stakes[mint] == (StakeAccount {
                owner: user,
                mint: mint,
                staked_at: now2,
                bump: bump2,
            })
        }),
{
}

} // verus!
