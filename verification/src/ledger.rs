use vstd::prelude::*;

use vstd::hash_map::HashMapWithView;

use crate::claim::{claim_calls, pow10, Claim};
use crate::error::{LedgerError, StakeError};
use crate::service::ServiceCall;
use crate::stake::{collection_ok, stake_calls, Stake};
use crate::state::{Address, MetadataInfo, StakeAccount, StakeConfig, UserAccount};
use crate::unstake::{unstake_calls, Unstake};

verus! {

broadcast use vstd::std_specs::hash::group_hash_axioms;

/// The program's slice of the host ledger, as the contracts speak of it:
/// the configuration singleton, the holder records, and the live stake
/// records.
///
/// Records live at deterministically derived addresses. The registry's
/// address is derived from a fixed seed alone, so an `Option` holds it; a
/// holder record's address is derived from the participant's address, so
/// the holder map is keyed by participant; a stake record's address is
/// derived from the asset and the registry, so the stake map is keyed by
/// asset. Destroying a stake record frees its key, and re-staking the
/// same asset reuses it: the same derived address.
#[verifier::ext_equal]
pub struct LedgerState {
    /// The configuration registry, once created.
    pub config: Option<StakeConfig>,
    /// Holder records, keyed by the participant they were derived from.
    pub holders: Map<Address, UserAccount>,
    /// Live stake records, keyed by the asset they were derived from.
    pub stakes: Map<Address, StakeAccount>,
}

impl LedgerState {
    /// Well-formedness: every stake record sits at the address derived
    /// from its own asset, and no holder exceeds the configured ceiling —
    /// before configuration, no holder has anything staked at all.
    pub open spec fn wf(self) -> bool {
        &&& forall|m: Address| #[trigger]
            self.stakes.contains_key(m) ==> self.stakes[m].mint == m
        &&& forall|u: Address| #[trigger]
            self.holders.contains_key(u) ==> match self.config {
                Some(cfg) => self.holders[u].amount_staked <= cfg.max_stake,
                None => self.holders[u].amount_staked == 0,
            }
    }
}

/// The ledger before any transaction: nothing configured, nobody
/// registered, nothing staked.
pub open spec fn empty_ledger() -> LedgerState {
    LedgerState { config: None, holders: Map::empty(), stakes: Map::empty() }
}

/// Creates the configuration registry, single-shot: succeeds exactly
/// when no registry exists yet, persisting the three parameters and the
/// derivation bumps; fails with `AlreadyConfigured`, changing nothing,
/// when one does.
pub open spec fn spec_initialize_config(
    l: LedgerState,
    points_per_stake: u8,
    max_stake: u8,
    freeze_period: u32,
    bump: u8,
    rewards_bump: u8,
) -> (LedgerState, Result<(), LedgerError>) {
    if l.config is Some {
        (l, Err(LedgerError::AlreadyConfigured))
    } else {
        (
            LedgerState {
                config: Some(
                    StakeConfig {
                        points_per_stake,
                        max_stake,
                        freeze_period,
                        rewards_bump,
                        bump,
                    },
                ),
                ..l
            },
            Ok(()),
        )
    }
}

/// Creates a holder record for the participant with no points and no
/// stakes; fails with `AlreadyRegistered`, changing nothing, when the
/// participant already has one.
pub open spec fn spec_initialize_user(l: LedgerState, user: Address, bump: u8) -> (
    LedgerState,
    Result<(), LedgerError>,
) {
    if l.holders.contains_key(user) {
        (l, Err(LedgerError::AlreadyRegistered))
    } else {
        (
            LedgerState {
                holders: l.holders.insert(
                    user,
                    UserAccount { points: 0, amount_staked: 0, bump },
                ),
                ..l
            },
            Ok(()),
        )
    }
}

/// The accounts a stake transaction assembles, given that the registry
/// and the holder record exist and the stake record's address is free:
/// the fresh stake record starts zeroed, as the runtime allocates it.
pub open spec fn stake_ctx(
    l: LedgerState,
    user: Address,
    mint: Address,
    collection_mint: Address,
    metadata: MetadataInfo,
) -> Stake {
    Stake {
        user,
        mint,
        collection_mint,
        metadata,
        config: l.config->0,
        user_account: l.holders[user],
        stake_account: StakeAccount { owner: 0, mint: 0, staked_at: 0, bump: 0 },
    }
}

/// Stakes an asset. The bookkeeping checks come first — the registry must
/// exist, the participant must be registered, the asset's derived address
/// must be free, and the asset must be a verified member of the expected
/// collection — then the operation's own ceiling check; any failure
/// changes nothing. On success a stake record owned by the participant
/// and timestamped `now` appears at the asset's address, the holder's
/// count rises by one, and the custody calls of `stake_calls` are owed.
pub open spec fn spec_stake(
    l: LedgerState,
    user: Address,
    mint: Address,
    collection_mint: Address,
    metadata: MetadataInfo,
    now: i64,
    bump: u8,
) -> (LedgerState, Result<Seq<ServiceCall>, LedgerError>) {
    if l.config is None {
        (l, Err(LedgerError::NotConfigured))
    } else if !l.holders.contains_key(user) {
        (l, Err(LedgerError::NotRegistered))
    } else if l.stakes.contains_key(mint) {
        (l, Err(LedgerError::StakeRecordInUse))
    } else if !collection_ok(metadata, collection_mint) {
        (l, Err(LedgerError::CollectionNotVerified))
    } else if l.holders[user].amount_staked >= l.config->0.max_stake {
        (l, Err(LedgerError::Program(StakeError::MaxStakeReached)))
    } else {
        (
            LedgerState {
                config: l.config,
                holders: l.holders.insert(
                    user,
                    UserAccount {
                        points: l.holders[user].points,
                        amount_staked: (l.holders[user].amount_staked + 1) as u8,
                        bump: l.holders[user].bump,
                    },
                ),
                stakes: l.stakes.insert(
                    mint,
                    StakeAccount { owner: user, mint, staked_at: now, bump },
                ),
            },
            Ok(stake_calls(user, mint)),
        )
    }
}

/// The accounts an unstake transaction assembles, given that the
/// registry, the holder record and the stake record exist.
pub open spec fn unstake_ctx(l: LedgerState, user: Address, mint: Address) -> Unstake {
    Unstake {
        user,
        mint,
        config: l.config->0,
        user_account: l.holders[user],
        stake_account: l.stakes[mint],
    }
}

/// True when an unstake's arithmetic cannot overflow on these inputs;
/// vacuous where a bookkeeping check fails first.
pub open spec fn unstake_arith_ok(l: LedgerState, user: Address, mint: Address, now: i64) -> bool {
    (l.config is Some && l.holders.contains_key(user) && l.stakes.contains_key(mint))
        ==> unstake_ctx(l, user, mint).arith_ok(now)
}

/// Unstakes an asset. The bookkeeping checks come first — the registry
/// must exist, the caller must be registered, a stake record must live at
/// the asset's address — then the operation's own validations, in the
/// order of `Unstake::refusal`; any failure changes nothing. On success
/// the holder is credited one `points_per_stake` per whole day staked,
/// the count falls by one, the stake record is destroyed — its derived
/// address free again — and the custody calls of `unstake_calls` are
/// owed.
pub open spec fn spec_unstake(l: LedgerState, user: Address, mint: Address, now: i64) -> (
    LedgerState,
    Result<Seq<ServiceCall>, LedgerError>,
) {
    if l.config is None {
        (l, Err(LedgerError::NotConfigured))
    } else if !l.holders.contains_key(user) {
        (l, Err(LedgerError::NotRegistered))
    } else if !l.stakes.contains_key(mint) {
        (l, Err(LedgerError::StakeRecordMissing))
    } else {
        let u = unstake_ctx(l, user, mint);
        match u.refusal(now) {
            Some(e) => (l, Err(LedgerError::Program(e))),
            None => (
                LedgerState {
                    config: l.config,
                    holders: l.holders.insert(
                        user,
                        UserAccount {
                            points: u.points_after(now) as u32,
                            amount_staked: (u.user_account.amount_staked - 1) as u8,
                            bump: u.user_account.bump,
                        },
                    ),
                    stakes: l.stakes.remove(mint),
                },
                Ok(unstake_calls(user, mint)),
            ),
        }
    }
}

/// The accounts a claim transaction assembles, given that the registry
/// and the holder record exist.
pub open spec fn claim_ctx(l: LedgerState, user: Address, rewards_decimals: u8) -> Claim {
    Claim { user, config: l.config->0, user_account: l.holders[user], rewards_decimals }
}

/// True when a claim's arithmetic cannot overflow on these inputs;
/// vacuous where a bookkeeping check fails first.
pub open spec fn claim_arith_ok(l: LedgerState, user: Address, rewards_decimals: u8) -> bool {
    (l.config is Some && l.holders.contains_key(user)) ==> claim_ctx(
        l,
        user,
        rewards_decimals,
    ).arith_ok()
}

/// Claims accrued rewards. The registry must exist and the caller must be
/// registered; then the claim always succeeds, owing an issuance of the
/// holder's points scaled by the reward mint's decimal factor and
/// resetting the points to zero — with no points that is a valid issuance
/// of zero.
pub open spec fn spec_claim(l: LedgerState, user: Address, rewards_decimals: u8) -> (
    LedgerState,
    Result<(u64, Seq<ServiceCall>), LedgerError>,
) {
    if l.config is None {
        (l, Err(LedgerError::NotConfigured))
    } else if !l.holders.contains_key(user) {
        (l, Err(LedgerError::NotRegistered))
    } else {
        let c = claim_ctx(l, user, rewards_decimals);
        let amount = c.amount() as u64;
        (
            LedgerState {
                config: l.config,
                holders: l.holders.insert(
                    user,
                    UserAccount {
                        points: 0,
                        amount_staked: c.user_account.amount_staked,
                        bump: c.user_account.bump,
                    },
                ),
                stakes: l.stakes,
            },
            Ok((amount, claim_calls(user, amount))),
        )
    }
}

/// Relates an operation's executable result to its specified one: equal
/// errors, or equal call lists.
pub open spec fn calls_result_matches(
    r: Result<Vec<ServiceCall>, LedgerError>,
    s: Result<Seq<ServiceCall>, LedgerError>,
) -> bool {
    match (r, s) {
        (Ok(v), Ok(q)) => v@ == q,
        (Err(e1), Err(e2)) => e1 == e2,
        _ => false,
    }
}

/// As `calls_result_matches`, for the claim's amount-and-calls result.
pub open spec fn claim_result_matches(
    r: Result<(u64, Vec<ServiceCall>), LedgerError>,
    s: Result<(u64, Seq<ServiceCall>), LedgerError>,
) -> bool {
    match (r, s) {
        (Ok((a, v)), Ok((b, q))) => a == b && v@ == q,
        (Err(e1), Err(e2)) => e1 == e2,
        _ => false,
    }
}

/// The program's slice of the host ledger: the executable counterpart of
/// `LedgerState`, with each operation proved equal to its specified
/// transition.
pub struct Ledger {
    /// The configuration registry, once created.
    pub config: Option<StakeConfig>,
    /// Holder records, keyed by the participant they were derived from.
    pub holders: HashMapWithView<Address, UserAccount>,
    /// Live stake records, keyed by the asset they were derived from.
    pub stakes: HashMapWithView<Address, StakeAccount>,
}

impl View for Ledger {
    type V = LedgerState;

    open spec fn view(&self) -> LedgerState {
        LedgerState { config: self.config, holders: self.holders@, stakes: self.stakes@ }
    }
}

impl Ledger {
    /// An empty ledger, before any transaction. It is well-formed, and
    /// every operation preserves well-formedness, so a ledger driven
    /// only through the operations stays well-formed forever.
    pub fn new() -> (l: Ledger)
        ensures
            l@ == empty_ledger(),
            l@.wf(),
    {
        let l = Ledger {
            config: None,
            holders: HashMapWithView::new(),
            stakes: HashMapWithView::new(),
        };
        proof {
            assert(l@ =~= empty_ledger());
        }
        l
    }

    /// The configuration registry, once created.
    pub fn current_config(&self) -> (r: Option<StakeConfig>)
        ensures
            r == self@.config,
    {
        self.config
    }

    /// The participant's holder record, if registered.
    pub fn holder(&self, user: Address) -> (r: Option<UserAccount>)
        ensures
            match r {
                Some(ua) => self@.holders.contains_key(user) && ua == self@.holders[user],
                None => !self@.holders.contains_key(user),
            },
    {
        match self.holders.get(&user) {
            Some(ua) => Some(*ua),
            None => None,
        }
    }

    /// The asset's live stake record, if one exists.
    pub fn stake_record(&self, mint: Address) -> (r: Option<StakeAccount>)
        ensures
            match r {
                Some(sa) => self@.stakes.contains_key(mint) && sa == self@.stakes[mint],
                None => !self@.stakes.contains_key(mint),
            },
    {
        match self.stakes.get(&mint) {
            Some(sa) => Some(*sa),
            None => None,
        }
    }

    /// Performs the `spec_initialize_config` transition.
    pub fn initialize_config(
        &mut self,
        points_per_stake: u8,
        max_stake: u8,
        freeze_period: u32,
        bump: u8,
        rewards_bump: u8,
    ) -> (r: Result<(), LedgerError>)
        ensures
            final(self)@ == spec_initialize_config(
                old(self)@,
                points_per_stake,
                max_stake,
                freeze_period,
                bump,
                rewards_bump,
            ).0,
            r == spec_initialize_config(
                old(self)@,
                points_per_stake,
                max_stake,
                freeze_period,
                bump,
                rewards_bump,
            ).1,
            old(self)@.wf() ==> final(self)@.wf(),
    {
        if self.config.is_some() {
            return Err(LedgerError::AlreadyConfigured);
        }
        self.config = Some(
            StakeConfig { points_per_stake, max_stake, freeze_period, rewards_bump, bump },
        );
        proof {
            assert(self@ =~= spec_initialize_config(
                old(self)@,
                points_per_stake,
                max_stake,
                freeze_period,
                bump,
                rewards_bump,
            ).0);
        }
        Ok(())
    }

    /// Performs the `spec_initialize_user` transition.
    pub fn initialize_user(&mut self, user: Address, bump: u8) -> (r: Result<(), LedgerError>)
        ensures
            final(self)@ == spec_initialize_user(old(self)@, user, bump).0,
            r == spec_initialize_user(old(self)@, user, bump).1,
            old(self)@.wf() ==> final(self)@.wf(),
    {
        if self.holders.contains_key(&user) {
            return Err(LedgerError::AlreadyRegistered);
        }
        self.holders.insert(user, UserAccount { points: 0, amount_staked: 0, bump });
        proof {
            assert(self@ =~= spec_initialize_user(old(self)@, user, bump).0);
        }
        Ok(())
    }

    /// Performs the `spec_stake` transition and hands out the custody
    /// calls the runtime must then make, in order.
    pub fn stake(
        &mut self,
        user: Address,
        mint: Address,
        collection_mint: Address,
        metadata: MetadataInfo,
        now: i64,
        bump: u8,
    ) -> (r: Result<Vec<ServiceCall>, LedgerError>)
        ensures
            final(self)@ == spec_stake(
                old(self)@,
                user,
                mint,
                collection_mint,
                metadata,
                now,
                bump,
            ).0,
            calls_result_matches(
                r,
                spec_stake(old(self)@, user, mint, collection_mint, metadata, now, bump).1,
            ),
            old(self)@.wf() ==> final(self)@.wf(),
    {
        let cfg = match self.config {
            Some(c) => c,
            None => {
                return Err(LedgerError::NotConfigured);
            },
        };
        let ua = match self.holders.get(&user) {
            Some(a) => *a,
            None => {
                return Err(LedgerError::NotRegistered);
            },
        };
        if self.stakes.contains_key(&mint) {
            return Err(LedgerError::StakeRecordInUse);
        }
        let mut ctx = Stake {
            user,
            mint,
            collection_mint,
            metadata,
            config: cfg,
            user_account: ua,
            stake_account: StakeAccount { owner: 0, mint: 0, staked_at: 0, bump: 0 },
        };
        if !ctx.validate() {
            return Err(LedgerError::CollectionNotVerified);
        }
        match ctx.stake(now, bump) {
            Ok(calls) => {
                self.holders.insert(user, ctx.user_account);
                self.stakes.insert(mint, ctx.stake_account);
                proof {
                    assert(self@ =~= spec_stake(
                        old(self)@,
                        user,
                        mint,
                        collection_mint,
                        metadata,
                        now,
                        bump,
                    ).0);
                    if old(self)@.wf() {
                        lemma_stake_preserves_wf(
                            old(self)@,
                            user,
                            mint,
                            collection_mint,
                            metadata,
                            now,
                            bump,
                        );
                    }
                }
                Ok(calls)
            },
            Err(e) => Err(LedgerError::Program(e)),
        }
    }

    /// Performs the `spec_unstake` transition and hands out the custody
    /// calls the runtime must then make, in order.
    pub fn unstake(&mut self, user: Address, mint: Address, now: i64) -> (r: Result<
        Vec<ServiceCall>,
        LedgerError,
    >)
        requires
            unstake_arith_ok(old(self)@, user, mint, now),
        ensures
            final(self)@ == spec_unstake(old(self)@, user, mint, now).0,
            calls_result_matches(r, spec_unstake(old(self)@, user, mint, now).1),
            old(self)@.wf() ==> final(self)@.wf(),
    {
        let cfg = match self.config {
            Some(c) => c,
            None => {
                return Err(LedgerError::NotConfigured);
            },
        };
        let ua = match self.holders.get(&user) {
            Some(a) => *a,
            None => {
                return Err(LedgerError::NotRegistered);
            },
        };
        let sa = match self.stakes.get(&mint) {
            Some(s) => *s,
            None => {
                return Err(LedgerError::StakeRecordMissing);
            },
        };
        let mut ctx = Unstake { user, mint, config: cfg, user_account: ua, stake_account: sa };
        proof {
            assert(ctx == unstake_ctx(old(self)@, user, mint));
        }
        match ctx.unstake(now) {
            Ok(calls) => {
                self.holders.insert(user, ctx.user_account);
                self.stakes.remove(&mint);
                proof {
                    assert(self@ =~= spec_unstake(old(self)@, user, mint, now).0);
                    if old(self)@.wf() {
                        lemma_unstake_preserves_wf(old(self)@, user, mint, now);
                    }
                }
                Ok(calls)
            },
            Err(e) => Err(LedgerError::Program(e)),
        }
    }

    /// Performs the `spec_claim` transition: returns the amount of
    /// reward-token atomic units to issue together with the issuance
    /// call.
    pub fn claim(&mut self, user: Address, rewards_decimals: u8) -> (r: Result<
        (u64, Vec<ServiceCall>),
        LedgerError,
    >)
        requires
            claim_arith_ok(old(self)@, user, rewards_decimals),
        ensures
            final(self)@ == spec_claim(old(self)@, user, rewards_decimals).0,
            claim_result_matches(r, spec_claim(old(self)@, user, rewards_decimals).1),
            old(self)@.wf() ==> final(self)@.wf(),
    {
        let cfg = match self.config {
            Some(c) => c,
            None => {
                return Err(LedgerError::NotConfigured);
            },
        };
        let ua = match self.holders.get(&user) {
            Some(a) => *a,
            None => {
                return Err(LedgerError::NotRegistered);
            },
        };
        let mut ctx = Claim { user, config: cfg, user_account: ua, rewards_decimals };
        proof {
            assert(ctx == claim_ctx(old(self)@, user, rewards_decimals));
        }
        match ctx.claim() {
            Ok((amount, calls)) => {
                self.holders.insert(user, ctx.user_account);
                proof {
                    assert(self@ =~= spec_claim(old(self)@, user, rewards_decimals).0);
                    if old(self)@.wf() {
                        lemma_claim_preserves_wf(old(self)@, user, rewards_decimals);
                    }
                }
                Ok((amount, calls))
            },
            Err(e) => Err(LedgerError::Program(e)),
        }
    }
}

/// A successful stake leaves the ledger well-formed: the new record sits
/// at its own asset's address, and the new count stays at or under the
/// ceiling it was checked against.
pub proof fn lemma_stake_preserves_wf(
    l: LedgerState,
    user: Address,
    mint: Address,
    collection_mint: Address,
    metadata: MetadataInfo,
    now: i64,
    bump: u8,
)
    requires
        l.wf(),
    ensures
        spec_stake(l, user, mint, collection_mint, metadata, now, bump).0.wf(),
{
    let l1 = spec_stake(l, user, mint, collection_mint, metadata, now, bump).0;
    assert forall|m: Address| #[trigger] l1.stakes.contains_key(m) implies l1.stakes[m].mint
        == m by {
        if m != mint {
            assert(l.stakes.contains_key(m));
        }
    }
    assert forall|u: Address| #[trigger] l1.holders.contains_key(u) implies match l1.config {
        Some(cfg) => l1.holders[u].amount_staked <= cfg.max_stake,
        None => l1.holders[u].amount_staked == 0,
    } by {
        if u != user {
            assert(l.holders.contains_key(u));
        }
    }
}

/// A successful unstake leaves the ledger well-formed.
pub proof fn lemma_unstake_preserves_wf(l: LedgerState, user: Address, mint: Address, now: i64)
    requires
        l.wf(),
    ensures
        spec_unstake(l, user, mint, now).0.wf(),
{
    let l1 = spec_unstake(l, user, mint, now).0;
    assert forall|m: Address| #[trigger] l1.stakes.contains_key(m) implies l1.stakes[m].mint
        == m by {
        assert(l.stakes.contains_key(m));
    }
    assert forall|u: Address| #[trigger] l1.holders.contains_key(u) implies match l1.config {
        Some(cfg) => l1.holders[u].amount_staked <= cfg.max_stake,
        None => l1.holders[u].amount_staked == 0,
    } by {
        if u != user {
            assert(l.holders.contains_key(u));
        }
    }
}

/// A claim leaves the ledger well-formed: it touches no stake count.
pub proof fn lemma_claim_preserves_wf(l: LedgerState, user: Address, rewards_decimals: u8)
    requires
        l.wf(),
    ensures
        spec_claim(l, user, rewards_decimals).0.wf(),
{
    let l1 = spec_claim(l, user, rewards_decimals).0;
    assert forall|u: Address| #[trigger] l1.holders.contains_key(u) implies match l1.config {
        Some(cfg) => l1.holders[u].amount_staked <= cfg.max_stake,
        None => l1.holders[u].amount_staked == 0,
    } by {
        if u != user {
            assert(l.holders.contains_key(u));
        }
    }
}

} // verus!
