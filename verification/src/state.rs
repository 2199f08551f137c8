use vstd::prelude::*;

verus! {

/// An account address on the host ledger, modelled as an opaque
/// identifier. Real addresses are byte strings with no structure the
/// program ever reads; all the logic needs is a value that can be
/// compared for equality and used as a key.
pub type Address = u64;

/// Seconds in one whole day: the unit in which holding periods are
/// measured.
pub const SECONDS_PER_DAY: i64 = 86400;

/// The global configuration singleton, created once and never mutated
/// by any operation afterwards.
#[derive(Clone, Copy, Debug, PartialEq, Eq, Structural)]
pub struct StakeConfig {
    /// Reward points credited per full day an asset stays staked.
    pub points_per_stake: u8,
    /// Per-holder ceiling on concurrently staked assets.
    pub max_stake: u8,
    /// Minimum whole days before unstaking is permitted.
    pub freeze_period: u32,
    /// Derivation bump of the reward-issuance authority's address.
    pub rewards_bump: u8,
    /// Derivation bump of the registry's own address.
    pub bump: u8,
}

/// One participant's ledger record: accumulated points and the count of
/// currently staked assets. Created on registration, never destroyed.
#[derive(Clone, Copy, Debug, PartialEq, Eq, Structural)]
pub struct UserAccount {
    /// Redeemable reward balance.
    pub points: u32,
    /// Count of currently staked assets.
    pub amount_staked: u8,
    /// Derivation bump of this record's address.
    pub bump: u8,
}

/// One actively staked asset: who staked it and when. Created on stake,
/// destroyed on unstake.
#[derive(Clone, Copy, Debug, PartialEq, Eq, Structural)]
pub struct StakeAccount {
    /// The holder who staked the asset.
    pub owner: Address,
    /// Identity of the staked asset.
    pub mint: Address,
    /// Ledger timestamp at which the asset was staked.
    pub staked_at: i64,
    /// Derivation bump of this record's address.
    pub bump: u8,
}

/// The collection membership recorded in an asset's metadata, as the
/// metadata-verification service reports it: which collection the asset
/// claims to belong to, and whether that claim has been verified.
#[derive(Clone, Copy, Debug)]
pub struct CollectionInfo {
    /// The collection the asset claims membership of.
    pub key: Address,
    /// Whether the membership claim is verified.
    pub verified: bool,
}

/// The part of an asset's metadata the staking logic reads. An asset
/// without a collection entry can never be staked.
#[derive(Clone, Copy, Debug)]
pub struct MetadataInfo {
    /// The asset's collection membership, if any is recorded.
    pub collection: Option<CollectionInfo>,
}

} // verus!
