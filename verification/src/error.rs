use vstd::prelude::*;

verus! {

/// Validation failures raised by the staking operations themselves.
///
/// Every failure aborts the whole transition with no partial effect;
/// the caller must correct its state and resubmit.
#[derive(Clone, Copy, Debug, PartialEq, Eq, Structural)]
pub enum StakeError {
    /// The holder is already at the configured concurrent-stake ceiling.
    MaxStakeReached,
    /// The holder attempted to unstake while having no active stakes.
    NoStakedTokens,
    /// The minimum holding period has not yet elapsed.
    FreezePeriodNotExpired,
    /// Someone other than the record's owner attempted to unstake.
    NotOriginalStaker,
    /// Reserved for a stake-record/asset mismatch; no operation raises it.
    InvalidStakeAccount,
}

/// Failures raised by the ledger's account bookkeeping around the
/// operations: a record that should exist is missing, one that must be
/// fresh is already in use, or an account constraint does not hold.
#[derive(Clone, Copy, Debug, PartialEq, Eq, Structural)]
pub enum LedgerError {
    /// The configuration registry was already created.
    AlreadyConfigured,
    /// No configuration registry exists yet.
    NotConfigured,
    /// The participant already has a holder record.
    AlreadyRegistered,
    /// The participant has no holder record.
    NotRegistered,
    /// A live stake record already occupies the asset's derived address.
    StakeRecordInUse,
    /// No stake record exists at the asset's derived address.
    StakeRecordMissing,
    /// The asset's metadata does not show it as a verified member of the
    /// expected collection.
    CollectionNotVerified,
    /// A validation failure from the operation's own logic.
    Program(StakeError),
}

} // verus!
