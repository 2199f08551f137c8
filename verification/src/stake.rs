use vstd::prelude::*;

use crate::error::StakeError;
use crate::service::{DerivedAddress, ServiceCall};
use crate::state::{Address, MetadataInfo, StakeAccount, StakeConfig, UserAccount};

verus! {

/// The account constraint evaluated before any state change: the
/// metadata must record the asset as a member of exactly the expected
/// collection, and that membership must be verified.
pub open spec fn collection_ok(metadata: MetadataInfo, collection_mint: Address) -> bool {
    match metadata.collection {
        Some(c) => c.key == collection_mint && c.verified,
        None => false,
    }
}

/// The custody-service calls a successful stake performs, in order: the
/// holder delegates custody of one unit of the asset to the stake
/// record's derived address, and the record then freezes the asset
/// against transfer, signing with its own derived identity. The record
/// must exist before either call, which is why the transition writes the
/// record first and hands these calls out afterwards.
pub open spec fn stake_calls(user: Address, mint: Address) -> Seq<ServiceCall> {
    seq![
        ServiceCall::Approve {
            owner: user,
            mint: mint,
            delegate: DerivedAddress::StakeRecord { mint: mint },
            amount: 1,
        },
        ServiceCall::FreezeDelegated {
            owner: user,
            mint: mint,
            signer: DerivedAddress::StakeRecord { mint: mint },
        },
    ]
}

/// The accounts and parameters of one stake transaction: the signing
/// participant, the asset, the collection it must belong to, the asset's
/// metadata, and copies of the records the transition reads and writes.
/// The runtime writes the mutated copies back when the transaction
/// commits.
pub struct Stake {
    /// The signing participant.
    pub user: Address,
    /// The asset being staked.
    pub mint: Address,
    /// The collection the asset must be a verified member of.
    pub collection_mint: Address,
    /// The asset's metadata, as the verification service reports it.
    pub metadata: MetadataInfo,
    /// The global configuration registry (read-only).
    pub config: StakeConfig,
    /// The participant's holder record.
    pub user_account: UserAccount,
    /// The freshly allocated stake record this transition fills in.
    pub stake_account: StakeAccount,
}

impl Stake {
    /// Whether this transaction's metadata passes the collection
    /// constraint.
    pub open spec fn collection_verified(self) -> bool {
        collection_ok(self.metadata, self.collection_mint)
    }

    /// Checks the collection-membership constraint.
    pub fn validate(&self) -> (ok: bool)
        ensures
            ok == self.collection_verified(),
    {
        match self.metadata.collection {
            Some(c) => c.key == self.collection_mint && c.verified,
            None => false,
        }
    }

    /// Stakes the asset: fills the stake record with the participant as
    /// owner and the current ledger time, increments the holder's stake
    /// count, and returns the custody calls to perform. Fails with
    /// `MaxStakeReached`, changing nothing, exactly when the holder is
    /// already at the configured ceiling.
    pub fn stake(&mut self, now: i64, bump: u8) -> (r: Result<Vec<ServiceCall>, StakeError>)
        ensures
            r is Err <==> old(self).user_account.amount_staked >= old(self).config.max_stake,
            r is Err ==> r == Err::<Vec<ServiceCall>, StakeError>(StakeError::MaxStakeReached)
                && *final(self) == *old(self),
            r is Ok ==> final(self).stake_account == (StakeAccount {
                owner: old(self).user,
                mint: old(self).mint,
                staked_at: now,
                bump: bump,
            }),
            r is Ok ==> final(self).user_account.points == old(self).user_account.points
                && final(self).user_account.amount_staked
                    == old(self).user_account.amount_staked + 1
                && final(self).user_account.bump == old(self).user_account.bump,
            r is Ok ==> final(self).user == old(self).user
                && final(self).mint == old(self).mint
                && final(self).collection_mint == old(self).collection_mint
                && final(self).metadata == old(self).metadata
                && final(self).config == old(self).config,
            r matches Ok(calls) ==> calls@ == stake_calls(old(self).user, old(self).mint),
    {
        if !(self.user_account.amount_staked < self.config.max_stake) {
            return Err(StakeError::MaxStakeReached);
        }

        self.stake_account = StakeAccount {
            owner: self.user,
            mint: self.mint,
            staked_at: now,
            bump: bump,
        };

        let mut calls: Vec<ServiceCall> = Vec::new();
        calls.push(ServiceCall::Approve {
            owner: self.user,
            mint: self.mint,
            delegate: DerivedAddress::StakeRecord { mint: self.mint },
            amount: 1,
        });
        calls.push(ServiceCall::FreezeDelegated {
            owner: self.user,
            mint: self.mint,
            signer: DerivedAddress::StakeRecord { mint: self.mint },
        });

        self.user_account.amount_staked = self.user_account.amount_staked + 1;

        proof {
            assert(calls@ =~= stake_calls(old(self).user, old(self).mint));
        }
        Ok(calls)
    }
}

} // verus!
