use vstd::prelude::*;

use crate::state::Address;

verus! {

/// A deterministically derived sub-address of the program. Derivation is
/// a pure function of fixed seed components, so two records derived from
/// the same components always share one address; the constructors here
/// carry exactly those components. A derived address has no private key:
/// holding one is a capability to sign "as" the owning record.
#[derive(Clone, Copy, Debug, PartialEq, Eq, Structural)]
pub enum DerivedAddress {
    /// The configuration registry, derived from a fixed seed alone.
    Config,
    /// The reward-token mint, derived from the registry's address.
    RewardsMint,
    /// A participant's holder record, derived from the participant.
    Holder { user: Address },
    /// An asset's stake record, derived from the asset and the registry.
    StakeRecord { mint: Address },
}

/// One synchronous call into an external collaborator — the
/// token-custody service, the freeze/thaw service, or reward issuance.
/// An operation returns the calls it needs in the order they must be
/// performed; they commit or abort together with the whole transaction.
///
/// A token balance account is identified by its owner and the token it
/// holds, the pair its own address is derived from.
#[derive(Clone, Copy, Debug, PartialEq, Eq, Structural)]
pub enum ServiceCall {
    /// Delegate custody authority over `amount` units of `owner`'s
    /// balance of `mint` to `delegate`, signed by the owner.
    Approve { owner: Address, mint: Address, delegate: DerivedAddress, amount: u64 },
    /// Lock the asset against transfer while delegated, signed by the
    /// delegated derived authority.
    FreezeDelegated { owner: Address, mint: Address, signer: DerivedAddress },
    /// Unlock the asset for transfer again, signed by the delegated
    /// derived authority.
    ThawDelegated { owner: Address, mint: Address, signer: DerivedAddress },
    /// Revoke a custody delegation over `owner`'s balance of `mint`,
    /// signed by the owner.
    Revoke { owner: Address, mint: Address, authority: Address },
    /// Mint `amount` atomic units of the reward token into `to`'s reward
    /// balance, signed by the registry's derived authority.
    MintRewards { to: Address, amount: u64, signer: DerivedAddress },
}

} // verus!
