use vstd::prelude::*;

use crate::error::StakeError;
use crate::service::{DerivedAddress, ServiceCall};
use crate::state::{Address, StakeConfig, UserAccount};

verus! {

/// Ten to the `n`th power: the factor between whole reward tokens and
/// their atomic units for a mint with `n` decimal places.
pub open spec fn pow10(n: nat) -> nat
    decreases n,
{
    if n == 0 {
        1
    } else {
        10 * pow10((n - 1) as nat)
    }
}

/// `pow10` grows with its argument.
pub proof fn lemma_pow10_increases(a: nat, b: nat)
    requires
        a <= b,
    ensures
        pow10(a) <= pow10(b),
    decreases b,
{
    if a < b {
        lemma_pow10_increases(a, (b - 1) as nat);
    }
}

/// Computes `10^exp` exactly, for exponents where the result fits.
pub fn pow10_u64(exp: u8) -> (r: u64)
    requires
        pow10(exp as nat) <= u64::MAX,
    ensures
        r == pow10(exp as nat),
{
    let mut r: u64 = 1;
    let mut i: u8 = 0;
    while i < exp
        invariant
            i <= exp,
            r == pow10(i as nat),
            pow10(exp as nat) <= u64::MAX,
        decreases exp - i,
    {
        proof {
            lemma_pow10_increases((i + 1) as nat, exp as nat);
        }
        r = r * 10;
        i = i + 1;
    }
    r
}

/// The single issuance call a claim performs: mint the computed amount
/// of reward-token atomic units into the holder's reward balance, signed
/// by the registry's derived authority.
pub open spec fn claim_calls(user: Address, amount: u64) -> Seq<ServiceCall> {
    seq![
        ServiceCall::MintRewards { to: user, amount: amount, signer: DerivedAddress::Config },
    ]
}

/// The accounts of one claim transaction: the signing participant, a
/// copy of the holder record the transition resets, the read-only
/// registry, and the reward mint's decimal places.
pub struct Claim {
    /// The signing participant.
    pub user: Address,
    /// The global configuration registry (read-only).
    pub config: StakeConfig,
    /// The participant's holder record.
    pub user_account: UserAccount,
    /// Decimal places of the reward-token mint.
    pub rewards_decimals: u8,
}

impl Claim {
    /// The atomic units a claim mints: the accrued points, scaled by the
    /// reward mint's decimal factor.
    pub open spec fn amount(self) -> int {
        self.user_account.points * pow10(self.rewards_decimals as nat)
    }

    /// True when the transition's unsigned 64-bit arithmetic cannot
    /// overflow on these inputs; the decimal factor itself must fit even
    /// when there are no points to scale.
    pub open spec fn arith_ok(self) -> bool {
        &&& pow10(self.rewards_decimals as nat) <= u64::MAX
        &&& self.amount() <= u64::MAX
    }

    /// Claims the accrued rewards: returns the amount of atomic units to
    /// mint together with the issuance call, and resets the holder's
    /// points to zero. There is no precondition on the points being
    /// nonzero — claiming with none is a valid issuance of zero.
    pub fn claim(&mut self) -> (r: Result<(u64, Vec<ServiceCall>), StakeError>)
        requires
            old(self).arith_ok(),
        ensures
            r is Ok,
            final(self).user_account.points == 0,
            final(self).user_account.amount_staked == old(self).user_account.amount_staked,
            final(self).user_account.bump == old(self).user_account.bump,
            final(self).user == old(self).user,
            final(self).config == old(self).config,
            final(self).rewards_decimals == old(self).rewards_decimals,
            r matches Ok((amount, calls)) ==> amount == old(self).amount() && calls@
                == claim_calls(old(self).user, amount),
    {
        let factor: u64 = pow10_u64(self.rewards_decimals);
        let amount: u64 = (self.user_account.points as u64) * factor;

        let mut calls: Vec<ServiceCall> = Vec::new();
        calls.push(ServiceCall::MintRewards {
            to: self.user,
            amount: amount,
            signer: DerivedAddress::Config,
        });

        self.user_account.points = 0;

        proof {
            assert(calls@ =~= claim_calls(old(self).user, amount));
        }
        Ok((amount, calls))
    }
}

} // verus!
