use vstd::prelude::*;

use crate::error::StakeError;
use crate::service::{DerivedAddress, ServiceCall};
use crate::state::{Address, StakeAccount, StakeConfig, UserAccount, SECONDS_PER_DAY};

verus! {

/// Whole days elapsed between staking and `now`: integer division,
/// truncating, so a fraction of a day counts for nothing.
pub open spec fn elapsed_days(staked_at: i64, now: i64) -> int {
    (now - staked_at) / (SECONDS_PER_DAY as int)
}

/// The custody-service calls a successful unstake performs, in order:
/// the stake record thaws the asset, signing with its own derived
/// identity, and the holder then revokes the custody delegation.
pub open spec fn unstake_calls(user: Address, mint: Address) -> Seq<ServiceCall> {
    seq![
        ServiceCall::ThawDelegated {
            owner: user,
            mint: mint,
            signer: DerivedAddress::StakeRecord { mint: mint },
        },
        ServiceCall::Revoke { owner: user, mint: mint, authority: user },
    ]
}

/// The accounts of one unstake transaction: the signing participant, the
/// asset, and copies of the records the transition reads and writes.
pub struct Unstake {
    /// The signing participant.
    pub user: Address,
    /// The asset being unstaked.
    pub mint: Address,
    /// The global configuration registry (read-only).
    pub config: StakeConfig,
    /// The participant's holder record.
    pub user_account: UserAccount,
    /// The live stake record for the asset.
    pub stake_account: StakeAccount,
}

impl Unstake {
    /// Which validation aborts the transition, if any, in the order the
    /// checks run: the holding period first, then the caller's stake
    /// count, then ownership of the record. The period check is a strict
    /// inequality: the holder must wait one full day beyond the
    /// configured minimum.
    pub open spec fn refusal(self, now: i64) -> Option<StakeError> {
        if !(elapsed_days(self.stake_account.staked_at, now) > self.config.freeze_period) {
            Some(StakeError::FreezePeriodNotExpired)
        } else if !(self.user_account.amount_staked > 0) {
            Some(StakeError::NoStakedTokens)
        } else if self.stake_account.owner != self.user {
            Some(StakeError::NotOriginalStaker)
        } else {
            None
        }
    }

    /// The holder's reward balance after a successful unstake: one
    /// `points_per_stake` for each whole day staked, on top of what was
    /// already accrued.
    pub open spec fn points_after(self, now: i64) -> int {
        self.user_account.points + self.config.points_per_stake * elapsed_days(
            self.stake_account.staked_at,
            now,
        )
    }

    /// True when the transition's unsigned 32-bit arithmetic cannot
    /// overflow on these inputs. Overflow is a defect of the caller's
    /// configuration, not handled behaviour, so such inputs are excluded
    /// rather than given a meaning.
    pub open spec fn arith_ok(self, now: i64) -> bool {
        &&& self.stake_account.staked_at <= now
        &&& now - self.stake_account.staked_at <= i64::MAX
        &&& elapsed_days(self.stake_account.staked_at, now) <= u32::MAX
        &&& self.refusal(now) is None ==> self.points_after(now) <= u32::MAX
    }

    /// Unstakes the asset: credits the holder one `points_per_stake` per
    /// whole day staked, decrements the stake count, and returns the
    /// custody calls to perform; the runtime then destroys the stake
    /// record. Aborts with the first failing validation of `refusal`,
    /// changing nothing.
    pub fn unstake(&mut self, now: i64) -> (r: Result<Vec<ServiceCall>, StakeError>)
        requires
            old(self).arith_ok(now),
        ensures
            match old(self).refusal(now) {
                Some(e) => r == Err::<Vec<ServiceCall>, StakeError>(e) && *final(self) == *old(
                    self,
                ),
                None => {
                    &&& r is Ok
                    &&& final(self).user_account.points == old(self).points_after(now)
                    &&& final(self).user_account.amount_staked == old(
                        self,
                    ).user_account.amount_staked - 1
                    &&& final(self).user_account.bump == old(self).user_account.bump
                    &&& final(self).user == old(self).user
                    &&& final(self).mint == old(self).mint
                    &&& final(self).config == old(self).config
                    &&& final(self).stake_account == old(self).stake_account
                },
            },
            r matches Ok(calls) ==> calls@ == unstake_calls(old(self).user, old(self).mint),
    {
        let diff: i64 = now - self.stake_account.staked_at;
        let days: i64 = diff / SECONDS_PER_DAY;
        proof {
            assert(days == elapsed_days(self.stake_account.staked_at, now));
        }
        let time_elapsed: u32 = days as u32;

        if !(time_elapsed > self.config.freeze_period) {
            return Err(StakeError::FreezePeriodNotExpired);
        }
        if !(self.user_account.amount_staked > 0) {
            return Err(StakeError::NoStakedTokens);
        }
        if self.stake_account.owner != self.user {
            return Err(StakeError::NotOriginalStaker);
        }

        let award: u32 = (self.config.points_per_stake as u32) * time_elapsed;
        self.user_account.points = self.user_account.points + award;

        let mut calls: Vec<ServiceCall> = Vec::new();
        calls.push(ServiceCall::ThawDelegated {
            owner: self.user,
            mint: self.mint,
            signer: DerivedAddress::StakeRecord { mint: self.mint },
        });
        calls.push(ServiceCall::Revoke {
            owner: self.user,
            mint: self.mint,
            authority: self.user,
        });

        self.user_account.amount_staked = self.user_account.amount_staked - 1;

        proof {
            assert(calls@ =~= unstake_calls(old(self).user, old(self).mint));
        }
        Ok(calls)
    }
}

} // verus!
