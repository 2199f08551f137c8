use nft_staking::error::{LedgerError, StakeError};
use nft_staking::ledger::Ledger;
use nft_staking::service::{DerivedAddress, ServiceCall};
use nft_staking::state::{Address, CollectionInfo, MetadataInfo, UserAccount};
use nft_staking::{claim, initialize_config, initialize_user, stake, unstake};

const DAY: i64 = 86400;
const COLLECTION: Address = 900;

fn verified_metadata() -> MetadataInfo {
    MetadataInfo { collection: Some(CollectionInfo { key: COLLECTION, verified: true }) }
}

/// A ledger configured with 10 points per day, a ceiling of 2 stakes,
/// and a 5-day minimum hold, with two holders registered.
fn setup() -> Ledger {
    let mut ledger = Ledger::new();
    initialize_config(&mut ledger, 10, 2, 5, 7, 8).unwrap();
    initialize_user(&mut ledger, 100, 1).unwrap();
    initialize_user(&mut ledger, 200, 1).unwrap();
    ledger
}

#[test]
fn configure_succeeds_exactly_once() {
    let mut ledger = Ledger::new();
    assert_eq!(initialize_config(&mut ledger, 10, 2, 5, 7, 8), Ok(()));
    let cfg = ledger.current_config().unwrap();
    assert_eq!(cfg.points_per_stake, 10);
    assert_eq!(cfg.max_stake, 2);
    assert_eq!(cfg.freeze_period, 5);
    assert_eq!(cfg.bump, 7);
    assert_eq!(cfg.rewards_bump, 8);
    // a second creation attempt fails, whatever its parameters
    assert_eq!(
        initialize_config(&mut ledger, 99, 99, 99, 0, 0),
        Err(LedgerError::AlreadyConfigured)
    );
    // and changes nothing
    assert_eq!(ledger.current_config(), Some(cfg));
}

#[test]
fn register_succeeds_once_per_participant() {
    let mut ledger = Ledger::new();
    initialize_config(&mut ledger, 10, 2, 5, 7, 8).unwrap();
    assert_eq!(initialize_user(&mut ledger, 100, 1), Ok(()));
    assert_eq!(
        ledger.holder(100),
        Some(UserAccount { points: 0, amount_staked: 0, bump: 1 })
    );
    assert_eq!(initialize_user(&mut ledger, 100, 1), Err(LedgerError::AlreadyRegistered));
}

#[test]
fn stake_below_ceiling_increments_by_one() {
    let mut ledger = setup();
    assert!(stake(&mut ledger, 100, 500, COLLECTION, verified_metadata(), 1000, 3).is_ok());
    assert_eq!(ledger.holder(100).unwrap().amount_staked, 1);
    let record = ledger.stake_record(500).unwrap();
    assert_eq!(record.owner, 100);
    assert_eq!(record.mint, 500);
    assert_eq!(record.staked_at, 1000);
    assert_eq!(record.bump, 3);

    assert!(stake(&mut ledger, 100, 501, COLLECTION, verified_metadata(), 1001, 4).is_ok());
    assert_eq!(ledger.holder(100).unwrap().amount_staked, 2);
}

#[test]
fn stake_at_ceiling_refused() {
    let mut ledger = setup();
    stake(&mut ledger, 100, 500, COLLECTION, verified_metadata(), 1000, 3).unwrap();
    stake(&mut ledger, 100, 501, COLLECTION, verified_metadata(), 1000, 3).unwrap();
    // the ceiling is 2
    assert_eq!(
        stake(&mut ledger, 100, 502, COLLECTION, verified_metadata(), 1000, 3),
        Err(LedgerError::Program(StakeError::MaxStakeReached))
    );
    assert_eq!(ledger.holder(100).unwrap().amount_staked, 2);
    assert!(ledger.stake_record(502).is_none());
}

#[test]
fn stake_emits_approve_then_freeze() {
    let mut ledger = setup();
    let calls = stake(&mut ledger, 100, 500, COLLECTION, verified_metadata(), 1000, 3).unwrap();
    assert_eq!(
        calls,
        vec![
            ServiceCall::Approve {
                owner: 100,
                mint: 500,
                delegate: DerivedAddress::StakeRecord { mint: 500 },
                amount: 1,
            },
            ServiceCall::FreezeDelegated {
                owner: 100,
                mint: 500,
                signer: DerivedAddress::StakeRecord { mint: 500 },
            },
        ]
    );
}

#[test]
fn stake_without_configuration_refused() {
    let mut ledger = Ledger::new();
    assert_eq!(
        stake(&mut ledger, 100, 500, COLLECTION, verified_metadata(), 1000, 3),
        Err(LedgerError::NotConfigured)
    );
}

#[test]
fn stake_by_unregistered_participant_refused() {
    let mut ledger = setup();
    assert_eq!(
        stake(&mut ledger, 999, 500, COLLECTION, verified_metadata(), 1000, 3),
        Err(LedgerError::NotRegistered)
    );
}

#[test]
fn stake_same_asset_twice_refused() {
    let mut ledger = setup();
    stake(&mut ledger, 100, 500, COLLECTION, verified_metadata(), 1000, 3).unwrap();
    assert_eq!(
        stake(&mut ledger, 200, 500, COLLECTION, verified_metadata(), 2000, 3),
        Err(LedgerError::StakeRecordInUse)
    );
}

#[test]
fn stake_foreign_collection_refused() {
    let mut ledger = setup();
    let foreign = MetadataInfo { collection: Some(CollectionInfo { key: 901, verified: true }) };
    assert_eq!(
        stake(&mut ledger, 100, 500, COLLECTION, foreign, 1000, 3),
        Err(LedgerError::CollectionNotVerified)
    );
}

#[test]
fn stake_unverified_membership_refused() {
    let mut ledger = setup();
    let unverified =
        MetadataInfo { collection: Some(CollectionInfo { key: COLLECTION, verified: false }) };
    assert_eq!(
        stake(&mut ledger, 100, 500, COLLECTION, unverified, 1000, 3),
        Err(LedgerError::CollectionNotVerified)
    );
    let bare = MetadataInfo { collection: None };
    assert_eq!(
        stake(&mut ledger, 100, 500, COLLECTION, bare, 1000, 3),
        Err(LedgerError::CollectionNotVerified)
    );
}

#[test]
fn unstake_same_day_refused() {
    let mut ledger = setup();
    stake(&mut ledger, 100, 500, COLLECTION, verified_metadata(), 1000, 3).unwrap();
    // zero elapsed days: refused whatever the configured minimum
    assert_eq!(
        unstake(&mut ledger, 100, 500, 1000),
        Err(LedgerError::Program(StakeError::FreezePeriodNotExpired))
    );
    assert!(ledger.stake_record(500).is_some());
    assert_eq!(ledger.holder(100).unwrap().amount_staked, 1);
}

#[test]
fn unstake_same_day_refused_with_zero_minimum() {
    let mut ledger = Ledger::new();
    initialize_config(&mut ledger, 10, 2, 0, 7, 8).unwrap();
    initialize_user(&mut ledger, 100, 1).unwrap();
    stake(&mut ledger, 100, 500, COLLECTION, verified_metadata(), 1000, 3).unwrap();
    assert_eq!(
        unstake(&mut ledger, 100, 500, 1000),
        Err(LedgerError::Program(StakeError::FreezePeriodNotExpired))
    );
    // one full day beyond the zero minimum suffices
    assert!(unstake(&mut ledger, 100, 500, 1000 + DAY).is_ok());
    assert_eq!(ledger.holder(100).unwrap().points, 10);
}

#[test]
fn unstake_after_six_days_credits_sixty() {
    let mut ledger = setup();
    stake(&mut ledger, 100, 500, COLLECTION, verified_metadata(), 1000, 3).unwrap();
    let calls = unstake(&mut ledger, 100, 500, 1000 + 6 * DAY).unwrap();
    // 10 points per day for 6 whole days
    assert_eq!(ledger.holder(100).unwrap().points, 60);
    assert_eq!(ledger.holder(100).unwrap().amount_staked, 0);
    assert!(ledger.stake_record(500).is_none());
    assert_eq!(
        calls,
        vec![
            ServiceCall::ThawDelegated {
                owner: 100,
                mint: 500,
                signer: DerivedAddress::StakeRecord { mint: 500 },
            },
            ServiceCall::Revoke { owner: 100, mint: 500, authority: 100 },
        ]
    );
}

#[test]
fn unstake_after_exactly_five_days_refused() {
    let mut ledger = setup();
    stake(&mut ledger, 100, 500, COLLECTION, verified_metadata(), 1000, 3).unwrap();
    // the configured minimum is 5 whole days, and the check is strict
    assert_eq!(
        unstake(&mut ledger, 100, 500, 1000 + 5 * DAY),
        Err(LedgerError::Program(StakeError::FreezePeriodNotExpired))
    );
    assert_eq!(ledger.holder(100).unwrap().points, 0);
    assert!(ledger.stake_record(500).is_some());
}

#[test]
fn unstake_by_other_holder_refused() {
    let mut ledger = setup();
    stake(&mut ledger, 100, 500, COLLECTION, verified_metadata(), 1000, 3).unwrap();
    // the caller has a matured stake of its own, so only ownership fails
    stake(&mut ledger, 200, 600, COLLECTION, verified_metadata(), 1000, 3).unwrap();
    assert_eq!(
        unstake(&mut ledger, 200, 500, 1000 + 6 * DAY),
        Err(LedgerError::Program(StakeError::NotOriginalStaker))
    );
    // no state changed anywhere
    assert_eq!(ledger.holder(100).unwrap().points, 0);
    assert_eq!(ledger.holder(100).unwrap().amount_staked, 1);
    assert_eq!(ledger.holder(200).unwrap().points, 0);
    assert_eq!(ledger.holder(200).unwrap().amount_staked, 1);
    assert_eq!(ledger.stake_record(500).unwrap().owner, 100);
    assert_eq!(ledger.stake_record(500).unwrap().staked_at, 1000);
    assert_eq!(ledger.stake_record(600).unwrap().owner, 200);
}

#[test]
fn unstake_with_nothing_staked_refused() {
    let mut ledger = setup();
    stake(&mut ledger, 100, 500, COLLECTION, verified_metadata(), 1000, 3).unwrap();
    // holder 200 is registered but has nothing staked: the count check
    // runs before the ownership check
    assert_eq!(
        unstake(&mut ledger, 200, 500, 1000 + 6 * DAY),
        Err(LedgerError::Program(StakeError::NoStakedTokens))
    );
}

#[test]
fn unstake_without_record_refused() {
    let mut ledger = setup();
    assert_eq!(
        unstake(&mut ledger, 100, 500, 1000),
        Err(LedgerError::StakeRecordMissing)
    );
}

#[test]
fn claim_scales_points_by_decimals_and_resets() {
    let mut ledger = setup();
    // 25 whole days at 10 points per day accrue 250 points
    stake(&mut ledger, 100, 500, COLLECTION, verified_metadata(), 1000, 3).unwrap();
    unstake(&mut ledger, 100, 500, 1000 + 25 * DAY).unwrap();
    assert_eq!(ledger.holder(100).unwrap().points, 250);

    let (amount, calls) = claim(&mut ledger, 100, 6).unwrap();
    assert_eq!(amount, 250_000_000);
    assert_eq!(
        calls,
        vec![ServiceCall::MintRewards {
            to: 100,
            amount: 250_000_000,
            signer: DerivedAddress::Config,
        }]
    );
    assert_eq!(ledger.holder(100).unwrap().points, 0);

    // a second immediate claim is a valid issuance of zero
    let (amount2, _) = claim(&mut ledger, 100, 6).unwrap();
    assert_eq!(amount2, 0);
    assert_eq!(ledger.holder(100).unwrap().points, 0);
}

#[test]
fn claim_with_zero_points_mints_zero() {
    let mut ledger = setup();
    let (amount, _) = claim(&mut ledger, 100, 9).unwrap();
    assert_eq!(amount, 0);
}

#[test]
fn claim_by_unregistered_participant_refused() {
    let mut ledger = setup();
    assert_eq!(claim(&mut ledger, 999, 6), Err(LedgerError::NotRegistered));
}

#[test]
fn two_holders_two_assets_do_not_interfere() {
    let mut ledger = setup();
    assert!(stake(&mut ledger, 100, 500, COLLECTION, verified_metadata(), 1000, 3).is_ok());
    assert!(stake(&mut ledger, 200, 600, COLLECTION, verified_metadata(), 2000, 4).is_ok());

    // each record reflects only its own transaction
    assert_eq!(ledger.holder(100).unwrap().amount_staked, 1);
    assert_eq!(ledger.holder(200).unwrap().amount_staked, 1);
    assert_eq!(ledger.stake_record(500).unwrap().owner, 100);
    assert_eq!(ledger.stake_record(500).unwrap().staked_at, 1000);
    assert_eq!(ledger.stake_record(600).unwrap().owner, 200);
    assert_eq!(ledger.stake_record(600).unwrap().staked_at, 2000);

    // and each unstake credits only its own holder
    unstake(&mut ledger, 100, 500, 1000 + 7 * DAY).unwrap();
    assert_eq!(ledger.holder(100).unwrap().points, 70);
    assert_eq!(ledger.holder(200).unwrap().points, 0);
    assert_eq!(ledger.holder(200).unwrap().amount_staked, 1);
}

#[test]
fn restake_reuses_the_derived_address() {
    let mut ledger = setup();
    stake(&mut ledger, 100, 500, COLLECTION, verified_metadata(), 1000, 3).unwrap();
    unstake(&mut ledger, 100, 500, 1000 + 6 * DAY).unwrap();
    assert!(ledger.stake_record(500).is_none());

    let later = 1000 + 20 * DAY;
    assert!(stake(&mut ledger, 100, 500, COLLECTION, verified_metadata(), later, 5).is_ok());
    let record = ledger.stake_record(500).unwrap();
    assert_eq!(record.staked_at, later);
    assert_eq!(record.owner, 100);
    assert_eq!(record.bump, 5);
    assert_eq!(ledger.holder(100).unwrap().amount_staked, 1);
    // the points from the first stake are untouched
    assert_eq!(ledger.holder(100).unwrap().points, 60);
}

#[test]
fn operations_without_configuration_refused() {
    let mut ledger = Ledger::new();
    initialize_user(&mut ledger, 100, 1).unwrap();
    assert_eq!(unstake(&mut ledger, 100, 500, 1000), Err(LedgerError::NotConfigured));
    assert_eq!(claim(&mut ledger, 100, 6), Err(LedgerError::NotConfigured));
}

#[test]
fn unstake_by_unregistered_participant_refused() {
    let mut ledger = setup();
    stake(&mut ledger, 100, 500, COLLECTION, verified_metadata(), 1000, 3).unwrap();
    assert_eq!(
        unstake(&mut ledger, 999, 500, 1000 + 6 * DAY),
        Err(LedgerError::NotRegistered)
    );
}

#[test]
fn claim_with_zero_decimals_issues_points_directly() {
    let mut ledger = setup();
    stake(&mut ledger, 100, 500, COLLECTION, verified_metadata(), 1000, 3).unwrap();
    unstake(&mut ledger, 100, 500, 1000 + 7 * DAY).unwrap();
    let (amount, _) = claim(&mut ledger, 100, 0).unwrap();
    assert_eq!(amount, 70);
}

#[test]
fn accrual_truncates_partial_days() {
    let mut ledger = setup();
    stake(&mut ledger, 100, 500, COLLECTION, verified_metadata(), 1000, 3).unwrap();
    // six days and all but one second of a seventh still credit six
    let almost_seven = 1000 + 7 * DAY - 1;
    unstake(&mut ledger, 100, 500, almost_seven).unwrap();
    assert_eq!(ledger.holder(100).unwrap().points, 60);
}
