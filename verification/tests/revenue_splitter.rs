use biochain::address::Address;
use biochain::asset_ledger::AssetLedger;
use biochain::revenue_splitter::{
    split_reward, ContributorRewarded, DatasetPayoutCompleted, Error, Event, RevenueSplitter,
    BASE_REWARD, CONTRIBUTOR_PERCENT, PLATFORM_PERCENT,
};

fn create_address(seed: u8) -> Address {
    Address::new(vec![seed; 20])
}

/// The account that the payout engine under test pays from.
fn engine_address() -> Address {
    create_address(200)
}

fn create_revenue_splitter() -> RevenueSplitter {
    RevenueSplitter::new(engine_address())
}

/// A ledger on which the payout engine holds `amount`.
fn fund_usdc(amount: i128) -> AssetLedger {
    let mut ledger = AssetLedger::new();
    ledger.mint(&engine_address(), amount).unwrap();
    ledger
}

fn rewarded(dataset_id: &[u8], contributor: Address) -> Event {
    Event::ContributorRewarded(ContributorRewarded {
        dataset_id: dataset_id.to_vec(),
        contributor,
        user_amount: 8_5000000,
        platform_amount: 1_5000000,
    })
}

#[test]
fn test_init() {
    let mut splitter = create_revenue_splitter();

    let usdc_token = create_address(1);
    let treasury = create_address(2);

    let result = splitter.init(usdc_token.clone(), treasury.clone());

    assert!(result.is_ok(), "init should succeed");

    let stored_token = splitter.get_usdc_token();
    assert!(stored_token.is_ok(), "get_usdc_token should succeed");
    assert_eq!(stored_token.unwrap(), usdc_token, "USDC token should match");

    let stored_treasury = splitter.get_treasury();
    assert!(stored_treasury.is_ok(), "get_treasury should succeed");
    assert_eq!(stored_treasury.unwrap(), treasury, "Treasury should match");
}

#[test]
fn test_payout_for_dataset_splits_correctly_for_multiple_contributors() {
    let mut splitter = create_revenue_splitter();

    let usdc_token = create_address(1);
    let treasury = create_address(2);
    splitter.init(usdc_token, treasury.clone()).unwrap();

    let contributor_a = create_address(10);
    let contributor_b = create_address(11);
    let contributor_c = create_address(12);
    let contributors = vec![contributor_a.clone(), contributor_b.clone(), contributor_c.clone()];

    let dataset_id = b"dataset_multiple_contributors".to_vec();

    let base_reward: i128 = 10_0000000;
    let user_amount: i128 = (base_reward * 85) / 100;
    let platform_amount: i128 = base_reward - user_amount;

    assert_eq!(user_amount, 8_5000000, "User amount should be 8.5 USDC");
    assert_eq!(platform_amount, 1_5000000, "Platform amount should be 1.5 USDC");

    let mut ledger = fund_usdc(3 * base_reward);
    let result = splitter.payout_for_dataset(&mut ledger, dataset_id, contributors);

    assert_eq!(result, Ok(()));
    assert_eq!(ledger.balance(&contributor_a), user_amount);
    assert_eq!(ledger.balance(&contributor_b), user_amount);
    assert_eq!(ledger.balance(&contributor_c), user_amount);
    assert_eq!(ledger.balance(&treasury), 3 * platform_amount);
    assert_eq!(ledger.balance(&engine_address()), 0);
}

#[test]
fn test_payout_for_dataset_emits_events() {
    let mut splitter = create_revenue_splitter();

    let usdc_token = create_address(1);
    let treasury = create_address(2);
    splitter.init(usdc_token, treasury).unwrap();

    let contributor1 = create_address(10);
    let contributor2 = create_address(11);
    let contributors = vec![contributor1.clone(), contributor2.clone()];

    let dataset_id = b"dataset_events_test".to_vec();

    let mut ledger = fund_usdc(100_0000000);
    let result = splitter.payout_for_dataset(&mut ledger, dataset_id.clone(), contributors);
    assert_eq!(result, Ok(()));

    let events = splitter.events();
    assert_eq!(
        events,
        &vec![
            rewarded(&dataset_id, contributor1),
            rewarded(&dataset_id, contributor2),
            Event::DatasetPayoutCompleted(DatasetPayoutCompleted {
                dataset_id: dataset_id.clone(),
                num_contributors: 2,
                total_user_amount: 17_0000000,
                total_platform_amount: 3_0000000,
            }),
        ]
    );
}

#[test]
fn test_payout_for_dataset_rejects_empty_contributors() {
    let mut splitter = create_revenue_splitter();

    let usdc_token = create_address(1);
    let treasury = create_address(2);
    splitter.init(usdc_token, treasury.clone()).unwrap();

    let dataset_id = b"dataset_empty_contributors".to_vec();
    let empty_contributors: Vec<Address> = Vec::new();

    let mut ledger = fund_usdc(100_0000000);
    let result = splitter.payout_for_dataset(&mut ledger, dataset_id, empty_contributors);

    assert!(result.is_err(), "Empty contributors should fail");
    match result.unwrap_err() {
        Error::InvalidContributors => {}
        _ => panic!("Expected InvalidContributors error"),
    }

    // Zero transfers and zero events.
    assert_eq!(ledger.balance(&engine_address()), 100_0000000);
    assert_eq!(ledger.balance(&treasury), 0);
    assert!(splitter.events().is_empty());
}

#[test]
fn test_payout_for_dataset_fails_if_not_initialized() {
    let mut splitter = create_revenue_splitter();

    let contributor = create_address(10);
    let contributors = vec![contributor.clone()];
    let dataset_id = b"dataset_not_initialized".to_vec();

    let mut ledger = fund_usdc(100_0000000);
    let result = splitter.payout_for_dataset(&mut ledger, dataset_id, contributors);

    assert!(result.is_err(), "Should fail if not initialized");
    match result.unwrap_err() {
        Error::TokenNotSet | Error::TreasuryNotSet => {}
        _ => panic!("Expected initialization error"),
    }
    assert_eq!(ledger.balance(&contributor), 0);
    assert!(splitter.events().is_empty());
}

#[test]
fn test_calculate_amounts_correctly() {
    let base_reward: i128 = 10_0000000;
    let contributor_percent: i128 = 85;

    let user_amount: i128 = (base_reward * contributor_percent) / 100;
    let platform_amount: i128 = base_reward - user_amount;

    assert_eq!(user_amount, 8_5000000, "User amount should be 8.5 USDC (85% of 10 USDC)");
    assert_eq!(platform_amount, 1_5000000, "Platform amount should be 1.5 USDC (15% of 10 USDC)");
    assert_eq!(user_amount + platform_amount, base_reward, "Total should equal BASE_REWARD");

    assert_eq!(BASE_REWARD, base_reward);
    assert_eq!(CONTRIBUTOR_PERCENT, contributor_percent);
    assert_eq!(CONTRIBUTOR_PERCENT + PLATFORM_PERCENT, 100);
    assert_eq!(split_reward(BASE_REWARD), Ok((user_amount, platform_amount)));
}

#[test]
fn test_multiple_contributors_total_amounts() {
    let base_reward: i128 = 10_0000000;
    let user_amount: i128 = (base_reward * 85) / 100;
    let platform_amount: i128 = base_reward - user_amount;

    let num_contributors: i128 = 3;
    let total_user_amount: i128 = user_amount * num_contributors;
    let total_platform_amount: i128 = platform_amount * num_contributors;

    assert_eq!(
        total_user_amount, 25_5000000,
        "Total user amount for 3 contributors should be 25.5 USDC"
    );
    assert_eq!(
        total_platform_amount, 4_5000000,
        "Total platform amount for 3 contributors should be 4.5 USDC"
    );
    assert_eq!(
        total_user_amount + total_platform_amount,
        base_reward * num_contributors,
        "Total should equal BASE_REWARD * num_contributors"
    );

    // The same totals, as the payout engine logs them.
    let mut splitter = create_revenue_splitter();
    splitter.init(create_address(1), create_address(2)).unwrap();
    let mut ledger = fund_usdc(base_reward * num_contributors);
    let contributors = vec![create_address(10), create_address(11), create_address(12)];
    splitter.payout_for_dataset(&mut ledger, b"totals".to_vec(), contributors).unwrap();
    assert_eq!(
        splitter.events().last(),
        Some(&Event::DatasetPayoutCompleted(DatasetPayoutCompleted {
            dataset_id: b"totals".to_vec(),
            num_contributors: 3,
            total_user_amount,
            total_platform_amount,
        }))
    );
}

#[test]
fn test_get_configuration() {
    let mut splitter = create_revenue_splitter();

    let token_result = splitter.get_usdc_token();
    assert!(token_result.is_err(), "get_usdc_token should fail before init");
    assert_eq!(token_result, Err(Error::TokenNotSet));

    let treasury_result = splitter.get_treasury();
    assert!(treasury_result.is_err(), "get_treasury should fail before init");
    assert_eq!(treasury_result, Err(Error::TreasuryNotSet));

    let usdc_token = create_address(1);
    let treasury = create_address(2);
    splitter.init(usdc_token.clone(), treasury.clone()).unwrap();

    let stored_token = splitter.get_usdc_token();
    assert!(stored_token.is_ok(), "get_usdc_token should succeed after init");
    assert_eq!(stored_token.unwrap(), usdc_token, "Stored token should match");

    let stored_treasury = splitter.get_treasury();
    assert!(stored_treasury.is_ok(), "get_treasury should succeed after init");
    assert_eq!(stored_treasury.unwrap(), treasury, "Stored treasury should match");
}

#[test]
fn test_single_contributor_payout() {
    let mut splitter = create_revenue_splitter();

    let usdc_token = create_address(1);
    let treasury = create_address(2);
    splitter.init(usdc_token, treasury.clone()).unwrap();

    let contributor = create_address(10);
    let contributors = vec![contributor.clone()];
    let dataset_id = b"dataset_single_contributor".to_vec();

    let mut ledger = fund_usdc(10_0000000);
    let result = splitter.payout_for_dataset(&mut ledger, dataset_id.clone(), contributors);

    assert_eq!(result, Ok(()));
    assert_eq!(ledger.balance(&contributor), 8_5000000);
    assert_eq!(ledger.balance(&treasury), 1_5000000);
    assert_eq!(ledger.balance(&engine_address()), 0);
    assert_eq!(
        splitter.events(),
        &vec![
            rewarded(&dataset_id, contributor),
            Event::DatasetPayoutCompleted(DatasetPayoutCompleted {
                dataset_id: dataset_id.clone(),
                num_contributors: 1,
                total_user_amount: 8_5000000,
                total_platform_amount: 1_5000000,
            }),
        ]
    );
}

#[test]
fn init_again_replaces_the_configuration() {
    let mut splitter = create_revenue_splitter();
    splitter.init(create_address(1), create_address(2)).unwrap();
    splitter.init(create_address(3), create_address(4)).unwrap();
    assert_eq!(splitter.get_usdc_token(), Ok(create_address(3)));
    assert_eq!(splitter.get_treasury(), Ok(create_address(4)));
    assert_eq!(splitter.get_config(), Ok((create_address(3), create_address(4))));
    assert_eq!(splitter.address(), &engine_address());
}

#[test]
fn get_config_fails_until_configured() {
    let splitter = create_revenue_splitter();
    assert_eq!(splitter.get_config(), Err(Error::TokenNotSet));
}

#[test]
fn an_empty_list_is_refused_before_the_configuration_is_looked_at() {
    let mut splitter = create_revenue_splitter();
    let mut ledger = fund_usdc(10_0000000);
    let result = splitter.payout_for_dataset(&mut ledger, b"d".to_vec(), Vec::new());
    assert_eq!(result, Err(Error::InvalidContributors));
}

#[test]
fn an_unconfigured_engine_fails_with_token_not_set() {
    let mut splitter = create_revenue_splitter();
    let mut ledger = fund_usdc(10_0000000);
    let result = splitter.payout_for_dataset(&mut ledger, b"d".to_vec(), vec![create_address(10)]);
    assert_eq!(result, Err(Error::TokenNotSet));
}

#[test]
fn a_failed_transfer_undoes_the_whole_payout() {
    let mut splitter = create_revenue_splitter();
    let treasury = create_address(2);
    splitter.init(create_address(1), treasury.clone()).unwrap();

    // Enough for one contributor and the contributor's part of the second,
    // but not for the treasury's part of the second.
    let mut ledger = fund_usdc(10_0000000 + 8_5000000);
    let contributors = vec![create_address(10), create_address(11)];
    let result = splitter.payout_for_dataset(&mut ledger, b"d".to_vec(), contributors);

    assert_eq!(result, Err(Error::TransferFailed));
    assert_eq!(ledger.balance(&engine_address()), 10_0000000 + 8_5000000);
    assert_eq!(ledger.balance(&create_address(10)), 0);
    assert_eq!(ledger.balance(&create_address(11)), 0);
    assert_eq!(ledger.balance(&treasury), 0);
    assert!(splitter.events().is_empty());
}

#[test]
fn a_payout_without_funds_fails() {
    let mut splitter = create_revenue_splitter();
    splitter.init(create_address(1), create_address(2)).unwrap();
    let mut ledger = AssetLedger::new();
    let result = splitter.payout_for_dataset(&mut ledger, b"d".to_vec(), vec![create_address(10)]);
    assert_eq!(result, Err(Error::TransferFailed));
    assert!(splitter.events().is_empty());
}

#[test]
fn a_contributor_listed_twice_is_paid_twice() {
    let mut splitter = create_revenue_splitter();
    let treasury = create_address(2);
    splitter.init(create_address(1), treasury.clone()).unwrap();
    let mut ledger = fund_usdc(20_0000000);
    let contributors = vec![create_address(10), create_address(10)];
    assert_eq!(splitter.payout_for_dataset(&mut ledger, b"d".to_vec(), contributors), Ok(()));
    assert_eq!(ledger.balance(&create_address(10)), 17_0000000);
    assert_eq!(ledger.balance(&treasury), 3_0000000);
    assert_eq!(splitter.events().len(), 3);
}

#[test]
fn later_payouts_are_logged_after_earlier_ones() {
    let mut splitter = create_revenue_splitter();
    splitter.init(create_address(1), create_address(2)).unwrap();
    let mut ledger = fund_usdc(20_0000000);
    splitter.payout_for_dataset(&mut ledger, b"a".to_vec(), vec![create_address(10)]).unwrap();
    splitter.payout_for_dataset(&mut ledger, b"b".to_vec(), vec![create_address(11)]).unwrap();
    let events = splitter.events();
    assert_eq!(events.len(), 4);
    assert_eq!(events[0], rewarded(b"a", create_address(10)));
    assert_eq!(events[2], rewarded(b"b", create_address(11)));
}

#[test]
fn split_reward_rounds_the_contributor_part_down() {
    assert_eq!(split_reward(10_0000000), Ok((8_5000000, 1_5000000)));
    assert_eq!(split_reward(100), Ok((85, 15)));
    assert_eq!(split_reward(101), Ok((85, 16)));
    assert_eq!(split_reward(7), Ok((5, 2)));
    assert_eq!(split_reward(2), Ok((1, 1)));
    let (user, platform) = split_reward(i128::MAX).unwrap();
    assert_eq!(user + platform, i128::MAX);
    assert_eq!(user, i128::MAX / 100 * 85 + (i128::MAX % 100) * 85 / 100);
}

#[test]
fn split_reward_refuses_a_reward_without_two_parts() {
    assert_eq!(split_reward(1), Err(Error::InvalidAmount));
    assert_eq!(split_reward(0), Err(Error::InvalidAmount));
    assert_eq!(split_reward(-10_0000000), Err(Error::InvalidAmount));
}
