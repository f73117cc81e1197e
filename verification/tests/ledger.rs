use aidchain::{AidChainContract, Donation, DonationStatus, LedgerError};
use soroban_sdk::testutils::{Address as _, Ledger as _};
use soroban_sdk::{Address, Env, Symbol};

fn sym(env: &Env, text: &str) -> Symbol {
    Symbol::new(env, text)
}

/// Three donations: (a, money, ny), (b, goods, ny), (a, money, la).
fn three_donations(env: &Env, a: &Address, b: &Address) -> AidChainContract {
    let mut contract = AidChainContract::new(env);
    contract
        .create_donation(env, a.clone(), 10, sym(env, "money"), sym(env, "ny"), sym(env, "org"))
        .unwrap();
    contract
        .create_donation(env, b.clone(), 20, sym(env, "goods"), sym(env, "ny"), sym(env, "org"))
        .unwrap();
    contract
        .create_donation(env, a.clone(), 30, sym(env, "money"), sym(env, "la"), sym(env, "org"))
        .unwrap();
    contract
}

#[test]
fn test_create_donation() {
    let env = Env::default();
    let mut contract = AidChainContract::new(&env);

    let donor = Address::generate(&env);
    let amount: i128 = 100;
    let category = Symbol::new(&env, "money");
    let region = Symbol::new(&env, "istanbul");
    let organization = Symbol::new(&env, "red_cross");

    let donation = contract
        .create_donation(
            &env,
            donor.clone(),
            amount,
            category.clone(),
            region.clone(),
            organization.clone(),
        )
        .unwrap();

    assert_eq!(donation.donor, donor);
    assert_eq!(donation.amount, amount);
    assert_eq!(donation.category, category);
    assert_eq!(donation.region, region);
    assert_eq!(donation.organization, organization);
    assert_eq!(Symbol::new(&env, donation.status.as_str()), Symbol::new(&env, "pending"));
    assert_eq!(donation.status, DonationStatus::Pending);
    assert_eq!(donation.delivery_nft_id, None);
}

#[test]
fn new_ledger_is_empty() {
    let env = Env::default();
    let contract = AidChainContract::new(&env);
    assert!(contract.get_donations().is_empty());
    assert_eq!(contract.get_donation_count(), 0);
    assert_eq!(contract.get_total_amount(), 0);
}

#[test]
fn created_donation_is_appended() {
    let env = Env::default();
    let mut contract = AidChainContract::new(&env);
    let donor = Address::generate(&env);
    let made = contract
        .create_donation_at(
            donor.clone(),
            250,
            sym(&env, "food"),
            sym(&env, "ankara"),
            sym(&env, "unicef"),
            1_700_000_000,
        )
        .unwrap();
    let expected = Donation {
        donor,
        amount: 250,
        category: sym(&env, "food"),
        region: sym(&env, "ankara"),
        organization: sym(&env, "unicef"),
        timestamp: 1_700_000_000,
        status: DonationStatus::Pending,
        delivery_nft_id: None,
    };
    assert_eq!(made, expected);
    assert_eq!(contract.get_donations(), vec![expected]);
}

#[test]
fn donation_takes_the_ledger_time_of_the_host() {
    let env = Env::default();
    env.ledger().set_timestamp(1_234_567);
    let mut contract = AidChainContract::new(&env);
    let first = contract
        .create_donation(
            &env,
            Address::generate(&env),
            5,
            sym(&env, "money"),
            sym(&env, "ny"),
            sym(&env, "org"),
        )
        .unwrap();
    assert_eq!(first.timestamp, 1_234_567);

    env.ledger().set_timestamp(2_000_000);
    let second = contract
        .create_donation(
            &env,
            Address::generate(&env),
            5,
            sym(&env, "money"),
            sym(&env, "ny"),
            sym(&env, "org"),
        )
        .unwrap();
    assert_eq!(second.timestamp, 2_000_000);
    assert_eq!(contract.get_donations()[0].timestamp, 1_234_567);
}

#[test]
fn zero_amount_is_refused() {
    let env = Env::default();
    let a = Address::generate(&env);
    let b = Address::generate(&env);
    let mut contract = three_donations(&env, &a, &b);
    let stats_before = contract.get_stats();
    let ledger_before = contract.get_donations();

    let refused =
        contract.create_donation(&env, a, 0, sym(&env, "money"), sym(&env, "ny"), sym(&env, "org"));

    assert_eq!(refused, Err(LedgerError::InvalidAmount));
    assert_eq!(contract.get_stats(), stats_before);
    assert_eq!(contract.get_donations(), ledger_before);
}

#[test]
fn negative_amount_is_refused() {
    let env = Env::default();
    let a = Address::generate(&env);
    let b = Address::generate(&env);
    let mut contract = three_donations(&env, &a, &b);
    let stats_before = contract.get_stats();
    let ledger_before = contract.get_donations();

    let refused = contract.create_donation(
        &env,
        a,
        -5,
        sym(&env, "money"),
        sym(&env, "ny"),
        sym(&env, "org"),
    );

    assert_eq!(refused, Err(LedgerError::InvalidAmount));
    assert_eq!(contract.get_stats(), stats_before);
    assert_eq!(contract.get_donations(), ledger_before);
    assert_eq!(contract.get_donation_count(), 3);
    assert_eq!(contract.get_total_amount(), 60);
}

#[test]
fn smallest_amount_is_accepted() {
    let env = Env::default();
    let mut contract = AidChainContract::new(&env);
    let made = contract.create_donation(
        &env,
        Address::generate(&env),
        1,
        sym(&env, "money"),
        sym(&env, "ny"),
        sym(&env, "org"),
    );
    assert!(made.is_ok());
    assert_eq!(contract.get_total_amount(), 1);
}

#[test]
fn largest_amount_is_accepted() {
    let env = Env::default();
    let mut contract = AidChainContract::new(&env);
    let made = contract
        .create_donation(
            &env,
            Address::generate(&env),
            i128::MAX,
            sym(&env, "money"),
            sym(&env, "ny"),
            sym(&env, "org"),
        )
        .unwrap();
    assert_eq!(made.amount, i128::MAX);
    assert_eq!(contract.get_total_amount(), i128::MAX);
}

#[test]
fn filter_by_donor_keeps_ledger_order() {
    let env = Env::default();
    let a = Address::generate(&env);
    let b = Address::generate(&env);
    let contract = three_donations(&env, &a, &b);
    let all = contract.get_donations();

    let by_a = contract.get_donations_by_donor(a.clone());
    assert_eq!(by_a, vec![all[0].clone(), all[2].clone()]);
    assert_eq!(by_a[0].amount, 10);
    assert_eq!(by_a[1].amount, 30);

    let by_b = contract.get_donations_by_donor(b);
    assert_eq!(by_b, vec![all[1].clone()]);
}

#[test]
fn filter_by_region_keeps_ledger_order() {
    let env = Env::default();
    let a = Address::generate(&env);
    let b = Address::generate(&env);
    let contract = three_donations(&env, &a, &b);
    let all = contract.get_donations();

    let in_ny = contract.get_donations_by_region(sym(&env, "ny"));
    assert_eq!(in_ny, vec![all[0].clone(), all[1].clone()]);

    let in_la = contract.get_donations_by_region(sym(&env, "la"));
    assert_eq!(in_la, vec![all[2].clone()]);
}

#[test]
fn filter_by_category_keeps_ledger_order() {
    let env = Env::default();
    let a = Address::generate(&env);
    let b = Address::generate(&env);
    let contract = three_donations(&env, &a, &b);
    let all = contract.get_donations();

    let money = contract.get_donations_by_category(sym(&env, "money"));
    assert_eq!(money, vec![all[0].clone(), all[2].clone()]);

    let goods = contract.get_donations_by_category(sym(&env, "goods"));
    assert_eq!(goods, vec![all[1].clone()]);
}

#[test]
fn filters_without_a_match_are_empty() {
    let env = Env::default();
    let a = Address::generate(&env);
    let b = Address::generate(&env);
    let contract = three_donations(&env, &a, &b);

    assert!(contract.get_donations_by_donor(Address::generate(&env)).is_empty());
    assert!(contract.get_donations_by_category(sym(&env, "ny")).is_empty());
    assert!(contract.get_donations_by_region(sym(&env, "money")).is_empty());

    let empty = AidChainContract::new(&env);
    assert!(empty.get_donations_by_donor(a).is_empty());
    assert!(empty.get_donations_by_category(sym(&env, "money")).is_empty());
    assert!(empty.get_donations_by_region(sym(&env, "ny")).is_empty());
}

#[test]
fn filters_compare_long_labels_by_their_text() {
    let env = Env::default();
    let mut contract = AidChainContract::new(&env);
    let donor = Address::generate(&env);
    contract
        .create_donation(
            &env,
            donor.clone(),
            7,
            sym(&env, "medical_supplies_and_care"),
            sym(&env, "south_east_anatolia"),
            sym(&env, "org"),
        )
        .unwrap();
    contract
        .create_donation(
            &env,
            donor,
            8,
            sym(&env, "medical_supplies_and_tent"),
            sym(&env, "south_east_anatolia"),
            sym(&env, "org"),
        )
        .unwrap();

    let care = contract.get_donations_by_category(sym(&env, "medical_supplies_and_care"));
    assert_eq!(care.len(), 1);
    assert_eq!(care[0].amount, 7);
    let region = contract.get_donations_by_region(sym(&env, "south_east_anatolia"));
    assert_eq!(region.len(), 2);
}

#[test]
fn confirming_marks_the_record_delivered() {
    let env = Env::default();
    let mut contract = AidChainContract::new(&env);
    let created = contract
        .create_donation(
            &env,
            Address::generate(&env),
            40,
            sym(&env, "money"),
            sym(&env, "ny"),
            sym(&env, "org"),
        )
        .unwrap();
    assert_eq!(created.status, DonationStatus::Pending);
    assert_eq!(created.delivery_nft_id, None);

    let confirmed = contract.confirm_delivery(0, sym(&env, "nft_1")).unwrap();

    assert_eq!(confirmed.status, DonationStatus::Delivered);
    assert_eq!(confirmed.status.as_str(), "delivered");
    assert_eq!(confirmed.delivery_nft_id, Some(sym(&env, "nft_1")));
    assert_eq!(confirmed.donor, created.donor);
    assert_eq!(confirmed.amount, 40);
    assert_eq!(confirmed.timestamp, created.timestamp);
    assert_eq!(contract.get_donations()[0], confirmed);
    assert_eq!(contract.get_donations().len(), 1);
}

#[test]
fn confirming_touches_one_record_only() {
    let env = Env::default();
    let a = Address::generate(&env);
    let b = Address::generate(&env);
    let mut contract = three_donations(&env, &a, &b);
    let before = contract.get_donations();
    let stats_before = contract.get_stats();

    contract.confirm_delivery(1, sym(&env, "nft_b")).unwrap();

    let after = contract.get_donations();
    assert_eq!(after.len(), 3);
    assert_eq!(after[0], before[0]);
    assert_eq!(after[2], before[2]);
    assert_eq!(after[1].status, DonationStatus::Delivered);
    assert_eq!(after[1].delivery_nft_id, Some(sym(&env, "nft_b")));
    assert_eq!(after[1].category, before[1].category);
    assert_eq!(contract.get_stats(), stats_before);
}

#[test]
fn confirming_again_overwrites_the_token() {
    let env = Env::default();
    let a = Address::generate(&env);
    let b = Address::generate(&env);
    let mut contract = three_donations(&env, &a, &b);

    contract.confirm_delivery(2, sym(&env, "first")).unwrap();
    let again = contract.confirm_delivery(2, sym(&env, "second")).unwrap();

    assert_eq!(again.status, DonationStatus::Delivered);
    assert_eq!(again.delivery_nft_id, Some(sym(&env, "second")));
    assert_eq!(contract.get_donations()[2].delivery_nft_id, Some(sym(&env, "second")));
}

#[test]
fn confirming_past_the_end_is_refused() {
    let env = Env::default();
    let a = Address::generate(&env);
    let b = Address::generate(&env);
    let mut contract = three_donations(&env, &a, &b);
    let before = contract.get_donations();
    let stats_before = contract.get_stats();

    assert_eq!(contract.confirm_delivery(3, sym(&env, "x")), Err(LedgerError::IndexOutOfBounds));
    assert_eq!(
        contract.confirm_delivery(u32::MAX, sym(&env, "x")),
        Err(LedgerError::IndexOutOfBounds)
    );
    assert_eq!(contract.get_donations(), before);
    assert_eq!(contract.get_stats(), stats_before);
}

#[test]
fn confirming_on_an_empty_ledger_is_refused() {
    let env = Env::default();
    let mut contract = AidChainContract::new(&env);
    assert_eq!(contract.confirm_delivery(0, sym(&env, "x")), Err(LedgerError::IndexOutOfBounds));
    assert!(contract.get_donations().is_empty());
}

#[test]
fn listed_records_are_copies() {
    let env = Env::default();
    let a = Address::generate(&env);
    let b = Address::generate(&env);
    let contract = three_donations(&env, &a, &b);
    let mut listed = contract.get_donations();
    listed[0].amount = 999;
    listed.pop();
    assert_eq!(contract.get_donations().len(), 3);
    assert_eq!(contract.get_donations()[0].amount, 10);
}

#[test]
fn a_copy_of_a_record_equals_it() {
    let env = Env::default();
    let mut contract = AidChainContract::new(&env);
    contract
        .create_donation(
            &env,
            Address::generate(&env),
            3,
            sym(&env, "a_category_of_some_length"),
            sym(&env, "a_region_with_a_long_name"),
            sym(&env, "org"),
        )
        .unwrap();
    let confirmed = contract.confirm_delivery(0, sym(&env, "token_with_a_long_name")).unwrap();
    let copy = confirmed.clone();
    assert_eq!(copy, confirmed);
    assert_eq!(copy.delivery_nft_id, Some(sym(&env, "token_with_a_long_name")));
}

#[test]
fn refusals_have_their_words() {
    assert_eq!(LedgerError::InvalidAmount.message(), "Amount must be positive");
    assert_eq!(LedgerError::IndexOutOfBounds.message(), "Donation index out of bounds");
}

#[test]
fn statuses_have_their_names() {
    assert_eq!(DonationStatus::Pending.as_str(), "pending");
    assert_eq!(DonationStatus::Delivered.as_str(), "delivered");
}

fn plain_record(env: &Env, amount: i128) -> Donation {
    Donation {
        donor: Address::generate(env),
        amount,
        category: sym(env, "money"),
        region: sym(env, "ny"),
        organization: sym(env, "org"),
        timestamp: 17,
        status: DonationStatus::Pending,
        delivery_nft_id: None,
    }
}

#[test]
fn saved_parts_give_the_same_ledger() {
    let env = Env::default();
    let a = Address::generate(&env);
    let b = Address::generate(&env);
    let mut contract = three_donations(&env, &a, &b);
    contract.confirm_delivery(1, sym(&env, "nft_b")).unwrap();

    let again =
        AidChainContract::from_parts(&env, contract.get_donations(), contract.get_stats()).unwrap();

    assert_eq!(again.get_donations(), contract.get_donations());
    assert_eq!(again.get_stats(), contract.get_stats());
    assert_eq!(again.get_donation_count(), 3);
    assert_eq!(again.get_total_amount(), 60);
    assert_eq!(again.get_donations()[1].status, DonationStatus::Delivered);
    assert_eq!(again.get_donations_by_donor(a).len(), 2);
}

#[test]
fn a_ledger_from_saved_parts_goes_on_counting() {
    let env = Env::default();
    let a = Address::generate(&env);
    let b = Address::generate(&env);
    let contract = three_donations(&env, &a, &b);
    let mut again =
        AidChainContract::from_parts(&env, contract.get_donations(), contract.get_stats()).unwrap();

    again
        .create_donation(&env, b, 7, sym(&env, "money"), sym(&env, "sf"), sym(&env, "org"))
        .unwrap();
    again.confirm_delivery(3, sym(&env, "nft")).unwrap();

    let stats = again.get_stats();
    assert_eq!(stats.total_donations, 4);
    assert_eq!(stats.total_amount, 67);
    assert_eq!(stats.category_stats.get(sym(&env, "money")), Some(3));
    assert_eq!(stats.category_stats.get(sym(&env, "goods")), Some(1));
    assert_eq!(stats.region_stats.get(sym(&env, "ny")), Some(2));
    assert_eq!(stats.region_stats.get(sym(&env, "sf")), Some(1));
    assert_eq!(again.get_donations().len(), 4);
    assert_eq!(again.get_donations()[3].delivery_nft_id, Some(sym(&env, "nft")));
    assert_eq!(contract.get_donation_count(), 3);
}

#[test]
fn saved_statistics_are_taken_as_they_are() {
    let env = Env::default();
    let mut counts = soroban_sdk::Map::new(&env);
    counts.set(sym(&env, "money"), 40);
    let stats = aidchain::DonationStats {
        total_donations: 41,
        total_amount: 4_100,
        category_stats: counts.clone(),
        region_stats: soroban_sdk::Map::new(&env),
    };
    let mut ledger =
        AidChainContract::from_parts(&env, vec![plain_record(&env, 5)], stats).unwrap();
    assert_eq!(ledger.get_donations().len(), 1);
    assert_eq!(ledger.get_donation_count(), 41);
    assert_eq!(ledger.get_total_amount(), 4_100);

    ledger
        .create_donation_at(
            Address::generate(&env),
            9,
            sym(&env, "money"),
            sym(&env, "ny"),
            sym(&env, "org"),
            3,
        )
        .unwrap();
    let after = ledger.get_stats();
    assert_eq!(after.total_donations, 42);
    assert_eq!(after.total_amount, 4_109);
    assert_eq!(after.category_stats.get(sym(&env, "money")), Some(41));
    assert_eq!(after.region_stats.get(sym(&env, "ny")), Some(1));
    assert_eq!(ledger.get_donations().len(), 2);
}

#[test]
fn parts_without_records_give_an_empty_ledger() {
    let env = Env::default();
    let empty = AidChainContract::new(&env);
    let again = AidChainContract::from_parts(&env, Vec::new(), empty.get_stats()).unwrap();
    assert!(again.get_donations().is_empty());
    assert_eq!(again.get_donation_count(), 0);
    assert_eq!(again.get_total_amount(), 0);
    assert!(again.get_stats().category_stats.is_empty());
}

#[test]
fn room_is_told_before_recording() {
    let env = Env::default();
    let mut contract = AidChainContract::new(&env);
    let money = sym(&env, "money");
    let ny = sym(&env, "ny");
    assert!(contract.has_room(1, &money, &ny));
    assert!(contract.has_room(i128::MAX, &money, &ny));

    contract
        .create_donation_at(Address::generate(&env), i128::MAX - 10, money.clone(), ny.clone(), sym(&env, "org"), 1)
        .unwrap();
    assert!(contract.has_room(10, &money, &ny));
    assert!(!contract.has_room(11, &money, &ny));
    assert!(!contract.has_room(i128::MAX, &money, &ny));
    assert!(contract.has_room(0, &money, &ny));
    assert!(contract.has_room(-3, &money, &ny));

    contract
        .create_donation_at(Address::generate(&env), 10, money.clone(), ny.clone(), sym(&env, "org"), 1)
        .unwrap();
    assert_eq!(contract.get_total_amount(), i128::MAX);
    assert!(!contract.has_room(1, &money, &ny));
}

#[test]
fn room_looks_at_every_number_of_the_statistics() {
    let env = Env::default();
    let money = sym(&env, "money");
    let goods = sym(&env, "goods");
    let ny = sym(&env, "ny");
    let la = sym(&env, "la");
    let mut full_category = soroban_sdk::Map::new(&env);
    full_category.set(money.clone(), i128::MAX);
    let mut full_region = soroban_sdk::Map::new(&env);
    full_region.set(ny.clone(), i128::MAX);
    let stats = aidchain::DonationStats {
        total_donations: 5,
        total_amount: 50,
        category_stats: full_category,
        region_stats: full_region,
    };
    let ledger = AidChainContract::from_parts(&env, Vec::new(), stats).unwrap();
    assert!(ledger.has_room(1, &goods, &la));
    assert!(!ledger.has_room(1, &money, &la));
    assert!(!ledger.has_room(1, &goods, &ny));

    let counted_out = aidchain::DonationStats {
        total_donations: i128::MAX,
        total_amount: 50,
        category_stats: soroban_sdk::Map::new(&env),
        region_stats: soroban_sdk::Map::new(&env),
    };
    let ledger = AidChainContract::from_parts(&env, Vec::new(), counted_out).unwrap();
    assert!(!ledger.has_room(1, &goods, &la));
}

#[test]
fn values_of_another_environment_are_taken_in() {
    let home = Env::default();
    let abroad = Env::default();
    let mut contract = AidChainContract::new(&home);
    let donor = Address::generate(&abroad);
    let category = sym(&abroad, "medical_supplies_and_care");
    let region = sym(&abroad, "south_east_anatolia");
    let organization = sym(&abroad, "doctors_without_borders");

    let made = contract
        .create_donation(
            &home,
            donor.clone(),
            12,
            category.clone(),
            region.clone(),
            organization.clone(),
        )
        .unwrap();
    assert_eq!(made.donor, donor);
    let mut neighbour = Address::generate(&home);
    while neighbour == donor {
        neighbour = Address::generate(&home);
    }
    contract
        .create_donation(
            &home,
            neighbour,
            13,
            sym(&home, "medical_supplies_and_care"),
            sym(&home, "south_east_anatolia"),
            sym(&home, "doctors_without_borders"),
        )
        .unwrap();
    let confirmed = contract.confirm_delivery(0, sym(&abroad, "a_token_from_far_away")).unwrap();
    assert_eq!(confirmed.delivery_nft_id, Some(sym(&home, "a_token_from_far_away")));

    let all = contract.get_donations();
    assert_eq!(all.len(), 2);
    assert_eq!(all[0].donor, donor);
    assert_eq!(all[0].category, category);
    assert_eq!(all[0].organization, organization);
    assert_eq!(all[0].delivery_nft_id, Some(sym(&abroad, "a_token_from_far_away")));
    assert_eq!(contract.get_donations_by_donor(donor).len(), 1);
    assert_eq!(contract.get_donations_by_category(category.clone()).len(), 2);
    assert_eq!(contract.get_donations_by_region(region.clone()).len(), 2);

    let stats = contract.get_stats();
    assert_eq!(stats.category_stats.len(), 1);
    assert_eq!(stats.category_stats.get(sym(&home, "medical_supplies_and_care")), Some(2));
    assert_eq!(stats.region_stats.get(sym(&home, "south_east_anatolia")), Some(2));
    assert!(!contract.has_room(i128::MAX, &category, &region));
    assert!(contract.has_room(1, &category, &region));
}

#[test]
fn a_longer_ledger_keeps_its_order() {
    let env = Env::default();
    let mut contract = AidChainContract::new(&env);
    let a = Address::generate(&env);
    let b = Address::generate(&env);
    let mut n: i128 = 0;
    while n < 60 {
        let donor = if n % 3 == 0 { a.clone() } else { b.clone() };
        contract
            .create_donation_at(donor, n + 1, sym(&env, "money"), sym(&env, "ny"), sym(&env, "org"), 9)
            .unwrap();
        n += 1;
    }
    contract.confirm_delivery(59, sym(&env, "last")).unwrap();

    let all = contract.get_donations();
    assert_eq!(all.len(), 60);
    for (i, donation) in all.iter().enumerate() {
        assert_eq!(donation.amount, i as i128 + 1);
    }
    assert_eq!(all[59].delivery_nft_id, Some(sym(&env, "last")));
    assert_eq!(all[58].delivery_nft_id, None);

    let by_a = contract.get_donations_by_donor(a);
    assert_eq!(by_a.len(), 20);
    for (i, donation) in by_a.iter().enumerate() {
        assert_eq!(donation.amount, 3 * i as i128 + 1);
    }
    assert_eq!(contract.get_donation_count(), 60);
    assert_eq!(contract.get_total_amount(), 1830);
}
