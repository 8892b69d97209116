use carbonable_domain::batch::{collect_batch, get_call_function, slot_calldata, to_hash_map};
use carbonable_domain::errors::ModelError;
use carbonable_domain::farming::{
    CompleteFarmingData, CustomerDetailsProjectData, CustomerGlobalDataForComputation,
    CustomerListingProjectData, CustomerToken, ProjectApr,
};
use carbonable_domain::felt::Felt;
use carbonable_domain::model::StarknetValue;

fn project_data() -> CustomerGlobalDataForComputation {
    CustomerGlobalDataForComputation {
        id: 1,
        unit_price: 10,
        payment_decimals: 6,
        payment_symbol: String::from("USDC"),
        project_slot: 1,
        project_address: String::from("0x1234"),
        value_decimals: 6,
        ton_equivalent: 1000,
        yielder_address: String::from("0xaaa"),
        offseter_address: String::from("0xbbb"),
        slot: 1,
        project_value: 100,
    }
}

fn farming_data() -> CompleteFarmingData {
    CompleteFarmingData {
        id: 2,
        address: String::from("0x1234"),
        times: vec![],
        absorptions: vec![1_000, 2_000_000],
        ton_equivalent: 1000,
        value_decimals: 6,
        payment_decimals: 6,
        payment_symbol: String::from("USDC"),
        payment_address: Some(String::from("0xccc")),
        offseter_address: Some(String::from("0xbbb")),
        yielder_id: None,
        yielder_address: Some(String::from("0xaaa")),
        minter_id: None,
        total_value: Some(1_000_000),
        project_abi: None,
        minter_abi: None,
        offseter_abi: None,
        yielder_abi: None,
        payment_abi: None,
    }
}

fn u256_response(value: u64) -> Vec<Felt> {
    vec![Felt::from_u64(value)]
}

#[test]
fn listing_builder_scales_every_quantity() {
    let responses = vec![
        u256_response(2_000_000), // yielder claimable
        u256_response(3_000),     // offseter claimable
        u256_response(1_000_000), // yielder deposited
        u256_response(500_000),   // offseter deposited
        u256_response(1_000),     // minimum claimable
    ];
    let listing = CustomerListingProjectData::from_blockchain_data(
        &responses,
        &project_data(),
        &farming_data(),
        250_000,
    )
    .unwrap();
    assert_eq!(listing.customer_stake.displayable_value, "1.5");
    assert_eq!(listing.customer_investment.displayable_value, "15.0");
    assert_eq!(listing.customer_investment.symbol, "USDC");
    assert_eq!(listing.payment_decimals, 6);
    assert_eq!(listing.ton_equivalent, 1000);
    assert_eq!(listing.vesting_to_claim.displayable_value, "2.0");
    assert_eq!(listing.absorption_to_claim.displayable_value, "3.0");
    assert_eq!(listing.undeposited.displayable_value, "0.25");
    assert_eq!(listing.min_to_claim.displayable_value, "1.0");
    assert_eq!(listing.contracts.yielder, "0xaaa");
    assert_eq!(listing.contracts.project, "0x1234");
    assert_eq!(listing.contracts.yielder_abi, "");
}

#[test]
fn listing_builder_rejects_wrong_response_count() {
    let responses = vec![u256_response(1), u256_response(2)];
    assert_eq!(
        CustomerListingProjectData::from_blockchain_data(
            &responses,
            &project_data(),
            &farming_data(),
            0,
        )
        .err(),
        Some(ModelError::WrongResponseCount)
    );
}

#[test]
fn detail_builder_end_to_end_scenario() {
    let mut farming = farming_data();
    farming.value_decimals = 18;
    farming.payment_decimals = 6;
    farming.ton_equivalent = 1000;
    let data = vec![
        u256_response(2_000),                     // current absorption
        u256_response(0),                         // offseter deposited of customer
        u256_response(50),                        // yielder deposited of customer
        u256_response(0),                         // claimable
        u256_response(0),                         // releasable
        u256_response(0),                         // claimed
        u256_response(0),                         // released
        u256_response(0),                         // offseter total deposited
        u256_response(5_000_000_000_000_000_000), // yielder total deposited
        u256_response(0),                         // minimum to claim
    ];
    let tokens = vec![CustomerToken {
        wallet: String::from("0xme"),
        project_address: String::from("0x1234"),
        slot: 1,
        token_id: 9,
        value: 50,
    }];
    let mut builder = CustomerDetailsProjectData::new();
    builder.with_contracts(&project_data(), &farming);
    builder.with_apr(ProjectApr::NotAvailable);
    builder
        .compute_blockchain_data(&data, &farming, &project_data(), 50, &tokens)
        .unwrap();
    let view = builder.build();
    assert_eq!(view.overview.total_yielded.displayable_value, "5.0");
    assert_eq!(view.overview.total_offseted.displayable_value, "0");
    assert_eq!(view.overview.total_removal.displayable_value, "2.0");
    // generated credits: 2000 * (0 + 50 + 50) / 100, at six digits
    assert_eq!(view.carbon_credits.generated_credits.displayable_value, "2000.0");
    // still to come: (2_000_000 - 2_000) * 100 / 100
    assert_eq!(view.carbon_credits.to_be_generated.displayable_value, "1998000.0");
    assert_eq!(view.allocation.undeposited.displayable_value, "0.00000000000000005");
    assert_eq!(view.allocation.tokens.len(), 1);
    assert_eq!(view.allocation.tokens[0].value.value, 50);
    assert_eq!(view.contracts.yielder, "0xaaa");
    assert_eq!(view.ton_equivalent, 1000);
    assert_eq!(view.payment_decimals, 6);
    assert_eq!(view.unit_price.displayable_value, "0.00001");
}

#[test]
fn detail_builder_is_unchanged_by_a_failing_stage() {
    let mut builder = CustomerDetailsProjectData::new();
    let err = builder
        .compute_blockchain_data(&vec![], &farming_data(), &project_data(), 0, &vec![])
        .err();
    assert_eq!(err, Some(ModelError::WrongResponseCount));
    assert_eq!(builder.overview.total_yielded.displayable_value, "");
}

fn named_value(name: &str, raw: u64) -> Result<(String, StarknetValue), ModelError> {
    Ok((String::from(name), StarknetValue::new(vec![Felt::from_u64(raw)])))
}

#[test]
fn batch_collects_one_entry_per_distinct_name() {
    let outcomes = vec![
        named_value("getCurrentAbsorption", 1),
        named_value("getTotalDeposited", 2),
        named_value("getMinClaimable", 3),
    ];
    let map = collect_batch(&outcomes).unwrap();
    assert_eq!(map.len(), 3);
    assert!(map.get("getCurrentAbsorption").is_some());
    assert!(map.get("getTotalDeposited").is_some());
    assert!(map.get("getMinClaimable").is_some());
    assert!(map.get("getUnknown").is_none());
}

#[test]
fn batch_fails_whole_when_any_call_fails() {
    let outcomes = vec![
        named_value("getCurrentAbsorption", 1),
        Err(ModelError::RateLimited),
        named_value("getMinClaimable", 3),
    ];
    assert_eq!(collect_batch(&outcomes).err(), Some(ModelError::RateLimited));
}

#[test]
fn hash_map_assembly_keeps_the_later_duplicate() {
    let pairs = vec![
        (String::from("a"), StarknetValue::new(vec![Felt::from_u64(1)])),
        (String::from("a"), StarknetValue::new(vec![Felt::from_u64(2)])),
        (String::from("b"), StarknetValue::new(vec![Felt::from_u64(3)])),
    ];
    let map = to_hash_map(&pairs);
    assert_eq!(map.len(), 2);
    let mut kept = map.get("a").unwrap().duplicate();
    assert!(matches!(
        kept.resolve("u256").unwrap(),
        carbonable_domain::model::StarknetResolvedValue::Int(2)
    ));
}

#[test]
fn call_builder_derives_the_selector_before_any_network_work() {
    let address = Felt::from_u64(0x1234);
    let call = get_call_function(&address, "symbol", vec![]).unwrap();
    assert_eq!(call.contract_address.bytes, address.bytes);
    assert_eq!(call.entry_point_selector.bytes.len(), 32);
    assert!(call.entry_point_selector.bytes.iter().any(|b| *b != 0));
    let other = get_call_function(&address, "getCurrentAbsorption", vec![]).unwrap();
    assert_ne!(call.entry_point_selector.bytes, other.entry_point_selector.bytes);
    let again = get_call_function(&address, "symbol", vec![]).unwrap();
    assert_eq!(call.entry_point_selector.bytes, again.entry_point_selector.bytes);
    assert_eq!(
        get_call_function(&address, "montant_\u{e9}ligible", vec![]).err(),
        Some(ModelError::FailedToParseSelector)
    );
}

#[test]
fn slot_calldata_holds_the_slot_and_a_zero() {
    let calldata = slot_calldata(5);
    assert_eq!(calldata.len(), 2);
    assert_eq!(calldata[0].bytes[31], 5);
    assert!(calldata[1].bytes.iter().all(|b| *b == 0));
}
