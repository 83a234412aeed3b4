use std::sync::Arc;

use starknet_declaration::declaration::{
    block_gas_price_to_u64, estimated_gas_price_to_u64, fee_estimation_flags,
    simulation_flags, simulation_skips_signature, Account, DeclarationV3, FeeOutOfRange,
    FeeResolution, NotPreparedError, ResolvedFees, TipResolution,
};
use starknet_declaration::felt::Felt;
use starknet_declaration::types::{
    DataAvailabilityMode, EntryPointsByType, FlattenedSierraClass, ResourceBounds,
    SimulationFlag, SimulationFlagForEstimateFee,
};

struct TestAccount {
    address: Felt,
    chain_id: Felt,
}

impl Account for TestAccount {
    fn spec_address(&self) -> Felt {
        self.address
    }

    fn spec_chain_id(&self) -> Felt {
        self.chain_id
    }

    fn address(&self) -> Felt {
        self.address
    }

    fn chain_id(&self) -> Felt {
        self.chain_id
    }
}

fn test_account() -> TestAccount {
    TestAccount {
        address: Felt::from(0x1234_u64),
        chain_id: Felt::from(1_u64),
    }
}

fn empty_class() -> Arc<FlattenedSierraClass> {
    Arc::new(FlattenedSierraClass {
        sierra_program: vec![],
        contract_class_version: "0.1.0".to_string(),
        entry_points_by_type: EntryPointsByType {
            constructor: vec![],
            external: vec![],
            l1_handler: vec![],
        },
        abi: String::new(),
    })
}

fn felt_from_hex(hex: &str) -> Felt {
    Felt::from_bytes_be(&starknet_types_core::felt::Felt::from_hex_unchecked(hex).to_bytes_be())
}

#[test]
fn new_declaration_has_nothing_set() {
    let account = test_account();
    let d = DeclarationV3::new(empty_class(), Felt::from(0xCAFE_u64), &account);
    assert!(d.nonce.is_none());
    assert!(d.l1_gas.is_none());
    assert!(d.l1_gas_price.is_none());
    assert!(d.l2_gas.is_none());
    assert!(d.l2_gas_price.is_none());
    assert!(d.l1_data_gas.is_none());
    assert!(d.l1_data_gas_price.is_none());
    assert!(d.tip.is_none());
    assert!(d.paymaster_data.is_empty());
    assert!(d.account_deployment_data.is_empty());
    assert_eq!(d.nonce_data_availability_mode, DataAvailabilityMode::L1);
    assert_eq!(d.fee_data_availability_mode, DataAvailabilityMode::L1);
    assert_eq!(d.compiled_class_hash, Felt::from(0xCAFE_u64));
}

#[test]
fn prepared_fails_until_every_field_is_set() {
    let account = test_account();
    let d = DeclarationV3::new(empty_class(), Felt::from(0xCAFE_u64), &account)
        .nonce(Felt::from(5_u64))
        .l1_gas(10)
        .l1_gas_price(20)
        .l2_gas(30)
        .l2_gas_price(40)
        .l1_data_gas(50)
        .l1_data_gas_price(60);
    assert_eq!(d.prepared().err(), Some(NotPreparedError));
}

#[test]
fn prepared_keeps_every_set_value() {
    let account = test_account();
    let prepared = DeclarationV3::new(empty_class(), Felt::from(0xCAFE_u64), &account)
        .nonce(Felt::from(5_u64))
        .l1_gas(10)
        .l1_gas_price(20)
        .l2_gas(30)
        .l2_gas_price(40)
        .l1_data_gas(50)
        .l1_data_gas_price(60)
        .tip(70)
        .nonce_data_availability_mode(DataAvailabilityMode::L2)
        .fee_data_availability_mode(DataAvailabilityMode::L1)
        .prepared()
        .unwrap();
    let raw = &prepared.inner;
    assert_eq!(raw.nonce(), Felt::from(5_u64));
    assert_eq!(raw.l1_gas(), 10);
    assert_eq!(raw.l1_gas_price(), 20);
    assert_eq!(raw.l2_gas(), 30);
    assert_eq!(raw.l2_gas_price(), 40);
    assert_eq!(raw.l1_data_gas(), 50);
    assert_eq!(raw.l1_data_gas_price(), 60);
    assert_eq!(raw.tip(), 70);
    assert_eq!(raw.compiled_class_hash(), Felt::from(0xCAFE_u64));
    assert_eq!(raw.contract_class().contract_class_version, "0.1.0");
    assert_eq!(raw.nonce_data_availability_mode, DataAvailabilityMode::L2);
    assert_eq!(raw.fee_data_availability_mode, DataAvailabilityMode::L1);
}

#[test]
fn prepared_hash_uses_account_chain_and_address() {
    let account = test_account();
    let prepared = DeclarationV3::new(empty_class(), Felt::from(0xCAFE_u64), &account)
        .nonce(Felt::from(5_u64))
        .l1_gas(10)
        .l1_gas_price(20)
        .l2_gas(30)
        .l2_gas_price(40)
        .l1_data_gas(50)
        .l1_data_gas_price(60)
        .tip(70)
        .prepared()
        .unwrap();
    // The same declaration and account as in the default-fields hash scenario.
    assert_eq!(
        prepared.transaction_hash(false),
        felt_from_hex("0x3fc6ec9be3b9f33acdb152ef83b92738065e8e66bbdf2c99e07d74dfc1679a5")
    );
    assert_eq!(
        prepared.transaction_hash(false),
        prepared
            .inner
            .transaction_hash(Felt::from(1_u64), Felt::from(0x1234_u64), false)
    );
}

#[test]
fn query_only_hash_differs_from_regular_hash() {
    let account = test_account();
    let prepared = DeclarationV3::new(empty_class(), Felt::from(0xCAFE_u64), &account)
        .nonce(Felt::from(5_u64))
        .l1_gas(10)
        .l1_gas_price(20)
        .l2_gas(30)
        .l2_gas_price(40)
        .l1_data_gas(50)
        .l1_data_gas_price(60)
        .tip(70)
        .prepared()
        .unwrap();
    assert_ne!(prepared.transaction_hash(true), prepared.transaction_hash(false));
}

#[test]
fn data_availability_modes_enter_the_hash() {
    let account = test_account();
    let build = |mode: DataAvailabilityMode| {
        DeclarationV3::new(empty_class(), Felt::from(0xCAFE_u64), &account)
            .nonce(Felt::from(5_u64))
            .l1_gas(10)
            .l1_gas_price(20)
            .l2_gas(30)
            .l2_gas_price(40)
            .l1_data_gas(50)
            .l1_data_gas_price(60)
            .tip(70)
            .nonce_data_availability_mode(mode)
            .prepared()
            .unwrap()
            .transaction_hash(false)
    };
    assert_ne!(build(DataAvailabilityMode::L1), build(DataAvailabilityMode::L2));
}

#[test]
fn fee_resolution_uses_set_fields() {
    let account = test_account();
    let d = DeclarationV3::new(empty_class(), Felt::from(1_u64), &account)
        .l1_gas(1)
        .l1_gas_price(2)
        .l2_gas(3)
        .l2_gas_price(4)
        .l1_data_gas(5)
        .l1_data_gas_price(6);
    assert_eq!(
        d.fee_resolution(),
        FeeResolution::Specified {
            l1_gas: 1,
            l1_gas_price: 2,
            l2_gas: 3,
            l2_gas_price: 4,
            l1_data_gas: 5,
            l1_data_gas_price: 6,
        }
    );
}

#[test]
fn fee_resolution_takes_block_prices_when_only_amounts_are_set() {
    let account = test_account();
    let d = DeclarationV3::new(empty_class(), Felt::from(1_u64), &account)
        .l1_gas(1)
        .l1_gas_price(2)
        .l2_gas(3)
        .l1_data_gas(5);
    let fees = d.fee_resolution();
    assert_eq!(
        fees,
        FeeResolution::BlockPrices {
            l1_gas: 1,
            l2_gas: 3,
            l1_data_gas: 5,
            with_transactions: true,
        }
    );
    assert_eq!(d.tip_resolution(&fees), TipResolution::MedianOfFetchedBlock);

    let d = d.tip(9);
    let fees = d.fee_resolution();
    assert_eq!(
        fees,
        FeeResolution::BlockPrices {
            l1_gas: 1,
            l2_gas: 3,
            l1_data_gas: 5,
            with_transactions: false,
        }
    );
    assert_eq!(d.tip_resolution(&fees), TipResolution::Specified(9));
}

#[test]
fn fee_resolution_estimates_when_an_amount_is_missing() {
    let account = test_account();
    let d = DeclarationV3::new(empty_class(), Felt::from(1_u64), &account)
        .l1_gas(1)
        .l1_gas_price(2)
        .l2_gas_price(4)
        .l1_data_gas(5)
        .l1_data_gas_price(6);
    let fees = d.fee_resolution();
    assert_eq!(fees, FeeResolution::Estimate);
    assert_eq!(d.tip_resolution(&fees), TipResolution::MedianOfNewBlock);
}

#[test]
fn gas_prices_out_of_range() {
    assert_eq!(block_gas_price_to_u64(&Felt::from(u64::MAX)), Ok(u64::MAX));
    let too_big = felt_from_hex("0x10000000000000000");
    assert_eq!(block_gas_price_to_u64(&too_big), Err(FeeOutOfRange));
    assert_eq!(estimated_gas_price_to_u64(42), Ok(42));
    assert_eq!(
        estimated_gas_price_to_u64(u64::MAX as u128 + 1),
        Err(FeeOutOfRange)
    );
}

#[test]
fn fee_estimation_declaration_zeroes_fee_fields() {
    let account = test_account();
    let d = DeclarationV3::new(empty_class(), Felt::from(1_u64), &account)
        .l1_gas(1)
        .l1_gas_price(2)
        .tip(3)
        .paymaster_data(vec![Felt::from(7_u64)]);
    let p = d.fee_estimation_declaration(Felt::from(9_u64));
    assert_eq!(p.inner.nonce, Felt::from(9_u64));
    assert_eq!(p.inner.l1_gas, 0);
    assert_eq!(p.inner.l1_gas_price, 0);
    assert_eq!(p.inner.tip, 0);
    assert_eq!(p.inner.paymaster_data, vec![Felt::from(7_u64)]);
}

#[test]
fn simulation_declaration_defaults_unset_fields_to_zero() {
    let account = test_account();
    let d = DeclarationV3::new(empty_class(), Felt::from(1_u64), &account)
        .l1_gas(1)
        .l2_gas_price(2)
        .tip(3);
    let p = d.simulation_declaration(Felt::from(9_u64));
    assert_eq!(p.inner.l1_gas, 1);
    assert_eq!(p.inner.l1_gas_price, 0);
    assert_eq!(p.inner.l2_gas, 0);
    assert_eq!(p.inner.l2_gas_price, 2);
    assert_eq!(p.inner.l1_data_gas, 0);
    assert_eq!(p.inner.l1_data_gas_price, 0);
    assert_eq!(p.inner.tip, 3);
}

#[test]
fn prepared_with_resolved_fees() {
    let account = test_account();
    let d = DeclarationV3::new(empty_class(), Felt::from(1_u64), &account).l1_gas(100);
    let p = d.prepared_with(
        Felt::from(4_u64),
        ResolvedFees {
            l1_gas: 11,
            l1_gas_price: 12,
            l2_gas: 13,
            l2_gas_price: 14,
            l1_data_gas: 15,
            l1_data_gas_price: 16,
        },
        17,
    );
    assert_eq!(p.inner.l1_gas, 11);
    assert_eq!(p.inner.l1_data_gas_price, 16);
    assert_eq!(p.inner.tip, 17);
    assert_eq!(p.inner.nonce, Felt::from(4_u64));
}

#[test]
fn simulation_and_estimation_flags() {
    assert_eq!(
        fee_estimation_flags(true),
        vec![SimulationFlagForEstimateFee::SkipValidate]
    );
    assert!(fee_estimation_flags(false).is_empty());
    assert!(simulation_skips_signature(true, true));
    assert!(!simulation_skips_signature(true, false));
    assert!(!simulation_skips_signature(false, true));
    assert_eq!(
        simulation_flags(true, true),
        vec![SimulationFlag::SkipValidate, SimulationFlag::SkipFeeCharge]
    );
    assert_eq!(simulation_flags(false, true), vec![SimulationFlag::SkipFeeCharge]);
    assert!(simulation_flags(false, false).is_empty());
}

#[test]
fn declare_request_mirrors_prepared_declaration() {
    let account = test_account();
    let prepared = DeclarationV3::new(empty_class(), Felt::from(0xCAFE_u64), &account)
        .nonce(Felt::from(5_u64))
        .l1_gas(10)
        .l1_gas_price(20)
        .l2_gas(30)
        .l2_gas_price(40)
        .l1_data_gas(50)
        .l1_data_gas_price(60)
        .tip(70)
        .prepared()
        .unwrap();
    let unsigned = prepared.get_declare_request(true, None);
    assert!(unsigned.signature.is_empty());
    assert!(unsigned.is_query);
    assert_eq!(unsigned.sender_address, Felt::from(0x1234_u64));
    assert_eq!(
        unsigned.resource_bounds.l1_data_gas,
        ResourceBounds {
            max_amount: 50,
            max_price_per_unit: 60,
        }
    );
    assert_eq!(unsigned.resource_bounds.l2_gas.max_amount, 30);
    assert_eq!(unsigned.tip, 70);
    let signed = prepared.get_declare_request(false, Some(vec![Felt::from(1_u64), Felt::from(2_u64)]));
    assert_eq!(signed.signature, vec![Felt::from(1_u64), Felt::from(2_u64)]);
    assert!(!signed.is_query);
}

#[test]
fn equal_values_give_equal_hashes() {
    let account = test_account();
    let d = DeclarationV3::new(empty_class(), Felt::from(0xCAFE_u64), &account)
        .paymaster_data(vec![Felt::from(0x111_u64)]);
    let copied = d.prepared_with(
        Felt::from(5_u64),
        ResolvedFees {
            l1_gas: 10,
            l1_gas_price: 20,
            l2_gas: 30,
            l2_gas_price: 40,
            l1_data_gas: 50,
            l1_data_gas_price: 60,
        },
        70,
    );
    let moved = d
        .nonce(Felt::from(5_u64))
        .l1_gas(10)
        .l1_gas_price(20)
        .l2_gas(30)
        .l2_gas_price(40)
        .l1_data_gas(50)
        .l1_data_gas_price(60)
        .tip(70)
        .prepared()
        .unwrap();
    assert_eq!(copied.transaction_hash(false), moved.transaction_hash(false));
    assert_eq!(copied.transaction_hash(true), moved.transaction_hash(true));
}

#[test]
fn resource_bounds_are_hashed_apart() {
    let account = test_account();
    let hash = |amount: u64, price: u128| {
        DeclarationV3::new(empty_class(), Felt::from(0xCAFE_u64), &account)
            .nonce(Felt::from(5_u64))
            .l1_gas(amount)
            .l1_gas_price(price)
            .l2_gas(30)
            .l2_gas_price(40)
            .l1_data_gas(50)
            .l1_data_gas_price(60)
            .tip(70)
            .prepared()
            .unwrap()
            .transaction_hash(false)
    };
    assert_ne!(hash(10, 20), hash(20, 10));
    assert_ne!(hash(1, 0), hash(0, 1 << 64));
    assert_eq!(hash(10, 20), hash(10, 20));
}
