use std::sync::Arc;

use starknet_declaration::declaration::RawDeclarationV3;
use starknet_declaration::felt::Felt;
use starknet_declaration::types::{DataAvailabilityMode, EntryPointsByType, FlattenedSierraClass};

fn felt_from_hex(hex: &str) -> Felt {
    Felt::from_bytes_be(&starknet_types_core::felt::Felt::from_hex_unchecked(hex).to_bytes_be())
}

fn mk_raw(
    paymaster_data: Vec<Felt>,
    account_deployment_data: Vec<Felt>,
    nonce_mode: DataAvailabilityMode,
    fee_mode: DataAvailabilityMode,
) -> RawDeclarationV3 {
    let contract_class = Arc::new(FlattenedSierraClass {
        sierra_program: vec![],
        contract_class_version: "0.1.0".to_string(),
        entry_points_by_type: EntryPointsByType {
            constructor: vec![],
            external: vec![],
            l1_handler: vec![],
        },
        abi: String::new(),
    });
    let compiled_class_hash = Felt::from(0xCAFE_u64);

    RawDeclarationV3 {
        contract_class,
        compiled_class_hash,
        nonce: Felt::from(5_u64),
        l1_gas: 10,
        l1_gas_price: 20,
        l2_gas: 30,
        l2_gas_price: 40,
        l1_data_gas: 50,
        l1_data_gas_price: 60,
        tip: 70,
        paymaster_data,
        account_deployment_data,
        nonce_data_availability_mode: nonce_mode,
        fee_data_availability_mode: fee_mode,
    }
}

#[test]
fn declare_v3_hash_default_v3_fields() {
    let raw = mk_raw(
        vec![],
        vec![],
        DataAvailabilityMode::L1,
        DataAvailabilityMode::L1,
    );

    let tx_hash = raw.transaction_hash(Felt::from(1_u64), Felt::from(0x1234_u64), false);

    assert_eq!(
        tx_hash,
        felt_from_hex("0x3fc6ec9be3b9f33acdb152ef83b92738065e8e66bbdf2c99e07d74dfc1679a5")
    );
}

#[test]
fn declare_v3_hash_non_empty_paymaster_and_deployment_data() {
    let raw = mk_raw(
        vec![Felt::from(0x111_u64), Felt::from(0x222_u64)],
        vec![Felt::from(0x333_u64)],
        DataAvailabilityMode::L1,
        DataAvailabilityMode::L1,
    );

    let tx_hash = raw.transaction_hash(Felt::from(1_u64), Felt::from(0x1234_u64), false);

    assert_eq!(
        tx_hash,
        felt_from_hex("0x596ae7acdc2c3348b822c9fec994cb09ff2bbca22e5c9b2d99b4b822261e904")
    );
}
