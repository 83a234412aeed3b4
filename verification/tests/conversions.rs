use starknet_declaration::felt::Felt;
use starknet_declaration::legacy::{
    FunctionStateMutability, LegacyContractAbiEntry, LegacyEventAbiEntry, LegacyEventAbiType,
    LegacyFunctionAbiEntry, LegacyFunctionAbiType, LegacyStructAbiEntry, LegacyStructAbiType,
    LegacyStructMember, LegacyTypedParameter, RawLegacyAbiEntry, RawLegacyMember,
};
use starknet_declaration::transactions::{
    DeclareTransaction, DeclareTransactionContent, DeclareTransactionV0, DeployAccountTransaction,
    DeployAccountTransactionContent, DeployAccountTransactionV1, DeployTransaction,
    InvokeTransaction, InvokeTransactionContent, InvokeTransactionV1, L1HandlerTransaction,
    Transaction, TransactionContent,
};

fn param(name: &str, typ: &str) -> LegacyTypedParameter {
    LegacyTypedParameter {
        name: name.to_string(),
        typ: typ.to_string(),
    }
}

fn function_entry(typ: LegacyFunctionAbiType) -> LegacyContractAbiEntry {
    LegacyContractAbiEntry::Function(LegacyFunctionAbiEntry {
        typ,
        name: "f".to_string(),
        inputs: vec![param("a", "felt")],
        outputs: vec![param("b", "felt")],
        state_mutability: Some(FunctionStateMutability::View),
    })
}

#[test]
fn legacy_function_entries_convert_by_kind() {
    match RawLegacyAbiEntry::from(function_entry(LegacyFunctionAbiType::Function)) {
        RawLegacyAbiEntry::Function(f) => {
            assert_eq!(f.name, "f");
            assert_eq!(f.inputs, vec![param("a", "felt")]);
            assert_eq!(f.outputs, vec![param("b", "felt")]);
            assert_eq!(f.state_mutability, Some(FunctionStateMutability::View));
        }
        other => panic!("unexpected entry {:?}", other),
    }
    match RawLegacyAbiEntry::from(function_entry(LegacyFunctionAbiType::L1Handler)) {
        RawLegacyAbiEntry::L1Handler(f) => assert_eq!(f.inputs, vec![param("a", "felt")]),
        other => panic!("unexpected entry {:?}", other),
    }
    match RawLegacyAbiEntry::from(function_entry(LegacyFunctionAbiType::Constructor)) {
        RawLegacyAbiEntry::Constructor(f) => assert_eq!(f.outputs, vec![param("b", "felt")]),
        other => panic!("unexpected entry {:?}", other),
    }
}

#[test]
fn legacy_event_entry_keeps_keys_and_data() {
    let entry = LegacyContractAbiEntry::Event(LegacyEventAbiEntry {
        typ: LegacyEventAbiType::Event,
        name: "E".to_string(),
        keys: vec![param("k", "felt")],
        data: vec![param("d", "felt"), param("e", "felt")],
    });
    match RawLegacyAbiEntry::from(entry) {
        RawLegacyAbiEntry::Event(e) => {
            assert_eq!(e.name, "E");
            assert_eq!(e.keys, vec![param("k", "felt")]);
            assert_eq!(e.data, vec![param("d", "felt"), param("e", "felt")]);
        }
        other => panic!("unexpected entry {:?}", other),
    }
}

#[test]
fn legacy_struct_member_without_offset_gets_zero() {
    let entry = LegacyContractAbiEntry::Struct(LegacyStructAbiEntry {
        typ: LegacyStructAbiType::Struct,
        name: "S".to_string(),
        size: 3,
        members: vec![
            LegacyStructMember {
                name: "x".to_string(),
                typ: "felt".to_string(),
                offset: None,
            },
            LegacyStructMember {
                name: "y".to_string(),
                typ: "Uint256".to_string(),
                offset: Some(1),
            },
        ],
    });
    match RawLegacyAbiEntry::from(entry) {
        RawLegacyAbiEntry::Struct(s) => {
            assert_eq!(s.name, "S");
            assert_eq!(s.size, 3);
            assert_eq!(
                s.members,
                vec![
                    RawLegacyMember {
                        name: "x".to_string(),
                        offset: 0,
                        typ: "felt".to_string(),
                    },
                    RawLegacyMember {
                        name: "y".to_string(),
                        offset: 1,
                        typ: "Uint256".to_string(),
                    },
                ]
            );
        }
        other => panic!("unexpected entry {:?}", other),
    }
}

fn invoke_v1() -> InvokeTransactionV1 {
    InvokeTransactionV1 {
        transaction_hash: Felt::from(1_u64),
        sender_address: Felt::from(2_u64),
        calldata: vec![Felt::from(3_u64)],
        max_fee: Felt::from(4_u64),
        signature: vec![],
        nonce: Felt::from(5_u64),
    }
}

#[test]
fn transaction_content_keeps_type_version_and_fields() {
    assert_eq!(
        TransactionContent::from(Transaction::Invoke(InvokeTransaction::V1(invoke_v1()))),
        TransactionContent::Invoke(InvokeTransactionContent::V1(invoke_v1()))
    );
    let l1_handler = L1HandlerTransaction {
        transaction_hash: Felt::from(1_u64),
        version: Felt::from(0_u64),
        nonce: 7,
        contract_address: Felt::from(8_u64),
        entry_point_selector: Felt::from(9_u64),
        calldata: vec![],
    };
    assert_eq!(
        TransactionContent::from(Transaction::L1Handler(l1_handler.clone())),
        TransactionContent::L1Handler(l1_handler)
    );
    let deploy = DeployTransaction {
        transaction_hash: Felt::from(1_u64),
        version: Felt::from(0_u64),
        contract_address_salt: Felt::from(2_u64),
        constructor_calldata: vec![Felt::from(3_u64)],
        class_hash: Felt::from(4_u64),
    };
    assert_eq!(
        TransactionContent::from(Transaction::Deploy(deploy.clone())),
        TransactionContent::Deploy(deploy)
    );
}

#[test]
fn declare_and_deploy_account_contents() {
    let declare = DeclareTransactionV0 {
        transaction_hash: Felt::from(1_u64),
        sender_address: Felt::from(2_u64),
        max_fee: Felt::from(3_u64),
        signature: vec![Felt::from(4_u64)],
        class_hash: Felt::from(5_u64),
    };
    assert_eq!(
        DeclareTransactionContent::from(DeclareTransaction::V0(declare.clone())),
        DeclareTransactionContent::V0(declare.clone())
    );
    assert_eq!(
        TransactionContent::from(Transaction::Declare(DeclareTransaction::V0(declare.clone()))),
        TransactionContent::Declare(DeclareTransactionContent::V0(declare))
    );
    let deploy_account = DeployAccountTransactionV1 {
        transaction_hash: Felt::from(1_u64),
        max_fee: Felt::from(2_u64),
        signature: vec![],
        nonce: Felt::from(3_u64),
        contract_address_salt: Felt::from(4_u64),
        constructor_calldata: vec![],
        class_hash: Felt::from(5_u64),
    };
    assert_eq!(
        DeployAccountTransactionContent::from(DeployAccountTransaction::V1(deploy_account.clone())),
        DeployAccountTransactionContent::V1(deploy_account)
    );
}
