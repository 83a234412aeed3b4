use vstd::prelude::*;

use crate::conversions::{
    declare_content, deploy_account_content, invoke_content, is_raw_abi_entry, transaction_content,
};
use crate::crypto::{keccak256, poseidon_hash_many, starknet_keccak_value};
use crate::legacy::{
    LegacyContractAbiEntry, LegacyFunctionAbiType, RawLegacyAbiEntry,
};
use crate::transactions::{
    DeclareTransaction, DeclareTransactionContent, DeployAccountTransaction,
    DeployAccountTransactionContent, InvokeTransaction, InvokeTransactionContent,
    TransactionContent,
};
use crate::types::{entry_point_values, SierraEntryPoint};
use vstd::utf8::encode_utf8;
use crate::declaration::{
    da_modes_value, declare_v3_hash, declare_v3_hash_messages, query_version_three,
    or_zero_u128, or_zero_u64, resource_bound_value, DeclarationV3, FeeResolution,
    RawDeclarationV3, TipResolution,
};
use crate::felt::{be_value, felt_prime, Felt};
use crate::transactions::Transaction;
use crate::types::{sierra_class_hash, DataAvailabilityMode, FlattenedSierraClass};

verus! {

/// A declaration whose eight optional fields have all been set (by `nonce`, `l1_gas`,
/// `l1_gas_price`, `l2_gas`, `l2_gas_price`, `l1_data_gas`, `l1_data_gas_price` and `tip`) is
/// fully specified, and `prepared` turns it into the declaration with exactly those values.
pub proof fn law_fully_set_declaration_prepares<'a, A>(
    d: DeclarationV3<'a, A>,
    nonce: Felt,
    l1_gas: u64,
    l1_gas_price: u128,
    l2_gas: u64,
    l2_gas_price: u128,
    l1_data_gas: u64,
    l1_data_gas_price: u128,
    tip: u64,
)
    ensures
        ({
            let set = DeclarationV3 {
                tip: Some(tip),
                ..DeclarationV3 {
                    l1_data_gas_price: Some(l1_data_gas_price),
                    ..DeclarationV3 {
                        l1_data_gas: Some(l1_data_gas),
                        ..DeclarationV3 {
                            l2_gas_price: Some(l2_gas_price),
                            ..DeclarationV3 {
                                l2_gas: Some(l2_gas),
                                ..DeclarationV3 {
                                    l1_gas_price: Some(l1_gas_price),
                                    ..DeclarationV3 {
                                        l1_gas: Some(l1_gas),
                                        ..DeclarationV3 { nonce: Some(nonce), ..d }
                                    }
                                }
                            }
                        }
                    }
                }
            };
            &&& set.is_fully_specified()
            &&& set.specified_raw() == d.raw_with(
                nonce,
                l1_gas,
                l1_gas_price,
                l2_gas,
                l2_gas_price,
                l1_data_gas,
                l1_data_gas_price,
                tip,
            )
        }),
{
}

/// The transaction hash is a function of the declaration's values: two declarations with the
/// same fields (lists compared by contents) hash alike.
pub proof fn law_same_fields_same_hash(
    a: RawDeclarationV3,
    b: RawDeclarationV3,
    chain_id: nat,
    address: nat,
    query_only: bool,
)
    requires
        a.same_fields(b),
    ensures
        declare_v3_hash(a, chain_id, address, query_only) == declare_v3_hash(
            b,
            chain_id,
            address,
            query_only,
        ),
{
    assert(declare_v3_hash_messages(a, chain_id, address, query_only) =~= declare_v3_hash_messages(
        b,
        chain_id,
        address,
        query_only,
    ));
}

/// A query-only hash hashes the same messages as the regular one, but for the version, which
/// is `2^128 + 3` in place of `3`.
pub proof fn law_query_hash_differs_only_in_version(
    raw: RawDeclarationV3,
    chain_id: nat,
    address: nat,
)
    ensures
        declare_v3_hash_messages(raw, chain_id, address, true) == declare_v3_hash_messages(
            raw,
            chain_id,
            address,
            false,
        ).update(1, query_version_three()),
        declare_v3_hash_messages(raw, chain_id, address, false)[1] == 3,
{
    assert(declare_v3_hash_messages(raw, chain_id, address, true) =~= declare_v3_hash_messages(
        raw,
        chain_id,
        address,
        false,
    ).update(1, query_version_three()));
}

/// The class hash depends on the program, the entry points and the ABI only: the class version
/// string does not enter it.
pub proof fn law_class_hash_ignores_version(a: FlattenedSierraClass, b: FlattenedSierraClass)
    requires
        a.sierra_program@ == b.sierra_program@,
        a.entry_points_by_type.external@ == b.entry_points_by_type.external@,
        a.entry_points_by_type.l1_handler@ == b.entry_points_by_type.l1_handler@,
        a.entry_points_by_type.constructor@ == b.entry_points_by_type.constructor@,
        a.abi@ == b.abi@,
    ensures
        sierra_class_hash(a) == sierra_class_hash(b),
{
}

/// A resource bound is a field element below the prime, and it determines the maximum amount
/// and the maximum price that it was made of.
pub proof fn law_resource_bound_encoding(
    name: nat,
    amount1: u64,
    price1: u128,
    amount2: u64,
    price2: u128,
)
    requires
        name < 0x100_0000_0000_0000,
    ensures
        resource_bound_value(name, amount1, price1) < felt_prime(),
        resource_bound_value(name, amount1, price1) == resource_bound_value(name, amount2, price2)
            ==> amount1 == amount2 && price1 == price2,
{
    let shift = 0x1_0000_0000_0000_0000_0000_0000_0000_0000int;
    if resource_bound_value(name, amount1, price1) == resource_bound_value(name, amount2, price2) {
        assert(amount1 as int * shift + price1 as int == amount2 as int * shift + price2 as int);
        assert(amount1 == amount2) by (nonlinear_arith)
            requires
                amount1 as int * shift + price1 as int == amount2 as int * shift + price2 as int,
                0 <= price1 < shift,
                0 <= price2 < shift,
                shift > 0,
        ;
    }
}

/// The number of the data availability modes determines both modes.
pub proof fn law_da_modes_encoding(
    nonce1: DataAvailabilityMode,
    fee1: DataAvailabilityMode,
    nonce2: DataAvailabilityMode,
    fee2: DataAvailabilityMode,
)
    ensures
        da_modes_value(nonce1, fee1) == da_modes_value(nonce2, fee2) ==> nonce1 == nonce2 && fee1
            == fee2,
{
}

/// Gas amounts set by the user are never estimated: when all three are set, the fee resolution
/// uses them; the prices set by the user are used only when all six fee fields are set.
pub proof fn law_fee_resolution_keeps_set_amounts<'a, A>(d: DeclarationV3<'a, A>)
    ensures
        d.l1_gas is Some && d.l2_gas is Some && d.l1_data_gas is Some ==> match d.spec_fee_resolution() {
            FeeResolution::Specified { l1_gas, l2_gas, l1_data_gas, .. } => l1_gas == d.l1_gas->0
                && l2_gas == d.l2_gas->0 && l1_data_gas == d.l1_data_gas->0,
            FeeResolution::BlockPrices { l1_gas, l2_gas, l1_data_gas, .. } => l1_gas
                == d.l1_gas->0 && l2_gas == d.l2_gas->0 && l1_data_gas == d.l1_data_gas->0,
            FeeResolution::Estimate => false,
        },
        d.spec_fee_resolution() is Specified <==> (d.l1_gas is Some && d.l1_gas_price is Some
            && d.l2_gas is Some && d.l2_gas_price is Some && d.l1_data_gas is Some
            && d.l1_data_gas_price is Some),
{
}

/// Converting a transaction to its content loses nothing: distinct transactions have distinct
/// contents.
pub proof fn law_transaction_content_injective(a: Transaction, b: Transaction)
    ensures
        transaction_content(a) == transaction_content(b) ==> a == b,
{
}


/// The messages of a V3 declaration hash, one by one: the prefix `declare`; the version (3, or
/// `2^128 + 3` for queries); the sender address; the hash of the tip and the three resource
/// bounds (`\0\0L1_GAS`, `\0\0L2_GAS`, `\0L1_DATA` in the top 64 bits, then the amount, then the
/// price); the hash of the paymaster data; the chain id; the nonce; the nonce mode times `2^32`
/// plus the fee mode (L1 is 0, L2 is 1); the hash of the account deployment data; the class
/// hash; the compiled class hash. The transaction hash is the Poseidon hash of these.
pub proof fn law_declare_v3_hash_messages(
    raw: RawDeclarationV3,
    chain_id: nat,
    address: nat,
    query_only: bool,
)
    ensures
        ({
            let m = declare_v3_hash_messages(raw, chain_id, address, query_only);
            let w192 = 0x1_0000_0000_0000_0000_0000_0000_0000_0000_0000_0000_0000_0000nat;
            let w128 = 0x1_0000_0000_0000_0000_0000_0000_0000_0000nat;
            &&& m.len() == 11
            &&& m[0] == 0x6465636c617265nat
            &&& m[1] == (if query_only {
                0x1_0000_0000_0000_0000_0000_0000_0000_0003nat
            } else {
                3nat
            })
            &&& m[2] == address
            &&& m[3] == poseidon_hash_many(
                seq![
                    raw.tip as nat,
                    0x4c315f474153nat * w192 + raw.l1_gas as nat * w128 + raw.l1_gas_price as nat,
                    0x4c325f474153nat * w192 + raw.l2_gas as nat * w128 + raw.l2_gas_price as nat,
                    0x4c315f44415441nat * w192 + raw.l1_data_gas as nat * w128
                        + raw.l1_data_gas_price as nat,
                ],
            )
            &&& m[4] == poseidon_hash_many(
                Seq::new(raw.paymaster_data@.len(), |i: int| raw.paymaster_data@[i]@),
            )
            &&& m[5] == chain_id
            &&& m[6] == raw.nonce@
            &&& m[7] == (if raw.nonce_data_availability_mode == DataAvailabilityMode::L2 {
                0x1_0000_0000nat
            } else {
                0nat
            }) + (if raw.fee_data_availability_mode == DataAvailabilityMode::L2 {
                1nat
            } else {
                0nat
            })
            &&& m[8] == poseidon_hash_many(
                Seq::new(
                    raw.account_deployment_data@.len(),
                    |i: int| raw.account_deployment_data@[i]@,
                ),
            )
            &&& m[9] == sierra_class_hash(*raw.contract_class)
            &&& m[10] == raw.compiled_class_hash@
            &&& declare_v3_hash(raw, chain_id, address, query_only) == poseidon_hash_many(m)
        }),
{
    let m = declare_v3_hash_messages(raw, chain_id, address, query_only);
    assert(m[4] == poseidon_hash_many(
        Seq::new(raw.paymaster_data@.len(), |i: int| raw.paymaster_data@[i]@),
    )) by {
        assert(crate::crypto::felt_values(raw.paymaster_data@) =~= Seq::new(
            raw.paymaster_data@.len(),
            |i: int| raw.paymaster_data@[i]@,
        ));
    }
    assert(m[8] == poseidon_hash_many(
        Seq::new(raw.account_deployment_data@.len(), |i: int| raw.account_deployment_data@[i]@),
    )) by {
        assert(crate::crypto::felt_values(raw.account_deployment_data@) =~= Seq::new(
            raw.account_deployment_data@.len(),
            |i: int| raw.account_deployment_data@[i]@,
        ));
    }
}

/// The numbers a list of entry points contributes to its hash: twice as many as entry points,
/// the selector of the `i`-th at `2i` and its function index at `2i + 1`.
pub proof fn law_entry_point_values(entry_points: Seq<SierraEntryPoint>)
    ensures
        entry_point_values(entry_points).len() == 2 * entry_points.len(),
        forall|i: int|
            0 <= i < entry_points.len() ==> {
                &&& #[trigger] entry_point_values(entry_points)[2 * i] == entry_points[i].selector@
                &&& entry_point_values(entry_points)[2 * i + 1]
                    == entry_points[i].function_idx as nat
            },
    decreases entry_points.len(),
{
    if entry_points.len() > 0 {
        let rest = entry_points.drop_last();
        law_entry_point_values(rest);
        assert forall|i: int| 0 <= i < entry_points.len() implies {
            &&& #[trigger] entry_point_values(entry_points)[2 * i] == entry_points[i].selector@
            &&& entry_point_values(entry_points)[2 * i + 1] == entry_points[i].function_idx as nat
        } by {
            if i < rest.len() {
                assert(entry_point_values(rest)[2 * i] == rest[i].selector@);
            }
        }
    }
}

/// The class hash, message by message: the prefix `CONTRACT_CLASS_V0.1.0`; the hash of the
/// external entry points; that of the L1 handlers; that of the constructors; Keccak-256 of the
/// UTF-8 ABI with its six top bits removed; the hash of the program; the Poseidon hash of these
/// reduced below `2^251 - 256`.
pub proof fn law_sierra_class_hash_messages(class: FlattenedSierraClass)
    ensures
        sierra_class_hash(class) == poseidon_hash_many(
            seq![
                0x434f4e54524143545f434c4153535f56302e312e30nat,
                poseidon_hash_many(entry_point_values(class.entry_points_by_type.external@)),
                poseidon_hash_many(entry_point_values(class.entry_points_by_type.l1_handler@)),
                poseidon_hash_many(entry_point_values(class.entry_points_by_type.constructor@)),
                be_value(keccak256(encode_utf8(class.abi@)))
                    % 0x400000000000000000000000000000000000000000000000000000000000000nat,
                poseidon_hash_many(
                    Seq::new(class.sierra_program@.len(), |i: int| class.sierra_program@[i]@),
                ),
            ],
        ) % 0x7ffffffffffffffffffffffffffffffffffffffffffffffffffffffffffff00nat,
{
    assert(crate::crypto::felt_values(class.sierra_program@) =~= Seq::new(
        class.sierra_program@.len(),
        |i: int| class.sierra_program@[i]@,
    ));
}

/// How the fee fields are resolved, by which fields are set: all six given are used as they
/// are; when every gas amount is set but some price is not, the block prices are fetched, with
/// the block's transactions exactly when the tip is unset; when any gas amount is unset, the fee
/// is estimated.
pub proof fn law_fee_resolution_cases<'a, A>(d: DeclarationV3<'a, A>)
    ensures
        d.l1_gas is None || d.l2_gas is None || d.l1_data_gas is None
            ==> d.spec_fee_resolution() == FeeResolution::Estimate,
        d.l1_gas is Some && d.l2_gas is Some && d.l1_data_gas is Some && (d.l1_gas_price is None
            || d.l2_gas_price is None || d.l1_data_gas_price is None)
            ==> d.spec_fee_resolution() == (FeeResolution::BlockPrices {
                l1_gas: d.l1_gas->0,
                l2_gas: d.l2_gas->0,
                l1_data_gas: d.l1_data_gas->0,
                with_transactions: d.tip is None,
            }),
        d.l1_gas is Some && d.l2_gas is Some && d.l1_data_gas is Some && d.l1_gas_price is Some
            && d.l2_gas_price is Some && d.l1_data_gas_price is Some
            ==> d.spec_fee_resolution() == (FeeResolution::Specified {
                l1_gas: d.l1_gas->0,
                l1_gas_price: d.l1_gas_price->0,
                l2_gas: d.l2_gas->0,
                l2_gas_price: d.l2_gas_price->0,
                l1_data_gas: d.l1_data_gas->0,
                l1_data_gas_price: d.l1_data_gas_price->0,
            }),
{
}

/// A compiled ABI entry keeps everything of the entry it comes from: a function entry becomes a
/// function, an L1 handler or a constructor by its kind, with the same name, inputs and outputs,
/// and a function keeps its state mutability; an event keeps its name, keys and data; a struct
/// keeps its name and size, and its members one by one with their names and types, a missing
/// offset becoming 0.
pub proof fn law_raw_abi_entry_keeps_fields(entry: LegacyContractAbiEntry, raw: RawLegacyAbiEntry)
    requires
        is_raw_abi_entry(entry, raw),
    ensures
        entry matches LegacyContractAbiEntry::Function(inner) ==> match inner.typ {
            LegacyFunctionAbiType::Function => raw matches RawLegacyAbiEntry::Function(f) && f.name
                == inner.name && f.inputs == inner.inputs && f.outputs == inner.outputs
                && f.state_mutability == inner.state_mutability,
            LegacyFunctionAbiType::L1Handler => raw matches RawLegacyAbiEntry::L1Handler(f)
                && f.name == inner.name && f.inputs == inner.inputs && f.outputs == inner.outputs,
            LegacyFunctionAbiType::Constructor => raw matches RawLegacyAbiEntry::Constructor(f)
                && f.name == inner.name && f.inputs == inner.inputs && f.outputs == inner.outputs,
        },
        entry matches LegacyContractAbiEntry::Event(inner) ==> raw matches RawLegacyAbiEntry::Event(
            e,
        ) && e.name == inner.name && e.keys == inner.keys && e.data == inner.data,
        entry matches LegacyContractAbiEntry::Struct(inner) ==> raw matches RawLegacyAbiEntry::Struct(
            s,
        ) && s.name == inner.name && s.size == inner.size && s.members@.len()
            == inner.members@.len() && forall|i: int|
            0 <= i < inner.members@.len() ==> {
                &&& (#[trigger] s.members@[i]).name == inner.members@[i].name
                &&& s.members@[i].typ == inner.members@[i].typ
                &&& s.members@[i].offset == match inner.members@[i].offset {
                    Some(offset) => offset,
                    None => 0,
                }
            },
{
    if let LegacyContractAbiEntry::Struct(inner) = entry {
        if let RawLegacyAbiEntry::Struct(s) = raw {
            assert forall|i: int| 0 <= i < inner.members@.len() implies {
                &&& (#[trigger] s.members@[i]).name == inner.members@[i].name
                &&& s.members@[i].typ == inner.members@[i].typ
                &&& s.members@[i].offset == match inner.members@[i].offset {
                    Some(offset) => offset,
                    None => 0,
                }
            } by {
                assert(s.members@[i] == crate::conversions::raw_member(inner.members@[i]));
            }
        }
    }
}

/// The content of an invoke transaction is the very same transaction, under the same version.
pub proof fn law_invoke_content_is_identity(t: InvokeTransaction)
    ensures
        match t {
            InvokeTransaction::V0(x) => invoke_content(t) == InvokeTransactionContent::V0(x),
            InvokeTransaction::V1(x) => invoke_content(t) == InvokeTransactionContent::V1(x),
            InvokeTransaction::V3(x) => invoke_content(t) == InvokeTransactionContent::V3(x),
        },
{
}

/// The content of a declare transaction is the very same transaction, under the same version.
pub proof fn law_declare_content_is_identity(t: DeclareTransaction)
    ensures
        match t {
            DeclareTransaction::V0(x) => declare_content(t) == DeclareTransactionContent::V0(x),
            DeclareTransaction::V1(x) => declare_content(t) == DeclareTransactionContent::V1(x),
            DeclareTransaction::V2(x) => declare_content(t) == DeclareTransactionContent::V2(x),
            DeclareTransaction::V3(x) => declare_content(t) == DeclareTransactionContent::V3(x),
        },
{
}

/// The content of a deploy-account transaction is the very same transaction, under the same
/// version.
pub proof fn law_deploy_account_content_is_identity(t: DeployAccountTransaction)
    ensures
        match t {
            DeployAccountTransaction::V1(x) => deploy_account_content(t)
                == DeployAccountTransactionContent::V1(x),
            DeployAccountTransaction::V3(x) => deploy_account_content(t)
                == DeployAccountTransactionContent::V3(x),
        },
{
}

/// The content of a transaction is the very same transaction, under the same type and version.
pub proof fn law_transaction_content_is_identity(t: Transaction)
    ensures
        match t {
            Transaction::Invoke(InvokeTransaction::V0(x)) => transaction_content(t)
                == TransactionContent::Invoke(InvokeTransactionContent::V0(x)),
            Transaction::Invoke(InvokeTransaction::V1(x)) => transaction_content(t)
                == TransactionContent::Invoke(InvokeTransactionContent::V1(x)),
            Transaction::Invoke(InvokeTransaction::V3(x)) => transaction_content(t)
                == TransactionContent::Invoke(InvokeTransactionContent::V3(x)),
            Transaction::L1Handler(x) => transaction_content(t) == TransactionContent::L1Handler(x),
            Transaction::Declare(DeclareTransaction::V0(x)) => transaction_content(t)
                == TransactionContent::Declare(DeclareTransactionContent::V0(x)),
            Transaction::Declare(DeclareTransaction::V1(x)) => transaction_content(t)
                == TransactionContent::Declare(DeclareTransactionContent::V1(x)),
            Transaction::Declare(DeclareTransaction::V2(x)) => transaction_content(t)
                == TransactionContent::Declare(DeclareTransactionContent::V2(x)),
            Transaction::Declare(DeclareTransaction::V3(x)) => transaction_content(t)
                == TransactionContent::Declare(DeclareTransactionContent::V3(x)),
            Transaction::Deploy(x) => transaction_content(t) == TransactionContent::Deploy(x),
            Transaction::DeployAccount(DeployAccountTransaction::V1(x)) => transaction_content(t)
                == TransactionContent::DeployAccount(DeployAccountTransactionContent::V1(x)),
            Transaction::DeployAccount(DeployAccountTransaction::V3(x)) => transaction_content(t)
                == TransactionContent::DeployAccount(DeployAccountTransactionContent::V3(x)),
        },
{
}


/// A declaration is fully specified exactly when its nonce, its six fee fields and its tip are
/// all set.
pub proof fn law_fully_specified_iff_all_set<'a, A>(d: DeclarationV3<'a, A>)
    ensures
        d.is_fully_specified() <==> (d.nonce is Some && d.l1_gas is Some && d.l1_gas_price is Some
            && d.l2_gas is Some && d.l2_gas_price is Some && d.l1_data_gas is Some
            && d.l1_data_gas_price is Some && d.tip is Some),
{
}

/// The fixed declaration made of a builder and values holds each value in its own field, and
/// the builder's class, compiled class hash, lists and modes.
pub proof fn law_raw_with_fields<'a, A>(
    d: DeclarationV3<'a, A>,
    nonce: Felt,
    l1_gas: u64,
    l1_gas_price: u128,
    l2_gas: u64,
    l2_gas_price: u128,
    l1_data_gas: u64,
    l1_data_gas_price: u128,
    tip: u64,
)
    ensures
        ({
            let r = d.raw_with(
                nonce,
                l1_gas,
                l1_gas_price,
                l2_gas,
                l2_gas_price,
                l1_data_gas,
                l1_data_gas_price,
                tip,
            );
            &&& r.contract_class == d.contract_class
            &&& r.compiled_class_hash == d.compiled_class_hash
            &&& r.nonce == nonce
            &&& r.l1_gas == l1_gas
            &&& r.l1_gas_price == l1_gas_price
            &&& r.l2_gas == l2_gas
            &&& r.l2_gas_price == l2_gas_price
            &&& r.l1_data_gas == l1_data_gas
            &&& r.l1_data_gas_price == l1_data_gas_price
            &&& r.tip == tip
            &&& r.paymaster_data == d.paymaster_data
            &&& r.account_deployment_data == d.account_deployment_data
            &&& r.nonce_data_availability_mode == d.nonce_data_availability_mode
            &&& r.fee_data_availability_mode == d.fee_data_availability_mode
        }),
{
}

/// An unset fee field or tip counts as 0 in fee estimation and simulation; a set one keeps its
/// value.
pub proof fn law_unset_fields_count_as_zero(amount: Option<u64>, price: Option<u128>)
    ensures
        amount is None ==> or_zero_u64(amount) == 0,
        amount matches Some(v) ==> or_zero_u64(amount) == v,
        price is None ==> or_zero_u128(price) == 0,
        price matches Some(v) ==> or_zero_u128(price) == v,
{
}

/// The tip of a declaration being prepared: the set tip when there is one; otherwise the median
/// tip of the block that the fee resolution fetched with its transactions, which happens exactly
/// when every gas amount is set and some price is not; otherwise that of a newly fetched block.
pub proof fn law_tip_resolution_cases<'a, A>(d: DeclarationV3<'a, A>)
    ensures
        d.tip matches Some(t) ==> d.spec_tip_resolution(d.spec_fee_resolution())
            == TipResolution::Specified(t),
        d.tip is None ==> (d.spec_tip_resolution(d.spec_fee_resolution())
            == TipResolution::MedianOfFetchedBlock <==> (d.l1_gas is Some && d.l2_gas is Some
            && d.l1_data_gas is Some && (d.l1_gas_price is None || d.l2_gas_price is None
            || d.l1_data_gas_price is None))),
        d.tip is None ==> (d.spec_tip_resolution(d.spec_fee_resolution())
            == TipResolution::MedianOfFetchedBlock || d.spec_tip_resolution(
            d.spec_fee_resolution(),
        ) == TipResolution::MedianOfNewBlock),
{
}

/// Starknet Keccak is Keccak-256 read as a big-endian number, reduced below `2^250` (its six top
/// bits removed).
pub proof fn law_starknet_keccak_value(data: Seq<u8>)
    ensures
        starknet_keccak_value(data) == be_value(keccak256(data))
            % 0x400000000000000000000000000000000000000000000000000000000000000nat,
{
}

} // verus!
