use vstd::prelude::*;
use vstd::utf8::encode_utf8;

use crate::crypto::{
    felt_values, poseidon_hash_felts, poseidon_hash_many, starknet_keccak, starknet_keccak_value,
};
use crate::felt::Felt;

verus! {

/// Where a piece of data of a V3 transaction is made available.
#[derive(Clone, Copy, Debug, PartialEq, Eq, Structural)]
pub enum DataAvailabilityMode {
    L1,
    L2,
}

/// The most a transaction may spend of one resource.
#[derive(Clone, Copy, Debug, PartialEq, Eq, Structural)]
pub struct ResourceBounds {
    /// The maximum amount of the resource allowed to be used by the transaction.
    pub max_amount: u64,
    /// The max price per unit of this resource for this transaction.
    pub max_price_per_unit: u128,
}

/// The resource bounds of a V3 transaction, one for each resource.
#[derive(Clone, Copy, Debug, PartialEq, Eq, Structural)]
pub struct ResourceBoundsMapping {
    pub l1_gas: ResourceBounds,
    pub l1_data_gas: ResourceBounds,
    pub l2_gas: ResourceBounds,
}

/// An entry point of a Sierra class.
#[derive(Clone, Copy, Debug, PartialEq, Eq)]
pub struct SierraEntryPoint {
    /// A unique identifier of the entry point (function) in the program.
    pub selector: Felt,
    /// The index of the function in the program.
    pub function_idx: u64,
}

/// The entry points of a Sierra class, by kind.
#[derive(Clone, Debug, PartialEq, Eq)]
pub struct EntryPointsByType {
    pub constructor: Vec<SierraEntryPoint>,
    pub external: Vec<SierraEntryPoint>,
    pub l1_handler: Vec<SierraEntryPoint>,
}

/// A Sierra (Cairo 1) contract class, with its ABI as one string.
#[derive(Clone, Debug, PartialEq, Eq)]
pub struct FlattenedSierraClass {
    /// The list of Sierra instructions of which the program consists.
    pub sierra_program: Vec<Felt>,
    /// The version of the contract class object.
    pub contract_class_version: String,
    /// Entry points by type.
    pub entry_points_by_type: EntryPointsByType,
    /// The class ABI, as supplied by the user declaring the class.
    pub abi: String,
}

/// Flags that change how a transaction is simulated.
#[derive(Clone, Copy, Debug, PartialEq, Eq, Structural)]
pub enum SimulationFlag {
    SkipValidate,
    SkipFeeCharge,
}

/// Flags that change how the fee of a transaction is estimated.
#[derive(Clone, Copy, Debug, PartialEq, Eq, Structural)]
pub enum SimulationFlagForEstimateFee {
    SkipValidate,
}

/// A V3 declaration as broadcast to the network.
#[derive(Clone, Debug)]
pub struct BroadcastedDeclareTransactionV3 {
    /// The address of the account contract sending the declaration transaction.
    pub sender_address: Felt,
    /// The hash of the Cairo assembly resulting from the Sierra compilation.
    pub compiled_class_hash: Felt,
    /// The signature of the transaction; empty when signing was skipped.
    pub signature: Vec<Felt>,
    /// The nonce of the transaction.
    pub nonce: Felt,
    /// The class to be declared.
    pub contract_class: std::sync::Arc<FlattenedSierraClass>,
    /// The resource bounds of the transaction.
    pub resource_bounds: ResourceBoundsMapping,
    /// The tip for the transaction.
    pub tip: u64,
    /// Data needed to allow the paymaster to pay for the transaction in native tokens.
    pub paymaster_data: Vec<Felt>,
    /// Data needed to deploy the account contract from which this transaction will be initiated.
    pub account_deployment_data: Vec<Felt>,
    /// The storage domain of the account's nonce.
    pub nonce_data_availability_mode: DataAvailabilityMode,
    /// The storage domain of the account's balance from which the fee will be charged.
    pub fee_data_availability_mode: DataAvailabilityMode,
    /// Whether the transaction is only meant for queries (fee estimation or simulation).
    pub is_query: bool,
}

/// The numbers that a list of entry points contributes to its hash: each selector followed by
/// the function index.
pub open spec fn entry_point_values(entry_points: Seq<SierraEntryPoint>) -> Seq<nat>
    decreases entry_points.len(),
{
    if entry_points.len() == 0 {
        Seq::empty()
    } else {
        entry_point_values(entry_points.drop_last()) + seq![
            entry_points.last().selector@,
            entry_points.last().function_idx as nat,
        ]
    }
}

/// The Cairo short string `CONTRACT_CLASS_V0.1.0`.
pub open spec fn prefix_contract_class_v0_1_0() -> nat {
    0x434f4e54524143545f434c4153535f56302e312e30nat
}

/// `2^251 - 256`: class hashes and addresses are kept below this bound.
pub open spec fn addr_bound() -> nat {
    0x7ffffffffffffffffffffffffffffffffffffffffffffffffffffffffffff00nat
}

/// The class hash of a Sierra class: the Poseidon hash of the class prefix, the hashes of the
/// external, L1-handler and constructor entry points, the Starknet Keccak of the ABI and the
/// hash of the program, reduced below `2^251 - 256`.
pub open spec fn sierra_class_hash(class: FlattenedSierraClass) -> nat {
    poseidon_hash_many(
        seq![
            prefix_contract_class_v0_1_0(),
            poseidon_hash_many(entry_point_values(class.entry_points_by_type.external@)),
            poseidon_hash_many(entry_point_values(class.entry_points_by_type.l1_handler@)),
            poseidon_hash_many(entry_point_values(class.entry_points_by_type.constructor@)),
            starknet_keccak_value(encode_utf8(class.abi@)),
            poseidon_hash_many(felt_values(class.sierra_program@)),
        ],
    ) % addr_bound()
}

/// The hash of a list of Sierra entry points.
fn hash_sierra_entrypoints(entry_points: &Vec<SierraEntryPoint>) -> (r: Felt)
    ensures
        r@ == poseidon_hash_many(entry_point_values(entry_points@)),
{
    let mut messages: Vec<Felt> = Vec::new();
    let n = entry_points.len();
    for i in 0..n
        invariant
            n == entry_points@.len(),
            felt_values(messages@) == entry_point_values(entry_points@.take(i as int)),
    {
        let entry = &entry_points[i];
        messages.push(entry.selector);
        messages.push(Felt::from(entry.function_idx));
        assert(entry_points@.take(i + 1).drop_last() =~= entry_points@.take(i as int));
        assert(felt_values(messages@) =~= entry_point_values(entry_points@.take(i + 1)));
    }
    assert(entry_points@.take(n as int) =~= entry_points@);
    poseidon_hash_felts(&messages)
}

/// Reduces a field element below `2^251 - 256`.
pub fn normalize_address(address: Felt) -> (r: Felt)
    ensures
        r@ == address@ % addr_bound(),
{
    let bound = Felt::from_limbs(
        [0xffff_ffff_ffff_ff00u64, 0xffff_ffff_ffff_ffffu64, 0xffff_ffff_ffff_ffffu64, 0x07ff_ffff_ffff_ffffu64],
    );
    address.mod_floor(&bound)
}

impl FlattenedSierraClass {
    /// Computes the class hash of the flattened Sierra (Cairo 1) class.
    pub fn class_hash(&self) -> (r: Felt)
        ensures
            r@ == sierra_class_hash(*self),
    {
        let prefix = Felt::from_limbs(
            [0x535f56302e312e30u64, 0x4143545f434c4153u64, 0x434f4e5452u64, 0u64],
        );
        let external = hash_sierra_entrypoints(&self.entry_points_by_type.external);
        let l1_handler = hash_sierra_entrypoints(&self.entry_points_by_type.l1_handler);
        let constructor = hash_sierra_entrypoints(&self.entry_points_by_type.constructor);
        let abi_hash = starknet_keccak(self.abi.as_str().as_bytes());
        let program_hash = poseidon_hash_felts(&self.sierra_program);
        let messages = vec![prefix, external, l1_handler, constructor, abi_hash, program_hash];
        assert(felt_values(messages@) =~= seq![
            prefix_contract_class_v0_1_0(),
            poseidon_hash_many(entry_point_values(self.entry_points_by_type.external@)),
            poseidon_hash_many(entry_point_values(self.entry_points_by_type.l1_handler@)),
            poseidon_hash_many(entry_point_values(self.entry_points_by_type.constructor@)),
            starknet_keccak_value(encode_utf8(self.abi@)),
            poseidon_hash_many(felt_values(self.sierra_program@)),
        ]);
        normalize_address(poseidon_hash_felts(&messages))
    }
}

} // verus!
