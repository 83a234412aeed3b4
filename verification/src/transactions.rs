use vstd::prelude::*;

use crate::felt::Felt;
use crate::types::{DataAvailabilityMode, ResourceBoundsMapping};

verus! {

/// An invoke transaction of version 0.
#[derive(Clone, Debug, PartialEq, Eq)]
pub struct InvokeTransactionV0 {
    pub transaction_hash: Felt,
    pub max_fee: Felt,
    pub signature: Vec<Felt>,
    pub contract_address: Felt,
    pub entry_point_selector: Felt,
    pub calldata: Vec<Felt>,
}

/// An invoke transaction of version 1.
#[derive(Clone, Debug, PartialEq, Eq)]
pub struct InvokeTransactionV1 {
    pub transaction_hash: Felt,
    pub sender_address: Felt,
    pub calldata: Vec<Felt>,
    pub max_fee: Felt,
    pub signature: Vec<Felt>,
    pub nonce: Felt,
}

/// An invoke transaction of version 3.
#[derive(Clone, Debug, PartialEq, Eq)]
pub struct InvokeTransactionV3 {
    pub transaction_hash: Felt,
    pub sender_address: Felt,
    pub calldata: Vec<Felt>,
    pub signature: Vec<Felt>,
    pub nonce: Felt,
    pub resource_bounds: ResourceBoundsMapping,
    pub tip: u64,
    pub paymaster_data: Vec<Felt>,
    pub account_deployment_data: Vec<Felt>,
    pub nonce_data_availability_mode: DataAvailabilityMode,
    pub fee_data_availability_mode: DataAvailabilityMode,
}

/// A transaction sent from L1 to an L1 handler.
#[derive(Clone, Debug, PartialEq, Eq)]
pub struct L1HandlerTransaction {
    pub transaction_hash: Felt,
    pub version: Felt,
    pub nonce: u64,
    pub contract_address: Felt,
    pub entry_point_selector: Felt,
    pub calldata: Vec<Felt>,
}

/// A declare transaction of version 0.
#[derive(Clone, Debug, PartialEq, Eq)]
pub struct DeclareTransactionV0 {
    pub transaction_hash: Felt,
    pub sender_address: Felt,
    pub max_fee: Felt,
    pub signature: Vec<Felt>,
    pub class_hash: Felt,
}

/// A declare transaction of version 1.
#[derive(Clone, Debug, PartialEq, Eq)]
pub struct DeclareTransactionV1 {
    pub transaction_hash: Felt,
    pub sender_address: Felt,
    pub max_fee: Felt,
    pub signature: Vec<Felt>,
    pub nonce: Felt,
    pub class_hash: Felt,
}

/// A declare transaction of version 2.
#[derive(Clone, Debug, PartialEq, Eq)]
pub struct DeclareTransactionV2 {
    pub transaction_hash: Felt,
    pub sender_address: Felt,
    pub compiled_class_hash: Felt,
    pub max_fee: Felt,
    pub signature: Vec<Felt>,
    pub nonce: Felt,
    pub class_hash: Felt,
}

/// A declare transaction of version 3.
#[derive(Clone, Debug, PartialEq, Eq)]
pub struct DeclareTransactionV3 {
    pub transaction_hash: Felt,
    pub sender_address: Felt,
    pub compiled_class_hash: Felt,
    pub signature: Vec<Felt>,
    pub nonce: Felt,
    pub class_hash: Felt,
    pub resource_bounds: ResourceBoundsMapping,
    pub tip: u64,
    pub paymaster_data: Vec<Felt>,
    pub account_deployment_data: Vec<Felt>,
    pub nonce_data_availability_mode: DataAvailabilityMode,
    pub fee_data_availability_mode: DataAvailabilityMode,
}

/// A deploy transaction.
#[derive(Clone, Debug, PartialEq, Eq)]
pub struct DeployTransaction {
    pub transaction_hash: Felt,
    pub version: Felt,
    pub contract_address_salt: Felt,
    pub constructor_calldata: Vec<Felt>,
    pub class_hash: Felt,
}

/// A deploy-account transaction of version 1.
#[derive(Clone, Debug, PartialEq, Eq)]
pub struct DeployAccountTransactionV1 {
    pub transaction_hash: Felt,
    pub max_fee: Felt,
    pub signature: Vec<Felt>,
    pub nonce: Felt,
    pub contract_address_salt: Felt,
    pub constructor_calldata: Vec<Felt>,
    pub class_hash: Felt,
}

/// A deploy-account transaction of version 3.
#[derive(Clone, Debug, PartialEq, Eq)]
pub struct DeployAccountTransactionV3 {
    pub transaction_hash: Felt,
    pub signature: Vec<Felt>,
    pub nonce: Felt,
    pub contract_address_salt: Felt,
    pub constructor_calldata: Vec<Felt>,
    pub class_hash: Felt,
    pub resource_bounds: ResourceBoundsMapping,
    pub tip: u64,
    pub paymaster_data: Vec<Felt>,
    pub nonce_data_availability_mode: DataAvailabilityMode,
    pub fee_data_availability_mode: DataAvailabilityMode,
}

/// An invoke transaction of any version.
#[derive(Clone, Debug, PartialEq, Eq)]
pub enum InvokeTransaction {
    V0(InvokeTransactionV0),
    V1(InvokeTransactionV1),
    V3(InvokeTransactionV3),
}

/// A declare transaction of any version.
#[derive(Clone, Debug, PartialEq, Eq)]
pub enum DeclareTransaction {
    V0(DeclareTransactionV0),
    V1(DeclareTransactionV1),
    V2(DeclareTransactionV2),
    V3(DeclareTransactionV3),
}

/// A deploy-account transaction of any version.
#[derive(Clone, Debug, PartialEq, Eq)]
pub enum DeployAccountTransaction {
    V1(DeployAccountTransactionV1),
    V3(DeployAccountTransactionV3),
}

/// A transaction of any type.
#[derive(Clone, Debug, PartialEq, Eq)]
pub enum Transaction {
    Invoke(InvokeTransaction),
    L1Handler(L1HandlerTransaction),
    Declare(DeclareTransaction),
    Deploy(DeployTransaction),
    DeployAccount(DeployAccountTransaction),
}

/// The content of an L1 handler transaction: the transaction itself, hash included.
pub type L1HandlerTransactionContent = L1HandlerTransaction;

/// The content of a deploy transaction: the transaction itself, hash included.
pub type DeployTransactionContent = DeployTransaction;

/// The content of an invoke transaction of any version.
#[derive(Clone, Debug, PartialEq, Eq)]
pub enum InvokeTransactionContent {
    V0(InvokeTransactionV0),
    V1(InvokeTransactionV1),
    V3(InvokeTransactionV3),
}

/// The content of a declare transaction of any version.
#[derive(Clone, Debug, PartialEq, Eq)]
pub enum DeclareTransactionContent {
    V0(DeclareTransactionV0),
    V1(DeclareTransactionV1),
    V2(DeclareTransactionV2),
    V3(DeclareTransactionV3),
}

/// The content of a deploy-account transaction of any version.
#[derive(Clone, Debug, PartialEq, Eq)]
pub enum DeployAccountTransactionContent {
    V1(DeployAccountTransactionV1),
    V3(DeployAccountTransactionV3),
}

/// The content of a transaction of any type.
#[derive(Clone, Debug, PartialEq, Eq)]
pub enum TransactionContent {
    Invoke(InvokeTransactionContent),
    L1Handler(L1HandlerTransactionContent),
    Declare(DeclareTransactionContent),
    Deploy(DeployTransactionContent),
    DeployAccount(DeployAccountTransactionContent),
}

} // verus!
