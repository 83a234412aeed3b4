use vstd::prelude::*;
use vstd::std_specs::convert::FromSpecImpl;

use crate::legacy::{
    LegacyContractAbiEntry, LegacyFunctionAbiType, LegacyStructMember, RawLegacyAbiEntry,
    RawLegacyConstructor, RawLegacyEvent, RawLegacyFunction, RawLegacyL1Handler, RawLegacyMember,
    RawLegacyStruct,
};
use crate::transactions::{
    DeclareTransaction, DeclareTransactionContent, DeployAccountTransaction,
    DeployAccountTransactionContent, InvokeTransaction, InvokeTransactionContent, Transaction,
    TransactionContent,
};

verus! {

/// A struct member as compiled: a missing offset counts as 0.
pub open spec fn raw_member(member: LegacyStructMember) -> RawLegacyMember {
    RawLegacyMember {
        name: member.name,
        offset: match member.offset {
            Some(offset) => offset,
            None => 0,
        },
        typ: member.typ,
    }
}

/// `raw` is the compiled form of the ABI entry `entry`: a function entry becomes a function, an
/// L1 handler or a constructor according to its kind, and keeps its parameters; an event keeps
/// its keys and data; a struct keeps its name and size, and each member is converted in order.
pub open spec fn is_raw_abi_entry(entry: LegacyContractAbiEntry, raw: RawLegacyAbiEntry) -> bool {
    match entry {
        LegacyContractAbiEntry::Function(inner) => match inner.typ {
            LegacyFunctionAbiType::Function => raw == RawLegacyAbiEntry::Function(
                RawLegacyFunction {
                    inputs: inner.inputs,
                    name: inner.name,
                    outputs: inner.outputs,
                    state_mutability: inner.state_mutability,
                },
            ),
            LegacyFunctionAbiType::L1Handler => raw == RawLegacyAbiEntry::L1Handler(
                RawLegacyL1Handler { inputs: inner.inputs, name: inner.name, outputs: inner.outputs },
            ),
            LegacyFunctionAbiType::Constructor => raw == RawLegacyAbiEntry::Constructor(
                RawLegacyConstructor {
                    inputs: inner.inputs,
                    name: inner.name,
                    outputs: inner.outputs,
                },
            ),
        },
        LegacyContractAbiEntry::Event(inner) => raw == RawLegacyAbiEntry::Event(
            RawLegacyEvent { data: inner.data, keys: inner.keys, name: inner.name },
        ),
        LegacyContractAbiEntry::Struct(inner) => {
            &&& raw matches RawLegacyAbiEntry::Struct(compiled)
            &&& compiled.name == inner.name
            &&& compiled.size == inner.size
            &&& compiled.members@ == inner.members@.map_values(|m: LegacyStructMember| raw_member(m))
        },
    }
}

/// Converts the members of a legacy struct, in order.
fn raw_members(members: Vec<LegacyStructMember>) -> (r: Vec<RawLegacyMember>)
    ensures
        r@ == members@.map_values(|m: LegacyStructMember| raw_member(m)),
{
    let ghost given = members@;
    let mut converted: Vec<RawLegacyMember> = Vec::new();
    for item in iter: members
        invariant
            iter.seq() == given,
            converted@ == given.take(iter.index() as int).map_values(
                |m: LegacyStructMember| raw_member(m),
            ),
    {
        let offset = match item.offset {
            Some(offset) => offset,
            None => 0,
        };
        let ghost before = converted@;
        converted.push(RawLegacyMember { name: item.name, offset, typ: item.typ });
        assert(given.take(iter.index() + 1).map_values(|m: LegacyStructMember| raw_member(m))
            =~= before.push(raw_member(given[iter.index() as int])));
    }
    assert(given.take(given.len() as int) =~= given);
    converted
}

impl From<LegacyContractAbiEntry> for RawLegacyAbiEntry {
    fn from(value: LegacyContractAbiEntry) -> (r: Self)
        ensures
            is_raw_abi_entry(value, r),
    {
        match value {
            LegacyContractAbiEntry::Function(inner) => match inner.typ {
                LegacyFunctionAbiType::Function => RawLegacyAbiEntry::Function(
                    RawLegacyFunction {
                        inputs: inner.inputs,
                        name: inner.name,
                        outputs: inner.outputs,
                        state_mutability: inner.state_mutability,
                    },
                ),
                LegacyFunctionAbiType::L1Handler => RawLegacyAbiEntry::L1Handler(
                    RawLegacyL1Handler {
                        inputs: inner.inputs,
                        name: inner.name,
                        outputs: inner.outputs,
                    },
                ),
                LegacyFunctionAbiType::Constructor => RawLegacyAbiEntry::Constructor(
                    RawLegacyConstructor {
                        inputs: inner.inputs,
                        name: inner.name,
                        outputs: inner.outputs,
                    },
                ),
            },
            LegacyContractAbiEntry::Event(inner) => RawLegacyAbiEntry::Event(
                RawLegacyEvent { data: inner.data, keys: inner.keys, name: inner.name },
            ),
            LegacyContractAbiEntry::Struct(inner) => RawLegacyAbiEntry::Struct(
                RawLegacyStruct {
                    members: raw_members(inner.members),
                    name: inner.name,
                    size: inner.size,
                },
            ),
        }
    }
}

/// The compiled form of a struct entry holds a vector built from the members, which a spec
/// function cannot pin down as one value; `from` states its result by `is_raw_abi_entry`.
impl FromSpecImpl<LegacyContractAbiEntry> for RawLegacyAbiEntry {
    open spec fn obeys_from_spec() -> bool {
        false
    }

    open spec fn from_spec(v: LegacyContractAbiEntry) -> RawLegacyAbiEntry {
        choose|r: RawLegacyAbiEntry| is_raw_abi_entry(v, r)
    }
}

/// The content of a transaction: the same version, with the same transaction.
pub open spec fn invoke_content(v: InvokeTransaction) -> InvokeTransactionContent {
    match v {
        InvokeTransaction::V0(inner) => InvokeTransactionContent::V0(inner),
        InvokeTransaction::V1(inner) => InvokeTransactionContent::V1(inner),
        InvokeTransaction::V3(inner) => InvokeTransactionContent::V3(inner),
    }
}

impl From<InvokeTransaction> for InvokeTransactionContent {
    fn from(value: InvokeTransaction) -> (r: Self)
        ensures
            r == invoke_content(value),
    {
        match value {
            InvokeTransaction::V0(inner) => InvokeTransactionContent::V0(inner),
            InvokeTransaction::V1(inner) => InvokeTransactionContent::V1(inner),
            InvokeTransaction::V3(inner) => InvokeTransactionContent::V3(inner),
        }
    }
}

impl FromSpecImpl<InvokeTransaction> for InvokeTransactionContent {
    open spec fn obeys_from_spec() -> bool {
        true
    }

    open spec fn from_spec(v: InvokeTransaction) -> InvokeTransactionContent {
        invoke_content(v)
    }
}

/// The content of a transaction: the same version, with the same transaction.
pub open spec fn declare_content(v: DeclareTransaction) -> DeclareTransactionContent {
    match v {
        DeclareTransaction::V0(inner) => DeclareTransactionContent::V0(inner),
        DeclareTransaction::V1(inner) => DeclareTransactionContent::V1(inner),
        DeclareTransaction::V2(inner) => DeclareTransactionContent::V2(inner),
        DeclareTransaction::V3(inner) => DeclareTransactionContent::V3(inner),
    }
}

impl From<DeclareTransaction> for DeclareTransactionContent {
    fn from(value: DeclareTransaction) -> (r: Self)
        ensures
            r == declare_content(value),
    {
        match value {
            DeclareTransaction::V0(inner) => DeclareTransactionContent::V0(inner),
            DeclareTransaction::V1(inner) => DeclareTransactionContent::V1(inner),
            DeclareTransaction::V2(inner) => DeclareTransactionContent::V2(inner),
            DeclareTransaction::V3(inner) => DeclareTransactionContent::V3(inner),
        }
    }
}

impl FromSpecImpl<DeclareTransaction> for DeclareTransactionContent {
    open spec fn obeys_from_spec() -> bool {
        true
    }

    open spec fn from_spec(v: DeclareTransaction) -> DeclareTransactionContent {
        declare_content(v)
    }
}

/// The content of a transaction: the same version, with the same transaction.
pub open spec fn deploy_account_content(v: DeployAccountTransaction) -> DeployAccountTransactionContent {
    match v {
        DeployAccountTransaction::V1(inner) => DeployAccountTransactionContent::V1(inner),
        DeployAccountTransaction::V3(inner) => DeployAccountTransactionContent::V3(inner),
    }
}

impl From<DeployAccountTransaction> for DeployAccountTransactionContent {
    fn from(value: DeployAccountTransaction) -> (r: Self)
        ensures
            r == deploy_account_content(value),
    {
        match value {
            DeployAccountTransaction::V1(inner) => DeployAccountTransactionContent::V1(inner),
            DeployAccountTransaction::V3(inner) => DeployAccountTransactionContent::V3(inner),
        }
    }
}

impl FromSpecImpl<DeployAccountTransaction> for DeployAccountTransactionContent {
    open spec fn obeys_from_spec() -> bool {
        true
    }

    open spec fn from_spec(v: DeployAccountTransaction) -> DeployAccountTransactionContent {
        deploy_account_content(v)
    }
}

/// The content of a transaction: the same type, its content converted version by version.
pub open spec fn transaction_content(v: Transaction) -> TransactionContent {
    match v {
        Transaction::Invoke(inner) => TransactionContent::Invoke(
            invoke_content(inner),
        ),
        Transaction::L1Handler(inner) => TransactionContent::L1Handler(inner),
        Transaction::Declare(inner) => TransactionContent::Declare(
            declare_content(inner),
        ),
        Transaction::Deploy(inner) => TransactionContent::Deploy(inner),
        Transaction::DeployAccount(inner) => TransactionContent::DeployAccount(
            deploy_account_content(inner),
        ),
    }
}

impl From<Transaction> for TransactionContent {
    fn from(value: Transaction) -> (r: Self)
        ensures
            r == transaction_content(value),
    {
        match value {
            Transaction::Invoke(inner) => TransactionContent::Invoke(
                InvokeTransactionContent::from(inner),
            ),
            Transaction::L1Handler(inner) => TransactionContent::L1Handler(inner),
            Transaction::Declare(inner) => TransactionContent::Declare(
                DeclareTransactionContent::from(inner),
            ),
            Transaction::Deploy(inner) => TransactionContent::Deploy(inner),
            Transaction::DeployAccount(inner) => TransactionContent::DeployAccount(
                DeployAccountTransactionContent::from(inner),
            ),
        }
    }
}

impl FromSpecImpl<Transaction> for TransactionContent {
    open spec fn obeys_from_spec() -> bool {
        true
    }

    open spec fn from_spec(v: Transaction) -> TransactionContent {
        transaction_content(v)
    }
}

} // verus!
