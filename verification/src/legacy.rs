use vstd::prelude::*;

verus! {

/// Whether a legacy (Cairo 0) function may change state.
#[derive(Clone, Copy, Debug, PartialEq, Eq, Structural)]
pub enum FunctionStateMutability {
    View,
}

/// The kind of a legacy function ABI entry.
#[derive(Clone, Copy, Debug, PartialEq, Eq, Structural)]
pub enum LegacyFunctionAbiType {
    Function,
    L1Handler,
    Constructor,
}

/// The kind of a legacy event ABI entry.
#[derive(Clone, Copy, Debug, PartialEq, Eq, Structural)]
pub enum LegacyEventAbiType {
    Event,
}

/// The kind of a legacy struct ABI entry.
#[derive(Clone, Copy, Debug, PartialEq, Eq, Structural)]
pub enum LegacyStructAbiType {
    Struct,
}

/// A named and typed parameter of a legacy ABI entry.
#[derive(Clone, Debug, PartialEq, Eq)]
pub struct LegacyTypedParameter {
    /// The parameter's name.
    pub name: String,
    /// The parameter's Cairo type.
    pub typ: String,
}

/// A field of a legacy struct, as given in a contract definition.
#[derive(Clone, Debug, PartialEq, Eq)]
pub struct LegacyStructMember {
    /// The field's name.
    pub name: String,
    /// The field's Cairo type.
    pub typ: String,
    /// The total size of the fields before this one, when given.
    pub offset: Option<u64>,
}

/// A legacy function ABI entry: a function, an L1 handler or a constructor.
#[derive(Clone, Debug, PartialEq, Eq)]
pub struct LegacyFunctionAbiEntry {
    pub typ: LegacyFunctionAbiType,
    pub name: String,
    pub inputs: Vec<LegacyTypedParameter>,
    pub outputs: Vec<LegacyTypedParameter>,
    pub state_mutability: Option<FunctionStateMutability>,
}

/// A legacy event ABI entry.
#[derive(Clone, Debug, PartialEq, Eq)]
pub struct LegacyEventAbiEntry {
    pub typ: LegacyEventAbiType,
    pub name: String,
    pub keys: Vec<LegacyTypedParameter>,
    pub data: Vec<LegacyTypedParameter>,
}

/// A legacy struct ABI entry.
#[derive(Clone, Debug, PartialEq, Eq)]
pub struct LegacyStructAbiEntry {
    pub typ: LegacyStructAbiType,
    pub name: String,
    pub size: u64,
    pub members: Vec<LegacyStructMember>,
}

/// An entry of a legacy contract ABI, as given in a contract definition.
#[derive(Clone, Debug, PartialEq, Eq)]
pub enum LegacyContractAbiEntry {
    Function(LegacyFunctionAbiEntry),
    Event(LegacyEventAbiEntry),
    Struct(LegacyStructAbiEntry),
}

/// A legacy constructor, as it appears in a compiled contract.
#[derive(Clone, Debug, PartialEq, Eq)]
pub struct RawLegacyConstructor {
    pub inputs: Vec<LegacyTypedParameter>,
    pub name: String,
    pub outputs: Vec<LegacyTypedParameter>,
}

/// A legacy function, as it appears in a compiled contract.
#[derive(Clone, Debug, PartialEq, Eq)]
pub struct RawLegacyFunction {
    pub inputs: Vec<LegacyTypedParameter>,
    pub name: String,
    pub outputs: Vec<LegacyTypedParameter>,
    pub state_mutability: Option<FunctionStateMutability>,
}

/// A legacy struct, as it appears in a compiled contract.
#[derive(Clone, Debug, PartialEq, Eq)]
pub struct RawLegacyStruct {
    pub members: Vec<RawLegacyMember>,
    pub name: String,
    pub size: u64,
}

/// A legacy L1 handler, as it appears in a compiled contract.
#[derive(Clone, Debug, PartialEq, Eq)]
pub struct RawLegacyL1Handler {
    pub inputs: Vec<LegacyTypedParameter>,
    pub name: String,
    pub outputs: Vec<LegacyTypedParameter>,
}

/// A legacy event, as it appears in a compiled contract.
#[derive(Clone, Debug, PartialEq, Eq)]
pub struct RawLegacyEvent {
    pub data: Vec<LegacyTypedParameter>,
    pub keys: Vec<LegacyTypedParameter>,
    pub name: String,
}

/// A field of a legacy struct, as it appears in a compiled contract.
#[derive(Clone, Debug, PartialEq, Eq)]
pub struct RawLegacyMember {
    pub name: String,
    /// The total size of the fields before this one.
    pub offset: u64,
    pub typ: String,
}

/// An entry of a legacy contract ABI, as it appears in a compiled contract.
#[derive(Clone, Debug, PartialEq, Eq)]
pub enum RawLegacyAbiEntry {
    Constructor(RawLegacyConstructor),
    Function(RawLegacyFunction),
    Struct(RawLegacyStruct),
    L1Handler(RawLegacyL1Handler),
    Event(RawLegacyEvent),
}

} // verus!
