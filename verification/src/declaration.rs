use std::sync::Arc;
use vstd::prelude::*;

use crate::crypto::{
    felt_values, poseidon_hash_felts, poseidon_hash_many,
};
use crate::felt::{be8, felt_prime, lemma_be8_value, lemma_be_value_32, write_u64_be, Felt};
use crate::types::{
    sierra_class_hash, BroadcastedDeclareTransactionV3, DataAvailabilityMode,
    FlattenedSierraClass, ResourceBounds, ResourceBoundsMapping, SimulationFlag,
    SimulationFlagForEstimateFee,
};

verus! {

/// The Cairo short string `declare`.
pub open spec fn prefix_declare() -> nat {
    0x6465636c617265nat
}

/// The version of a V3 transaction that is only meant for queries: `2^128 + 3`.
pub open spec fn query_version_three() -> nat {
    0x1_0000_0000_0000_0000_0000_0000_0000_0003nat
}

/// The name of the L1 gas resource, as the number of the bytes `\0\0L1_GAS`.
pub open spec fn l1_gas_name() -> nat {
    0x4c315f474153nat
}

/// The name of the L2 gas resource, as the number of the bytes `\0\0L2_GAS`.
pub open spec fn l2_gas_name() -> nat {
    0x4c325f474153nat
}

/// The name of the L1 data gas resource, as the number of the bytes `\0L1_DATA`.
pub open spec fn l1_data_gas_name() -> nat {
    0x4c315f44415441nat
}

/// A resource bound as hashed: the resource name in the top 64 bits of 256, then the maximum
/// amount in 64 bits, then the maximum price per unit in the low 128 bits.
pub open spec fn resource_bound_value(name: nat, max_amount: u64, max_price: u128) -> nat {
    name * 0x1_0000_0000_0000_0000_0000_0000_0000_0000_0000_0000_0000_0000nat + max_amount as nat
        * 0x1_0000_0000_0000_0000_0000_0000_0000_0000nat + max_price as nat
}

/// The number of a data availability mode: 0 for L1, 1 for L2.
pub open spec fn da_mode_number(mode: DataAvailabilityMode) -> nat {
    match mode {
        DataAvailabilityMode::L1 => 0,
        DataAvailabilityMode::L2 => 1,
    }
}

/// Both data availability modes in one number: the nonce mode above bit 32, the fee mode below.
pub open spec fn da_modes_value(nonce_mode: DataAvailabilityMode, fee_mode: DataAvailabilityMode) -> nat {
    da_mode_number(nonce_mode) * 0x1_0000_0000nat + da_mode_number(fee_mode)
}

/// A declaration whose every field is fixed: what is hashed and signed.
#[derive(Clone, Debug)]
pub struct RawDeclarationV3 {
    pub contract_class: Arc<FlattenedSierraClass>,
    pub compiled_class_hash: Felt,
    pub nonce: Felt,
    pub l1_gas: u64,
    pub l1_gas_price: u128,
    pub l2_gas: u64,
    pub l2_gas_price: u128,
    pub l1_data_gas: u64,
    pub l1_data_gas_price: u128,
    pub tip: u64,
    pub paymaster_data: Vec<Felt>,
    pub account_deployment_data: Vec<Felt>,
    pub nonce_data_availability_mode: DataAvailabilityMode,
    pub fee_data_availability_mode: DataAvailabilityMode,
}

/// The hash of the fee fields: the tip and the three resource bounds.
pub open spec fn fee_fields_hash(raw: RawDeclarationV3) -> nat {
    poseidon_hash_many(
        seq![
            raw.tip as nat,
            resource_bound_value(l1_gas_name(), raw.l1_gas, raw.l1_gas_price),
            resource_bound_value(l2_gas_name(), raw.l2_gas, raw.l2_gas_price),
            resource_bound_value(l1_data_gas_name(), raw.l1_data_gas, raw.l1_data_gas_price),
        ],
    )
}

/// The messages hashed into the hash of a V3 declaration, in order.
pub open spec fn declare_v3_hash_messages(
    raw: RawDeclarationV3,
    chain_id: nat,
    address: nat,
    query_only: bool,
) -> Seq<nat> {
    seq![
        prefix_declare(),
        if query_only {
            query_version_three()
        } else {
            3
        },
        address,
        fee_fields_hash(raw),
        poseidon_hash_many(felt_values(raw.paymaster_data@)),
        chain_id,
        raw.nonce@,
        da_modes_value(raw.nonce_data_availability_mode, raw.fee_data_availability_mode),
        poseidon_hash_many(felt_values(raw.account_deployment_data@)),
        sierra_class_hash(*raw.contract_class),
        raw.compiled_class_hash@,
    ]
}

/// The transaction hash of a V3 declaration sent from `address` on the chain `chain_id`.
pub open spec fn declare_v3_hash(
    raw: RawDeclarationV3,
    chain_id: nat,
    address: nat,
    query_only: bool,
) -> nat {
    poseidon_hash_many(declare_v3_hash_messages(raw, chain_id, address, query_only))
}

/// The field element of a resource bound.
fn resource_bound_felt(name: u64, max_amount: u64, max_price: u128) -> (r: Felt)
    requires
        name < 0x100_0000_0000_0000,
    ensures
        r@ == resource_bound_value(name as nat, max_amount, max_price),
{
    let high = (max_price >> 64u32) as u64;
    let low = max_price as u64;
    let mut resource_buffer = [0u8; 32];
    write_u64_be(&mut resource_buffer, 0, name);
    write_u64_be(&mut resource_buffer, 8, max_amount);
    write_u64_be(&mut resource_buffer, 16, high);
    write_u64_be(&mut resource_buffer, 24, low);
    proof {
        assert(resource_buffer@ =~= be8(name) + be8(max_amount) + be8(high) + be8(low));
        lemma_be8_value(name);
        lemma_be8_value(max_amount);
        lemma_be8_value(high);
        lemma_be8_value(low);
        lemma_be_value_32(be8(name), be8(max_amount), be8(high), be8(low));
        assert(max_price == high as u128 * 0x1_0000_0000_0000_0000u128 + low as u128)
            by (bit_vector)
            requires
                high == (max_price >> 64u32) as u64,
                low == max_price as u64,
        ;
        vstd::arithmetic::div_mod::lemma_small_mod(
            resource_bound_value(name as nat, max_amount, max_price),
            felt_prime(),
        );
    }
    Felt::from_bytes_be(&resource_buffer)
}

/// The field element holding both data availability modes.
fn da_modes_felt(nonce_mode: DataAvailabilityMode, fee_mode: DataAvailabilityMode) -> (r: Felt)
    ensures
        r@ == da_modes_value(nonce_mode, fee_mode),
{
    let nonce_number: u64 = match nonce_mode {
        DataAvailabilityMode::L1 => 0,
        DataAvailabilityMode::L2 => 1,
    };
    let fee_number: u64 = match fee_mode {
        DataAvailabilityMode::L1 => 0,
        DataAvailabilityMode::L2 => 1,
    };
    assert(nonce_number <= 1 ==> nonce_number << 32u64 == nonce_number * 0x1_0000_0000u64)
        by (bit_vector);
    Felt::from((nonce_number << 32u64) + fee_number)
}

impl RawDeclarationV3 {
    /// Calculates transaction hash given `chain_id`, `address`, and `query_only`.
    pub fn transaction_hash(&self, chain_id: Felt, address: Felt, query_only: bool) -> (r: Felt)
        ensures
            r@ == declare_v3_hash(*self, chain_id@, address@, query_only),
    {
        let version = if query_only {
            Felt::from_limbs([3u64, 0, 1, 0])
        } else {
            Felt::from(3u64)
        };

        let l1_gas_bound = resource_bound_felt(0x4c315f474153u64, self.l1_gas, self.l1_gas_price);
        let l2_gas_bound = resource_bound_felt(0x4c325f474153u64, self.l2_gas, self.l2_gas_price);
        let l1_data_gas_bound = resource_bound_felt(
            0x4c315f44415441u64,
            self.l1_data_gas,
            self.l1_data_gas_price,
        );
        let fee_fields = vec![Felt::from(self.tip), l1_gas_bound, l2_gas_bound, l1_data_gas_bound];
        let fee_hash = poseidon_hash_felts(&fee_fields);
        assert(felt_values(fee_fields@) =~= seq![
            self.tip as nat,
            resource_bound_value(l1_gas_name(), self.l1_gas, self.l1_gas_price),
            resource_bound_value(l2_gas_name(), self.l2_gas, self.l2_gas_price),
            resource_bound_value(l1_data_gas_name(), self.l1_data_gas, self.l1_data_gas_price),
        ]);

        let paymaster_hash = poseidon_hash_felts(&self.paymaster_data);
        let da_modes = da_modes_felt(
            self.nonce_data_availability_mode,
            self.fee_data_availability_mode,
        );
        let deployment_data_hash = poseidon_hash_felts(&self.account_deployment_data);
        let class_hash = self.contract_class.class_hash();

        let messages = vec![
            Felt::from_limbs([0x6465636c617265u64, 0, 0, 0]),
            version,
            address,
            fee_hash,
            paymaster_hash,
            chain_id,
            self.nonce,
            da_modes,
            deployment_data_hash,
            class_hash,
            self.compiled_class_hash,
        ];
        assert(felt_values(messages@) =~= declare_v3_hash_messages(
            *self,
            chain_id@,
            address@,
            query_only,
        ));
        poseidon_hash_felts(&messages)
    }
}


impl RawDeclarationV3 {
    /// Gets a reference to the flattened Sierra (Cairo 1) class being declared.
    pub fn contract_class(&self) -> (r: &FlattenedSierraClass)
        ensures
            *r == *self.contract_class,
    {
        &self.contract_class
    }

    /// Gets the CASM class hash corresponding to the Sierra class being declared.
    pub fn compiled_class_hash(&self) -> (r: Felt)
        ensures
            r == self.compiled_class_hash,
    {
        self.compiled_class_hash
    }

    /// Gets the `nonce` of the declaration request.
    pub fn nonce(&self) -> (r: Felt)
        ensures
            r == self.nonce,
    {
        self.nonce
    }

    /// Gets the `l1_gas` of the declaration request.
    pub fn l1_gas(&self) -> (r: u64)
        ensures
            r == self.l1_gas,
    {
        self.l1_gas
    }

    /// Gets the `l1_gas_price` of the declaration request.
    pub fn l1_gas_price(&self) -> (r: u128)
        ensures
            r == self.l1_gas_price,
    {
        self.l1_gas_price
    }

    /// Gets the `l2_gas` of the declaration request.
    pub fn l2_gas(&self) -> (r: u64)
        ensures
            r == self.l2_gas,
    {
        self.l2_gas
    }

    /// Gets the `l2_gas_price` of the declaration request.
    pub fn l2_gas_price(&self) -> (r: u128)
        ensures
            r == self.l2_gas_price,
    {
        self.l2_gas_price
    }

    /// Gets the `l1_data_gas` of the declaration request.
    pub fn l1_data_gas(&self) -> (r: u64)
        ensures
            r == self.l1_data_gas,
    {
        self.l1_data_gas
    }

    /// Gets the `l1_data_gas_price` of the declaration request.
    pub fn l1_data_gas_price(&self) -> (r: u128)
        ensures
            r == self.l1_data_gas_price,
    {
        self.l1_data_gas_price
    }

    /// Gets the `tip` of the declaration request.
    pub fn tip(&self) -> (r: u64)
        ensures
            r == self.tip,
    {
        self.tip
    }
}

/// What a declaration needs to know of the account that sends it. Users implement it for their
/// accounts; `spec_address` and `spec_chain_id` name what the two methods return.
pub trait Account {
    spec fn spec_address(&self) -> Felt;

    spec fn spec_chain_id(&self) -> Felt;

    /// The address of the account.
    fn address(&self) -> (r: Felt)
        ensures
            r == self.spec_address(),
    ;

    /// The chain the account sends transactions on.
    fn chain_id(&self) -> (r: Felt)
        ensures
            r == self.spec_chain_id(),
    ;
}

/// The error of `prepared` when some optional field was never set.
#[derive(Clone, Copy, Debug, PartialEq, Eq, Structural)]
pub struct NotPreparedError;

/// A V3 declaration being built: the fields left unset are resolved before it is sent.
#[derive(Debug)]
pub struct DeclarationV3<'a, A> {
    pub account: &'a A,
    pub contract_class: Arc<FlattenedSierraClass>,
    pub compiled_class_hash: Felt,
    pub nonce: Option<Felt>,
    pub l1_gas: Option<u64>,
    pub l1_gas_price: Option<u128>,
    pub l2_gas: Option<u64>,
    pub l2_gas_price: Option<u128>,
    pub l1_data_gas: Option<u64>,
    pub l1_data_gas_price: Option<u128>,
    pub tip: Option<u64>,
    pub paymaster_data: Vec<Felt>,
    pub account_deployment_data: Vec<Felt>,
    pub nonce_data_availability_mode: DataAvailabilityMode,
    pub fee_data_availability_mode: DataAvailabilityMode,
}

/// A declaration whose every field is fixed, with the account that sends it.
#[derive(Debug)]
pub struct PreparedDeclarationV3<'a, A> {
    pub account: &'a A,
    pub inner: RawDeclarationV3,
}

impl<'a, A> DeclarationV3<'a, A> {
    /// Every optional field has been set.
    pub open spec fn is_fully_specified(self) -> bool {
        &&& self.nonce is Some
        &&& self.l1_gas is Some
        &&& self.l1_gas_price is Some
        &&& self.l2_gas is Some
        &&& self.l2_gas_price is Some
        &&& self.l1_data_gas is Some
        &&& self.l1_data_gas_price is Some
        &&& self.tip is Some
    }

    /// The fixed declaration made of this one's fields and the given values for the optional
    /// ones.
    pub open spec fn raw_with(
        self,
        nonce: Felt,
        l1_gas: u64,
        l1_gas_price: u128,
        l2_gas: u64,
        l2_gas_price: u128,
        l1_data_gas: u64,
        l1_data_gas_price: u128,
        tip: u64,
    ) -> RawDeclarationV3 {
        RawDeclarationV3 {
            contract_class: self.contract_class,
            compiled_class_hash: self.compiled_class_hash,
            nonce,
            l1_gas,
            l1_gas_price,
            l2_gas,
            l2_gas_price,
            l1_data_gas,
            l1_data_gas_price,
            tip,
            paymaster_data: self.paymaster_data,
            account_deployment_data: self.account_deployment_data,
            nonce_data_availability_mode: self.nonce_data_availability_mode,
            fee_data_availability_mode: self.fee_data_availability_mode,
        }
    }

    /// The fixed declaration of a fully specified builder.
    pub open spec fn specified_raw(self) -> RawDeclarationV3
        recommends
            self.is_fully_specified(),
    {
        self.raw_with(
            self.nonce->0,
            self.l1_gas->0,
            self.l1_gas_price->0,
            self.l2_gas->0,
            self.l2_gas_price->0,
            self.l1_data_gas->0,
            self.l1_data_gas_price->0,
            self.tip->0,
        )
    }

    /// Constructs a new [`DeclarationV3`].
    ///
    /// Users would typically use `declare_v3` on an account instead of directly calling this
    /// method.
    pub fn new(
        contract_class: Arc<FlattenedSierraClass>,
        compiled_class_hash: Felt,
        account: &'a A,
    ) -> (r: Self)
        ensures
            r.account == account,
            r.contract_class == contract_class,
            r.compiled_class_hash == compiled_class_hash,
            r.nonce is None,
            r.l1_gas is None,
            r.l1_gas_price is None,
            r.l2_gas is None,
            r.l2_gas_price is None,
            r.l1_data_gas is None,
            r.l1_data_gas_price is None,
            r.tip is None,
            r.paymaster_data@ == Seq::<Felt>::empty(),
            r.account_deployment_data@ == Seq::<Felt>::empty(),
            r.nonce_data_availability_mode == DataAvailabilityMode::L1,
            r.fee_data_availability_mode == DataAvailabilityMode::L1,
    {
        DeclarationV3 {
            account,
            contract_class,
            compiled_class_hash,
            nonce: None,
            l1_gas: None,
            l1_gas_price: None,
            l2_gas: None,
            l2_gas_price: None,
            l1_data_gas: None,
            l1_data_gas_price: None,
            tip: None,
            paymaster_data: Vec::new(),
            account_deployment_data: Vec::new(),
            nonce_data_availability_mode: DataAvailabilityMode::L1,
            fee_data_availability_mode: DataAvailabilityMode::L1,
        }
    }

    /// Returns a new [`DeclarationV3`] with the `nonce`.
    pub fn nonce(self, nonce: Felt) -> (r: Self)
        ensures
            r == (DeclarationV3 { nonce: Some(nonce), ..self }),
    {
        DeclarationV3 { nonce: Some(nonce), ..self }
    }

    /// Returns a new [`DeclarationV3`] with the `l1_gas`.
    pub fn l1_gas(self, l1_gas: u64) -> (r: Self)
        ensures
            r == (DeclarationV3 { l1_gas: Some(l1_gas), ..self }),
    {
        DeclarationV3 { l1_gas: Some(l1_gas), ..self }
    }

    /// Returns a new [`DeclarationV3`] with the `l1_gas_price`.
    pub fn l1_gas_price(self, l1_gas_price: u128) -> (r: Self)
        ensures
            r == (DeclarationV3 { l1_gas_price: Some(l1_gas_price), ..self }),
    {
        DeclarationV3 { l1_gas_price: Some(l1_gas_price), ..self }
    }

    /// Returns a new [`DeclarationV3`] with the `l2_gas`.
    pub fn l2_gas(self, l2_gas: u64) -> (r: Self)
        ensures
            r == (DeclarationV3 { l2_gas: Some(l2_gas), ..self }),
    {
        DeclarationV3 { l2_gas: Some(l2_gas), ..self }
    }

    /// Returns a new [`DeclarationV3`] with the `l2_gas_price`.
    pub fn l2_gas_price(self, l2_gas_price: u128) -> (r: Self)
        ensures
            r == (DeclarationV3 { l2_gas_price: Some(l2_gas_price), ..self }),
    {
        DeclarationV3 { l2_gas_price: Some(l2_gas_price), ..self }
    }

    /// Returns a new [`DeclarationV3`] with the `l1_data_gas`.
    pub fn l1_data_gas(self, l1_data_gas: u64) -> (r: Self)
        ensures
            r == (DeclarationV3 { l1_data_gas: Some(l1_data_gas), ..self }),
    {
        DeclarationV3 { l1_data_gas: Some(l1_data_gas), ..self }
    }

    /// Returns a new [`DeclarationV3`] with the `l1_data_gas_price`.
    pub fn l1_data_gas_price(self, l1_data_gas_price: u128) -> (r: Self)
        ensures
            r == (DeclarationV3 { l1_data_gas_price: Some(l1_data_gas_price), ..self }),
    {
        DeclarationV3 { l1_data_gas_price: Some(l1_data_gas_price), ..self }
    }

    /// Returns a new [`DeclarationV3`] with the `tip`.
    pub fn tip(self, tip: u64) -> (r: Self)
        ensures
            r == (DeclarationV3 { tip: Some(tip), ..self }),
    {
        DeclarationV3 { tip: Some(tip), ..self }
    }

    /// Returns a new [`DeclarationV3`] with the `paymaster_data`.
    pub fn paymaster_data(self, paymaster_data: Vec<Felt>) -> (r: Self)
        ensures
            r == (DeclarationV3 { paymaster_data, ..self }),
    {
        DeclarationV3 { paymaster_data, ..self }
    }

    /// Returns a new [`DeclarationV3`] with the `account_deployment_data`.
    pub fn account_deployment_data(self, account_deployment_data: Vec<Felt>) -> (r: Self)
        ensures
            r == (DeclarationV3 { account_deployment_data, ..self }),
    {
        DeclarationV3 { account_deployment_data, ..self }
    }

    /// Returns a new [`DeclarationV3`] with the `nonce_data_availability_mode`.
    pub fn nonce_data_availability_mode(self, mode: DataAvailabilityMode) -> (r: Self)
        ensures
            r == (DeclarationV3 { nonce_data_availability_mode: mode, ..self }),
    {
        DeclarationV3 { nonce_data_availability_mode: mode, ..self }
    }

    /// Returns a new [`DeclarationV3`] with the `fee_data_availability_mode`.
    pub fn fee_data_availability_mode(self, mode: DataAvailabilityMode) -> (r: Self)
        ensures
            r == (DeclarationV3 { fee_data_availability_mode: mode, ..self }),
    {
        DeclarationV3 { fee_data_availability_mode: mode, ..self }
    }

    /// Calling this function after manually specifying all optional fields turns
    /// [`DeclarationV3`] into [`PreparedDeclarationV3`]. Returns `Err` if any field is `None`.
    pub fn prepared(self) -> (r: Result<PreparedDeclarationV3<'a, A>, NotPreparedError>)
        ensures
            r is Ok <==> self.is_fully_specified(),
            r matches Ok(p) ==> p.account == self.account && p.inner == self.specified_raw(),
    {
        let nonce = match self.nonce {
            Some(v) => v,
            None => return Err(NotPreparedError),
        };
        let l1_gas = match self.l1_gas {
            Some(v) => v,
            None => return Err(NotPreparedError),
        };
        let l1_gas_price = match self.l1_gas_price {
            Some(v) => v,
            None => return Err(NotPreparedError),
        };
        let l2_gas = match self.l2_gas {
            Some(v) => v,
            None => return Err(NotPreparedError),
        };
        let l2_gas_price = match self.l2_gas_price {
            Some(v) => v,
            None => return Err(NotPreparedError),
        };
        let l1_data_gas = match self.l1_data_gas {
            Some(v) => v,
            None => return Err(NotPreparedError),
        };
        let l1_data_gas_price = match self.l1_data_gas_price {
            Some(v) => v,
            None => return Err(NotPreparedError),
        };
        let tip = match self.tip {
            Some(v) => v,
            None => return Err(NotPreparedError),
        };

        Ok(PreparedDeclarationV3 {
            account: self.account,
            inner: RawDeclarationV3 {
                contract_class: self.contract_class,
                compiled_class_hash: self.compiled_class_hash,
                nonce,
                l1_gas,
                l1_gas_price,
                l2_gas,
                l2_gas_price,
                l1_data_gas,
                l1_data_gas_price,
                tip,
                paymaster_data: self.paymaster_data,
                account_deployment_data: self.account_deployment_data,
                nonce_data_availability_mode: self.nonce_data_availability_mode,
                fee_data_availability_mode: self.fee_data_availability_mode,
            },
        })
    }
}

impl<'a, A: Account> PreparedDeclarationV3<'a, A> {
    /// Locally calculates the hash of the transaction to be sent from this declaration given the
    /// parameters.
    pub fn transaction_hash(&self, query_only: bool) -> (r: Felt)
        ensures
            r@ == declare_v3_hash(
                self.inner,
                self.account.spec_chain_id()@,
                self.account.spec_address()@,
                query_only,
            ),
    {
        self.inner.transaction_hash(self.account.chain_id(), self.account.address(), query_only)
    }
}


impl RawDeclarationV3 {
    /// The two declarations hold the same values: equal fields, and lists with equal contents.
    pub open spec fn same_fields(self, other: RawDeclarationV3) -> bool {
        &&& self.contract_class == other.contract_class
        &&& self.compiled_class_hash == other.compiled_class_hash
        &&& self.nonce == other.nonce
        &&& self.l1_gas == other.l1_gas
        &&& self.l1_gas_price == other.l1_gas_price
        &&& self.l2_gas == other.l2_gas
        &&& self.l2_gas_price == other.l2_gas_price
        &&& self.l1_data_gas == other.l1_data_gas
        &&& self.l1_data_gas_price == other.l1_data_gas_price
        &&& self.tip == other.tip
        &&& self.paymaster_data@ == other.paymaster_data@
        &&& self.account_deployment_data@ == other.account_deployment_data@
        &&& self.nonce_data_availability_mode == other.nonce_data_availability_mode
        &&& self.fee_data_availability_mode == other.fee_data_availability_mode
    }
}

/// Trusted: `<Arc<T> as Clone>::clone` from std, documented to make another pointer to the same
/// allocation; the class it points to is the same value.
#[verifier::external_body]
fn share_class(class: &Arc<FlattenedSierraClass>) -> (r: Arc<FlattenedSierraClass>)
    ensures
        r == *class,
{
    Arc::clone(class)
}

/// A copy of a list of field elements.
fn copy_felts(felts: &Vec<Felt>) -> (r: Vec<Felt>)
    ensures
        r@ == felts@,
{
    let mut copy: Vec<Felt> = Vec::new();
    let n = felts.len();
    for i in 0..n
        invariant
            n == felts@.len(),
            copy@ == felts@.take(i as int),
    {
        copy.push(felts[i]);
        assert(copy@ =~= felts@.take(i + 1));
    }
    assert(felts@.take(n as int) =~= felts@);
    copy
}

/// How the fee fields of a declaration are resolved before it is signed.
#[derive(Clone, Copy, Debug, PartialEq, Eq, Structural)]
pub enum FeeResolution {
    /// Every gas amount and price is set: they are used as they are.
    Specified {
        l1_gas: u64,
        l1_gas_price: u128,
        l2_gas: u64,
        l2_gas_price: u128,
        l1_data_gas: u64,
        l1_data_gas_price: u128,
    },
    /// Every gas amount is set but not every price: the amounts are kept, and all three prices
    /// are taken from the latest block and scaled by the price multiplier. The block is fetched
    /// with its transactions (`with_transactions`) when the tip must be estimated from them.
    BlockPrices { l1_gas: u64, l2_gas: u64, l1_data_gas: u64, with_transactions: bool },
    /// Some gas amount is unset: a fee estimation gives the amounts and the prices, each scaled
    /// by its multiplier.
    Estimate,
}

/// Where the tip of a declaration comes from.
#[derive(Clone, Copy, Debug, PartialEq, Eq, Structural)]
pub enum TipResolution {
    /// The tip was set.
    Specified(u64),
    /// The median tip of the block already fetched with its transactions for the gas prices.
    MedianOfFetchedBlock,
    /// The median tip of the latest block, fetched with its transactions for this.
    MedianOfNewBlock,
}

/// The error when a gas price from the network does not fit in 64 bits.
#[derive(Clone, Copy, Debug, PartialEq, Eq, Structural)]
pub struct FeeOutOfRange;

/// The fee fields of a declaration, once resolved.
#[derive(Clone, Copy, Debug, PartialEq, Eq, Structural)]
pub struct ResolvedFees {
    pub l1_gas: u64,
    pub l1_gas_price: u128,
    pub l2_gas: u64,
    pub l2_gas_price: u128,
    pub l1_data_gas: u64,
    pub l1_data_gas_price: u128,
}

/// A gas price of a block, a field element, as a `u64`; larger prices are out of range.
pub fn block_gas_price_to_u64(price: &Felt) -> (r: Result<u64, FeeOutOfRange>)
    ensures
        r is Ok <==> price@ <= u64::MAX,
        r matches Ok(v) ==> v == price@,
{
    match price.try_to_u64() {
        Some(v) => Ok(v),
        None => Err(FeeOutOfRange),
    }
}

/// An estimated gas price as a `u64`; larger prices are out of range.
pub fn estimated_gas_price_to_u64(price: u128) -> (r: Result<u64, FeeOutOfRange>)
    ensures
        r is Ok <==> price <= u64::MAX,
        r matches Ok(v) ==> v == price,
{
    if price <= u64::MAX as u128 {
        Ok(price as u64)
    } else {
        Err(FeeOutOfRange)
    }
}

/// The flags of a fee estimation: validation is skipped when the signature is.
pub fn fee_estimation_flags(skip_signature: bool) -> (r: Vec<SimulationFlagForEstimateFee>)
    ensures
        r@ == (if skip_signature {
            seq![SimulationFlagForEstimateFee::SkipValidate]
        } else {
            Seq::<SimulationFlagForEstimateFee>::empty()
        }),
{
    if skip_signature {
        vec![SimulationFlagForEstimateFee::SkipValidate]
    } else {
        vec![]
    }
}

/// Whether a simulation skips signing: only an interactive signer is spared, and only when
/// validation is skipped too.
pub fn simulation_skips_signature(signer_interactive: bool, skip_validate: bool) -> (r: bool)
    ensures
        r == (signer_interactive && skip_validate),
{
    if signer_interactive {
        skip_validate
    } else {
        false
    }
}

/// The flags of a simulation.
pub fn simulation_flags(skip_validate: bool, skip_fee_charge: bool) -> (r: Vec<SimulationFlag>)
    ensures
        r@ == (if skip_validate {
            seq![SimulationFlag::SkipValidate]
        } else {
            Seq::<SimulationFlag>::empty()
        }) + (if skip_fee_charge {
            seq![SimulationFlag::SkipFeeCharge]
        } else {
            Seq::<SimulationFlag>::empty()
        }),
{
    let mut flags = vec![];
    if skip_validate {
        flags.push(SimulationFlag::SkipValidate);
    }
    if skip_fee_charge {
        flags.push(SimulationFlag::SkipFeeCharge);
    }
    assert(flags@ =~= (if skip_validate {
        seq![SimulationFlag::SkipValidate]
    } else {
        Seq::<SimulationFlag>::empty()
    }) + (if skip_fee_charge {
        seq![SimulationFlag::SkipFeeCharge]
    } else {
        Seq::<SimulationFlag>::empty()
    }));
    flags
}

/// A value that may be unset, or 0.
pub open spec fn or_zero_u64(value: Option<u64>) -> u64 {
    match value {
        Some(v) => v,
        None => 0,
    }
}

/// A price that may be unset, or 0.
pub open spec fn or_zero_u128(value: Option<u128>) -> u128 {
    match value {
        Some(v) => v,
        None => 0,
    }
}

impl<'a, A> DeclarationV3<'a, A> {
    /// How the fee fields are resolved: as set when all six are; from block prices when every
    /// gas amount is set; from a fee estimation otherwise.
    pub open spec fn spec_fee_resolution(self) -> FeeResolution {
        if self.l1_gas is Some && self.l1_gas_price is Some && self.l2_gas is Some
            && self.l2_gas_price is Some && self.l1_data_gas is Some
            && self.l1_data_gas_price is Some {
            FeeResolution::Specified {
                l1_gas: self.l1_gas->0,
                l1_gas_price: self.l1_gas_price->0,
                l2_gas: self.l2_gas->0,
                l2_gas_price: self.l2_gas_price->0,
                l1_data_gas: self.l1_data_gas->0,
                l1_data_gas_price: self.l1_data_gas_price->0,
            }
        } else if self.l1_gas is Some && self.l2_gas is Some && self.l1_data_gas is Some {
            FeeResolution::BlockPrices {
                l1_gas: self.l1_gas->0,
                l2_gas: self.l2_gas->0,
                l1_data_gas: self.l1_data_gas->0,
                with_transactions: self.tip is None,
            }
        } else {
            FeeResolution::Estimate
        }
    }

    /// Decides how the fee fields are resolved before the declaration is signed.
    pub fn fee_resolution(&self) -> (r: FeeResolution)
        ensures
            r == self.spec_fee_resolution(),
    {
        match (
            self.l1_gas,
            self.l1_gas_price,
            self.l2_gas,
            self.l2_gas_price,
            self.l1_data_gas,
            self.l1_data_gas_price,
        ) {
            (
                Some(l1_gas),
                Some(l1_gas_price),
                Some(l2_gas),
                Some(l2_gas_price),
                Some(l1_data_gas),
                Some(l1_data_gas_price),
            ) => FeeResolution::Specified {
                l1_gas,
                l1_gas_price,
                l2_gas,
                l2_gas_price,
                l1_data_gas,
                l1_data_gas_price,
            },
            (Some(l1_gas), _, Some(l2_gas), _, Some(l1_data_gas), _) => {
                FeeResolution::BlockPrices {
                    l1_gas,
                    l2_gas,
                    l1_data_gas,
                    with_transactions: self.tip.is_none(),
                }
            },
            _ => FeeResolution::Estimate,
        }
    }

    /// Where the tip comes from: as set; else the median of the block fetched with its
    /// transactions for the gas prices, if there is one; else the median of a newly fetched block.
    pub open spec fn spec_tip_resolution(self, fees: FeeResolution) -> TipResolution {
        match self.tip {
            Some(tip) => TipResolution::Specified(tip),
            None => match fees {
                FeeResolution::BlockPrices { with_transactions: true, .. } => {
                    TipResolution::MedianOfFetchedBlock
                },
                _ => TipResolution::MedianOfNewBlock,
            },
        }
    }

    /// Decides where the tip comes from, given how the fee fields are resolved.
    pub fn tip_resolution(&self, fees: &FeeResolution) -> (r: TipResolution)
        ensures
            r == (match self.tip {
                Some(tip) => TipResolution::Specified(tip),
                None => match *fees {
                    FeeResolution::BlockPrices { with_transactions: true, .. } => {
                        TipResolution::MedianOfFetchedBlock
                    },
                    _ => TipResolution::MedianOfNewBlock,
                },
            }),
            r == self.spec_tip_resolution(*fees),
    {
        match self.tip {
            Some(tip) => TipResolution::Specified(tip),
            None => match fees {
                FeeResolution::BlockPrices { with_transactions: true, .. } => {
                    TipResolution::MedianOfFetchedBlock
                },
                _ => TipResolution::MedianOfNewBlock,
            },
        }
    }

    /// The declaration to sign once the nonce, the fee fields and the tip are resolved.
    pub fn prepared_with(&self, nonce: Felt, fees: ResolvedFees, tip: u64) -> (r:
        PreparedDeclarationV3<'a, A>)
        ensures
            r.account == self.account,
            r.inner.same_fields(
                self.raw_with(
                    nonce,
                    fees.l1_gas,
                    fees.l1_gas_price,
                    fees.l2_gas,
                    fees.l2_gas_price,
                    fees.l1_data_gas,
                    fees.l1_data_gas_price,
                    tip,
                ),
            ),
    {
        PreparedDeclarationV3 {
            account: self.account,
            inner: RawDeclarationV3 {
                contract_class: share_class(&self.contract_class),
                compiled_class_hash: self.compiled_class_hash,
                nonce,
                l1_gas: fees.l1_gas,
                l1_gas_price: fees.l1_gas_price,
                l2_gas: fees.l2_gas,
                l2_gas_price: fees.l2_gas_price,
                l1_data_gas: fees.l1_data_gas,
                l1_data_gas_price: fees.l1_data_gas_price,
                tip,
                paymaster_data: copy_felts(&self.paymaster_data),
                account_deployment_data: copy_felts(&self.account_deployment_data),
                nonce_data_availability_mode: self.nonce_data_availability_mode,
                fee_data_availability_mode: self.fee_data_availability_mode,
            },
        }
    }

    /// The declaration whose fee is estimated: every fee field and the tip are 0.
    pub fn fee_estimation_declaration(&self, nonce: Felt) -> (r: PreparedDeclarationV3<'a, A>)
        ensures
            r.account == self.account,
            r.inner.same_fields(self.raw_with(nonce, 0, 0, 0, 0, 0, 0, 0)),
    {
        self.prepared_with(
            nonce,
            ResolvedFees {
                l1_gas: 0,
                l1_gas_price: 0,
                l2_gas: 0,
                l2_gas_price: 0,
                l1_data_gas: 0,
                l1_data_gas_price: 0,
            },
            0,
        )
    }

    /// The declaration that is simulated: the fee fields and the tip left unset are 0.
    pub fn simulation_declaration(&self, nonce: Felt) -> (r: PreparedDeclarationV3<'a, A>)
        ensures
            r.account == self.account,
            r.inner.same_fields(
                self.raw_with(
                    nonce,
                    or_zero_u64(self.l1_gas),
                    or_zero_u128(self.l1_gas_price),
                    or_zero_u64(self.l2_gas),
                    or_zero_u128(self.l2_gas_price),
                    or_zero_u64(self.l1_data_gas),
                    or_zero_u128(self.l1_data_gas_price),
                    or_zero_u64(self.tip),
                ),
            ),
    {
        self.prepared_with(
            nonce,
            ResolvedFees {
                l1_gas: self.l1_gas.unwrap_or(0),
                l1_gas_price: self.l1_gas_price.unwrap_or(0),
                l2_gas: self.l2_gas.unwrap_or(0),
                l2_gas_price: self.l2_gas_price.unwrap_or(0),
                l1_data_gas: self.l1_data_gas.unwrap_or(0),
                l1_data_gas_price: self.l1_data_gas_price.unwrap_or(0),
            },
            self.tip.unwrap_or(0),
        )
    }
}

impl<'a, A: Account> PreparedDeclarationV3<'a, A> {
    /// Gets the broadcasted declare transaction request. `signature` is the account's signature
    /// of the declaration, or `None` when signing was skipped; the request then carries an empty
    /// signature.
    pub fn get_declare_request(&self, query_only: bool, signature: Option<Vec<Felt>>) -> (r:
        BroadcastedDeclareTransactionV3)
        ensures
            r.sender_address == self.account.spec_address(),
            r.compiled_class_hash == self.inner.compiled_class_hash,
            r.signature@ == (match signature {
                Some(s) => s@,
                None => Seq::<Felt>::empty(),
            }),
            r.nonce == self.inner.nonce,
            r.contract_class == self.inner.contract_class,
            r.resource_bounds == (ResourceBoundsMapping {
                l1_gas: ResourceBounds {
                    max_amount: self.inner.l1_gas,
                    max_price_per_unit: self.inner.l1_gas_price,
                },
                l1_data_gas: ResourceBounds {
                    max_amount: self.inner.l1_data_gas,
                    max_price_per_unit: self.inner.l1_data_gas_price,
                },
                l2_gas: ResourceBounds {
                    max_amount: self.inner.l2_gas,
                    max_price_per_unit: self.inner.l2_gas_price,
                },
            }),
            r.tip == self.inner.tip,
            r.paymaster_data@ == self.inner.paymaster_data@,
            r.account_deployment_data@ == self.inner.account_deployment_data@,
            r.nonce_data_availability_mode == self.inner.nonce_data_availability_mode,
            r.fee_data_availability_mode == self.inner.fee_data_availability_mode,
            r.is_query == query_only,
    {
        BroadcastedDeclareTransactionV3 {
            sender_address: self.account.address(),
            compiled_class_hash: self.inner.compiled_class_hash,
            signature: match signature {
                Some(s) => s,
                None => vec![],
            },
            nonce: self.inner.nonce,
            contract_class: share_class(&self.inner.contract_class),
            resource_bounds: ResourceBoundsMapping {
                l1_gas: ResourceBounds {
                    max_amount: self.inner.l1_gas,
                    max_price_per_unit: self.inner.l1_gas_price,
                },
                l1_data_gas: ResourceBounds {
                    max_amount: self.inner.l1_data_gas,
                    max_price_per_unit: self.inner.l1_data_gas_price,
                },
                l2_gas: ResourceBounds {
                    max_amount: self.inner.l2_gas,
                    max_price_per_unit: self.inner.l2_gas_price,
                },
            },
            tip: self.inner.tip,
            paymaster_data: copy_felts(&self.inner.paymaster_data),
            account_deployment_data: copy_felts(&self.inner.account_deployment_data),
            nonce_data_availability_mode: self.inner.nonce_data_availability_mode,
            fee_data_availability_mode: self.inner.fee_data_availability_mode,
            is_query: query_only,
        }
    }
}

} // verus!
