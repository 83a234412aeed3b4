use vstd::arithmetic::div_mod::*;
use vstd::prelude::*;

use sha3::Digest;

use crate::felt::{
    be_value, byte_shift, felt_prime, lemma_be_value_append, lemma_be_value_bound, Felt,
};

verus! {

/// The Starknet Poseidon hash (`poseidon_hash_many`) of a sequence of field elements, given by
/// their numbers.
pub uninterp spec fn poseidon_hash_many(messages: Seq<nat>) -> nat;

/// The 32-byte Keccak-256 digest of a byte string.
pub uninterp spec fn keccak256(data: Seq<u8>) -> Seq<u8>;

/// The numbers of a list of big-endian encodings.
pub open spec fn be_values(messages: Seq<[u8; 32]>) -> Seq<nat> {
    messages.map_values(|m: [u8; 32]| be_value(m@))
}

/// Trusted: `starknet_rust_crypto::poseidon_hash_many`, on the elements read from their
/// canonical big-endian encodings with `starknet_types_core::felt::Felt::from_bytes_be`, read
/// back with `Felt::to_bytes_be`. The hash depends on the messages alone; the encoding of the
/// result is canonical.
#[verifier::external_body]
fn poseidon_hash_many_be(messages: &Vec<[u8; 32]>) -> (digest: [u8; 32])
    requires
        forall|i: int| 0 <= i < messages@.len() ==> be_value(#[trigger] messages@[i]@) < felt_prime(),
    ensures
        be_value(digest@) == poseidon_hash_many(be_values(messages@)),
        be_value(digest@) < felt_prime(),
{
    let felts: Vec<starknet_rust_crypto::Felt> = messages.iter().map(
        |m| starknet_rust_crypto::Felt::from_bytes_be(m),
    ).collect();
    starknet_rust_crypto::poseidon_hash_many(&felts).to_bytes_be()
}

/// Trusted: `sha3::Keccak256::digest`, converted to an array. The digest of `data`.
#[verifier::external_body]
fn keccak256_digest(data: &[u8]) -> (digest: [u8; 32])
    ensures
        digest@ == keccak256(data@),
{
    sha3::Keccak256::digest(data).into()
}

/// The numbers of a sequence of field elements.
pub open spec fn felt_values(felts: Seq<Felt>) -> Seq<nat> {
    felts.map_values(|f: Felt| f@)
}

/// The Poseidon hash of a list of field elements.
pub fn poseidon_hash_felts(felts: &Vec<Felt>) -> (digest: Felt)
    ensures
        digest@ == poseidon_hash_many(felt_values(felts@)),
{
    let mut messages: Vec<[u8; 32]> = Vec::new();
    let n = felts.len();
    for i in 0..n
        invariant
            n == felts@.len(),
            messages@.len() == i,
            be_values(messages@) == felt_values(felts@.take(i as int)),
            forall|j: int| 0 <= j < i ==> be_value(#[trigger] messages@[j]@) < felt_prime(),
    {
        let ghost before = messages@;
        let bytes = felts[i].to_bytes_be();
        messages.push(bytes);
        assert(messages@ == before.push(bytes));
        assert(be_values(messages@) =~= be_values(before).push(felts@[i as int]@));
        assert(felt_values(felts@.take(i + 1)) =~= felt_values(felts@.take(i as int)).push(
            felts@[i as int]@,
        ));
    }
    assert(felts@.take(n as int) =~= felts@);
    let digest = poseidon_hash_many_be(&messages);
    Felt::from_canonical_bytes_be(&digest)
}

/// `2^250`: Starknet Keccak keeps the digest below this bound.
pub open spec fn keccak_bound() -> nat {
    0x400000000000000000000000000000000000000000000000000000000000000nat
}

/// Starknet Keccak: Keccak-256 with the six most significant bits removed, as a number.
pub open spec fn starknet_keccak_value(data: Seq<u8>) -> nat {
    be_value(keccak256(data)) % keccak_bound()
}

proof fn lemma_clear_top_bits(old_digest: Seq<u8>, new_digest: Seq<u8>)
    requires
        old_digest.len() == 32,
        new_digest == old_digest.update(0, old_digest[0] & 3),
    ensures
        be_value(new_digest) == be_value(old_digest) % keccak_bound(),
{
    let rest = old_digest.subrange(1, 32);
    let b0 = old_digest[0];
    let m0 = (b0 & 3) as u8;
    assert(old_digest =~= seq![b0] + rest);
    assert(new_digest =~= seq![m0] + rest);
    lemma_be_value_append(seq![b0], rest);
    lemma_be_value_append(seq![m0], rest);
    assert(seq![b0].drop_last() =~= Seq::<u8>::empty());
    assert(seq![m0].drop_last() =~= Seq::<u8>::empty());
    assert(be_value(Seq::<u8>::empty()) == 0);
    assert(seq![b0].last() == b0);
    assert(seq![m0].last() == m0);
    assert(be_value(seq![b0]) == b0 as nat);
    assert(be_value(seq![m0]) == m0 as nat);
    let s = byte_shift(31);
    assert(s == 0x100000000000000000000000000000000000000000000000000000000000000nat) by {
        reveal_with_fuel(byte_shift, 32);
    }
    lemma_be_value_bound(rest);
    assert(b0 & 3 == b0 % 4) by (bit_vector);
    let q = b0 as nat / 4;
    assert(b0 as nat == 4 * q + m0 as nat) by {
        lemma_fundamental_div_mod(b0 as int, 4);
    }
    let y = m0 as nat * s + be_value(rest);
    assert(be_value(old_digest) == keccak_bound() * q + y) by (nonlinear_arith)
        requires
            be_value(old_digest) == b0 as nat * s + be_value(rest),
            b0 as nat == 4 * q + m0 as nat,
            keccak_bound() == 4 * s,
            y == m0 as nat * s + be_value(rest),
    ;
    assert(y < keccak_bound()) by (nonlinear_arith)
        requires
            m0 < 4,
            be_value(rest) < s,
            keccak_bound() == 4 * s,
            y == m0 as nat * s + be_value(rest),
    ;
    lemma_mod_multiples_vanish(q as int, y as int, keccak_bound() as int);
    lemma_small_mod(y, keccak_bound());
}

/// Starknet Keccak of a byte string: Keccak-256 with the six most significant bits removed,
/// read as a field element.
pub fn starknet_keccak(data: &[u8]) -> (r: Felt)
    ensures
        r@ == starknet_keccak_value(data@),
{
    let mut hash = keccak256_digest(data);
    let ghost digest = hash@;
    hash[0] = hash[0] & 3;
    proof {
        lemma_clear_top_bits(digest, hash@);
        assert(keccak_bound() < felt_prime());
        lemma_small_mod(be_value(hash@), felt_prime());
    }
    Felt::from_bytes_be(&hash)
}

} // verus!
