use starknet_declaration::crypto::{poseidon_hash_felts, starknet_keccak};
use starknet_declaration::felt::Felt;
use starknet_declaration::types::{
    normalize_address, EntryPointsByType, FlattenedSierraClass, SierraEntryPoint,
};

type OutsideFelt = starknet_types_core::felt::Felt;

fn felt_from_hex(hex: &str) -> Felt {
    Felt::from_bytes_be(&OutsideFelt::from_hex_unchecked(hex).to_bytes_be())
}

fn be_bytes(hex: &str) -> [u8; 32] {
    OutsideFelt::from_hex_unchecked(hex).to_bytes_be()
}

#[test]
fn felt_bytes_round_trip() {
    let bytes = be_bytes("0x3fc6ec9be3b9f33acdb152ef83b92738065e8e66bbdf2c99e07d74dfc1679a5");
    assert_eq!(Felt::from_bytes_be(&bytes).to_bytes_be(), bytes);
    let mut small = [0u8; 32];
    small[31] = 7;
    small[30] = 1;
    assert_eq!(Felt::from_bytes_be(&small), Felt::from(0x107_u64));
    assert_eq!(Felt::from(0x107_u64).to_bytes_be(), small);
}

#[test]
fn felt_from_bytes_reduces_modulo_the_prime() {
    // The prime itself, 2^251 + 17 * 2^192 + 1, reduces to 0.
    let mut prime = [0u8; 32];
    prime[0] = 0x08;
    prime[7] = 0x11;
    prime[31] = 0x01;
    assert_eq!(Felt::from_bytes_be(&prime), Felt::from(0_u64));
    // The prime plus 5 reduces to 5.
    prime[31] = 0x06;
    assert_eq!(Felt::from_bytes_be(&prime), Felt::from(5_u64));
    // 2^256 - 1 reduces to 2^256 - 1 - 31 * prime.
    let all_ones = [0xffu8; 32];
    assert_eq!(
        Felt::from_bytes_be(&all_ones),
        felt_from_hex("0x7fffffffffffdf0ffffffffffffffffffffffffffffffffffffffffffffffe0")
    );
}

#[test]
fn felt_mod_floor_and_u64() {
    assert_eq!(Felt::from(17_u64).mod_floor(&Felt::from(5_u64)), Felt::from(2_u64));
    assert_eq!(Felt::from(3_u64).mod_floor(&Felt::from(5_u64)), Felt::from(3_u64));
    assert_eq!(Felt::from(u64::MAX).try_to_u64(), Some(u64::MAX));
    assert_eq!(felt_from_hex("0x10000000000000000").try_to_u64(), None);
}

#[test]
fn normalize_address_reduces_below_the_bound() {
    // 2^251 - 256 + 3 becomes 3; smaller values are kept.
    let above = felt_from_hex("0x800000000000000000000000000000000000000000000000000000000000003");
    let bound = felt_from_hex("0x7ffffffffffffffffffffffffffffffffffffffffffffffffffffffffffff00");
    assert_eq!(
        normalize_address(felt_from_hex(
            "0x7ffffffffffffffffffffffffffffffffffffffffffffffffffffffffffff03"
        )),
        Felt::from(3_u64)
    );
    assert_eq!(normalize_address(bound), Felt::from(0_u64));
    assert_eq!(normalize_address(Felt::from(42_u64)), Felt::from(42_u64));
    assert_eq!(normalize_address(above), Felt::from(259_u64));
}

#[test]
fn starknet_keccak_of_empty_input() {
    // Keccak-256 of the empty string is c5d24601...a470; the six top bits are cleared.
    assert_eq!(
        starknet_keccak(&[]),
        felt_from_hex("0x1d2460186f7233c927e7db2dcc703c0e500b653ca82273b7bfad8045d85a470")
    );
}

#[test]
fn starknet_keccak_of_function_name() {
    // The selector of `transfer`.
    assert_eq!(
        starknet_keccak(b"transfer"),
        felt_from_hex("0x83afd3f4caedc6eebf44246fe54e38c95e3179a5ec9ea81740eca5b482d12e")
    );
}

#[test]
fn poseidon_hash_of_felts_matches_outside_hash() {
    let inputs = [1_u64, 2, 3];
    let felts: Vec<Felt> = inputs.iter().map(|x| Felt::from(*x)).collect();
    let outside: Vec<OutsideFelt> = inputs.iter().map(|x| OutsideFelt::from(*x)).collect();
    let expected = starknet_rust_crypto::poseidon_hash_many(&outside);
    assert_eq!(poseidon_hash_felts(&felts).to_bytes_be(), expected.to_bytes_be());
    assert_ne!(poseidon_hash_felts(&felts), Felt::from(3_u64));
}

fn class_with(version: &str, abi: &str) -> FlattenedSierraClass {
    FlattenedSierraClass {
        sierra_program: vec![Felt::from(1_u64), Felt::from(2_u64)],
        contract_class_version: version.to_string(),
        entry_points_by_type: EntryPointsByType {
            constructor: vec![],
            external: vec![SierraEntryPoint {
                selector: Felt::from(0x42_u64),
                function_idx: 3,
            }],
            l1_handler: vec![],
        },
        abi: abi.to_string(),
    }
}

#[test]
fn class_hash_ignores_class_version() {
    assert_eq!(
        class_with("0.1.0", "[]").class_hash(),
        class_with("9.9.9", "[]").class_hash()
    );
}

#[test]
fn class_hash_depends_on_abi() {
    assert_ne!(
        class_with("0.1.0", "[]").class_hash(),
        class_with("0.1.0", "[{}]").class_hash()
    );
}
