# starknet_declaration

Building, hashing and converting Starknet V3 class declarations, verified with Verus.

- `src/felt.rs`: field elements (four 64-bit limbs, kept below the prime) and their
  big-endian byte encoding.
- `src/crypto.rs`: Poseidon hashing and Starknet Keccak, over the outside
  `starknet-rust-crypto` and `sha3` crates.
- `src/types.rs`: data availability modes, resource bounds, Sierra classes and their class
  hash, simulation flags and the broadcast form of a declaration.
- `src/declaration.rs`: the declaration builder, the fixed declaration and its transaction
  hash, and the decisions taken before a declaration is signed (how fees and the tip are
  resolved, the declarations used for fee estimation and simulation).
- `src/legacy.rs`, `src/transactions.rs`, `src/conversions.rs`: legacy ABI entries and
  transaction types, and the conversions between their forms.
- `src/laws.rs`: properties that relate several functions.
- `app/`: the asynchronous side (network calls, signing, the floating-point fee
  multipliers), driven by the decisions of the library.
