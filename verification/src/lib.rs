//! Building, hashing and converting Starknet V3 class declarations.
use vstd::prelude::*;

pub mod conversions;
pub mod crypto;
pub mod declaration;
pub mod felt;
pub mod laws;
pub mod legacy;
pub mod transactions;
pub mod types;

verus! {
}
