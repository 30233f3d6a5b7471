//! Leaf values shared by both schemas: addresses, 32-byte hashes, 256-bit
//! words and byte strings. Both client libraries carry these values by value,
//! so a conversion of a leaf from one schema to the other keeps it unchanged.
use vstd::prelude::*;

verus! {

/// A 20-byte account address.
#[derive(Clone, Copy, Debug, PartialEq, Eq)]
pub struct Address(pub [u8; 20]);

/// A 32-byte hash or storage slot.
#[derive(Clone, Copy, Debug, PartialEq, Eq)]
pub struct H256(pub [u8; 32]);

/// A 256-bit unsigned integer, as four 64-bit limbs, least significant first.
#[derive(Clone, Copy, Debug, PartialEq, Eq)]
pub struct U256(pub [u64; 4]);

/// An arbitrary byte string.
pub type Bytes = Vec<u8>;

impl View for Address {
    type V = Address;

    open spec fn view(&self) -> Address {
        *self
    }
}

impl View for H256 {
    type V = H256;

    open spec fn view(&self) -> H256 {
        *self
    }
}

impl View for U256 {
    type V = U256;

    open spec fn view(&self) -> U256 {
        *self
    }
}

} // verus!
