use vstd::prelude::*;

verus! {

/// A 160-bit account address, split into its top 32 bits and low 128 bits so
/// that it can be compared and stored as plain unsigned integers.
#[derive(Clone, Copy, Debug, PartialEq, Eq, Structural)]
pub struct Address {
    /// Bits 128..160 of the address.
    pub hi: u32,
    /// Bits 0..128 of the address.
    pub lo: u128,
}

impl Address {
    /// Builds an address from its two halves.
    pub fn new(hi: u32, lo: u128) -> (a: Address)
        ensures
            a.hi == hi,
            a.lo == lo,
    {
        Address { hi, lo }
    }
}

} // verus!
