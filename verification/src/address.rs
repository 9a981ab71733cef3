use vstd::prelude::*;

verus! {

/// An addressable account on the host chain: a party able to authenticate as
/// itself, a deployed contract's custody account, or a token contract.
/// Reduced to the stable identifier that the contract logic compares.
#[derive(Clone, Copy, PartialEq, Eq, Structural, Debug)]
pub struct Address {
    pub id: u64,
}

impl Address {
    pub fn new(id: u64) -> (r: Address)
        ensures
            r.id == id,
    {
        Address { id }
    }
}

} // verus!
