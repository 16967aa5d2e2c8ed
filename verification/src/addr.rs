//! Account addresses: 32-byte identities compared by value.

use vstd::prelude::*;

verus! {

/// An account address: 32 bytes, the only identity the logic ever reads.
/// Mirrors the execution environment's public-key type as plain bytes.
#[derive(Clone, Copy)]
pub struct Address {
    pub bytes: [u8; 32],
}

impl View for Address {
    type V = Seq<u8>;

    open spec fn view(&self) -> Seq<u8> {
        self.bytes@
    }
}

impl Address {
    /// Build an address from its raw bytes.
    pub fn new(bytes: [u8; 32]) -> (r: Address)
        ensures
            r@ == bytes@,
    {
        Address { bytes }
    }

    /// The address every system-owned account names as its owner.
    pub fn system_program() -> (r: Address)
        ensures
            r@ == system_program_id(),
    {
        let a = Address { bytes: [0u8; 32] };
        proof {
            assert(a@ =~= system_program_id());
        }
        a
    }
}

/// The system program's address: 32 zero bytes.
pub open spec fn system_program_id() -> Seq<u8> {
    Seq::new(32, |i: int| 0u8)
}

/// Byte-for-byte equality of two addresses.
pub fn address_eq(a: &Address, b: &Address) -> (r: bool)
    ensures
        r == (a@ == b@),
{
    let mut i: usize = 0;
    while i < 32
        invariant
            i <= 32,
            forall|j: int| 0 <= j < i ==> a.bytes[j] == b.bytes[j],
        decreases 32 - i,
    {
        if a.bytes[i] != b.bytes[i] {
            assert(a@[i as int] != b@[i as int]);
            return false;
        }
        i += 1;
    }
    proof {
        assert(a@ =~= b@);
    }
    true
}

/// Equality of two optional addresses, by value.
pub open spec fn spec_opt_addr_eq(a: Option<Address>, b: Seq<u8>) -> bool {
    match a {
        Some(x) => x@ == b,
        None => false,
    }
}

/// Does the option hold exactly this address?
pub fn opt_addr_is(a: &Option<Address>, b: &Address) -> (r: bool)
    ensures
        r == spec_opt_addr_eq(*a, b@),
{
    match a {
        Some(x) => address_eq(x, b),
        None => false,
    }
}

} // verus!
