//! Account identifiers.

use vstd::prelude::*;

verus! {

/// The identifier of an account or of a component: an opaque byte string.
/// Two addresses are the same account exactly when their bytes are equal.
#[derive(Debug, PartialEq, Eq)]
pub struct Address {
    id: Vec<u8>,
}

impl View for Address {
    type V = Seq<u8>;

    closed spec fn view(&self) -> Seq<u8> {
        self.id@
    }
}

impl Clone for Address {
    fn clone(&self) -> (copy: Self)
        ensures
            copy@ == self@,
    {
        let id = self.id.clone();
        assert(id@ =~= self.id@);
        Address { id }
    }
}

impl Address {
    /// The address with the given identifier.
    pub fn new(id: Vec<u8>) -> (address: Address)
        ensures
            address@ == id@,
    {
        Address { id }
    }

    /// The identifier's bytes.
    pub fn as_bytes(&self) -> (id: &Vec<u8>)
        ensures
            id@ == self@,
    {
        &self.id
    }

    /// Whether both addresses name the same account.
    pub fn same_as(&self, other: &Address) -> (same: bool)
        ensures
            same == (self@ == other@),
    {
        crate::octets::bytes_equal(&self.id, &other.id)
    }
}

/// The views of a sequence of addresses, in order.
pub open spec fn address_views(addresses: Seq<Address>) -> Seq<Seq<u8>> {
    addresses.map_values(|a: Address| a@)
}

/// The view of an address that may be unset.
pub open spec fn optional_view(address: Option<Address>) -> Option<Seq<u8>> {
    match address {
        Some(a) => Some(a@),
        None => None,
    }
}

} // verus!
