//! Identities of the participants and contracts the engine deals with.

use vstd::prelude::*;

verus! {

/// An identity on the ledger, held as its textual key.
///
/// Two addresses are the same identity exactly when their keys are the same
/// text.
#[derive(Debug, PartialEq, Eq)]
pub struct Address {
    pub key: String,
}

impl View for Address {
    type V = Seq<char>;

    open spec fn view(&self) -> Seq<char> {
        self.key@
    }
}

impl Clone for Address {
    fn clone(&self) -> (address: Address)
        ensures
            address == *self,
    {
        Address { key: self.key.clone() }
    }
}

impl Address {
    /// The address with the given textual key.
    pub fn new(key: String) -> (address: Address)
        ensures
            address@ == key@,
            address.key == key,
    {
        Address { key }
    }

    /// Whether both addresses name the same identity.
    pub fn same(&self, other: &Address) -> (same: bool)
        ensures
            same == (self@ == other@),
    {
        self.key == other.key
    }
}

} // verus!
