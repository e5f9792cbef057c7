//! Account identifiers.

use vstd::prelude::*;

verus! {

/// An account identifier on the host ledger.
///
/// The platform treats addresses as opaque capabilities; the ledger core
/// only ever compares them for equality, so it carries them as plain
/// numeric identifiers. An embedding maps each real platform address to a
/// distinct identifier at the boundary.
#[derive(Clone, Copy, PartialEq, Eq, Structural, Debug)]
pub struct Address {
    pub id: u64,
}

impl Address {
    /// The address with the given numeric identifier.
    pub fn new(id: u64) -> (r: Address)
        ensures
            r.id == id,
    {
        Address { id }
    }
}

} // verus!
