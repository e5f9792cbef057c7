//! Static token metadata.

use vstd::prelude::*;

verus! {

/// Descriptive metadata of a token, fixed at initialization and never
/// mutated by any operation of the core.
pub struct TokenMetadata {
    pub decimals: u32,
    pub name: String,
    pub symbol: String,
}

impl TokenMetadata {
    /// Metadata with the given fields.
    pub fn new(decimals: u32, name: String, symbol: String) -> (r: TokenMetadata)
        ensures
            r.decimals == decimals,
            r.name@ == name@,
            r.symbol@ == symbol@,
    {
        TokenMetadata { decimals, name, symbol }
    }
}

} // verus!
