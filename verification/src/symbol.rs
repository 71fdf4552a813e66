//! Symbol lookup: which names the engine can be asked about, and what its
//! answer means.

use crate::address::{Address, NULL_ADDRESS};
use vstd::prelude::*;
use vstd::string::*;

verus! {

/// Holds when no byte of `bytes` is the terminator byte, so that the engine
/// reads the whole text and not a prefix of it.
pub open spec fn no_terminator(bytes: Seq<u8>) -> bool {
    forall|i: int| 0 <= i < bytes.len() ==> bytes[i] != 0u8
}

/// Tells whether `name` can be handed to the engine as the name of an image
/// or of a symbol.
pub fn is_symbol_name(name: &str) -> (ok: bool)
    ensures
        ok == no_terminator(name.spec_bytes()),
{
    let bytes = name.as_bytes();
    let mut i: usize = 0;
    while i < bytes.len()
        invariant
            i <= bytes.len(),
            bytes@ == name.spec_bytes(),
            forall|j: int| 0 <= j < i ==> bytes@[j] != 0u8,
        decreases bytes.len() - i,
    {
        if bytes[i] == 0 {
            return false;
        }
        i += 1;
    }
    true
}

/// What a lookup that the engine answered with `found` has found: nothing
/// when the engine answered with the null address, else the address itself.
pub open spec fn resolved(found: Address) -> Option<Address> {
    if found == NULL_ADDRESS {
        None
    } else {
        Some(found)
    }
}

/// Completes the lookup of `symbol_name` within the image `image_name`, which
/// the engine answered with `found`.
///
/// A symbol that does not exist, or an image that is not loaded, is an
/// ordinary outcome: the engine answers with the null address, and the
/// lookup yields `None`. There is no error to report.
pub fn resolve_symbol(image_name: &str, symbol_name: &str, found: Address) -> (r: Option<Address>)
    requires
        no_terminator(image_name.spec_bytes()),
        no_terminator(symbol_name.spec_bytes()),
    ensures
        r == resolved(found),
        r is None <==> found == NULL_ADDRESS,
        r matches Some(address) ==> address == found,
{
    if found == NULL_ADDRESS {
        None
    } else {
        Some(found)
    }
}

} // verus!
