//! Addresses inside the process that the engine works on.

use vstd::prelude::*;

verus! {

/// The place of one byte in the process's address space, as a number.
pub type Address = usize;

/// The address at which nothing lives: the engine's answer when it found nothing.
pub const NULL_ADDRESS: Address = 0;

} // verus!
