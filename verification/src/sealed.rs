//! The sealed half of the type-equality witness.

use vstd::prelude::*;

verus! {

/// Every type is `Is`-related to exactly itself; because the trait lives in a
/// private module, no outside impl can relate two distinct types.
pub trait Is {
    type Equal;
}

impl<T> Is for T {
    type Equal = T;
}

} // verus!
