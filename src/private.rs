use vstd::prelude::*;

verus! {

/// Marker that closes `BoolFlow` to the types this crate chooses.
pub trait Sealed {
}

impl Sealed for bool {
}

} // verus!
