use vstd::prelude::*;

verus! {

/// Keeps the signal and interrupt traits closed to the types of this crate.
pub trait Sealed {}

} // verus!
