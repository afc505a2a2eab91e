//! The bounded vector of the `heapless` crate, as far as Verus needs to know
//! it: a type whose values are carried through and never looked into.

use vstd::prelude::*;

verus! {

/// `heapless::Vec`, a vector of at most `N` items held in place.
#[verifier::external_type_specification]
#[verifier::external_body]
#[verifier::reject_recursive_types(T)]
pub struct ExBoundedVec<T, const N: usize>(heapless::Vec<T, N>);

} // verus!
