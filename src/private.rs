use vstd::prelude::*;

verus! {

/// Marker that keeps the state traits of `domain` closed to other crates.
pub trait Sealed {}

} // verus!
