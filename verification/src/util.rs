use vstd::prelude::*;

verus! {

/// Seals the crate's capability traits: lifecycle states and index-width
/// selectors form closed sets, so outside code cannot add new ones.
pub trait Sealed {

}

} // verus!
