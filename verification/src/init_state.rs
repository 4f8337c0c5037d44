use vstd::prelude::*;

verus! {

use crate::util::Sealed;

/// A lifecycle state of an array handle. The set of states is closed.
pub trait State: Sealed {

}

/// States from which a cooperative write may start: either no element is
/// guaranteed written yet, or the array is fully initialized and may be
/// re-initialized.
pub trait Splitable: State {

}

/// States in which reading is permitted: either every unit's write has been
/// made visible by a barrier, or the handle is restricted to the sub-range
/// the calling unit itself has just written.
pub trait Viewable: State {

}

/// Every element is guaranteed written and visible to every unit in the
/// handle's scope: a barrier has been crossed since the last write.
pub struct Init;

/// No element is guaranteed written.
pub struct Uninit;

/// The calling unit has written exactly its own sub-range and holds a handle
/// restricted to that sub-range; no barrier has been crossed yet.
pub struct FinallySplit;

impl Sealed for Init {

}

impl Sealed for Uninit {

}

impl Sealed for FinallySplit {

}

impl State for Init {

}

impl State for Uninit {

}

impl State for FinallySplit {

}

impl Splitable for Init {

}

impl Splitable for Uninit {

}

impl Viewable for Init {

}

impl Viewable for FinallySplit {

}

} // verus!
