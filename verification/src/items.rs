use vstd::prelude::*;

verus! {

/// A timed pickup effect the player can hold and consume.
#[derive(Clone, Copy, PartialEq, Eq, Structural, Debug)]
pub enum Item {
    Speed,
    Quickshoot,
}

} // verus!
