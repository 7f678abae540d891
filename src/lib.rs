//! A versioned slot: storage for at most one value, with a generation
//! counter whose parity tells whether the slot is occupied. It is the cell
//! from which a generational arena is built.
use vstd::prelude::*;

pub mod laws;
pub mod slot;

pub use slot::{Slot, SlotError};

verus! {

} // verus!
