//! Repulsion: walls and other people push a person away.

use vstd::prelude::*;

verus! {

#[derive(Debug)]
pub struct RepulsionForce;

} // verus!
