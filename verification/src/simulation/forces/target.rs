//! The pull of a person's current target.

use vstd::prelude::*;

verus! {

#[derive(Debug)]
pub struct TargetForce;

} // verus!
