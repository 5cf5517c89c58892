//! Closes the set of setting types.

use vstd::prelude::*;

verus! {

/// Implemented by the setting types of this crate and by no other type.
pub trait Sealed {

}

} // verus!
