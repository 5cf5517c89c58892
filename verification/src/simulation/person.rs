//! One simulated pedestrian.

use crate::scalar::Scalar;
use crate::simulation::forces::PersonForcesParams;
use crate::simulation::scene::Area;
use crate::utils::linelg::Point;
use vstd::prelude::*;

verus! {

/// A person on its way along a path.
///
/// `current_target_area` is the area of the path at `current_target_index`;
/// a scene keeps the two in step.
#[derive(Debug, Clone, Copy, PartialEq, Eq, Structural)]
pub struct Person {
    pub id: u64,
    pub coordinates: Point,
    pub heading: Scalar,
    pub path_id: u8,
    pub current_target_area: Area,
    pub current_target_index: u16,
    pub panic_level: Scalar,
    pub forces_params: PersonForcesParams,
}

} // verus!
