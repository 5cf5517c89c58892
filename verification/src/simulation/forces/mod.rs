//! The forces that move a person, and the parameters a person has for them.

pub mod fluctuation;
pub mod herding;
pub mod repulsion;
pub mod target;

pub use self::fluctuation::FluctuationForce;
pub use self::herding::HerdingForce;
pub use self::repulsion::RepulsionForce;
pub use self::target::TargetForce;

use crate::configuration::{
    Configuration, DistributionValue, Entry, ForcesRepulsionCoeff, ForcesTargetSpeed, FovBackward,
    FovForward, Key,
};
use crate::scalar::Scalar;
use self::fluctuation::Fluctuation;
use vstd::prelude::*;

verus! {

/// What one person has drawn for the forces, once, when it appeared.
#[derive(Debug, Clone, Copy, PartialEq, Eq, Structural)]
pub struct PersonForcesParams {
    pub target_speed: Scalar,
    pub repulsion_coeff: Scalar,
    pub forward_fov: Scalar,
    pub backward_fov: Scalar,
    pub herding: Scalar,
}

/// One of the forces on a person. Fluctuation and herding keep what
/// they have to remember from tick to tick.
#[derive(Debug)]
pub enum Force {
    Target(TargetForce),
    Repulsion(RepulsionForce),
    Fluctuation(FluctuationForce),
    Herding(HerdingForce),
}

/// The forces in use, in the order in which they act on a person at
/// every tick, and the distributions from which a person's parameters
/// are drawn.
pub struct Forces {
    pub used_forces: Vec<Force>,
    pub target_speed: DistributionValue,
    pub repulsion_coeff: DistributionValue,
    pub forward_fov: DistributionValue,
    pub backward_fov: DistributionValue,
}

/// The first setting, in the order in which the forces ask for them,
/// that the configuration lacks.
pub open spec fn first_missing(settings: Map<Key, Entry>) -> Option<Key> {
    if !settings.dom().contains(Key::ForcesTargetSpeed) {
        Some(Key::ForcesTargetSpeed)
    } else if !settings.dom().contains(Key::ForcesRepulsionCoeff) {
        Some(Key::ForcesRepulsionCoeff)
    } else if !settings.dom().contains(Key::FovForward) {
        Some(Key::FovForward)
    } else if !settings.dom().contains(Key::FovBackward) {
        Some(Key::FovBackward)
    } else {
        None
    }
}

/// Whether the forces are those of a fresh simulation: target,
/// repulsion, fluctuation and herding, in this order, with no
/// fluctuation under way and no suggestion taken down.
pub open spec fn fresh_forces(used: Seq<Force>) -> bool {
    &&& used.len() == 4
    &&& used[0] is Target
    &&& used[1] is Repulsion
    &&& used[2] matches Force::Fluctuation(fluctuation) && fluctuation@ == Map::<
        u64,
        Fluctuation,
    >::empty()
    &&& used[3] matches Force::Herding(herding) && herding.path_change is None
}

impl Forces {
    /// The forces that a configuration describes; the key of the first
    /// setting that it lacks, where it lacks one.
    pub fn new(configuration: &Configuration) -> (r: Result<Forces, Key>)
        ensures
            match first_missing(configuration@) {
                Some(key) => r == Err::<Forces, Key>(key),
                None => {
                    &&& r is Ok
                    &&& fresh_forces(r.unwrap().used_forces@)
                    &&& r.unwrap().target_speed
                        == configuration@[Key::ForcesTargetSpeed]->ForcesTargetSpeed_0
                    &&& r.unwrap().repulsion_coeff
                        == configuration@[Key::ForcesRepulsionCoeff]->ForcesRepulsionCoeff_0
                    &&& r.unwrap().forward_fov == configuration@[Key::FovForward]->FovForward_0
                    &&& r.unwrap().backward_fov == configuration@[Key::FovBackward]->FovBackward_0
                },
            },
    {
        let target_speed = match configuration.get::<ForcesTargetSpeed>() {
            Some(held) => held.0,
            None => {
                return Err(Key::ForcesTargetSpeed);
            },
        };
        let repulsion_coeff = match configuration.get::<ForcesRepulsionCoeff>() {
            Some(held) => held.0,
            None => {
                return Err(Key::ForcesRepulsionCoeff);
            },
        };
        let forward_fov = match configuration.get::<FovForward>() {
            Some(held) => held.0,
            None => {
                return Err(Key::FovForward);
            },
        };
        let backward_fov = match configuration.get::<FovBackward>() {
            Some(held) => held.0,
            None => {
                return Err(Key::FovBackward);
            },
        };
        let mut used_forces: Vec<Force> = Vec::new();
        used_forces.push(Force::Target(TargetForce));
        used_forces.push(Force::Repulsion(RepulsionForce));
        used_forces.push(Force::Fluctuation(FluctuationForce::new()));
        used_forces.push(Force::Herding(HerdingForce::new()));
        Ok(Forces { used_forces, target_speed, repulsion_coeff, forward_fov, backward_fov })
    }
}

} // verus!
