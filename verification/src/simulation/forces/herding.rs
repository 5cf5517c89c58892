//! Herding: a person in panic goes along with those around it.

use crate::simulation::person::Person;
use crate::simulation::scene::Area;
use vstd::prelude::*;

verus! {

/// What herding suggests to a person beyond the force: to take up the
/// path, the target area and the target index of a neighbour.
#[derive(Debug)]
pub struct HerdingForce {
    pub path_change: Option<(u8, Area, u16)>,
}

impl HerdingForce {
    pub fn new() -> (created: HerdingForce)
        ensures
            created.path_change is None,
    {
        HerdingForce { path_change: None }
    }

    /// Takes down the suggestion for this tick. Where the herding force
    /// is strong, it is to follow the last neighbour that went into the
    /// force; where it is not, there is none.
    pub fn note_path_change(&mut self, strong: bool, last_neighbour: Option<&Person>)
        requires
            strong ==> last_neighbour is Some,
        ensures
            final(self).path_change == if strong {
                Some(
                    (
                        last_neighbour.unwrap().path_id,
                        last_neighbour.unwrap().current_target_area,
                        last_neighbour.unwrap().current_target_index,
                    ),
                )
            } else {
                None::<(u8, Area, u16)>
            },
    {
        self.path_change = None;
        if strong {
            match last_neighbour {
                Some(other) => {
                    self.path_change = Some(
                        (other.path_id, other.current_target_area, other.current_target_index),
                    );
                },
                None => {},
            }
        }
    }
}

} // verus!
