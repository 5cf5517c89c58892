//! Fluctuations: forces that come over a person for a number of ticks.

use crate::utils::linelg::Vector;
use std::collections::HashMap;
use vstd::prelude::*;

verus! {

broadcast use vstd::std_specs::hash::group_hash_axioms;

/// A fluctuation that is under way.
#[derive(Debug, Clone, Copy, PartialEq, Eq, Structural)]
pub struct Fluctuation {
    pub force: Vector,
    /// The ticks for which the force still acts; at least 1.
    pub ticks_left: u32,
}

/// The fluctuations that are under way, by the id of the person.
#[derive(Debug)]
pub struct FluctuationForce {
    active: HashMap<u64, Fluctuation>,
}

/// The ticks that a fluctuation lasts whose duration was drawn as
/// `duration`: as many, and at least one.
pub open spec fn lasting(duration: u32) -> u32 {
    if duration < 1 {
        1
    } else {
        duration
    }
}

/// The fluctuations after person `id` was asked for its force once: its
/// fluctuation has one tick less, and is over when none is left.
pub open spec fn ticked(active: Map<u64, Fluctuation>, id: u64) -> Map<u64, Fluctuation> {
    if !active.dom().contains(id) {
        active
    } else if active[id].ticks_left <= 1 {
        active.remove(id)
    } else {
        active.insert(
            id,
            Fluctuation { ticks_left: (active[id].ticks_left - 1) as u32, ..active[id] },
        )
    }
}

/// The fluctuations after person `id` was asked for its force `times`
/// times.
pub open spec fn ticked_often(active: Map<u64, Fluctuation>, id: u64, times: nat) -> Map<
    u64,
    Fluctuation,
>
    decreases times,
{
    if times == 0 {
        active
    } else {
        ticked(ticked_often(active, id, (times - 1) as nat), id)
    }
}

impl View for FluctuationForce {
    type V = Map<u64, Fluctuation>;

    closed spec fn view(&self) -> Map<u64, Fluctuation> {
        self.active@
    }
}

impl FluctuationForce {
    /// Nobody has a fluctuation under way.
    pub fn new() -> (created: FluctuationForce)
        ensures
            created@ == Map::<u64, Fluctuation>::empty(),
    {
        FluctuationForce { active: HashMap::new() }
    }

    /// Whether person `id` has a fluctuation under way.
    pub fn is_active(&self, id: u64) -> (r: bool)
        ensures
            r == self@.dom().contains(id),
    {
        self.active.contains_key(&id)
    }

    /// Starts a fluctuation of person `id` that lasts `duration` ticks,
    /// and at least one. A person that has one under way keeps it, and
    /// nothing is started.
    pub fn start(&mut self, id: u64, force: Vector, duration: u32) -> (started: bool)
        ensures
            started == !old(self)@.dom().contains(id),
            started ==> final(self)@ == old(self)@.insert(
                id,
                Fluctuation { force, ticks_left: lasting(duration) },
            ),
            !started ==> final(self)@ == old(self)@,
    {
        if self.active.contains_key(&id) {
            return false;
        }
        let ticks_left = if duration < 1 {
            1
        } else {
            duration
        };
        self.active.insert(id, Fluctuation { force, ticks_left });
        true
    }

    /// The force of the fluctuation of person `id` for this tick, if one
    /// is under way. The same force comes back at every tick until the
    /// fluctuation is over.
    pub fn force_for_person(&mut self, id: u64) -> (force: Option<Vector>)
        ensures
            force == if old(self)@.dom().contains(id) {
                Some(old(self)@[id].force)
            } else {
                None
            },
            final(self)@ == ticked(old(self)@, id),
    {
        let held = match self.active.get(&id) {
            Some(fluctuation) => *fluctuation,
            None => {
                return None;
            },
        };
        if held.ticks_left <= 1 {
            self.active.remove(&id);
        } else {
            self.active.insert(
                id,
                Fluctuation { force: held.force, ticks_left: held.ticks_left - 1 },
            );
        }
        Some(held.force)
    }
}

/// A fluctuation acts for as many ticks as it lasts, with one force, and
/// is over after them.
pub proof fn lemma_fluctuation_runs_its_time(active: Map<u64, Fluctuation>, id: u64, times: nat)
    requires
        active.dom().contains(id),
        active[id].ticks_left >= 1,
    ensures
        times < active[id].ticks_left ==> ticked_often(active, id, times).dom().contains(id)
            && ticked_often(active, id, times)[id] == (Fluctuation {
            ticks_left: (active[id].ticks_left - times) as u32,
            ..active[id]
        }),
        times >= active[id].ticks_left ==> !ticked_often(active, id, times).dom().contains(id),
    decreases times,
{
    if times > 0 {
        lemma_fluctuation_runs_its_time(active, id, (times - 1) as nat);
    }
}

} // verus!
