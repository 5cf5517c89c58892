//! The simulation: the scene, and the order of the steps of a run.
//!
//! The library says which step is next; the caller takes the step, with
//! the scene and with what lies outside the library, and asks again.

pub mod forces;
pub mod lemmas;
pub mod person;
pub mod scene;

use self::scene::{scene_fault, scene_of, Scene, SceneError, SceneView};
use crate::configuration::{Configuration, Entry, Key, SimType, SimTypeCfgWrap};
use vstd::prelude::*;

verus! {

/// A step of a run.
#[derive(Debug, Clone, Copy, PartialEq, Eq, Structural)]
pub enum Step {
    /// Send the record that opens the output.
    SendInit,
    /// Let the one crowd of an escape appear.
    InitialSpawn,
    /// Work out the force on every person, from the scene as it is.
    ComputeForces,
    /// Move every person by its force.
    Move,
    /// Work out and set the panic level of every person.
    UpdatePanic,
    /// Let new people appear.
    Spawn,
    /// Take the arrivals out and count them.
    ProcessArrivals,
    /// Send the state.
    DumpState,
    /// Go on to the next tick.
    NextTick,
    /// Send the statistics.
    DumpStatistics,
    /// The run is over.
    Finished,
}

/// A simulation: its kind, its scene, and the step it is at.
pub struct Simulation {
    pub sim_type: SimType,
    /// The step that was handed out last; none before the first.
    pub last_step: Option<Step>,
    pub scene: Scene,
}

/// A simulation, as contracts speak of it.
pub struct SimulationView {
    pub sim_type: SimType,
    /// The step that was handed out last; none before the first.
    pub last_step: Option<Step>,
    pub scene: SceneView,
}

impl View for Simulation {
    type V = SimulationView;

    open spec fn view(&self) -> SimulationView {
        SimulationView { sim_type: self.sim_type, last_step: self.last_step, scene: self.scene@ }
    }
}

/// Whether a run is over: a flow when its time has passed, an escape
/// when nobody is left in the scene.
pub open spec fn run_over(sim_type: SimType, time_passed: bool, population: nat) -> bool {
    match sim_type {
        SimType::Flow => time_passed,
        SimType::Escape => population == 0,
    }
}

/// The step at the start of a tick: the next tick begins unless the run
/// is over.
pub open spec fn tick_start(over: bool) -> Step {
    if over {
        Step::DumpStatistics
    } else {
        Step::ComputeForces
    }
}

/// The step that follows `last`. Whether the run is over is asked only
/// between ticks.
pub open spec fn following(sim_type: SimType, last: Option<Step>, over: bool) -> Step {
    match last {
        None => Step::SendInit,
        Some(Step::SendInit) => match sim_type {
            SimType::Escape => Step::InitialSpawn,
            SimType::Flow => tick_start(over),
        },
        Some(Step::InitialSpawn) => tick_start(over),
        Some(Step::ComputeForces) => Step::Move,
        Some(Step::Move) => Step::UpdatePanic,
        Some(Step::UpdatePanic) => match sim_type {
            SimType::Escape => Step::ProcessArrivals,
            SimType::Flow => Step::Spawn,
        },
        Some(Step::Spawn) => Step::ProcessArrivals,
        Some(Step::ProcessArrivals) => Step::DumpState,
        Some(Step::DumpState) => Step::NextTick,
        Some(Step::NextTick) => tick_start(over),
        Some(Step::DumpStatistics) => Step::Finished,
        Some(Step::Finished) => Step::Finished,
    }
}

/// The steps of one tick, in their order.
pub open spec fn tick_steps(sim_type: SimType) -> Seq<Step> {
    match sim_type {
        SimType::Flow => seq![
            Step::ComputeForces,
            Step::Move,
            Step::UpdatePanic,
            Step::Spawn,
            Step::ProcessArrivals,
            Step::DumpState,
            Step::NextTick,
        ],
        SimType::Escape => seq![
            Step::ComputeForces,
            Step::Move,
            Step::UpdatePanic,
            Step::ProcessArrivals,
            Step::DumpState,
            Step::NextTick,
        ],
    }
}

/// The steps that follow `last`, one for each answer in `over` to the
/// question whether the run is over.
pub open spec fn steps_after(sim_type: SimType, last: Option<Step>, over: Seq<bool>) -> Seq<Step>
    decreases over.len(),
{
    if over.len() == 0 {
        Seq::empty()
    } else {
        let before = steps_after(sim_type, last, over.drop_last());
        let previous = if before.len() == 0 {
            last
        } else {
            Some(before.last())
        };
        before.push(following(sim_type, previous, over.last()))
    }
}

/// Whether a tick may begin after `last`.
pub open spec fn between_ticks(sim_type: SimType, last: Option<Step>) -> bool {
    match last {
        Some(Step::SendInit) => sim_type == SimType::Flow,
        Some(Step::InitialSpawn) => true,
        Some(Step::NextTick) => true,
        _ => false,
    }
}

/// Why a configuration describes no simulation; nothing where it
/// describes one.
pub open spec fn simulation_fault(settings: Map<Key, Entry>) -> Option<SceneError> {
    if !settings.dom().contains(Key::SimType) {
        Some(SceneError::Missing(Key::SimType))
    } else {
        scene_fault(settings)
    }
}

impl Simulation {
    /// What holds of every simulation: its scene is a scene.
    pub open spec fn wf(&self) -> bool {
        self.scene.wf()
    }

    /// The simulation that a configuration describes, before its first
    /// step, with nobody in the scene.
    pub fn new(configuration: &Configuration) -> (r: Result<Simulation, SceneError>)
        ensures
            match simulation_fault(configuration@) {
                Some(fault) => r == Err::<Simulation, SceneError>(fault),
                None => {
                    &&& r is Ok
                    &&& r.unwrap().wf()
                    &&& r.unwrap()@ == (SimulationView {
                        sim_type: configuration@[Key::SimType]->SimType_0,
                        last_step: None,
                        scene: scene_of(configuration@),
                    })
                },
            },
    {
        let sim_type = match configuration.get::<SimTypeCfgWrap>() {
            Some(held) => held.0,
            None => {
                return Err(SceneError::Missing(Key::SimType));
            },
        };
        match Scene::new(configuration) {
            Ok(scene) => Ok(Simulation { sim_type, last_step: None, scene }),
            Err(fault) => Err(fault),
        }
    }

    /// Whether the run is over. `time_passed` says whether the time of
    /// the run has reached its end.
    pub fn is_simulation_finished(&self, time_passed: bool) -> (over: bool)
        ensures
            over == run_over(self@.sim_type, time_passed, self@.scene.people.len()),
    {
        match self.sim_type {
            SimType::Flow => time_passed,
            SimType::Escape => self.scene.people().len() == 0,
        }
    }

    /// The next step of the run. `time_passed` says whether the time of
    /// the run has reached its end; it counts between ticks only.
    pub fn next_step(&mut self, time_passed: bool) -> (step: Step)
        ensures
            step == following(
                old(self)@.sim_type,
                old(self)@.last_step,
                run_over(old(self)@.sim_type, time_passed, old(self)@.scene.people.len()),
            ),
            final(self)@ == (SimulationView { last_step: Some(step), ..old(self)@ }),
    {
        let over = self.is_simulation_finished(time_passed);
        let start = if over {
            Step::DumpStatistics
        } else {
            Step::ComputeForces
        };
        let step = match self.last_step {
            None => Step::SendInit,
            Some(Step::SendInit) => match self.sim_type {
                SimType::Escape => Step::InitialSpawn,
                SimType::Flow => start,
            },
            Some(Step::InitialSpawn) => start,
            Some(Step::ComputeForces) => Step::Move,
            Some(Step::Move) => Step::UpdatePanic,
            Some(Step::UpdatePanic) => match self.sim_type {
                SimType::Escape => Step::ProcessArrivals,
                SimType::Flow => Step::Spawn,
            },
            Some(Step::Spawn) => Step::ProcessArrivals,
            Some(Step::ProcessArrivals) => Step::DumpState,
            Some(Step::DumpState) => Step::NextTick,
            Some(Step::NextTick) => start,
            Some(Step::DumpStatistics) => Step::Finished,
            Some(Step::Finished) => Step::Finished,
        };
        self.last_step = Some(step);
        step
    }
}

/// Inside a tick every step is followed by the next step of the tick.
proof fn lemma_next_in_tick(sim_type: SimType, i: int, over: bool)
    requires
        0 <= i < tick_steps(sim_type).len() - 1,
    ensures
        following(sim_type, Some(tick_steps(sim_type)[i]), over) == tick_steps(sim_type)[i + 1],
{
}

proof fn lemma_tick_prefix(sim_type: SimType, last: Option<Step>, over: Seq<bool>, k: int)
    requires
        between_ticks(sim_type, last),
        over.len() == tick_steps(sim_type).len(),
        !over[0],
        0 <= k <= over.len(),
    ensures
        steps_after(sim_type, last, over.take(k)) == tick_steps(sim_type).take(k),
    decreases k,
{
    if k == 0 {
        assert(steps_after(sim_type, last, over.take(0)) =~= tick_steps(sim_type).take(0));
    } else {
        lemma_tick_prefix(sim_type, last, over, k - 1);
        assert(over.take(k).drop_last() =~= over.take(k - 1));
        assert(over.take(k).last() == over[k - 1]);
        let before = steps_after(sim_type, last, over.take(k - 1));
        assert(before == tick_steps(sim_type).take(k - 1));
        if k >= 2 {
            assert(before.last() == tick_steps(sim_type)[k - 2]);
            lemma_next_in_tick(sim_type, k - 2, over[k - 1]);
        }
        assert(steps_after(sim_type, last, over.take(k)) =~= tick_steps(sim_type).take(k));
    }
}

/// A tick that begins runs through its steps in their order, whatever
/// becomes of the time and of the people meanwhile: forces before moves,
/// moves before panic, arrivals after both, the state last.
pub proof fn lemma_tick_runs_in_order(sim_type: SimType, last: Option<Step>, over: Seq<bool>)
    requires
        between_ticks(sim_type, last),
        over.len() == tick_steps(sim_type).len(),
        !over[0],
    ensures
        steps_after(sim_type, last, over) == tick_steps(sim_type),
{
    let n = over.len() as int;
    lemma_tick_prefix(sim_type, last, over, n);
    assert(over.take(n) =~= over);
    assert(tick_steps(sim_type).take(n) =~= tick_steps(sim_type));
}

/// In an escape people appear once, before the first tick, and never
/// after; in a flow they appear in every tick and never before.
pub proof fn lemma_spawning_by_kind(last: Option<Step>, over: bool)
    ensures
        following(SimType::Escape, last, over) != Step::Spawn,
        following(SimType::Escape, last, over) == Step::InitialSpawn <==> last == Some(
            Step::SendInit,
        ),
        following(SimType::Flow, last, over) != Step::InitialSpawn,
{
}

/// A run ends between ticks, exactly when it is over there: the
/// statistics go out, and nothing comes after them.
pub proof fn lemma_run_ends_when_over(sim_type: SimType, last: Option<Step>, over: bool)
    ensures
        following(sim_type, last, over) == Step::DumpStatistics <==> between_ticks(sim_type, last)
            && over,
        following(sim_type, Some(Step::DumpStatistics), over) == Step::Finished,
        following(sim_type, Some(Step::Finished), over) == Step::Finished,
{
}

} // verus!
