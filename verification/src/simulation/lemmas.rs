//! What follows from the scene's rules: the order of a path's targets,
//! and how the population shrinks as people arrive.

use crate::scalar::Scalar;
use crate::simulation::person::Person;
use crate::simulation::scene::{
    advanced, fate, first_free, has_arrived, in_sequence, in_sequence_below, leaving,
    lemma_path_position, numbered, on_route, placement, route, staying, Area, Fate, PathView,
    SceneView, SpawnCandidate, INITIAL_PANIC_BITS, MAX_TARGETS, SPAWN_ATTEMPTS,
};
use vstd::prelude::*;
use vstd::seq_lib::{lemma_multiset_commutative, to_multiset_build, to_multiset_len};

verus! {

broadcast use vstd::multiset::group_multiset_axioms;

proof fn lemma_numbered_has_number(areas: Seq<Area>, number: int)
    ensures
        forall|i: int|
            0 <= i < numbered(areas, number).len() ==> (#[trigger] numbered(
                areas,
                number,
            )[i]).sequence_no == number,
    decreases areas.len(),
{
    if areas.len() > 0 {
        lemma_numbered_has_number(areas.drop_last(), number);
        let rest = numbered(areas.drop_last(), number);
        assert(numbered(areas, number) == if areas.last().sequence_no == number {
            rest.push(areas.last())
        } else {
            rest
        });
        assert forall|i: int| 0 <= i < numbered(areas, number).len() implies (#[trigger] numbered(
            areas,
            number,
        )[i]).sequence_no == number by {
            if i < rest.len() {
                assert(rest[i].sequence_no == number);
            }
        }
    }
}

proof fn lemma_below_ascends(areas: Seq<Area>, bound: int)
    ensures
        forall|i: int|
            0 <= i < in_sequence_below(areas, bound).len() ==> (#[trigger] in_sequence_below(
                areas,
                bound,
            )[i]).sequence_no < bound,
        forall|i: int, j: int|
            0 <= i < j < in_sequence_below(areas, bound).len() ==> (#[trigger] in_sequence_below(
                areas,
                bound,
            )[i]).sequence_no <= (#[trigger] in_sequence_below(areas, bound)[j]).sequence_no,
    decreases bound,
{
    if bound > 0 {
        lemma_below_ascends(areas, bound - 1);
        lemma_numbered_has_number(areas, bound - 1);
        let front = in_sequence_below(areas, bound - 1);
        let back = numbered(areas, bound - 1);
        let whole = in_sequence_below(areas, bound);
        assert(whole == front + back);
        assert forall|i: int| 0 <= i < whole.len() implies (#[trigger] whole[i]).sequence_no
            < bound by {
            if i < front.len() {
                assert(front[i].sequence_no < bound - 1);
            } else {
                assert(back[i - front.len()].sequence_no == bound - 1);
            }
        }
        assert forall|i: int, j: int| 0 <= i < j < whole.len() implies (#[trigger] whole[i]).sequence_no
            <= (#[trigger] whole[j]).sequence_no by {
            if j < front.len() {
                assert(front[i].sequence_no <= front[j].sequence_no);
            } else if i < front.len() {
                assert(front[i].sequence_no < bound - 1);
                assert(back[j - front.len()].sequence_no == bound - 1);
            } else {
                assert(back[i - front.len()].sequence_no == bound - 1);
                assert(back[j - front.len()].sequence_no == bound - 1);
            }
        }
    }
}

/// Areas in sequence stand by ascending sequence number.
pub proof fn lemma_in_sequence_ascends(areas: Seq<Area>)
    ensures
        forall|i: int, j: int|
            0 <= i < j < in_sequence(areas).len() ==> (#[trigger] in_sequence(
                areas,
            )[i]).sequence_no <= (#[trigger] in_sequence(areas)[j]).sequence_no,
{
    lemma_below_ascends(areas, 256);
}

/// Those of `areas` with a sequence number below `bound`, in the order
/// in which they stand.
pub open spec fn numbered_below(areas: Seq<Area>, bound: int) -> Seq<Area>
    decreases areas.len(),
{
    if areas.len() == 0 {
        Seq::empty()
    } else if areas.last().sequence_no < bound {
        numbered_below(areas.drop_last(), bound).push(areas.last())
    } else {
        numbered_below(areas.drop_last(), bound)
    }
}

proof fn lemma_numbered_below_step(areas: Seq<Area>, bound: int)
    ensures
        numbered_below(areas, bound + 1).to_multiset() == numbered_below(
            areas,
            bound,
        ).to_multiset().add(numbered(areas, bound).to_multiset()),
    decreases areas.len(),
{
    let wider = numbered_below(areas, bound + 1);
    let narrower = numbered_below(areas, bound);
    let exact = numbered(areas, bound);
    if areas.len() > 0 {
        let front = areas.drop_last();
        let last = areas.last();
        lemma_numbered_below_step(front, bound);
        let front_wider = numbered_below(front, bound + 1);
        let front_narrower = numbered_below(front, bound);
        let front_exact = numbered(front, bound);
        to_multiset_build(front_wider, last);
        to_multiset_build(front_narrower, last);
        to_multiset_build(front_exact, last);
        if last.sequence_no < bound {
            assert(wider == front_wider.push(last));
            assert(narrower == front_narrower.push(last));
            assert(exact == front_exact);
            assert(wider.to_multiset() =~= narrower.to_multiset().add(exact.to_multiset()));
        } else if last.sequence_no == bound {
            assert(wider == front_wider.push(last));
            assert(narrower == front_narrower);
            assert(exact == front_exact.push(last));
            assert(wider.to_multiset() =~= narrower.to_multiset().add(exact.to_multiset()));
        } else {
            assert(wider == front_wider);
            assert(narrower == front_narrower);
            assert(exact == front_exact);
        }
    } else {
        wider.to_multiset_ensures();
        narrower.to_multiset_ensures();
        exact.to_multiset_ensures();
        assert(wider.to_multiset() =~= narrower.to_multiset().add(exact.to_multiset()));
    }
}

proof fn lemma_numbered_below_ends(areas: Seq<Area>)
    ensures
        numbered_below(areas, 0) == Seq::<Area>::empty(),
        numbered_below(areas, 256) == areas,
    decreases areas.len(),
{
    if areas.len() > 0 {
        lemma_numbered_below_ends(areas.drop_last());
        assert(areas.drop_last().push(areas.last()) =~= areas);
    }
}

proof fn lemma_below_permutes(areas: Seq<Area>, bound: int)
    requires
        0 <= bound,
    ensures
        in_sequence_below(areas, bound).to_multiset() == numbered_below(areas, bound).to_multiset(),
    decreases bound,
{
    if bound > 0 {
        lemma_below_permutes(areas, bound - 1);
        lemma_numbered_below_step(areas, bound - 1);
        lemma_multiset_commutative(in_sequence_below(areas, bound - 1), numbered(areas, bound - 1));
    } else {
        lemma_numbered_below_ends(areas);
    }
}

/// Putting areas in sequence loses none of them and adds none.
pub proof fn lemma_in_sequence_permutes(areas: Seq<Area>)
    ensures
        in_sequence(areas).to_multiset() == areas.to_multiset(),
        in_sequence(areas).len() == areas.len(),
{
    lemma_below_permutes(areas, 256);
    lemma_numbered_below_ends(areas);
    to_multiset_len(in_sequence(areas));
    to_multiset_len(areas);
}

/// Where none of the candidate places is free, nobody appears.
pub proof fn lemma_no_free_place(scene: SceneView, path_index: usize, candidates: Seq<SpawnCandidate>)
    requires
        forall|k: int| 0 <= k < candidates.len() ==> !(#[trigger] candidates[k]).free,
    ensures
        placement(scene, path_index, candidates) is None,
{
    lemma_first_free_none(candidates, 0);
}

proof fn lemma_first_free_none(candidates: Seq<SpawnCandidate>, from: int)
    requires
        0 <= from,
        forall|k: int| 0 <= k < candidates.len() ==> !(#[trigger] candidates[k]).free,
    ensures
        first_free(candidates, from) is None,
    decreases SPAWN_ATTEMPTS - from,
{
    if from < candidates.len() && from < SPAWN_ATTEMPTS {
        lemma_first_free_none(candidates, from + 1);
    }
}

proof fn lemma_first_free_found(candidates: Seq<SpawnCandidate>, from: int, k: int)
    requires
        0 <= from <= k < candidates.len(),
        k < SPAWN_ATTEMPTS,
        candidates[k].free,
    ensures
        first_free(candidates, from) matches Some(j) && from <= j <= k && candidates[j].free
            && forall|i: int| from <= i < j ==> !(#[trigger] candidates[i]).free,
    decreases k - from,
{
    if !candidates[from].free {
        lemma_first_free_found(candidates, from + 1, k);
    }
}

/// Where the path is there, an id is left and one of the first
/// `SPAWN_ATTEMPTS` places is free, a person appears at the first free
/// place: with the next id, on that path, heading for its first target,
/// with a panic level of one half.
pub proof fn lemma_free_place_is_taken(
    scene: SceneView,
    path_index: usize,
    candidates: Seq<SpawnCandidate>,
    k: int,
)
    requires
        path_index < scene.paths.len(),
        scene.last_person_id < u64::MAX,
        0 <= k < candidates.len(),
        k < SPAWN_ATTEMPTS,
        candidates[k].free,
    ensures
        first_free(candidates, 0) is Some,
        0 <= first_free(candidates, 0).unwrap() <= k,
        candidates[first_free(candidates, 0).unwrap()].free,
        forall|i: int|
            0 <= i < first_free(candidates, 0).unwrap() ==> !(#[trigger] candidates[i]).free,
        placement(scene, path_index, candidates) is Some,
        placement(scene, path_index, candidates).unwrap() == (Person {
            id: scene.last_person_id,
            coordinates: candidates[first_free(candidates, 0).unwrap()].coordinates,
            heading: candidates[first_free(candidates, 0).unwrap()].heading,
            path_id: scene.paths[path_index as int].id,
            current_target_area: scene.paths[path_index as int].target_areas[0],
            current_target_index: 0,
            panic_level: Scalar { bits: INITIAL_PANIC_BITS },
            forces_params: candidates[first_free(candidates, 0).unwrap()].forces_params,
        }),
        (Scalar { bits: INITIAL_PANIC_BITS }).in_unit_range(),
{
    lemma_first_free_found(candidates, 0, k);
}

/// Whoever leaves in a pass was in the scene, had reached its target,
/// and leaves as it was.
pub proof fn lemma_leaving_were_there(
    people: Seq<Person>,
    reached: Seq<bool>,
    paths: Seq<PathView>,
    j: int,
) -> (i: int)
    requires
        0 <= j < leaving(people, reached, paths).len(),
    ensures
        0 <= i < people.len(),
        has_arrived(reached, i),
        leaving(people, reached, paths)[j] == people[i],
    decreases people.len(),
{
    let front = people.drop_last();
    let rest = leaving(front, reached, paths);
    if j < rest.len() {
        lemma_leaving_were_there(front, reached, paths, j)
    } else {
        people.len() - 1
    }
}

/// Whoever is in the scene after a pass was in it before: as it was, if
/// it had not reached its target, and exactly one target further, if it
/// had. Nobody skips a target.
pub proof fn lemma_pass_steps_by_one(
    people: Seq<Person>,
    reached: Seq<bool>,
    paths: Seq<PathView>,
    j: int,
) -> (i: int)
    requires
        0 <= j < staying(people, reached, paths).len(),
        forall|k: int| 0 <= k < paths.len() ==> (#[trigger] paths[k]).target_areas.len() <= MAX_TARGETS,
        forall|k: int| 0 <= k < people.len() ==> on_route(#[trigger] people[k], paths),
    ensures
        j <= i < people.len(),
        !has_arrived(reached, i) ==> staying(people, reached, paths)[j] == people[i],
        has_arrived(reached, i) ==> staying(people, reached, paths)[j] == advanced(people[i], paths),
        staying(people, reached, paths)[j].current_target_index == people[i].current_target_index
            + if has_arrived(reached, i) {
            1int
        } else {
            0int
        },
    decreases people.len(),
{
    let front = people.drop_last();
    let rest = staying(front, reached, paths);
    lemma_staying_len(front, reached, paths);
    if j < rest.len() {
        lemma_pass_steps_by_one(front, reached, paths, j)
    } else {
        let last = people.len() - 1;
        lemma_path_position(paths, people[last].path_id, 0);
        assert(on_route(people[last], paths));
        last
    }
}

proof fn lemma_staying_len(people: Seq<Person>, reached: Seq<bool>, paths: Seq<PathView>)
    ensures
        staying(people, reached, paths).len() <= people.len(),
    decreases people.len(),
{
    if people.len() > 0 {
        lemma_staying_len(people.drop_last(), reached, paths);
    }
}

/// A pass leaves everybody who stays on its route.
pub proof fn lemma_staying_on_route(people: Seq<Person>, reached: Seq<bool>, paths: Seq<PathView>)
    requires
        forall|k: int| 0 <= k < paths.len() ==> (#[trigger] paths[k]).target_areas.len() <= MAX_TARGETS,
        forall|i: int| 0 <= i < people.len() ==> on_route(#[trigger] people[i], paths),
    ensures
        forall|i: int|
            0 <= i < staying(people, reached, paths).len() ==> on_route(
                #[trigger] staying(people, reached, paths)[i],
                paths,
            ),
    decreases people.len(),
{
    if people.len() > 0 {
        let rest = staying(people.drop_last(), reached, paths);
        let whole = staying(people, reached, paths);
        lemma_staying_on_route(people.drop_last(), reached, paths);
        lemma_path_position(paths, people.last().path_id, 0);
        assert(on_route(people[people.len() - 1], paths));
        assert forall|i: int| 0 <= i < whole.len() implies on_route(#[trigger] whole[i], paths) by {
            if i < rest.len() {
                assert(on_route(rest[i], paths));
            }
        }
    }
}

/// The targets that a person has yet to reach.
pub open spec fn legs_left(person: Person, paths: Seq<PathView>) -> int {
    route(paths, person.path_id).len() - person.current_target_index
}

/// The targets that the people have yet to reach, all told.
pub open spec fn outstanding(people: Seq<Person>, paths: Seq<PathView>) -> int
    decreases people.len(),
{
    if people.len() == 0 {
        0
    } else {
        outstanding(people.drop_last(), paths) + legs_left(people.last(), paths)
    }
}

/// How many of the first `count` people have reached their target, by
/// the flags of a pass.
pub open spec fn arrivals(count: int, reached: Seq<bool>) -> int
    decreases count,
{
    if count <= 0 {
        0
    } else if has_arrived(reached, count - 1) {
        arrivals(count - 1, reached) + 1
    } else {
        arrivals(count - 1, reached)
    }
}

/// Each arrival takes exactly one target off what the people have yet to
/// reach.
pub proof fn lemma_arrival_takes_one_leg(
    people: Seq<Person>,
    reached: Seq<bool>,
    paths: Seq<PathView>,
)
    requires
        forall|k: int| 0 <= k < paths.len() ==> (#[trigger] paths[k]).target_areas.len() <= MAX_TARGETS,
        forall|i: int| 0 <= i < people.len() ==> on_route(#[trigger] people[i], paths),
    ensures
        outstanding(staying(people, reached, paths), paths) == outstanding(people, paths)
            - arrivals(people.len() as int, reached),
    decreases people.len(),
{
    if people.len() > 0 {
        let front = people.drop_last();
        let rest = staying(front, reached, paths);
        lemma_arrival_takes_one_leg(front, reached, paths);
        lemma_path_position(paths, people.last().path_id, 0);
        assert(on_route(people[people.len() - 1], paths));
        match fate(people.last(), has_arrived(reached, people.len() - 1), paths) {
            Fate::Stays => {
                assert(rest.push(people.last()).drop_last() =~= rest);
            },
            Fate::Advances => {
                assert(rest.push(advanced(people.last(), paths)).drop_last() =~= rest);
            },
            Fate::Leaves => {},
        }
    }
}

/// Everybody in a scene has a target yet to reach, and no more of them
/// than the longest path has.
pub proof fn lemma_outstanding_bounds(people: Seq<Person>, paths: Seq<PathView>, longest: int)
    requires
        forall|k: int| 0 <= k < paths.len() ==> (#[trigger] paths[k]).target_areas.len() <= longest,
        forall|i: int| 0 <= i < people.len() ==> on_route(#[trigger] people[i], paths),
    ensures
        people.len() <= outstanding(people, paths) <= people.len() * longest,
    decreases people.len(),
{
    if people.len() > 0 {
        let front = people.drop_last();
        lemma_outstanding_bounds(front, paths, longest);
        lemma_path_position(paths, people.last().path_id, 0);
        assert(on_route(people[people.len() - 1], paths));
        assert(people.len() * longest == front.len() * longest + longest) by (nonlinear_arith)
            requires
                people.len() == front.len() + 1,
        ;
    }
}

/// The people who are in the scene after the passes of `passes`, one
/// after the other.
pub open spec fn after_passes(people: Seq<Person>, passes: Seq<Seq<bool>>, paths: Seq<PathView>)
    -> Seq<Person>
    decreases passes.len(),
{
    if passes.len() == 0 {
        people
    } else {
        staying(after_passes(people, passes.drop_last(), paths), passes.last(), paths)
    }
}

proof fn lemma_passes_count_down(
    people: Seq<Person>,
    passes: Seq<Seq<bool>>,
    paths: Seq<PathView>,
    t: int,
)
    requires
        0 <= t <= passes.len(),
        forall|k: int| 0 <= k < paths.len() ==> (#[trigger] paths[k]).target_areas.len() <= MAX_TARGETS,
        forall|i: int| 0 <= i < people.len() ==> on_route(#[trigger] people[i], paths),
        forall|s: int|
            0 <= s < passes.len() && after_passes(people, #[trigger] passes.take(s), paths).len()
                > 0 ==> arrivals(
                after_passes(people, passes.take(s), paths).len() as int,
                passes[s],
            ) >= 1,
    ensures
        forall|i: int|
            0 <= i < after_passes(people, passes.take(t), paths).len() ==> on_route(
                #[trigger] after_passes(people, passes.take(t), paths)[i],
                paths,
            ),
        after_passes(people, passes.take(t), paths).len() == 0 || outstanding(
            after_passes(people, passes.take(t), paths),
            paths,
        ) <= outstanding(people, paths) - t,
    decreases t,
{
    if t > 0 {
        lemma_passes_count_down(people, passes, paths, t - 1);
        let before = after_passes(people, passes.take(t - 1), paths);
        assert(passes.take(t).drop_last() =~= passes.take(t - 1));
        assert(passes.take(t).last() == passes[t - 1]);
        lemma_staying_on_route(before, passes[t - 1], paths);
        lemma_arrival_takes_one_leg(before, passes[t - 1], paths);
        lemma_staying_len(before, passes[t - 1], paths);
    }
}

/// With nobody new, the scene empties: if in every pass over a scene
/// that still has people at least one of them reaches its target, then
/// after as many passes as there were people, times the targets of the
/// longest path, nobody is left.
pub proof fn lemma_escape_empties(
    people: Seq<Person>,
    passes: Seq<Seq<bool>>,
    paths: Seq<PathView>,
    longest: int,
)
    requires
        longest <= MAX_TARGETS,
        forall|k: int| 0 <= k < paths.len() ==> (#[trigger] paths[k]).target_areas.len() <= longest,
        forall|i: int| 0 <= i < people.len() ==> on_route(#[trigger] people[i], paths),
        forall|s: int|
            0 <= s < passes.len() && after_passes(people, #[trigger] passes.take(s), paths).len()
                > 0 ==> arrivals(
                after_passes(people, passes.take(s), paths).len() as int,
                passes[s],
            ) >= 1,
        passes.len() >= people.len() * longest,
    ensures
        after_passes(people, passes, paths).len() == 0,
{
    lemma_passes_count_down(people, passes, paths, passes.len() as int);
    assert(passes.take(passes.len() as int) =~= passes);
    lemma_outstanding_bounds(people, paths, longest);
    lemma_outstanding_bounds(after_passes(people, passes, paths), paths, longest);
}

} // verus!
