//! The world the people walk in: walls, paths and the population.

use crate::configuration::parse::{spawn_areas_in, target_areas_in, walls_in};
use crate::configuration::{
    Configuration, Entry, Key, SceneHeight, SceneScale, SceneSpawnArea, SceneSpawnAreas,
    SceneTargetArea, SceneTargetAreas, SceneWall, SceneWalls, SceneWidth, SpawnRate,
};
use crate::scalar::Scalar;
use crate::simulation::forces::PersonForcesParams;
use crate::simulation::person::Person;
use crate::utils::linelg::Point;
use vstd::prelude::*;

verus! {

/// A corner of an area, on the grid.
#[derive(Debug, Clone, Copy, PartialEq, Eq, Structural)]
pub struct Corner {
    pub x: u16,
    pub y: u16,
}

/// A rectangle of the grid, with its place in the order of a path.
#[derive(Debug, Clone, Copy, PartialEq, Eq, Structural)]
pub struct Area {
    pub p0: Corner,
    pub p1: Corner,
    pub sequence_no: u8,
}

/// Where the people of a path appear, and how often.
#[derive(Debug, Clone, Copy, PartialEq, Eq, Structural)]
pub struct SpawnArea {
    pub area: Area,
    pub rate: Scalar,
    /// Ticks until the path is next due for a new person; at least 1.
    pub ticks_to_next_spawn: u16,
}

/// A spawn area and the target areas that its people visit in turn.
#[derive(Debug, Clone)]
pub struct Path {
    pub id: u8,
    pub spawn_area: SpawnArea,
    pub target_areas: Vec<Area>,
}

/// A path, as contracts speak of it.
pub struct PathView {
    pub id: u8,
    pub spawn_area: SpawnArea,
    pub target_areas: Seq<Area>,
}

impl View for Path {
    type V = PathView;

    open spec fn view(&self) -> PathView {
        PathView { id: self.id, spawn_area: self.spawn_area, target_areas: self.target_areas@ }
    }
}

impl Area {
    /// The rectangle with corners `p0` and `p1`.
    pub fn new(p0: Corner, p1: Corner, sequence_no: u8) -> (area: Area)
        ensures
            area == (Area { p0, p1, sequence_no }),
    {
        Area { p0, p1, sequence_no }
    }
}

/// The area of a configured spawn area. It stands outside the order of
/// the targets, so its sequence number is 0.
pub open spec fn spawn_rectangle(spawn: SceneSpawnArea) -> Area {
    Area {
        p0: Corner { x: spawn.x0, y: spawn.y0 },
        p1: Corner { x: spawn.x1, y: spawn.y1 },
        sequence_no: 0,
    }
}

/// The area of a configured target area.
pub open spec fn target_rectangle(target: SceneTargetArea) -> Area {
    Area {
        p0: Corner { x: target.x0, y: target.y0 },
        p1: Corner { x: target.x1, y: target.y1 },
        sequence_no: target.sequence_no,
    }
}

/// The areas of the targets configured for path `id`, in the order in
/// which they are configured.
pub open spec fn targets_of(targets: Seq<SceneTargetArea>, id: u8) -> Seq<Area>
    decreases targets.len(),
{
    if targets.len() == 0 {
        Seq::empty()
    } else if targets.last().id == id {
        targets_of(targets.drop_last(), id).push(target_rectangle(targets.last()))
    } else {
        targets_of(targets.drop_last(), id)
    }
}

/// Those of `areas` that have the sequence number `number`, in the order
/// in which they stand.
pub open spec fn numbered(areas: Seq<Area>, number: int) -> Seq<Area>
    decreases areas.len(),
{
    if areas.len() == 0 {
        Seq::empty()
    } else if areas.last().sequence_no == number {
        numbered(areas.drop_last(), number).push(areas.last())
    } else {
        numbered(areas.drop_last(), number)
    }
}

/// Those of `areas` with a sequence number below `bound`, by ascending
/// sequence number, areas of one number in the order in which they stand.
pub open spec fn in_sequence_below(areas: Seq<Area>, bound: int) -> Seq<Area>
    decreases bound,
{
    if bound <= 0 {
        Seq::empty()
    } else {
        in_sequence_below(areas, bound - 1) + numbered(areas, bound - 1)
    }
}

/// `areas` by ascending sequence number, areas of one number in the
/// order in which they stand.
pub open spec fn in_sequence(areas: Seq<Area>) -> Seq<Area> {
    in_sequence_below(areas, 256)
}

/// The path of a configured spawn area: its targets are those
/// configured for its id, in sequence; it is due at the first tick.
pub open spec fn path_of(spawn: SceneSpawnArea, targets: Seq<SceneTargetArea>, rate: Scalar)
    -> PathView {
    PathView {
        id: spawn.id,
        spawn_area: SpawnArea { area: spawn_rectangle(spawn), rate, ticks_to_next_spawn: 1 },
        target_areas: in_sequence(targets_of(targets, spawn.id)),
    }
}

/// Puts areas in sequence: by ascending sequence number, areas of one
/// number in the order in which they stand.
pub fn sort_by_sequence(areas: &Vec<Area>) -> (sorted: Vec<Area>)
    ensures
        sorted@ == in_sequence(areas@),
{
    let mut sorted: Vec<Area> = Vec::new();
    let mut number: u16 = 0;
    while number < 256
        invariant
            number <= 256,
            sorted@ == in_sequence_below(areas@, number as int),
        decreases 256 - number,
    {
        let mut j: usize = 0;
        while j < areas.len()
            invariant
                number < 256,
                j <= areas.len(),
                sorted@ == in_sequence_below(areas@, number as int) + numbered(
                    areas@.take(j as int),
                    number as int,
                ),
            decreases areas.len() - j,
        {
            proof {
                assert(areas@.take(j + 1).drop_last() == areas@.take(j as int));
            }
            if areas[j].sequence_no as u16 == number {
                sorted.push(areas[j]);
            }
            j = j + 1;
        }
        proof {
            assert(areas@.take(areas.len() as int) == areas@);
        }
        number = number + 1;
    }
    sorted
}

/// The most target areas that one path may have.
pub const MAX_TARGETS: usize = 0xffff;

/// Why a configuration describes no scene.
#[derive(Debug, Clone, Copy, PartialEq, Eq, Structural)]
pub enum SceneError {
    /// The configuration lacks a setting that the scene needs.
    Missing(Key),
    /// No target area is configured for the path of this id.
    PathWithoutTargets(u8),
    /// More than `MAX_TARGETS` target areas are configured for the path
    /// of this id.
    PathTooLong(u8),
}

/// A place from which panic spreads to the people within its radius.
#[derive(Debug, Clone, Copy, PartialEq, Eq, Structural)]
pub struct PanicSource {
    pub coordinates: Point,
    pub radius: Scalar,
    pub power: Scalar,
}

/// The scene: walls, paths and the people on them.
pub struct Scene {
    people: Vec<Person>,
    last_person_id: u64,
    geometry: Vec<SceneWall>,
    paths: Vec<Path>,
    panic_sources: Vec<PanicSource>,
    scale: Scalar,
    width: u16,
    height: u16,
}

/// A scene, as contracts speak of it.
pub struct SceneView {
    /// The people in the scene, in the order in which they appeared.
    pub people: Seq<Person>,
    /// The id that the next person gets.
    pub last_person_id: u64,
    pub geometry: Seq<SceneWall>,
    pub paths: Seq<PathView>,
    pub panic_sources: Seq<PanicSource>,
    /// Meters per grid unit.
    pub scale: Scalar,
    pub width: u16,
    pub height: u16,
}

/// The views of the paths.
pub open spec fn path_views(paths: Seq<Path>) -> Seq<PathView> {
    Seq::new(paths.len(), |k: int| paths[k]@)
}

impl View for Scene {
    type V = SceneView;

    closed spec fn view(&self) -> SceneView {
        SceneView {
            people: self.people@,
            last_person_id: self.last_person_id,
            geometry: self.geometry@,
            paths: path_views(self.paths@),
            panic_sources: self.panic_sources@,
            scale: self.scale,
            width: self.width,
            height: self.height,
        }
    }
}

/// The position of the first path from `from` on that has the id `id`;
/// the number of paths if none has.
pub open spec fn path_position(paths: Seq<PathView>, id: u8, from: int) -> int
    decreases paths.len() - from,
{
    if from < 0 || from >= paths.len() {
        paths.len() as int
    } else if paths[from].id == id {
        from
    } else {
        path_position(paths, id, from + 1)
    }
}

/// The target areas that a person of path `id` visits, in order; none
/// if there is no such path.
pub open spec fn route(paths: Seq<PathView>, id: u8) -> Seq<Area> {
    let k = path_position(paths, id, 0);
    if k < paths.len() {
        paths[k].target_areas
    } else {
        Seq::empty()
    }
}

/// Whether a person's target is a target of its path, and the area it
/// holds is the area at that place.
pub open spec fn on_route(person: Person, paths: Seq<PathView>) -> bool {
    &&& person.current_target_index < route(paths, person.path_id).len()
    &&& person.current_target_area == route(paths, person.path_id)[person.current_target_index as int]
}

/// Whether a path has a target, no more targets than a person can count,
/// and a spawn counter that has not run out.
pub open spec fn path_fit(path: PathView) -> bool {
    &&& 1 <= path.target_areas.len() <= MAX_TARGETS
    &&& path.spawn_area.ticks_to_next_spawn >= 1
}

/// What holds of every scene: every path is fit, paths of one id have
/// the same targets, every person is on its route and has a panic level
/// between zero and one, and the people stand by ascending id, below the
/// id that the next person gets.
pub open spec fn scene_wf(scene: SceneView) -> bool {
    &&& forall|k: int| 0 <= k < scene.paths.len() ==> path_fit(#[trigger] scene.paths[k])
    &&& forall|a: int, b: int|
        0 <= a < scene.paths.len() && 0 <= b < scene.paths.len() && (#[trigger] scene.paths[a]).id
            == (#[trigger] scene.paths[b]).id ==> scene.paths[a].target_areas
            == scene.paths[b].target_areas
    &&& forall|i: int| 0 <= i < scene.people.len() ==> on_route(#[trigger] scene.people[i], scene.paths)
    &&& forall|i: int|
        0 <= i < scene.people.len() ==> (#[trigger] scene.people[i]).panic_level.in_unit_range()
    &&& forall|i: int|
        0 <= i < scene.people.len() ==> (#[trigger] scene.people[i]).id < scene.last_person_id
    &&& forall|i: int, j: int|
        0 <= i < j < scene.people.len() ==> (#[trigger] scene.people[i]).id
            < (#[trigger] scene.people[j]).id
}

/// The paths that a configuration describes.
pub open spec fn paths_of(
    spawn_areas: Seq<SceneSpawnArea>,
    targets: Seq<SceneTargetArea>,
    rate: Scalar,
) -> Seq<PathView> {
    Seq::new(spawn_areas.len(), |k: int| path_of(spawn_areas[k], targets, rate))
}

/// What is wrong with the first path from `from` on that is not fit;
/// nothing if all are.
pub open spec fn first_unfit(paths: Seq<PathView>, from: int) -> Option<SceneError>
    decreases paths.len() - from,
{
    if from < 0 || from >= paths.len() {
        None
    } else if paths[from].target_areas.len() == 0 {
        Some(SceneError::PathWithoutTargets(paths[from].id))
    } else if paths[from].target_areas.len() > MAX_TARGETS {
        Some(SceneError::PathTooLong(paths[from].id))
    } else {
        first_unfit(paths, from + 1)
    }
}

/// The first setting, in the order in which a scene asks for them, that
/// the configuration lacks.
pub open spec fn first_missing(settings: Map<Key, Entry>) -> Option<Key> {
    if !settings.dom().contains(Key::SceneWidth) {
        Some(Key::SceneWidth)
    } else if !settings.dom().contains(Key::SceneHeight) {
        Some(Key::SceneHeight)
    } else if !settings.dom().contains(Key::SceneScale) {
        Some(Key::SceneScale)
    } else if !settings.dom().contains(Key::SceneWalls) {
        Some(Key::SceneWalls)
    } else if !settings.dom().contains(Key::SceneSpawnAreas) {
        Some(Key::SceneSpawnAreas)
    } else if !settings.dom().contains(Key::SceneTargetAreas) {
        Some(Key::SceneTargetAreas)
    } else if !settings.dom().contains(Key::SpawnRate) {
        Some(Key::SpawnRate)
    } else {
        None
    }
}

/// The empty scene that settings describe, where they hold all that a
/// scene needs: one wall for each configured wall, one path for each
/// spawn area, nobody and no source of panic in it, and 0 the id of the
/// first person.
pub open spec fn scene_of(settings: Map<Key, Entry>) -> SceneView {
    SceneView {
        people: Seq::empty(),
        last_person_id: 0,
        geometry: walls_in(settings),
        panic_sources: Seq::empty(),
        paths: paths_of(
            spawn_areas_in(settings),
            target_areas_in(settings),
            settings[Key::SpawnRate]->SpawnRate_0,
        ),
        scale: settings[Key::SceneScale]->SceneScale_0,
        width: settings[Key::SceneWidth]->SceneWidth_0,
        height: settings[Key::SceneHeight]->SceneHeight_0,
    }
}

/// Why settings describe no scene; nothing where they describe one.
pub open spec fn scene_fault(settings: Map<Key, Entry>) -> Option<SceneError> {
    match first_missing(settings) {
        Some(key) => Some(SceneError::Missing(key)),
        None => first_unfit(scene_of(settings).paths, 0),
    }
}

/// Paths that were built from one list of targets have the same targets
/// wherever they have the same id.
proof fn lemma_paths_agree(
    spawn_areas: Seq<SceneSpawnArea>,
    targets: Seq<SceneTargetArea>,
    rate: Scalar,
)
    ensures
        forall|a: int, b: int|
            #![trigger paths_of(spawn_areas, targets, rate)[a], paths_of(spawn_areas, targets, rate)[b]]
            0 <= a < spawn_areas.len() && 0 <= b < spawn_areas.len() && paths_of(
                spawn_areas,
                targets,
                rate,
            )[a].id == paths_of(spawn_areas, targets, rate)[b].id ==> paths_of(
                spawn_areas,
                targets,
                rate,
            )[a].target_areas == paths_of(spawn_areas, targets, rate)[b].target_areas,
{
}

/// How often a place for a new person is tried before the path goes
/// without one for this tick.
pub const SPAWN_ATTEMPTS: usize = 10;

/// The encoding of the panic level that a person appears with: one half.
pub const INITIAL_PANIC_BITS: u64 = 0x3FE0_0000_0000_0000;

/// A place that was drawn for a new person, with what the person would
/// have there.
#[derive(Debug, Clone, Copy, PartialEq, Eq, Structural)]
pub struct SpawnCandidate {
    pub coordinates: Point,
    /// Whether the place is far enough from everybody in the scene.
    pub free: bool,
    /// The heading from the place towards the first target of the path.
    pub heading: Scalar,
    pub forces_params: PersonForcesParams,
}

/// The position of the first free candidate from `from` on among the
/// first `SPAWN_ATTEMPTS`; nothing if none of them is free.
pub open spec fn first_free(candidates: Seq<SpawnCandidate>, from: int) -> Option<int>
    decreases SPAWN_ATTEMPTS - from,
{
    if from < 0 || from >= candidates.len() || from >= SPAWN_ATTEMPTS {
        None
    } else if candidates[from].free {
        Some(from)
    } else {
        first_free(candidates, from + 1)
    }
}

/// The person that appears on a path at a candidate place: it gets the
/// next id and heads for the first target of the path.
pub open spec fn newcomer(scene: SceneView, path: PathView, candidate: SpawnCandidate) -> Person {
    Person {
        id: scene.last_person_id,
        coordinates: candidate.coordinates,
        heading: candidate.heading,
        path_id: path.id,
        current_target_area: path.target_areas[0],
        current_target_index: 0,
        panic_level: Scalar { bits: INITIAL_PANIC_BITS },
        forces_params: candidate.forces_params,
    }
}

/// The person that appears on the path at `path_index`, given the
/// candidate places: there is such a path, an id is left, and one of the
/// first `SPAWN_ATTEMPTS` candidates is free; the first free one it is.
pub open spec fn placement(scene: SceneView, path_index: usize, candidates: Seq<SpawnCandidate>)
    -> Option<Person> {
    if path_index >= scene.paths.len() || scene.last_person_id == u64::MAX {
        None
    } else {
        match first_free(candidates, 0) {
            Some(k) => Some(newcomer(scene, scene.paths[path_index as int], candidates[k])),
            None => None,
        }
    }
}

/// What becomes of a person in one pass over the arrivals.
#[derive(Debug, Clone, Copy, PartialEq, Eq, Structural)]
pub enum Fate {
    /// It has not reached its target: it goes on as it is.
    Stays,
    /// It has reached a target that is not the last: it heads for the next.
    Advances,
    /// It has reached its last target: it leaves the scene.
    Leaves,
}

/// Whether the person at `i` has reached its target, by the flags of
/// this pass; a person without a flag has not.
pub open spec fn has_arrived(reached: Seq<bool>, i: int) -> bool {
    0 <= i < reached.len() && reached[i]
}

pub open spec fn fate(person: Person, arrived: bool, paths: Seq<PathView>) -> Fate {
    if !arrived {
        Fate::Stays
    } else if person.current_target_index + 1 < route(paths, person.path_id).len() {
        Fate::Advances
    } else {
        Fate::Leaves
    }
}

/// The person, one target further along its route.
pub open spec fn advanced(person: Person, paths: Seq<PathView>) -> Person {
    Person {
        current_target_index: (person.current_target_index + 1) as u16,
        current_target_area: route(paths, person.path_id)[person.current_target_index + 1],
        ..person
    }
}

/// The people who are in the scene after a pass, in the order in which
/// they were: those who stay, and those who advance, one target further.
pub open spec fn staying(people: Seq<Person>, reached: Seq<bool>, paths: Seq<PathView>) -> Seq<
    Person,
>
    decreases people.len(),
{
    if people.len() == 0 {
        Seq::empty()
    } else {
        let rest = staying(people.drop_last(), reached, paths);
        match fate(people.last(), has_arrived(reached, people.len() - 1), paths) {
            Fate::Stays => rest.push(people.last()),
            Fate::Advances => rest.push(advanced(people.last(), paths)),
            Fate::Leaves => rest,
        }
    }
}

/// The people who leave the scene in a pass, as they were when they
/// reached their last target, in the order in which they were.
pub open spec fn leaving(people: Seq<Person>, reached: Seq<bool>, paths: Seq<PathView>) -> Seq<
    Person,
>
    decreases people.len(),
{
    if people.len() == 0 {
        Seq::empty()
    } else {
        let rest = leaving(people.drop_last(), reached, paths);
        match fate(people.last(), has_arrived(reached, people.len() - 1), paths) {
            Fate::Leaves => rest.push(people.last()),
            _ => rest,
        }
    }
}

/// Where `path_position` points: at the first path with the id, if
/// there is one.
pub proof fn lemma_path_position(paths: Seq<PathView>, id: u8, from: int)
    requires
        0 <= from <= paths.len(),
    ensures
        from <= path_position(paths, id, from) <= paths.len(),
        path_position(paths, id, from) < paths.len() ==> paths[path_position(paths, id, from)].id
            == id,
        forall|k: int| from <= k < path_position(paths, id, from) ==> (#[trigger] paths[k]).id != id,
    decreases paths.len() - from,
{
    if from < paths.len() && paths[from].id != id {
        lemma_path_position(paths, id, from + 1);
    }
}

/// In a scene, the route of a path's id is that path's targets.
pub proof fn lemma_route_of_path(scene: SceneView, k: int)
    requires
        scene_wf(scene),
        0 <= k < scene.paths.len(),
    ensures
        route(scene.paths, scene.paths[k].id) == scene.paths[k].target_areas,
{
    lemma_path_position(scene.paths, scene.paths[k].id, 0);
}

/// A pass keeps what holds of the people of a scene: whoever stays is on
/// its route, with the panic level it had, and the ids still ascend
/// below `bound`.
pub proof fn lemma_staying_keeps_order(
    people: Seq<Person>,
    reached: Seq<bool>,
    paths: Seq<PathView>,
    bound: int,
)
    requires
        forall|k: int| 0 <= k < paths.len() ==> (#[trigger] paths[k]).target_areas.len() <= MAX_TARGETS,
        forall|i: int| 0 <= i < people.len() ==> on_route(#[trigger] people[i], paths),
        forall|i: int| 0 <= i < people.len() ==> (#[trigger] people[i]).panic_level.in_unit_range(),
        forall|i: int| 0 <= i < people.len() ==> (#[trigger] people[i]).id < bound,
        forall|i: int, j: int|
            0 <= i < j < people.len() ==> (#[trigger] people[i]).id < (#[trigger] people[j]).id,
    ensures
        staying(people, reached, paths).len() <= people.len(),
        forall|i: int|
            0 <= i < staying(people, reached, paths).len() ==> (#[trigger] staying(
                people,
                reached,
                paths,
            )[i]).panic_level.in_unit_range(),
        forall|i: int|
            0 <= i < staying(people, reached, paths).len() ==> on_route(
                #[trigger] staying(people, reached, paths)[i],
                paths,
            ),
        forall|i: int|
            0 <= i < staying(people, reached, paths).len() ==> (#[trigger] staying(
                people,
                reached,
                paths,
            )[i]).id < bound,
        forall|i: int, j: int|
            0 <= i < j < staying(people, reached, paths).len() ==> (#[trigger] staying(
                people,
                reached,
                paths,
            )[i]).id < (#[trigger] staying(people, reached, paths)[j]).id,
    decreases people.len(),
{
    if people.len() > 0 {
        let front = people.drop_last();
        lemma_staying_keeps_order(front, reached, paths, people.last().id as int);
        lemma_staying_keeps_order(front, reached, paths, bound);
        lemma_path_position(paths, people.last().path_id, 0);
        assert(on_route(people[people.len() - 1], paths));
        assert(people[people.len() - 1].panic_level.in_unit_range());
        let rest = staying(front, reached, paths);
        let whole = staying(people, reached, paths);
        assert forall|i: int| 0 <= i < whole.len() implies (#[trigger] whole[i]).panic_level.in_unit_range() by {
            if i < rest.len() {
                assert(rest[i].panic_level.in_unit_range());
            }
        }
    }
}

/// Whether a path gets a new person at this tick: its counter runs out.
pub open spec fn due(path: PathView) -> bool {
    path.spawn_area.ticks_to_next_spawn <= 1
}

/// The path after a tick of the spawn schedule: a path that is due
/// starts a new period, any other has one tick less to wait.
pub open spec fn ticked(path: PathView, period: u16) -> PathView {
    PathView {
        spawn_area: SpawnArea {
            ticks_to_next_spawn: if due(path) {
                period
            } else {
                (path.spawn_area.ticks_to_next_spawn - 1) as u16
            },
            ..path.spawn_area
        },
        ..path
    }
}

pub open spec fn ticked_paths(paths: Seq<PathView>, period: u16) -> Seq<PathView> {
    Seq::new(paths.len(), |k: int| ticked(paths[k], period))
}

/// The positions below `below` of the paths that are due, ascending.
pub open spec fn due_paths(paths: Seq<PathView>, below: int) -> Seq<usize>
    decreases below,
{
    if below <= 0 {
        Seq::empty()
    } else if below <= paths.len() && due(paths[below - 1]) {
        due_paths(paths, below - 1).push((below - 1) as usize)
    } else {
        due_paths(paths, below - 1)
    }
}

/// How far, in multiples of the smoothing radius, a person adds to the
/// density around it.
pub const KERNEL_REACH: i64 = 3;

/// A block of grid cells: the rows from `first_row` up to, not with,
/// `end_row`, and the columns likewise.
#[derive(Debug, Clone, Copy, PartialEq, Eq, Structural)]
pub struct CellWindow {
    pub first_row: u16,
    pub end_row: u16,
    pub first_column: u16,
    pub end_column: u16,
}

/// Whether the row or column `i` of a grid with `limit` of them is one
/// to which a person in the row or column `center` adds density, the
/// smoothing radius being `radius` cells.
pub open spec fn in_span(center: i32, radius: i32, limit: u16, i: int) -> bool {
    &&& 0 <= i < limit
    &&& center - KERNEL_REACH * radius <= i < center + KERNEL_REACH * radius
}

/// Where a person is after a tick's movement.
#[derive(Debug, Clone, Copy, PartialEq, Eq, Structural)]
pub struct Move {
    pub coordinates: Point,
    pub heading: Scalar,
}

/// The people after their moves: the person at `i` is where `moves[i]`
/// says; a person without a move is where it was.
pub open spec fn moved(people: Seq<Person>, moves: Seq<Move>) -> Seq<Person> {
    Seq::new(
        people.len(),
        |i: int|
            if i < moves.len() {
                Person { coordinates: moves[i].coordinates, heading: moves[i].heading, ..people[i] }
            } else {
                people[i]
            },
    )
}

/// The people with their new panic levels: the person at `i` has the
/// level `levels[i]`, brought into the range from zero to one; a person
/// without a new level keeps its own.
pub open spec fn with_panic_levels(people: Seq<Person>, levels: Seq<Scalar>) -> Seq<Person> {
    Seq::new(
        people.len(),
        |i: int|
            if i < levels.len() {
                Person { panic_level: levels[i].clamped_to_unit(), ..people[i] }
            } else {
                people[i]
            },
    )
}

/// The route of an id depends on the ids and the targets of the paths
/// alone.
pub proof fn lemma_route_same(a: Seq<PathView>, b: Seq<PathView>, id: u8, from: int)
    requires
        a.len() == b.len(),
        0 <= from <= a.len(),
        forall|k: int|
            0 <= k < a.len() ==> (#[trigger] a[k]).id == b[k].id && a[k].target_areas
                == b[k].target_areas,
    ensures
        path_position(a, id, from) == path_position(b, id, from),
        from == 0 ==> route(a, id) == route(b, id),
    decreases a.len() - from,
{
    if from < a.len() && a[from].id != id {
        lemma_route_same(a, b, id, from + 1);
    }
    lemma_path_position(a, id, from);
}

/// The rows or columns of a grid with `limit` of them to which a person
/// in the row or column `center` adds density.
fn clip_span(center: i32, radius: i32, limit: u16) -> (span: (u16, u16))
    ensures
        span.0 <= span.1 <= limit,
        forall|i: int| span.0 <= i < span.1 <==> in_span(center, radius, limit, i),
{
    let low: i64 = center as i64 - KERNEL_REACH * (radius as i64);
    let high: i64 = center as i64 + KERNEL_REACH * (radius as i64);
    let first: u16 = if low < 0 {
        0
    } else if low > limit as i64 {
        limit
    } else {
        low as u16
    };
    let end: u16 = if high < first as i64 {
        first
    } else if high > limit as i64 {
        limit
    } else {
        high as u16
    };
    (first, end)
}

impl Scene {
    /// What holds of every scene.
    pub open spec fn wf(&self) -> bool {
        scene_wf(self@)
    }

    /// Builds the scene that a configuration describes, with nobody in
    /// it. Fails where the configuration lacks a setting that the scene
    /// needs, or describes a path with no target or with too many.
    pub fn new(configuration: &Configuration) -> (r: Result<Scene, SceneError>)
        ensures
            match scene_fault(configuration@) {
                Some(fault) => r == Err::<Scene, SceneError>(fault),
                None => r is Ok && r.unwrap()@ == scene_of(configuration@) && r.unwrap().wf(),
            },
    {
        let width = match configuration.get::<SceneWidth>() {
            Some(held) => held.0,
            None => {
                return Err(SceneError::Missing(Key::SceneWidth));
            },
        };
        let height = match configuration.get::<SceneHeight>() {
            Some(held) => held.0,
            None => {
                return Err(SceneError::Missing(Key::SceneHeight));
            },
        };
        let scale = match configuration.get::<SceneScale>() {
            Some(held) => held.0,
            None => {
                return Err(SceneError::Missing(Key::SceneScale));
            },
        };
        let walls = match configuration.get::<SceneWalls>() {
            Some(held) => &held.0,
            None => {
                return Err(SceneError::Missing(Key::SceneWalls));
            },
        };
        let spawn_areas = match configuration.get::<SceneSpawnAreas>() {
            Some(held) => &held.0,
            None => {
                return Err(SceneError::Missing(Key::SceneSpawnAreas));
            },
        };
        let target_areas = match configuration.get::<SceneTargetAreas>() {
            Some(held) => &held.0,
            None => {
                return Err(SceneError::Missing(Key::SceneTargetAreas));
            },
        };
        let spawn_rate = match configuration.get::<SpawnRate>() {
            Some(held) => held.0,
            None => {
                return Err(SceneError::Missing(Key::SpawnRate));
            },
        };
        let geometry = Scene::parse_walls(walls);
        let paths = Scene::parse_paths(spawn_areas, target_areas, spawn_rate);
        assert(path_views(paths@) =~= scene_of(configuration@).paths);
        let mut k: usize = 0;
        while k < paths.len()
            invariant
                k <= paths.len(),
                scene_fault(configuration@) == first_unfit(path_views(paths@), k as int),
                forall|i: int| 0 <= i < k ==> path_fit(#[trigger] path_views(paths@)[i]),
                forall|i: int|
                    0 <= i < paths@.len() ==> (#[trigger] path_views(
                        paths@,
                    )[i]).spawn_area.ticks_to_next_spawn == 1,
            decreases paths.len() - k,
        {
            if paths[k].target_areas.len() == 0 {
                return Err(SceneError::PathWithoutTargets(paths[k].id));
            }
            if paths[k].target_areas.len() > MAX_TARGETS {
                return Err(SceneError::PathTooLong(paths[k].id));
            }
            k = k + 1;
        }
        proof {
            lemma_paths_agree(spawn_areas@, target_areas@, spawn_rate);
        }
        Ok(
            Scene {
                people: Vec::new(),
                last_person_id: 0,
                geometry,
                paths,
                panic_sources: Vec::new(),
                scale,
                width,
                height,
            },
        )
    }

    /// The position of the first path with the id `id`; the number of
    /// paths if there is none.
    fn position_of(&self, id: u8) -> (k: usize)
        ensures
            k == path_position(self@.paths, id, 0),
            k <= self@.paths.len(),
    {
        let mut k: usize = 0;
        while k < self.paths.len() && self.paths[k].id != id
            invariant
                k <= self.paths@.len(),
                path_position(path_views(self.paths@), id, 0) == path_position(
                    path_views(self.paths@),
                    id,
                    k as int,
                ),
            decreases self.paths.len() - k,
        {
            k = k + 1;
        }
        k
    }

    /// Lets a person appear on the path at `path_index`, at the first of
    /// the first `SPAWN_ATTEMPTS` candidate places that is free, and
    /// returns its id. Where none of them is free nobody appears, and
    /// the scene stays as it is; so too where there is no such path or
    /// no id is left.
    pub fn spawn_in_path(&mut self, path_index: usize, candidates: &Vec<SpawnCandidate>) -> (r:
        Option<u64>)
        requires
            old(self).wf(),
        ensures
            final(self).wf(),
            match placement(old(self)@, path_index, candidates@) {
                Some(person) => r == Some(person.id) && final(self)@ == (SceneView {
                    people: old(self)@.people.push(person),
                    last_person_id: (old(self)@.last_person_id + 1) as u64,
                    ..old(self)@
                }),
                None => r is None && final(self)@ == old(self)@,
            },
    {
        if path_index >= self.paths.len() || self.last_person_id == u64::MAX {
            return None;
        }
        let mut k: usize = 0;
        while k < candidates.len() && k < SPAWN_ATTEMPTS && !candidates[k].free
            invariant
                k <= candidates@.len(),
                k <= SPAWN_ATTEMPTS,
                first_free(candidates@, 0) == first_free(candidates@, k as int),
            decreases candidates.len() - k,
        {
            k = k + 1;
        }
        if k >= candidates.len() || k >= SPAWN_ATTEMPTS {
            return None;
        }
        let candidate = candidates[k];
        let id = self.last_person_id;
        proof {
            lemma_route_of_path(self@, path_index as int);
        }
        let person = Person {
            id,
            coordinates: candidate.coordinates,
            heading: candidate.heading,
            path_id: self.paths[path_index].id,
            current_target_area: self.paths[path_index].target_areas[0],
            current_target_index: 0,
            panic_level: Scalar { bits: INITIAL_PANIC_BITS },
            forces_params: candidate.forces_params,
        };
        self.people.push(person);
        self.last_person_id = id + 1;
        Some(id)
    }

    /// One pass over the arrivals. `reached` says of each person, by its
    /// position, whether it has reached its target; a person without a
    /// flag has not. Whoever has reached a target that is not its last
    /// heads for the next one; whoever has reached its last target
    /// leaves the scene and is returned; everybody else goes on as it is.
    pub fn process_reached_destination_people(&mut self, reached: &Vec<bool>) -> (gone: Vec<Person>)
        requires
            old(self).wf(),
        ensures
            final(self).wf(),
            final(self)@ == (SceneView {
                people: staying(old(self)@.people, reached@, old(self)@.paths),
                ..old(self)@
            }),
            gone@ == leaving(old(self)@.people, reached@, old(self)@.paths),
    {
        let mut kept: Vec<Person> = Vec::new();
        let mut gone: Vec<Person> = Vec::new();
        let mut i: usize = 0;
        while i < self.people.len()
            invariant
                *self == *old(self),
                self.wf(),
                i <= self.people@.len(),
                kept@ == staying(self.people@.take(i as int), reached@, self@.paths),
                gone@ == leaving(self.people@.take(i as int), reached@, self@.paths),
            decreases self.people.len() - i,
        {
            proof {
                assert(self.people@.take(i + 1).drop_last() == self.people@.take(i as int));
            }
            let person = self.people[i];
            let arrived = i < reached.len() && reached[i];
            if !arrived {
                kept.push(person);
            } else {
                let k = self.position_of(person.path_id);
                assert(on_route(self@.people[i as int], self@.paths));
                let targets = &self.paths[k].target_areas;
                let next = person.current_target_index as usize + 1;
                if next < targets.len() {
                    kept.push(
                        Person {
                            current_target_index: person.current_target_index + 1,
                            current_target_area: targets[next],
                            ..person
                        },
                    );
                } else {
                    gone.push(person);
                }
            }
            i = i + 1;
        }
        proof {
            assert(self.people@.take(self.people@.len() as int) == self.people@);
            lemma_staying_keeps_order(
                self@.people,
                reached@,
                self@.paths,
                self@.last_person_id as int,
            );
        }
        self.people = kept;
        gone
    }

    /// One tick of the spawn schedule, a period being `period` ticks
    /// long. Returns the positions of the paths that are due for a new
    /// person, ascending; each of them starts a new period, and every
    /// other path has one tick less to wait.
    pub fn spawn_people(&mut self, period: u16) -> (marked: Vec<usize>)
        requires
            old(self).wf(),
            period >= 1,
        ensures
            final(self).wf(),
            final(self)@ == (SceneView {
                paths: ticked_paths(old(self)@.paths, period),
                ..old(self)@
            }),
            marked@ == due_paths(old(self)@.paths, old(self)@.paths.len() as int),
    {
        let mut marked: Vec<usize> = Vec::new();
        let mut k: usize = 0;
        while k < self.paths.len()
            invariant
                period >= 1,
                old(self).wf(),
                self.people == old(self).people,
                self.last_person_id == old(self).last_person_id,
                self.geometry == old(self).geometry,
                self.panic_sources == old(self).panic_sources,
                self.scale == old(self).scale,
                self.width == old(self).width,
                self.height == old(self).height,
                self.paths@.len() == old(self).paths@.len(),
                k <= self.paths@.len(),
                forall|i: int|
                    0 <= i < k ==> (#[trigger] self.paths@[i])@ == ticked(
                        old(self).paths@[i]@,
                        period,
                    ),
                forall|i: int|
                    k <= i < self.paths@.len() ==> (#[trigger] self.paths@[i]) == old(
                        self,
                    ).paths@[i],
                marked@ == due_paths(path_views(old(self).paths@), k as int),
            decreases self.paths.len() - k,
        {
            assert(path_fit(old(self)@.paths[k as int]));
            if self.paths[k].spawn_area.ticks_to_next_spawn <= 1 {
                marked.push(k);
                self.paths[k].spawn_area.ticks_to_next_spawn = period;
            } else {
                let left = self.paths[k].spawn_area.ticks_to_next_spawn - 1;
                self.paths[k].spawn_area.ticks_to_next_spawn = left;
            }
            k = k + 1;
        }
        proof {
            assert(self@.paths =~= ticked_paths(old(self)@.paths, period));
            assert forall|i: int| 0 <= i < self@.people.len() implies on_route(
                #[trigger] self@.people[i],
                self@.paths,
            ) by {
                lemma_route_same(self@.paths, old(self)@.paths, self@.people[i].path_id, 0);
                assert(on_route(old(self)@.people[i], old(self)@.paths));
            }
            assert forall|i: int| 0 <= i < self@.paths.len() implies path_fit(
                #[trigger] self@.paths[i],
            ) by {
                assert(path_fit(old(self)@.paths[i]));
            }
        }
        marked
    }

    /// The people move: the person at `i` goes where `moves[i]` says.
    /// All moves of a tick are made at once, after all of them were
    /// worked out.
    pub fn apply_moves(&mut self, moves: &Vec<Move>)
        requires
            old(self).wf(),
        ensures
            final(self).wf(),
            final(self)@ == (SceneView {
                people: moved(old(self)@.people, moves@),
                ..old(self)@
            }),
    {
        let mut i: usize = 0;
        while i < self.people.len() && i < moves.len()
            invariant
                self.last_person_id == old(self).last_person_id,
                self.geometry == old(self).geometry,
                self.panic_sources == old(self).panic_sources,
                self.paths == old(self).paths,
                self.scale == old(self).scale,
                self.width == old(self).width,
                self.height == old(self).height,
                self.people@.len() == old(self).people@.len(),
                i <= self.people@.len(),
                i <= moves@.len(),
                forall|j: int|
                    0 <= j < i ==> #[trigger] self.people@[j] == moved(
                        old(self).people@,
                        moves@,
                    )[j],
                forall|j: int|
                    i <= j < self.people@.len() ==> #[trigger] self.people@[j] == old(
                        self,
                    ).people@[j],
            decreases self.people.len() - i,
        {
            self.people[i].coordinates = moves[i].coordinates;
            self.people[i].heading = moves[i].heading;
            i = i + 1;
        }
        proof {
            assert(self@.people =~= moved(old(self)@.people, moves@));
        }
    }

    /// The people take their new panic levels, the person at `i` the
    /// level `levels[i]`, brought into the range from zero to one. All
    /// levels of a tick are set at once, after all of them were worked
    /// out from the levels before.
    pub fn apply_panic_levels(&mut self, levels: &Vec<Scalar>)
        requires
            old(self).wf(),
        ensures
            final(self).wf(),
            final(self)@ == (SceneView {
                people: with_panic_levels(old(self)@.people, levels@),
                ..old(self)@
            }),
    {
        let mut i: usize = 0;
        while i < self.people.len() && i < levels.len()
            invariant
                self.last_person_id == old(self).last_person_id,
                self.geometry == old(self).geometry,
                self.panic_sources == old(self).panic_sources,
                self.paths == old(self).paths,
                self.scale == old(self).scale,
                self.width == old(self).width,
                self.height == old(self).height,
                self.people@.len() == old(self).people@.len(),
                i <= self.people@.len(),
                i <= levels@.len(),
                forall|j: int|
                    0 <= j < i ==> #[trigger] self.people@[j] == with_panic_levels(
                        old(self).people@,
                        levels@,
                    )[j],
                forall|j: int|
                    i <= j < self.people@.len() ==> #[trigger] self.people@[j] == old(
                        self,
                    ).people@[j],
            decreases self.people.len() - i,
        {
            self.people[i].panic_level = levels[i].clamp_to_unit();
            i = i + 1;
        }
        proof {
            assert(self@.people =~= with_panic_levels(old(self)@.people, levels@));
        }
    }

    /// The cells to which a person adds density: those of the grid that
    /// lie less than `KERNEL_REACH` smoothing radii before, and at most
    /// as many behind, the cell (`column`, `row`) that the person stands
    /// in, `radius` being the smoothing radius in cells.
    pub fn density_window(&self, column: i32, row: i32, radius: i32) -> (window: CellWindow)
        ensures
            window.first_row <= window.end_row <= self@.height,
            window.first_column <= window.end_column <= self@.width,
            forall|i: int|
                window.first_row <= i < window.end_row <==> in_span(row, radius, self@.height, i),
            forall|j: int|
                window.first_column <= j < window.end_column <==> in_span(
                    column,
                    radius,
                    self@.width,
                    j,
                ),
    {
        let rows = clip_span(row, radius, self.height);
        let columns = clip_span(column, radius, self.width);
        CellWindow {
            first_row: rows.0,
            end_row: rows.1,
            first_column: columns.0,
            end_column: columns.1,
        }
    }

    /// Puts the sources of panic in the place of those that were there.
    pub fn set_panic_sources(&mut self, sources: Vec<PanicSource>)
        requires
            old(self).wf(),
        ensures
            final(self).wf(),
            final(self)@ == (SceneView { panic_sources: sources@, ..old(self)@ }),
    {
        self.panic_sources = sources;
    }

    /// The sources of panic.
    pub fn panic_sources(&self) -> (sources: &Vec<PanicSource>)
        ensures
            sources@ == self@.panic_sources,
    {
        &self.panic_sources
    }

    /// The people in the scene.
    pub fn people(&self) -> (people: &Vec<Person>)
        ensures
            people@ == self@.people,
    {
        &self.people
    }

    /// The paths of the scene.
    pub fn paths(&self) -> (paths: &Vec<Path>)
        ensures
            path_views(paths@) == self@.paths,
    {
        &self.paths
    }

    /// The walls of the scene.
    pub fn geometry(&self) -> (geometry: &Vec<SceneWall>)
        ensures
            geometry@ == self@.geometry,
    {
        &self.geometry
    }

    /// The id that the next person gets.
    pub fn last_person_id(&self) -> (id: u64)
        ensures
            id == self@.last_person_id,
    {
        self.last_person_id
    }

    /// Meters per grid unit.
    pub fn scale(&self) -> (scale: Scalar)
        ensures
            scale == self@.scale,
    {
        self.scale
    }

    pub fn width(&self) -> (width: u16)
        ensures
            width == self@.width,
    {
        self.width
    }

    pub fn height(&self) -> (height: u16)
        ensures
            height == self@.height,
    {
        self.height
    }

    /// The walls of the scene, as they are configured.
    pub fn parse_walls(walls: &Vec<SceneWall>) -> (geometry: Vec<SceneWall>)
        ensures
            geometry@ == walls@,
    {
        let mut geometry: Vec<SceneWall> = Vec::new();
        let mut i: usize = 0;
        while i < walls.len()
            invariant
                i <= walls.len(),
                geometry@ == walls@.take(i as int),
            decreases walls.len() - i,
        {
            geometry.push(walls[i]);
            i = i + 1;
        }
        proof {
            assert(walls@.take(walls.len() as int) == walls@);
        }
        geometry
    }

    /// Builds the paths, one for each spawn area in the order in which
    /// they are configured.
    pub fn parse_paths(
        spawn_areas: &Vec<SceneSpawnArea>,
        target_areas: &Vec<SceneTargetArea>,
        spawn_rate: Scalar,
    ) -> (paths: Vec<Path>)
        ensures
            paths@.len() == spawn_areas@.len(),
            forall|i: int|
                0 <= i < paths@.len() ==> #[trigger] paths@[i]@ == path_of(
                    spawn_areas@[i],
                    target_areas@,
                    spawn_rate,
                ),
    {
        let mut paths: Vec<Path> = Vec::new();
        let mut i: usize = 0;
        while i < spawn_areas.len()
            invariant
                i <= spawn_areas.len(),
                paths@.len() == i,
                forall|k: int|
                    0 <= k < i ==> #[trigger] paths@[k]@ == path_of(
                        spawn_areas@[k],
                        target_areas@,
                        spawn_rate,
                    ),
            decreases spawn_areas.len() - i,
        {
            let spawn = spawn_areas[i];
            let area = Area::new(
                Corner { x: spawn.x0, y: spawn.y0 },
                Corner { x: spawn.x1, y: spawn.y1 },
                0,
            );
            let spawn_area = SpawnArea { area, rate: spawn_rate, ticks_to_next_spawn: 1 };
            let mut parsed: Vec<Area> = Vec::new();
            let mut j: usize = 0;
            while j < target_areas.len()
                invariant
                    j <= target_areas.len(),
                    parsed@ == targets_of(target_areas@.take(j as int), spawn.id),
                decreases target_areas.len() - j,
            {
                proof {
                    assert(target_areas@.take(j + 1).drop_last() == target_areas@.take(j as int));
                }
                let target = target_areas[j];
                if target.id == spawn.id {
                    parsed.push(
                        Area::new(
                            Corner { x: target.x0, y: target.y0 },
                            Corner { x: target.x1, y: target.y1 },
                            target.sequence_no,
                        ),
                    );
                }
                j = j + 1;
            }
            proof {
                assert(target_areas@.take(target_areas.len() as int) == target_areas@);
            }
            let sorted = sort_by_sequence(&parsed);
            paths.push(Path { id: spawn.id, spawn_area, target_areas: sorted });
            i = i + 1;
        }
        paths
    }
}

} // verus!
