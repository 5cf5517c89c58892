//! The items of the configuration stream, and loading a whole stream.
//!
//! The stream is a run of items. An item starts with the byte of its
//! section (1 scene, 2 time, 3 spawn, 4 forces) and the number of its
//! element; what follows depends on the element. Walls, spawn areas and
//! target areas add to a list; every other item replaces the value held
//! for its setting.

use super::bytes::{
    coordinates_at, distribution_at, parse_coordinates, parse_distribution, parse_scalar,
    parse_string, parse_u16, parse_u32, parse_u8, scalar_at, string_at, u16_at, u32_at, u8_at,
    ConfigError,
};
use super::items::{
    ForcesRepulsionCoeff, ForcesTargetSpeed, SceneFilename, SceneHeight, SceneScale,
    SceneSpawnArea, SceneSpawnAreas, SceneTargetArea, SceneTargetAreas, SceneWall, SceneWalls,
    SceneWidth, SpawnRate, SpawnTime, TimeEndTime, TimeTick,
};
use super::store::{no_settings, Configuration, Entry, Key};
use vstd::prelude::*;

verus! {

/// The id of the path to which the target areas of the stream belong.
/// Target areas of other paths are set through the configuration itself.
pub const STREAM_TARGET_PATH: u8 = 0;

/// One item of the stream, by what it does to the settings.
pub enum Item {
    /// One more wall.
    Wall(SceneWall),
    /// One more spawn area.
    SpawnArea(SceneSpawnArea),
    /// One more target area.
    TargetArea(SceneTargetArea),
    /// A value that takes the place of the one held for its setting.
    Value(Entry),
}

/// The key under which an entry is held.
pub open spec fn key_of(entry: Entry) -> Key {
    match entry {
        Entry::SceneWidth(_) => Key::SceneWidth,
        Entry::SceneHeight(_) => Key::SceneHeight,
        Entry::SceneScale(_) => Key::SceneScale,
        Entry::SceneWalls(_) => Key::SceneWalls,
        Entry::SceneSpawnAreas(_) => Key::SceneSpawnAreas,
        Entry::SceneTargetAreas(_) => Key::SceneTargetAreas,
        Entry::SceneFilename(_) => Key::SceneFilename,
        Entry::TimeEndTime(_) => Key::TimeEndTime,
        Entry::TimeTick(_) => Key::TimeTick,
        Entry::SpawnTime(_) => Key::SpawnTime,
        Entry::SpawnRate(_) => Key::SpawnRate,
        Entry::ForcesTargetSpeed(_) => Key::ForcesTargetSpeed,
        Entry::ForcesRepulsionCoeff(_) => Key::ForcesRepulsionCoeff,
        Entry::FovForward(_) => Key::FovForward,
        Entry::FovBackward(_) => Key::FovBackward,
        Entry::SimType(_) => Key::SimType,
        Entry::DensityMapEnabled(_) => Key::DensityMapEnabled,
        Entry::DensityMapMinThreshold(_) => Key::DensityMapMinThreshold,
        Entry::DensityMapMaxThreshold(_) => Key::DensityMapMaxThreshold,
    }
}

/// The walls that the settings hold; none where they hold no list.
pub open spec fn walls_in(settings: Map<Key, Entry>) -> Seq<SceneWall> {
    if settings.dom().contains(Key::SceneWalls) && settings[Key::SceneWalls] is SceneWalls {
        settings[Key::SceneWalls]->SceneWalls_0
    } else {
        Seq::empty()
    }
}

/// The spawn areas that the settings hold; none where they hold no list.
pub open spec fn spawn_areas_in(settings: Map<Key, Entry>) -> Seq<SceneSpawnArea> {
    if settings.dom().contains(Key::SceneSpawnAreas) && settings[Key::SceneSpawnAreas]
        is SceneSpawnAreas {
        settings[Key::SceneSpawnAreas]->SceneSpawnAreas_0
    } else {
        Seq::empty()
    }
}

/// The target areas that the settings hold; none where they hold no list.
pub open spec fn target_areas_in(settings: Map<Key, Entry>) -> Seq<SceneTargetArea> {
    if settings.dom().contains(Key::SceneTargetAreas) && settings[Key::SceneTargetAreas]
        is SceneTargetAreas {
        settings[Key::SceneTargetAreas]->SceneTargetAreas_0
    } else {
        Seq::empty()
    }
}

/// The settings after an item: a wall or an area is added behind those
/// held, any other value replaces the one held.
pub open spec fn with_item(settings: Map<Key, Entry>, item: Item) -> Map<Key, Entry> {
    match item {
        Item::Wall(wall) => settings.insert(
            Key::SceneWalls,
            Entry::SceneWalls(walls_in(settings).push(wall)),
        ),
        Item::SpawnArea(area) => settings.insert(
            Key::SceneSpawnAreas,
            Entry::SceneSpawnAreas(spawn_areas_in(settings).push(area)),
        ),
        Item::TargetArea(area) => settings.insert(
            Key::SceneTargetAreas,
            Entry::SceneTargetAreas(target_areas_in(settings).push(area)),
        ),
        Item::Value(entry) => settings.insert(key_of(entry), entry),
    }
}

/// The scene item at `at`: the number of its element, then
/// - 0x01, a wall: its corners;
/// - 0x02, a spawn area: its corners and the id of its path;
/// - 0x03, a target area: its corners and a byte whose lowest bit says
///   whether the area is the last of its path and whose other bits are
///   its sequence number; the stream names no path for it, and it goes
///   to the path `STREAM_TARGET_PATH`;
/// - 0x11 the width, 0x12 the height: a 16-bit number;
/// - 0x13 the scale: a scalar;
/// - 0xFF the name of the scene file: a string.
pub open spec fn scene_item_at(bytes: Seq<u8>, at: usize) -> Result<(Item, usize), ConfigError> {
    match u16_at(bytes, at) {
        Err(e) => Err(e),
        Ok((element, start)) => if element == 0x01 {
            match coordinates_at(bytes, start) {
                Err(e) => Err(e),
                Ok((c, next)) => Ok(
                    (Item::Wall(SceneWall { x0: c.0, y0: c.1, x1: c.2, y1: c.3 }), next),
                ),
            }
        } else if element == 0x02 {
            match coordinates_at(bytes, start) {
                Err(e) => Err(e),
                Ok((c, middle)) => match u8_at(bytes, middle) {
                    Err(e) => Err(e),
                    Ok((id, next)) => Ok(
                        (
                            Item::SpawnArea(
                                SceneSpawnArea { x0: c.0, y0: c.1, x1: c.2, y1: c.3, id },
                            ),
                            next,
                        ),
                    ),
                },
            }
        } else if element == 0x03 {
            match coordinates_at(bytes, start) {
                Err(e) => Err(e),
                Ok((c, middle)) => match u8_at(bytes, middle) {
                    Err(e) => Err(e),
                    Ok((flags, next)) => Ok(
                        (
                            Item::TargetArea(
                                SceneTargetArea {
                                    x0: c.0,
                                    y0: c.1,
                                    x1: c.2,
                                    y1: c.3,
                                    id: STREAM_TARGET_PATH,
                                    sequence_no: flags / 2,
                                    last: flags % 2 == 1,
                                },
                            ),
                            next,
                        ),
                    ),
                },
            }
        } else if element == 0x11 {
            match u16_at(bytes, start) {
                Err(e) => Err(e),
                Ok((width, next)) => Ok((Item::Value(Entry::SceneWidth(width)), next)),
            }
        } else if element == 0x12 {
            match u16_at(bytes, start) {
                Err(e) => Err(e),
                Ok((height, next)) => Ok((Item::Value(Entry::SceneHeight(height)), next)),
            }
        } else if element == 0x13 {
            match scalar_at(bytes, start) {
                Err(e) => Err(e),
                Ok((scale, next)) => Ok((Item::Value(Entry::SceneScale(scale)), next)),
            }
        } else if element == 0xFF {
            match string_at(bytes, start) {
                Err(e) => Err(e),
                Ok((name, next)) => Ok((Item::Value(Entry::SceneFilename(name)), next)),
            }
        } else {
            Err(ConfigError::UnknownSceneElement(element))
        },
    }
}

/// The time item at `at`: element 1 is the end time, a 32-bit number;
/// element 2 the length of a tick, a scalar.
pub open spec fn time_item_at(bytes: Seq<u8>, at: usize) -> Result<(Item, usize), ConfigError> {
    match u16_at(bytes, at) {
        Err(e) => Err(e),
        Ok((element, start)) => if element == 0x01 {
            match u32_at(bytes, start) {
                Err(e) => Err(e),
                Ok((end_time, next)) => Ok((Item::Value(Entry::TimeEndTime(end_time)), next)),
            }
        } else if element == 0x02 {
            match scalar_at(bytes, start) {
                Err(e) => Err(e),
                Ok((tick, next)) => Ok((Item::Value(Entry::TimeTick(tick)), next)),
            }
        } else {
            Err(ConfigError::UnknownTimeElement(element))
        },
    }
}

/// The spawn item at `at`: element 1 is the spawn rate, a scalar;
/// element 2 the spawn time, a distribution.
pub open spec fn spawn_item_at(bytes: Seq<u8>, at: usize) -> Result<(Item, usize), ConfigError> {
    match u16_at(bytes, at) {
        Err(e) => Err(e),
        Ok((element, start)) => if element == 0x01 {
            match scalar_at(bytes, start) {
                Err(e) => Err(e),
                Ok((rate, next)) => Ok((Item::Value(Entry::SpawnRate(rate)), next)),
            }
        } else if element == 0x02 {
            match distribution_at(bytes, start) {
                Err(e) => Err(e),
                Ok((time, next)) => Ok((Item::Value(Entry::SpawnTime(time)), next)),
            }
        } else {
            Err(ConfigError::UnknownSpawnElement(element))
        },
    }
}

/// The item of the repulsion force at `at`: element 1 is the
/// distribution of the repulsion coefficient.
pub open spec fn repulsion_force_item_at(bytes: Seq<u8>, at: usize) -> Result<
    (Item, usize),
    ConfigError,
> {
    match u8_at(bytes, at) {
        Err(e) => Err(e),
        Ok((element, start)) => if element == 0x01 {
            match distribution_at(bytes, start) {
                Err(e) => Err(e),
                Ok((coeff, next)) => Ok((Item::Value(Entry::ForcesRepulsionCoeff(coeff)), next)),
            }
        } else {
            Err(ConfigError::UnknownRepulsionElement(element))
        },
    }
}

/// The item of the target force at `at`: element 1 is the distribution
/// of the target speed.
pub open spec fn target_force_item_at(bytes: Seq<u8>, at: usize) -> Result<
    (Item, usize),
    ConfigError,
> {
    match u8_at(bytes, at) {
        Err(e) => Err(e),
        Ok((element, start)) => if element == 0x01 {
            match distribution_at(bytes, start) {
                Err(e) => Err(e),
                Ok((speed, next)) => Ok((Item::Value(Entry::ForcesTargetSpeed(speed)), next)),
            }
        } else {
            Err(ConfigError::UnknownTargetElement(element))
        },
    }
}

/// The forces item at `at`: the byte of the force (1 repulsion,
/// 2 target), then the item of that force.
pub open spec fn forces_item_at(bytes: Seq<u8>, at: usize) -> Result<(Item, usize), ConfigError> {
    match u8_at(bytes, at) {
        Err(e) => Err(e),
        Ok((force, start)) => if force == 0x01 {
            repulsion_force_item_at(bytes, start)
        } else if force == 0x02 {
            target_force_item_at(bytes, start)
        } else {
            Err(ConfigError::UnknownForce(force))
        },
    }
}

/// The item at `at`, where the stream has not ended there: the byte of
/// its section, then the item of that section.
pub open spec fn single_item_at(bytes: Seq<u8>, at: usize) -> Result<(Item, usize), ConfigError> {
    match u8_at(bytes, at) {
        Err(e) => Err(e),
        Ok((section, start)) => if section == 0x01 {
            scene_item_at(bytes, start)
        } else if section == 0x02 {
            time_item_at(bytes, start)
        } else if section == 0x03 {
            spawn_item_at(bytes, start)
        } else if section == 0x04 {
            forces_item_at(bytes, start)
        } else {
            Err(ConfigError::UnknownSection(section))
        },
    }
}

/// What loading a stream comes to: the settings after the items that
/// could be read, and what stopped the loading, if anything did.
pub struct Loaded {
    pub settings: Map<Key, Entry>,
    pub failure: Option<ConfigError>,
}

/// Loads the items from `at` to the end of the stream into `settings`,
/// one after the other, stopping at the first that cannot be read.
pub open spec fn load_from(bytes: Seq<u8>, at: usize, settings: Map<Key, Entry>) -> Loaded
    decreases bytes.len() - at,
{
    if at >= bytes.len() {
        Loaded { settings, failure: None }
    } else {
        match single_item_at(bytes, at) {
            Err(e) => Loaded { settings, failure: Some(e) },
            Ok((item, next)) => if at < next <= bytes.len() {
                load_from(bytes, next, with_item(settings, item))
            } else {
                Loaded { settings, failure: None }
            },
        }
    }
}

/// The settings that a whole stream spells, or why it spells none.
pub open spec fn load(bytes: Seq<u8>) -> Result<Map<Key, Entry>, ConfigError> {
    match load_from(bytes, 0, no_settings()).failure {
        Some(e) => Err(e),
        None => Ok(load_from(bytes, 0, no_settings()).settings),
    }
}

/// Whether reading an item went as the stream says: on success the
/// position behind the item is returned and the settings have taken the
/// item in; on failure the settings are as they were.
pub open spec fn item_read(
    parsed: Result<(Item, usize), ConfigError>,
    r: Result<usize, ConfigError>,
    before: Map<Key, Entry>,
    after: Map<Key, Entry>,
) -> bool {
    match parsed {
        Ok((item, next)) => r == Ok::<usize, ConfigError>(next) && after =~= with_item(
            before,
            item,
        ),
        Err(e) => r == Err::<usize, ConfigError>(e) && after == before,
    }
}

/// Every item takes at least one byte and ends inside the stream.
pub proof fn lemma_item_advances(bytes: Seq<u8>, at: usize)
    requires
        bytes.len() <= usize::MAX,
    ensures
        single_item_at(bytes, at) matches Ok((_, next)) ==> at < next <= bytes.len(),
{
}

/// Reads the scene item at `at` into the configuration.
pub fn parse_scene_item(config: &mut Configuration, file: &[u8], at: usize) -> (r: Result<
    usize,
    ConfigError,
>)
    ensures
        item_read(scene_item_at(file@, at), r, old(config)@, final(config)@),
{
    let (element, start) = parse_u16(file, at)?;
    if element == 0x01 {
        let (c, next) = parse_coordinates(file, start)?;
        let mut walls = match config.remove::<SceneWalls>() {
            Some(held) => held.0,
            None => Vec::new(),
        };
        walls.push(SceneWall { x0: c.0, y0: c.1, x1: c.2, y1: c.3 });
        config.insert(SceneWalls(walls));
        Ok(next)
    } else if element == 0x02 {
        let (c, middle) = parse_coordinates(file, start)?;
        let (id, next) = parse_u8(file, middle)?;
        let mut areas = match config.remove::<SceneSpawnAreas>() {
            Some(held) => held.0,
            None => Vec::new(),
        };
        areas.push(SceneSpawnArea { x0: c.0, y0: c.1, x1: c.2, y1: c.3, id });
        config.insert(SceneSpawnAreas(areas));
        Ok(next)
    } else if element == 0x03 {
        let (c, middle) = parse_coordinates(file, start)?;
        let (flags, next) = parse_u8(file, middle)?;
        let mut areas = match config.remove::<SceneTargetAreas>() {
            Some(held) => held.0,
            None => Vec::new(),
        };
        areas.push(
            SceneTargetArea {
                x0: c.0,
                y0: c.1,
                x1: c.2,
                y1: c.3,
                id: STREAM_TARGET_PATH,
                sequence_no: flags / 2,
                last: flags % 2 == 1,
            },
        );
        config.insert(SceneTargetAreas(areas));
        Ok(next)
    } else if element == 0x11 {
        let (width, next) = parse_u16(file, start)?;
        config.insert(SceneWidth(width));
        Ok(next)
    } else if element == 0x12 {
        let (height, next) = parse_u16(file, start)?;
        config.insert(SceneHeight(height));
        Ok(next)
    } else if element == 0x13 {
        let (scale, next) = parse_scalar(file, start)?;
        config.insert(SceneScale(scale));
        Ok(next)
    } else if element == 0xFF {
        let (name, next) = parse_string(file, start)?;
        config.insert(SceneFilename(name));
        Ok(next)
    } else {
        Err(ConfigError::UnknownSceneElement(element))
    }
}

/// Reads the time item at `at` into the configuration.
pub fn parse_time_item(config: &mut Configuration, file: &[u8], at: usize) -> (r: Result<
    usize,
    ConfigError,
>)
    ensures
        item_read(time_item_at(file@, at), r, old(config)@, final(config)@),
{
    let (element, start) = parse_u16(file, at)?;
    if element == 0x01 {
        let (end_time, next) = parse_u32(file, start)?;
        config.insert(TimeEndTime(end_time));
        Ok(next)
    } else if element == 0x02 {
        let (tick, next) = parse_scalar(file, start)?;
        config.insert(TimeTick(tick));
        Ok(next)
    } else {
        Err(ConfigError::UnknownTimeElement(element))
    }
}

/// Reads the spawn item at `at` into the configuration.
pub fn parse_spawn_item(config: &mut Configuration, file: &[u8], at: usize) -> (r: Result<
    usize,
    ConfigError,
>)
    ensures
        item_read(spawn_item_at(file@, at), r, old(config)@, final(config)@),
{
    let (element, start) = parse_u16(file, at)?;
    if element == 0x01 {
        let (rate, next) = parse_scalar(file, start)?;
        config.insert(SpawnRate(rate));
        Ok(next)
    } else if element == 0x02 {
        let (time, next) = parse_distribution(file, start)?;
        config.insert(SpawnTime(time));
        Ok(next)
    } else {
        Err(ConfigError::UnknownSpawnElement(element))
    }
}

/// Reads the item of the repulsion force at `at` into the configuration.
pub fn parse_repulsion_force_item(config: &mut Configuration, file: &[u8], at: usize) -> (r:
    Result<usize, ConfigError>)
    ensures
        item_read(repulsion_force_item_at(file@, at), r, old(config)@, final(config)@),
{
    let (element, start) = parse_u8(file, at)?;
    if element == 0x01 {
        let (coeff, next) = parse_distribution(file, start)?;
        config.insert(ForcesRepulsionCoeff(coeff));
        Ok(next)
    } else {
        Err(ConfigError::UnknownRepulsionElement(element))
    }
}

/// Reads the item of the target force at `at` into the configuration.
pub fn parse_target_force_item(config: &mut Configuration, file: &[u8], at: usize) -> (r: Result<
    usize,
    ConfigError,
>)
    ensures
        item_read(target_force_item_at(file@, at), r, old(config)@, final(config)@),
{
    let (element, start) = parse_u8(file, at)?;
    if element == 0x01 {
        let (speed, next) = parse_distribution(file, start)?;
        config.insert(ForcesTargetSpeed(speed));
        Ok(next)
    } else {
        Err(ConfigError::UnknownTargetElement(element))
    }
}

/// Reads the forces item at `at` into the configuration.
pub fn parse_forces_item(config: &mut Configuration, file: &[u8], at: usize) -> (r: Result<
    usize,
    ConfigError,
>)
    ensures
        item_read(forces_item_at(file@, at), r, old(config)@, final(config)@),
{
    let (force, start) = parse_u8(file, at)?;
    if force == 0x01 {
        parse_repulsion_force_item(config, file, start)
    } else if force == 0x02 {
        parse_target_force_item(config, file, start)
    } else {
        Err(ConfigError::UnknownForce(force))
    }
}

/// Reads the item at `at` into the configuration, if the stream has not
/// ended there. Returns the position behind the item, or nothing at the
/// end of the stream.
pub fn parse_single_item(config: &mut Configuration, file: &[u8], at: usize) -> (r: Result<
    Option<usize>,
    ConfigError,
>)
    ensures
        at >= file@.len() ==> r == Ok::<Option<usize>, ConfigError>(None) && final(config)@ == old(
            config,
        )@,
        at < file@.len() ==> match single_item_at(file@, at) {
            Ok((item, next)) => r == Ok::<Option<usize>, ConfigError>(Some(next)) && final(config)@
                =~= with_item(old(config)@, item) && at < next <= file@.len(),
            Err(e) => r == Err::<Option<usize>, ConfigError>(e) && final(config)@ == old(config)@,
        },
{
    if at >= file.len() {
        return Ok(None);
    }
    proof {
        lemma_item_advances(file@, at);
    }
    let (section, start) = parse_u8(file, at)?;
    let next = if section == 0x01 {
        parse_scene_item(config, file, start)?
    } else if section == 0x02 {
        parse_time_item(config, file, start)?
    } else if section == 0x03 {
        parse_spawn_item(config, file, start)?
    } else if section == 0x04 {
        parse_forces_item(config, file, start)?
    } else {
        return Err(ConfigError::UnknownSection(section));
    };
    Ok(Some(next))
}

/// Reads a whole stream into the configuration, item by item, and stops
/// at the first item that cannot be read.
pub fn parse_config_file(config: &mut Configuration, file: &[u8]) -> (r: Result<(), ConfigError>)
    ensures
        final(config)@ == load_from(file@, 0, old(config)@).settings,
        r == match load_from(file@, 0, old(config)@).failure {
            Some(e) => Err::<(), ConfigError>(e),
            None => Ok::<(), ConfigError>(()),
        },
{
    let mut at: usize = 0;
    loop
        invariant
            at <= file@.len(),
            load_from(file@, at, config@) == load_from(file@, 0, old(config)@),
        decreases file@.len() - at,
    {
        match parse_single_item(config, file, at) {
            Ok(Some(next)) => {
                at = next;
            },
            Ok(None) => {
                return Ok(());
            },
            Err(e) => {
                return Err(e);
            },
        }
    }
}

/// Loads a configuration from a whole stream.
pub fn new(file: &[u8]) -> (r: Result<Configuration, ConfigError>)
    ensures
        match load(file@) {
            Ok(loaded) => r is Ok && r.unwrap()@ == loaded,
            Err(e) => r == Err::<Configuration, ConfigError>(e),
        },
{
    let mut config = Configuration::empty();
    match parse_config_file(&mut config, file) {
        Ok(()) => Ok(config),
        Err(e) => Err(e),
    }
}

} // verus!
