//! The configuration value set and the byte format it is loaded from.

pub mod bytes;
pub mod items;
pub mod parse;
mod sealed;
pub mod store;

pub use self::bytes::{
    four_u8le_to_u32, parse_coordinates, parse_distribution, parse_scalar, parse_string, parse_u16,
    parse_u32, parse_u8, two_u8le_to_u16, ConfigError,
};
pub use self::items::{
    DensityMapEnabled, DensityMapMaxThreshold, DensityMapMinThreshold, DistributionValue,
    ForcesRepulsionCoeff, ForcesTargetSpeed, FovBackward, FovForward, SceneFilename, SceneHeight,
    SceneScale, SceneSpawnArea, SceneSpawnAreas, SceneTargetArea, SceneTargetAreas, SceneWall,
    SceneWalls, SceneWidth, SimType, SimTypeCfgWrap, SpawnRate, SpawnTime, TimeEndTime, TimeTick,
};
pub use self::store::{Configuration, Entry, Key, Setting};
pub use self::parse::{
    new, parse_config_file, parse_forces_item, parse_repulsion_force_item, parse_scene_item,
    parse_single_item, parse_spawn_item, parse_target_force_item, parse_time_item,
    STREAM_TARGET_PATH,
};
