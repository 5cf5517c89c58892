use crowd_sim::configuration::{
    new, parse_config_file, parse_forces_item, parse_repulsion_force_item, parse_scene_item,
    parse_single_item, parse_spawn_item, parse_target_force_item, parse_time_item, ConfigError,
    Configuration, DistributionValue, ForcesRepulsionCoeff, ForcesTargetSpeed, SceneFilename,
    SceneHeight, SceneScale, SceneSpawnArea, SceneSpawnAreas, SceneTargetArea, SceneTargetAreas,
    SceneWall, SceneWalls, SceneWidth, SpawnRate, SpawnTime, TimeEndTime, TimeTick,
    STREAM_TARGET_PATH,
};
use crowd_sim::scalar::Scalar;

fn scalar(x: f64) -> Scalar {
    Scalar::from_bits(x.to_bits())
}

fn scalar_bytes(x: f64) -> Vec<u8> {
    x.to_bits().to_le_bytes().to_vec()
}

fn uniform_bytes(from: f64, to: f64) -> Vec<u8> {
    let mut bytes = vec![1u8];
    bytes.extend(scalar_bytes(from));
    bytes.extend(scalar_bytes(to));
    bytes
}

#[test]
fn a_wall_is_added_to_the_walls() {
    let mut config = Configuration::empty();
    let first = [0u8, 1, 0, 1, 0, 2, 0, 3, 0, 4];
    assert_eq!(parse_scene_item(&mut config, &first, 0), Ok(10));
    let second = [0xee, 0u8, 1, 0, 5, 0, 6, 0, 7, 1, 0];
    assert_eq!(parse_scene_item(&mut config, &second, 1), Ok(11));
    assert_eq!(
        config.get::<SceneWalls>().map(|held| held.0.clone()),
        Some(vec![
            SceneWall { x0: 1, y0: 2, x1: 3, y1: 4 },
            SceneWall { x0: 5, y0: 6, x1: 7, y1: 256 },
        ])
    );
}

#[test]
fn a_spawn_area_carries_the_id_of_its_path() {
    let mut config = Configuration::empty();
    let bytes = [0u8, 2, 0, 10, 0, 20, 0, 30, 0, 40, 7];
    assert_eq!(parse_scene_item(&mut config, &bytes, 0), Ok(11));
    assert_eq!(
        config.get::<SceneSpawnAreas>().map(|held| held.0.clone()),
        Some(vec![SceneSpawnArea { x0: 10, y0: 20, x1: 30, y1: 40, id: 7 }])
    );
}

#[test]
fn a_target_area_carries_sequence_number_and_last_flag() {
    let mut config = Configuration::empty();
    let bytes = [0x00u8, 0x03, 0x00, 0x01, 0x00, 0x02, 0x00, 0x03, 0x00, 0x04, 0x05];
    assert_eq!(parse_scene_item(&mut config, &bytes, 0), Ok(11));
    assert_eq!(
        config.get::<SceneTargetAreas>().map(|held| held.0.clone()),
        Some(vec![SceneTargetArea {
            x0: 1,
            y0: 2,
            x1: 3,
            y1: 4,
            id: 0,
            sequence_no: 2,
            last: true
        }])
    );
    let other = [0u8, 3, 0, 10, 0, 20, 0, 30, 0, 40, 0b1111_1110, 0x77];
    assert_eq!(parse_scene_item(&mut config, &other, 0), Ok(11));
    assert_eq!(
        config.get::<SceneTargetAreas>().map(|held| held.0.clone()),
        Some(vec![
            SceneTargetArea { x0: 1, y0: 2, x1: 3, y1: 4, id: 0, sequence_no: 2, last: true },
            SceneTargetArea {
                x0: 10,
                y0: 20,
                x1: 30,
                y1: 40,
                id: STREAM_TARGET_PATH,
                sequence_no: 127,
                last: false
            },
        ])
    );
}

#[test]
fn a_target_area_is_corners_and_one_byte() {
    let mut config = Configuration::empty();
    let short = [0u8, 3, 0, 1, 0, 2, 0, 3, 0, 4];
    assert_eq!(parse_scene_item(&mut config, &short, 0), Err(ConfigError::UnexpectedEnd));
    assert!(config.get::<SceneTargetAreas>().is_none());
    let stream = [1u8, 0, 3, 0, 1, 0, 2, 0, 3, 0, 4, 5, 1, 0, 0x11, 0, 9];
    let config = new(&stream).unwrap();
    assert_eq!(config.get::<SceneTargetAreas>().map(|held| held.0.len()), Some(1));
    assert_eq!(config.get::<SceneWidth>().map(|held| held.0), Some(9));
}

#[test]
fn width_height_scale_and_file_name_are_set() {
    let mut config = Configuration::empty();
    assert_eq!(parse_scene_item(&mut config, &[0, 0x11, 0x02, 0x80], 0), Ok(4));
    assert_eq!(parse_scene_item(&mut config, &[0, 0x12, 0x01, 0xe0], 0), Ok(4));
    let mut scale = vec![0u8, 0x13];
    scale.extend(scalar_bytes(0.25));
    assert_eq!(parse_scene_item(&mut config, &scale, 0), Ok(10));
    let name = [0u8, 0xff, 0, 3, b'a', b'.', b'b'];
    assert_eq!(parse_scene_item(&mut config, &name, 0), Ok(7));
    assert_eq!(config.get::<SceneWidth>().map(|held| held.0), Some(640));
    assert_eq!(config.get::<SceneHeight>().map(|held| held.0), Some(480));
    assert_eq!(config.get::<SceneScale>().map(|held| held.0), Some(scalar(0.25)));
    assert_eq!(config.get::<SceneFilename>().map(|held| held.0.clone()), Some("a.b".to_string()));
}

#[test]
fn a_scene_item_that_fails_leaves_the_configuration_alone() {
    let mut config = Configuration::empty();
    config.insert(SceneWalls(vec![SceneWall { x0: 1, y0: 1, x1: 2, y1: 2 }]));
    assert_eq!(
        parse_scene_item(&mut config, &[0, 1, 0, 1, 0, 2], 0),
        Err(ConfigError::UnexpectedEnd)
    );
    assert_eq!(
        parse_scene_item(&mut config, &[0, 0x14, 0, 0], 0),
        Err(ConfigError::UnknownSceneElement(0x14))
    );
    assert_eq!(parse_scene_item(&mut config, &[0], 0), Err(ConfigError::UnexpectedEnd));
    assert_eq!(
        parse_scene_item(&mut config, &[0, 0xff, 0, 1, 0xff], 0),
        Err(ConfigError::InvalidString)
    );
    assert_eq!(
        parse_scene_item(&mut config, &[0, 3, 0, 1, 0, 2, 0, 3, 0, 4], 0),
        Err(ConfigError::UnexpectedEnd)
    );
    assert_eq!(
        config.get::<SceneWalls>().map(|held| held.0.clone()),
        Some(vec![SceneWall { x0: 1, y0: 1, x1: 2, y1: 2 }])
    );
    assert!(config.get::<SceneTargetAreas>().is_none());
}

#[test]
fn time_items_set_end_time_and_tick() {
    let mut config = Configuration::empty();
    assert_eq!(parse_time_item(&mut config, &[0, 1, 0, 0, 0x01, 0x2c], 0), Ok(6));
    let mut tick = vec![0u8, 2];
    tick.extend(scalar_bytes(0.05));
    assert_eq!(parse_time_item(&mut config, &tick, 0), Ok(10));
    assert_eq!(config.get::<TimeEndTime>().map(|held| held.0), Some(300));
    assert_eq!(config.get::<TimeTick>().map(|held| held.0), Some(scalar(0.05)));
    assert_eq!(
        parse_time_item(&mut config, &[0, 3, 0, 0], 0),
        Err(ConfigError::UnknownTimeElement(3))
    );
    assert_eq!(parse_time_item(&mut config, &[0, 1, 0, 0], 0), Err(ConfigError::UnexpectedEnd));
}

#[test]
fn spawn_items_set_rate_and_time() {
    let mut config = Configuration::empty();
    let mut rate = vec![0u8, 1];
    rate.extend(scalar_bytes(2.0));
    assert_eq!(parse_spawn_item(&mut config, &rate, 0), Ok(10));
    let mut time = vec![0u8, 2];
    time.extend(uniform_bytes(1.0, 3.0));
    assert_eq!(parse_spawn_item(&mut config, &time, 0), Ok(19));
    assert_eq!(config.get::<SpawnRate>().map(|held| held.0), Some(scalar(2.0)));
    assert_eq!(
        config.get::<SpawnTime>().map(|held| held.0),
        Some(DistributionValue::UniformDistributionValue { from: scalar(1.0), to: scalar(3.0) })
    );
    assert_eq!(
        parse_spawn_item(&mut config, &[1, 0], 0),
        Err(ConfigError::UnknownSpawnElement(256))
    );
    assert_eq!(
        parse_spawn_item(&mut config, &[0, 2, 9], 0),
        Err(ConfigError::UnknownDistribution(9))
    );
}

#[test]
fn force_items_set_the_distributions() {
    let mut config = Configuration::empty();
    let mut repulsion = vec![1u8, 1];
    repulsion.extend(uniform_bytes(0.5, 0.7));
    assert_eq!(parse_forces_item(&mut config, &repulsion, 0), Ok(19));
    let mut target = vec![2u8, 1];
    target.extend(uniform_bytes(1.1, 1.5));
    assert_eq!(parse_forces_item(&mut config, &target, 0), Ok(19));
    assert_eq!(
        config.get::<ForcesRepulsionCoeff>().map(|held| held.0),
        Some(DistributionValue::UniformDistributionValue { from: scalar(0.5), to: scalar(0.7) })
    );
    assert_eq!(
        config.get::<ForcesTargetSpeed>().map(|held| held.0),
        Some(DistributionValue::UniformDistributionValue { from: scalar(1.1), to: scalar(1.5) })
    );
    assert_eq!(parse_forces_item(&mut config, &[3, 1], 0), Err(ConfigError::UnknownForce(3)));
    assert_eq!(parse_forces_item(&mut config, &[], 0), Err(ConfigError::UnexpectedEnd));
}

#[test]
fn the_items_of_a_force_know_one_element() {
    let mut config = Configuration::empty();
    let mut bytes = vec![1u8];
    bytes.extend(uniform_bytes(0.0, 1.0));
    assert_eq!(parse_repulsion_force_item(&mut config, &bytes, 0), Ok(18));
    assert_eq!(parse_target_force_item(&mut config, &bytes, 0), Ok(18));
    assert_eq!(
        parse_repulsion_force_item(&mut config, &[2], 0),
        Err(ConfigError::UnknownRepulsionElement(2))
    );
    assert_eq!(
        parse_target_force_item(&mut config, &[0], 0),
        Err(ConfigError::UnknownTargetElement(0))
    );
    assert!(config.get::<ForcesRepulsionCoeff>().is_some());
    assert!(config.get::<ForcesTargetSpeed>().is_some());
}

#[test]
fn a_single_item_starts_with_its_section() {
    let mut config = Configuration::empty();
    assert_eq!(parse_single_item(&mut config, &[1, 0, 0x11, 0, 9], 0), Ok(Some(5)));
    assert_eq!(parse_single_item(&mut config, &[2, 0, 1, 0, 0, 0, 60], 0), Ok(Some(7)));
    assert_eq!(parse_single_item(&mut config, &[1, 0, 0x11, 0, 9], 5), Ok(None));
    assert_eq!(parse_single_item(&mut config, &[], 0), Ok(None));
    assert_eq!(
        parse_single_item(&mut config, &[5, 0, 0], 0),
        Err(ConfigError::UnknownSection(5))
    );
    assert_eq!(
        parse_single_item(&mut config, &[0], 0),
        Err(ConfigError::UnknownSection(0))
    );
    assert_eq!(parse_single_item(&mut config, &[1], 0), Err(ConfigError::UnexpectedEnd));
    assert_eq!(config.get::<SceneWidth>().map(|held| held.0), Some(9));
    assert_eq!(config.get::<TimeEndTime>().map(|held| held.0), Some(60));
}

fn sample_stream() -> Vec<u8> {
    let mut stream = vec![];
    stream.extend([1u8, 0, 0x11, 0, 100]);
    stream.extend([1u8, 0, 0x12, 0, 50]);
    stream.extend([1u8, 0, 0x13]);
    stream.extend(scalar_bytes(0.5));
    stream.extend([1u8, 0, 1, 0, 0, 0, 0, 0, 100, 0, 0]);
    stream.extend([1u8, 0, 1, 0, 0, 0, 50, 0, 100, 0, 50]);
    stream.extend([1u8, 0, 2, 0, 1, 0, 1, 0, 5, 0, 5, 0]);
    stream.extend([1u8, 0, 3, 0, 90, 0, 40, 0, 95, 0, 45, 0b11]);
    stream.extend([1u8, 0, 0xff, 0, 4, b'h', b'a', b'l', b'l']);
    stream.extend([2u8, 0, 1, 0, 0, 0, 30]);
    stream.extend([2u8, 0, 2]);
    stream.extend(scalar_bytes(0.1));
    stream.extend([3u8, 0, 1]);
    stream.extend(scalar_bytes(1.0));
    stream.extend([4u8, 1, 1]);
    stream.extend(uniform_bytes(0.4, 0.6));
    stream.extend([4u8, 2, 1]);
    stream.extend(uniform_bytes(1.2, 1.4));
    stream
}

#[test]
fn a_whole_stream_is_loaded() {
    let config = new(&sample_stream()).unwrap();
    assert_eq!(config.get::<SceneWidth>().map(|held| held.0), Some(100));
    assert_eq!(config.get::<SceneHeight>().map(|held| held.0), Some(50));
    assert_eq!(config.get::<SceneScale>().map(|held| held.0), Some(scalar(0.5)));
    assert_eq!(config.get::<SceneWalls>().map(|held| held.0.len()), Some(2));
    assert_eq!(
        config.get::<SceneSpawnAreas>().map(|held| held.0.clone()),
        Some(vec![SceneSpawnArea { x0: 1, y0: 1, x1: 5, y1: 5, id: 0 }])
    );
    assert_eq!(
        config.get::<SceneTargetAreas>().map(|held| held.0.clone()),
        Some(vec![SceneTargetArea {
            x0: 90,
            y0: 40,
            x1: 95,
            y1: 45,
            id: 0,
            sequence_no: 1,
            last: true
        }])
    );
    assert_eq!(config.get::<SceneFilename>().map(|held| held.0.clone()), Some("hall".to_string()));
    assert_eq!(config.get::<TimeEndTime>().map(|held| held.0), Some(30));
    assert_eq!(config.get::<TimeTick>().map(|held| held.0), Some(scalar(0.1)));
    assert_eq!(config.get::<SpawnRate>().map(|held| held.0), Some(scalar(1.0)));
    assert!(config.get::<SpawnTime>().is_none());
    assert!(config.get::<ForcesRepulsionCoeff>().is_some());
    assert!(config.get::<ForcesTargetSpeed>().is_some());
}

#[test]
fn an_empty_stream_is_an_empty_configuration() {
    let config = new(&[]).unwrap();
    assert!(config.get::<SceneWidth>().is_none());
    assert!(config.get::<SceneWalls>().is_none());
}

#[test]
fn loading_the_same_stream_twice_gives_the_same_settings() {
    let first = new(&sample_stream()).unwrap();
    let second = new(&sample_stream()).unwrap();
    assert_eq!(
        first.get::<SceneWalls>().map(|held| held.0.clone()),
        second.get::<SceneWalls>().map(|held| held.0.clone())
    );
    assert_eq!(
        first.get::<ForcesTargetSpeed>().map(|held| held.0),
        second.get::<ForcesTargetSpeed>().map(|held| held.0)
    );
}

#[test]
fn a_stream_that_breaks_off_is_refused() {
    let mut stream = sample_stream();
    stream.pop();
    assert!(matches!(new(&stream), Err(ConfigError::UnexpectedEnd)));
    let mut unknown = sample_stream();
    unknown.push(9);
    assert!(matches!(new(&unknown), Err(ConfigError::UnknownSection(9))));
}

#[test]
fn loading_stops_at_the_first_bad_item_and_keeps_what_came_before() {
    let mut config = Configuration::empty();
    let stream = [1u8, 0, 0x11, 0, 7, 1, 0, 0x12, 0, 8, 7, 1, 0, 0x11, 0, 9];
    assert_eq!(parse_config_file(&mut config, &stream), Err(ConfigError::UnknownSection(7)));
    assert_eq!(config.get::<SceneWidth>().map(|held| held.0), Some(7));
    assert_eq!(config.get::<SceneHeight>().map(|held| held.0), Some(8));
}

#[test]
fn loading_adds_to_what_the_configuration_holds() {
    let mut config = Configuration::empty();
    config.insert(SceneWidth(1));
    config.insert(SceneWalls(vec![SceneWall { x0: 9, y0: 9, x1: 9, y1: 9 }]));
    let stream = [1u8, 0, 0x12, 0, 8, 1, 0, 1, 0, 1, 0, 2, 0, 3, 0, 4];
    assert_eq!(parse_config_file(&mut config, &stream), Ok(()));
    assert_eq!(config.get::<SceneWidth>().map(|held| held.0), Some(1));
    assert_eq!(config.get::<SceneHeight>().map(|held| held.0), Some(8));
    assert_eq!(
        config.get::<SceneWalls>().map(|held| held.0.clone()),
        Some(vec![
            SceneWall { x0: 9, y0: 9, x1: 9, y1: 9 },
            SceneWall { x0: 1, y0: 2, x1: 3, y1: 4 },
        ])
    );
}
