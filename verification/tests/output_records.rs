use crowd_sim::configuration::{
    parse_scalar, parse_string, parse_u16, parse_u32, parse_u8, Configuration, DensityMapEnabled,
    DensityMapMaxThreshold, DensityMapMinThreshold, Key, SceneFilename, SceneScale,
};
use crowd_sim::output::{
    write_scalar, write_string, write_u16, write_u32, write_u8, Output, PersonLocation,
    StatisticsSummary, CURRENT_TIME_TYPE, DENSITY_MAP_TYPE, LOCATIONS_TYPE, STATISTICS_TYPE,
};
use crowd_sim::scalar::Scalar;

fn scalar(x: f64) -> Scalar {
    Scalar::from_bits(x.to_bits())
}

fn le(x: f64) -> Vec<u8> {
    x.to_bits().to_le_bytes().to_vec()
}

fn configuration(enabled: bool) -> Configuration {
    let mut config = Configuration::empty();
    config.insert(SceneScale(scalar(0.5)));
    config.insert(SceneFilename("hall".to_string()));
    config.insert(DensityMapEnabled(enabled));
    config.insert(DensityMapMinThreshold(scalar(0.25)));
    config.insert(DensityMapMaxThreshold(scalar(4.0)));
    config
}

fn output(enabled: bool) -> Output {
    match Output::new(&configuration(enabled)) {
        Ok(output) => output,
        Err(_) => panic!("the configuration is complete"),
    }
}

#[test]
fn numbers_are_written_high_byte_first() {
    let mut out = vec![0xaa];
    write_u8(&mut out, 7);
    write_u16(&mut out, 0x1234);
    write_u32(&mut out, 0xdeadbeef);
    write_u16(&mut out, 0);
    write_u16(&mut out, 0xffff);
    assert_eq!(out, vec![0xaa, 7, 0x12, 0x34, 0xde, 0xad, 0xbe, 0xef, 0, 0, 0xff, 0xff]);
}

#[test]
fn scalars_are_written_low_byte_first() {
    let mut out = vec![];
    write_scalar(&mut out, Scalar::from_bits(0x0807_0605_0403_0201));
    assert_eq!(out, vec![1, 2, 3, 4, 5, 6, 7, 8]);
    let mut other = vec![];
    write_scalar(&mut other, scalar(-1.5));
    assert_eq!(other, le(-1.5));
}

#[test]
fn strings_are_written_with_their_length() {
    let mut out = vec![];
    write_string(&mut out, &"hall".to_string());
    write_string(&mut out, &String::new());
    write_string(&mut out, &"\u{e9}".to_string());
    assert_eq!(out, vec![0, 4, b'h', b'a', b'l', b'l', 0, 0, 0, 2, 0xc3, 0xa9]);
}

#[test]
fn the_length_of_a_long_string_is_cut_to_sixteen_bits() {
    let mut out = vec![];
    let long = "x".repeat(65537);
    write_string(&mut out, &long);
    assert_eq!(out.len(), 2 + 65537);
    assert_eq!(&out[0..2], &[0, 1]);
}

#[test]
fn what_is_written_is_read_back() {
    let mut out = vec![];
    write_u8(&mut out, 200);
    write_u16(&mut out, 54321);
    write_u32(&mut out, 4_000_000_123);
    write_scalar(&mut out, scalar(-123.456));
    write_string(&mut out, &"gr\u{fc}n".to_string());
    let (a, at) = parse_u8(&out, 0).unwrap();
    let (b, at) = parse_u16(&out, at).unwrap();
    let (c, at) = parse_u32(&out, at).unwrap();
    let (d, at) = parse_scalar(&out, at).unwrap();
    let (e, at) = parse_string(&out, at).unwrap();
    assert_eq!((a, b, c, d, e), (200, 54321, 4_000_000_123, scalar(-123.456), "gr\u{fc}n".to_string()));
    assert_eq!(at, out.len());
}

#[test]
fn every_number_of_sixteen_bits_is_read_back() {
    for num in [0u16, 1, 255, 256, 257, 0x7fff, 0x8000, 0xfffe, 0xffff] {
        let mut out = vec![];
        write_u16(&mut out, num);
        assert_eq!(parse_u16(&out, 0), Ok((num, 2)));
    }
}

#[test]
fn an_output_asks_for_its_settings_in_order() {
    let keys = [
        Key::SceneScale,
        Key::SceneFilename,
        Key::DensityMapEnabled,
        Key::DensityMapMinThreshold,
        Key::DensityMapMaxThreshold,
    ];
    for missing in 0..keys.len() {
        let mut config = Configuration::empty();
        if missing != 0 {
            config.insert(SceneScale(scalar(1.0)));
        }
        if missing != 1 {
            config.insert(SceneFilename("s".to_string()));
        }
        if missing != 2 {
            config.insert(DensityMapEnabled(true));
        }
        if missing != 3 {
            config.insert(DensityMapMinThreshold(scalar(0.0)));
        }
        if missing != 4 {
            config.insert(DensityMapMaxThreshold(scalar(1.0)));
        }
        assert_eq!(Output::new(&config).err(), Some(keys[missing]));
    }
    assert_eq!(Output::new(&Configuration::empty()).err(), Some(Key::SceneScale));
}

#[test]
fn the_opening_record_holds_name_scale_and_thresholds() {
    let mut out = vec![];
    output(true).send_init(&mut out);
    let mut expected = vec![0, 4, b'h', b'a', b'l', b'l'];
    expected.extend(le(0.5));
    expected.extend(le(0.25));
    expected.extend(le(4.0));
    assert_eq!(out, expected);
}

#[test]
fn the_time_record_holds_its_type_and_the_time() {
    let mut out = vec![1, 2];
    output(false).dump_current_time(&mut out, scalar(12.5));
    let mut expected = vec![1, 2, CURRENT_TIME_TYPE];
    expected.extend(le(12.5));
    assert_eq!(out, expected);
}

#[test]
fn the_locations_record_holds_everybody() {
    let mut out = vec![];
    let people = vec![
        PersonLocation { x: 3, y: 4, heading: scalar(1.0), panic_level: scalar(0.5) },
        PersonLocation { x: 300, y: 1, heading: scalar(0.0), panic_level: scalar(1.0) },
    ];
    output(false).dump_people_location(&mut out, &people);
    let mut expected = vec![LOCATIONS_TYPE, 0, 0, 0, 2, 0, 3, 0, 4];
    expected.extend(le(1.0));
    expected.extend(le(0.5));
    expected.extend([1, 44, 0, 1]);
    expected.extend(le(0.0));
    expected.extend(le(1.0));
    assert_eq!(out, expected);
    let mut nobody = vec![];
    output(false).dump_people_location(&mut nobody, &vec![]);
    assert_eq!(nobody, vec![LOCATIONS_TYPE, 0, 0, 0, 0]);
}

#[test]
fn the_density_record_holds_the_cells_above_the_threshold() {
    let map = vec![
        vec![scalar(0.0), scalar(0.3), scalar(0.25)],
        vec![scalar(1.0), scalar(f64::NAN), scalar(-2.0)],
        vec![],
        vec![scalar(0.2500000001)],
    ];
    let mut out = vec![];
    output(true).dump_density_map(&mut out, &map);
    let mut expected = vec![DENSITY_MAP_TYPE, 0, 0, 0, 3];
    expected.extend([0, 1, 0, 0]);
    expected.extend(le(0.3));
    expected.extend([0, 0, 0, 1]);
    expected.extend(le(1.0));
    expected.extend([0, 0, 0, 3]);
    expected.extend(le(0.2500000001));
    assert_eq!(out, expected);
}

#[test]
fn an_empty_density_map_is_a_record_of_no_cells() {
    let mut out = vec![];
    output(true).dump_density_map(&mut out, &vec![]);
    assert_eq!(out, vec![DENSITY_MAP_TYPE, 0, 0, 0, 0]);
}

#[test]
fn the_density_map_goes_out_once_in_a_period() {
    let mut output = output(true);
    let map = vec![vec![scalar(1.0)]];
    let people = vec![];
    let mut with_map = vec![CURRENT_TIME_TYPE];
    with_map.extend(le(0.0));
    with_map.extend([DENSITY_MAP_TYPE, 0, 0, 0, 1, 0, 0, 0, 0]);
    with_map.extend(le(1.0));
    with_map.extend([LOCATIONS_TYPE, 0, 0, 0, 0]);
    let mut without_map = vec![CURRENT_TIME_TYPE];
    without_map.extend(le(0.0));
    without_map.extend([LOCATIONS_TYPE, 0, 0, 0, 0]);
    let mut seen = vec![];
    for _ in 0..7 {
        assert_eq!(output.density_due(), seen.len() % 3 == 0);
        let mut out = vec![];
        output.dump_state(&mut out, scalar(0.0), &map, 2, &people);
        assert!(out == with_map || out == without_map);
        seen.push(out == with_map);
    }
    assert_eq!(seen, vec![true, false, false, true, false, false, true]);
}

#[test]
fn a_disabled_density_map_never_goes_out() {
    let mut output = output(false);
    let map = vec![vec![scalar(9.0)]];
    for _ in 0..3 {
        assert!(!output.density_due());
        let mut out = vec![];
        output.dump_state(&mut out, scalar(1.0), &map, 0, &vec![]);
        let mut expected = vec![CURRENT_TIME_TYPE];
        expected.extend(le(1.0));
        expected.extend([LOCATIONS_TYPE, 0, 0, 0, 0]);
        assert_eq!(out, expected);
    }
}

#[test]
fn the_closing_record_holds_the_statistics() {
    let mut out = vec![];
    let summary = StatisticsSummary {
        min: scalar(1.0),
        max: scalar(3.0),
        count: 3,
        avg: scalar(2.0),
        variance: scalar(2.0 / 3.0),
        std_deviation: scalar((2.0f64 / 3.0).sqrt()),
    };
    output(false).dump_statistics(&mut out, scalar(30.0), &summary);
    let mut expected = le(30.0);
    expected.push(STATISTICS_TYPE);
    expected.extend(le(1.0));
    expected.extend(le(3.0));
    expected.extend([0, 0, 0, 3]);
    expected.extend(le(2.0));
    expected.extend(le(2.0 / 3.0));
    expected.extend(le((2.0f64 / 3.0).sqrt()));
    assert_eq!(out, expected);
}
