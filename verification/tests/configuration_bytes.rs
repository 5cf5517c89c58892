use crowd_sim::configuration::{
    four_u8le_to_u32, parse_coordinates, parse_distribution, parse_scalar, parse_string,
    parse_u16, parse_u32, parse_u8, two_u8le_to_u16, ConfigError, DistributionValue,
};
use crowd_sim::scalar::Scalar;

fn scalar(x: f64) -> Scalar {
    Scalar::from_bits(x.to_bits())
}

fn scalar_bytes(x: f64) -> Vec<u8> {
    x.to_bits().to_le_bytes().to_vec()
}

#[test]
fn two_bytes_make_a_number_high_byte_first() {
    assert_eq!(two_u8le_to_u16(0x12, 0x34), 0x1234);
    assert_eq!(two_u8le_to_u16(0, 0), 0);
    assert_eq!(two_u8le_to_u16(0xff, 0xff), 0xffff);
    assert_eq!(two_u8le_to_u16(1, 0), 256);
    assert_eq!(two_u8le_to_u16(0, 1), 1);
}

#[test]
fn four_bytes_make_a_number_high_byte_first() {
    assert_eq!(four_u8le_to_u32(0x12, 0x34, 0x56, 0x78), 0x12345678);
    assert_eq!(four_u8le_to_u32(0, 0, 0, 0), 0);
    assert_eq!(four_u8le_to_u32(0xff, 0xff, 0xff, 0xff), 0xffff_ffff);
    assert_eq!(four_u8le_to_u32(0, 0, 1, 0), 256);
}

#[test]
fn parse_u8_reads_one_byte_and_moves_on() {
    let bytes = [7u8, 9];
    assert_eq!(parse_u8(&bytes, 0), Ok((7, 1)));
    assert_eq!(parse_u8(&bytes, 1), Ok((9, 2)));
    assert_eq!(parse_u8(&bytes, 2), Err(ConfigError::UnexpectedEnd));
    assert_eq!(parse_u8(&bytes, 200), Err(ConfigError::UnexpectedEnd));
    assert_eq!(parse_u8(&bytes, usize::MAX), Err(ConfigError::UnexpectedEnd));
}

#[test]
fn parse_u16_reads_two_bytes() {
    let bytes = [0u8, 0x01, 0x02, 0x03];
    assert_eq!(parse_u16(&bytes, 0), Ok((1, 2)));
    assert_eq!(parse_u16(&bytes, 1), Ok((0x0102, 3)));
    assert_eq!(parse_u16(&bytes, 2), Ok((0x0203, 4)));
    assert_eq!(parse_u16(&bytes, 3), Err(ConfigError::UnexpectedEnd));
}

#[test]
fn parse_u32_reads_four_bytes() {
    let bytes = [0xde, 0xad, 0xbe, 0xef, 0x00];
    assert_eq!(parse_u32(&bytes, 0), Ok((0xdeadbeef, 4)));
    assert_eq!(parse_u32(&bytes, 1), Ok((0xadbeef00, 5)));
    assert_eq!(parse_u32(&bytes, 2), Err(ConfigError::UnexpectedEnd));
}

#[test]
fn parse_scalar_reads_eight_bytes_low_byte_first() {
    let mut bytes = vec![0xaa];
    bytes.extend(scalar_bytes(1.5));
    assert_eq!(parse_scalar(&bytes, 1), Ok((scalar(1.5), 9)));
    assert_eq!(parse_scalar(&bytes, 2), Err(ConfigError::UnexpectedEnd));
    let raw = [1u8, 2, 3, 4, 5, 6, 7, 8];
    assert_eq!(
        parse_scalar(&raw, 0),
        Ok((Scalar::from_bits(0x0807_0605_0403_0201), 8))
    );
    let value = f64::from_bits(parse_scalar(&scalar_bytes(-0.3), 0).unwrap().0.to_bits());
    assert_eq!(value, -0.3);
}

#[test]
fn parse_coordinates_reads_four_numbers() {
    let bytes = [0, 1, 0, 2, 1, 0, 0xff, 0xff, 9];
    assert_eq!(parse_coordinates(&bytes, 0), Ok(((1, 2, 256, 65535), 8)));
    assert_eq!(parse_coordinates(&bytes, 1), Ok(((0x0100, 0x0201, 0x00ff, 0xff09), 9)));
    assert_eq!(parse_coordinates(&bytes, 2), Err(ConfigError::UnexpectedEnd));
}

#[test]
fn parse_string_reads_length_and_text() {
    let bytes = [0u8, 5, b'h', b'e', b'l', b'l', b'o', b'!'];
    assert_eq!(parse_string(&bytes, 0), Ok(("hello".to_string(), 7)));
    let empty = [0u8, 0];
    assert_eq!(parse_string(&empty, 0), Ok((String::new(), 2)));
    let accented = [0u8, 2, 0xc3, 0xa9];
    assert_eq!(parse_string(&accented, 0), Ok(("\u{e9}".to_string(), 4)));
}

#[test]
fn parse_string_rejects_what_is_no_string() {
    assert_eq!(parse_string(&[0u8], 0), Err(ConfigError::UnexpectedEnd));
    assert_eq!(parse_string(&[0u8, 3, b'a', b'b'], 0), Err(ConfigError::UnexpectedEnd));
    assert_eq!(parse_string(&[0u8, 2, 0xff, 0xfe], 0), Err(ConfigError::InvalidString));
    assert_eq!(parse_string(&[0u8, 1, 0xc3], 0), Err(ConfigError::InvalidString));
    let mut long = vec![0x04u8, 0x01];
    long.extend(vec![b'a'; 1025]);
    assert_eq!(parse_string(&long, 0), Err(ConfigError::StringTooLong(1025)));
    let short_but_announced_long = [0xffu8, 0xff];
    assert_eq!(
        parse_string(&short_but_announced_long, 0),
        Err(ConfigError::StringTooLong(65535))
    );
}

#[test]
fn parse_string_takes_the_longest_string_allowed() {
    let mut bytes = vec![0x04u8, 0x00];
    bytes.extend(vec![b'z'; 1024]);
    let (text, next) = parse_string(&bytes, 0).unwrap();
    assert_eq!(text.len(), 1024);
    assert_eq!(next, 1026);
}

#[test]
fn parse_distribution_reads_each_kind() {
    let mut uniform = vec![1u8];
    uniform.extend(scalar_bytes(1.0));
    uniform.extend(scalar_bytes(2.0));
    assert_eq!(
        parse_distribution(&uniform, 0),
        Ok((
            DistributionValue::UniformDistributionValue { from: scalar(1.0), to: scalar(2.0) },
            17
        ))
    );
    let mut normal = vec![2u8];
    normal.extend(scalar_bytes(1.3));
    normal.extend(scalar_bytes(0.2));
    assert_eq!(
        parse_distribution(&normal, 0),
        Ok((
            DistributionValue::NormalDistributionValue {
                mean: scalar(1.3),
                std_deviation: scalar(0.2)
            },
            17
        ))
    );
    let mut rate = vec![3u8];
    rate.extend(scalar_bytes(4.0));
    rate.extend(scalar_bytes(0.5));
    assert_eq!(
        parse_distribution(&rate, 0),
        Ok((
            DistributionValue::TimeInfiniteDistributionValue {
                avg_rate: scalar(4.0),
                rate_deviation: scalar(0.5)
            },
            17
        ))
    );
}

#[test]
fn parse_distribution_rejects_unknown_kinds_and_short_streams() {
    assert_eq!(parse_distribution(&[], 0), Err(ConfigError::UnexpectedEnd));
    assert_eq!(parse_distribution(&[0u8; 17], 0), Err(ConfigError::UnknownDistribution(0)));
    assert_eq!(parse_distribution(&[4u8], 0), Err(ConfigError::UnknownDistribution(4)));
    assert_eq!(parse_distribution(&[1u8; 16], 0), Err(ConfigError::UnexpectedEnd));
    assert_eq!(parse_distribution(&[2u8; 9], 0), Err(ConfigError::UnexpectedEnd));
}
