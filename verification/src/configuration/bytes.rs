//! Reading numbers, strings and distributions out of a byte stream.
//!
//! A reader takes the stream and the position to read at; it returns the
//! value together with the position behind it. Whole numbers stand with
//! their high byte first, scalars with their low byte first.

use super::items::DistributionValue;
use crate::scalar::Scalar;
use vstd::prelude::*;
use vstd::slice::slice_subrange;
use vstd::utf8::{decode_utf8, valid_utf8};

verus! {

/// The longest string, in bytes, that the stream may hold.
pub const MAX_STRING_LENGTH: u16 = 1024;

/// Why a byte stream is not a configuration.
#[derive(Debug, Clone, Copy, PartialEq, Eq, Structural)]
pub enum ConfigError {
    /// The stream ends inside an item.
    UnexpectedEnd,
    UnknownSection(u8),
    UnknownSceneElement(u16),
    UnknownTimeElement(u16),
    UnknownSpawnElement(u16),
    UnknownForce(u8),
    UnknownRepulsionElement(u8),
    UnknownTargetElement(u8),
    UnknownDistribution(u8),
    /// A string announces more than `MAX_STRING_LENGTH` bytes.
    StringTooLong(u16),
    /// A string's bytes are not UTF-8.
    InvalidString,
}

/// Whether `count` bytes stand at `at`.
pub open spec fn holds(bytes: Seq<u8>, at: usize, count: int) -> bool {
    at + count <= bytes.len()
}

pub open spec fn u16_of(x1: u8, x2: u8) -> u16 {
    (x1 * 0x100 + x2) as u16
}

pub open spec fn u32_of(x1: u8, x2: u8, x3: u8, x4: u8) -> u32 {
    (x1 * 0x100_0000 + x2 * 0x1_0000 + x3 * 0x100 + x4) as u32
}

/// The scalar whose encoding is the eight bytes at `at`, low byte first.
pub open spec fn scalar_of(bytes: Seq<u8>, at: int) -> Scalar {
    Scalar {
        bits: (bytes[at] + bytes[at + 1] * 0x100 + bytes[at + 2] * 0x1_0000 + bytes[at + 3]
            * 0x100_0000 + bytes[at + 4] * 0x1_0000_0000 + bytes[at + 5] * 0x100_0000_0000
            + bytes[at + 6] * 0x1_0000_0000_0000 + bytes[at + 7] * 0x100_0000_0000_0000) as u64,
    }
}

pub open spec fn u8_at(bytes: Seq<u8>, at: usize) -> Result<(u8, usize), ConfigError> {
    if holds(bytes, at, 1) {
        Ok((bytes[at as int], (at + 1) as usize))
    } else {
        Err(ConfigError::UnexpectedEnd)
    }
}

pub open spec fn u16_at(bytes: Seq<u8>, at: usize) -> Result<(u16, usize), ConfigError> {
    if holds(bytes, at, 2) {
        Ok((u16_of(bytes[at as int], bytes[at + 1]), (at + 2) as usize))
    } else {
        Err(ConfigError::UnexpectedEnd)
    }
}

pub open spec fn u32_at(bytes: Seq<u8>, at: usize) -> Result<(u32, usize), ConfigError> {
    if holds(bytes, at, 4) {
        Ok(
            (
                u32_of(bytes[at as int], bytes[at + 1], bytes[at + 2], bytes[at + 3]),
                (at + 4) as usize,
            ),
        )
    } else {
        Err(ConfigError::UnexpectedEnd)
    }
}

pub open spec fn scalar_at(bytes: Seq<u8>, at: usize) -> Result<(Scalar, usize), ConfigError> {
    if holds(bytes, at, 8) {
        Ok((scalar_of(bytes, at as int), (at + 8) as usize))
    } else {
        Err(ConfigError::UnexpectedEnd)
    }
}

/// Four whole numbers in a row: the corners `x0`, `y0`, `x1`, `y1`.
pub open spec fn coordinates_at(bytes: Seq<u8>, at: usize) -> Result<
    ((u16, u16, u16, u16), usize),
    ConfigError,
> {
    if holds(bytes, at, 8) {
        Ok(
            (
                (
                    u16_of(bytes[at as int], bytes[at + 1]),
                    u16_of(bytes[at + 2], bytes[at + 3]),
                    u16_of(bytes[at + 4], bytes[at + 5]),
                    u16_of(bytes[at + 6], bytes[at + 7]),
                ),
                (at + 8) as usize,
            ),
        )
    } else {
        Err(ConfigError::UnexpectedEnd)
    }
}

/// A string: its length in bytes as a 16-bit number, then its UTF-8 bytes.
pub open spec fn string_at(bytes: Seq<u8>, at: usize) -> Result<(Seq<char>, usize), ConfigError> {
    match u16_at(bytes, at) {
        Err(e) => Err(e),
        Ok((length, start)) => {
            if length > MAX_STRING_LENGTH {
                Err(ConfigError::StringTooLong(length))
            } else if !holds(bytes, start, length as int) {
                Err(ConfigError::UnexpectedEnd)
            } else if !valid_utf8(bytes.subrange(start as int, start + length)) {
                Err(ConfigError::InvalidString)
            } else {
                Ok((decode_utf8(bytes.subrange(start as int, start + length)), (start + length) as usize))
            }
        },
    }
}

/// The distribution of kind `kind` whose two parameters stand at `at`.
pub open spec fn distribution_of(kind: u8, first: Scalar, second: Scalar) -> DistributionValue {
    if kind == 1 {
        DistributionValue::UniformDistributionValue { from: first, to: second }
    } else if kind == 2 {
        DistributionValue::NormalDistributionValue { mean: first, std_deviation: second }
    } else {
        DistributionValue::TimeInfiniteDistributionValue { avg_rate: first, rate_deviation: second }
    }
}

/// A distribution: its kind (1 uniform, 2 normal, 3 rate and deviation),
/// then its two parameters.
pub open spec fn distribution_at(bytes: Seq<u8>, at: usize) -> Result<
    (DistributionValue, usize),
    ConfigError,
> {
    match u8_at(bytes, at) {
        Err(e) => Err(e),
        Ok((kind, start)) => {
            if !(1 <= kind <= 3) {
                Err(ConfigError::UnknownDistribution(kind))
            } else if !holds(bytes, start, 16) {
                Err(ConfigError::UnexpectedEnd)
            } else {
                Ok(
                    (
                        distribution_of(
                            kind,
                            scalar_of(bytes, start as int),
                            scalar_of(bytes, start + 8),
                        ),
                        (start + 16) as usize,
                    ),
                )
            }
        },
    }
}

/// The 16-bit number with high byte `x1` and low byte `x2`.
pub fn two_u8le_to_u16(x1: u8, x2: u8) -> (result: u16)
    ensures
        result == u16_of(x1, x2),
        result == x1 * 0x100 + x2,
{
    (x1 as u16) * 0x100 + (x2 as u16)
}

/// The 32-bit number with the bytes `x1` to `x4`, `x1` the highest.
pub fn four_u8le_to_u32(x1: u8, x2: u8, x3: u8, x4: u8) -> (result: u32)
    ensures
        result == u32_of(x1, x2, x3, x4),
        result == x1 * 0x100_0000 + x2 * 0x1_0000 + x3 * 0x100 + x4,
{
    (x1 as u32) * 0x100_0000 + (x2 as u32) * 0x1_0000 + (x3 as u32) * 0x100 + (x4 as u32)
}

/// Whether `count` bytes stand at `at`.
fn available(file: &[u8], at: usize, count: usize) -> (r: bool)
    ensures
        r == holds(file@, at, count as int),
        file@.len() <= usize::MAX,
{
    at <= file.len() && file.len() - at >= count
}

pub fn parse_u8(file: &[u8], at: usize) -> (r: Result<(u8, usize), ConfigError>)
    ensures
        r == u8_at(file@, at),
{
    if available(file, at, 1) {
        Ok((file[at], at + 1))
    } else {
        Err(ConfigError::UnexpectedEnd)
    }
}

pub fn parse_u16(file: &[u8], at: usize) -> (r: Result<(u16, usize), ConfigError>)
    ensures
        r == u16_at(file@, at),
{
    if available(file, at, 2) {
        Ok((two_u8le_to_u16(file[at], file[at + 1]), at + 2))
    } else {
        Err(ConfigError::UnexpectedEnd)
    }
}

pub fn parse_u32(file: &[u8], at: usize) -> (r: Result<(u32, usize), ConfigError>)
    ensures
        r == u32_at(file@, at),
{
    if available(file, at, 4) {
        Ok((four_u8le_to_u32(file[at], file[at + 1], file[at + 2], file[at + 3]), at + 4))
    } else {
        Err(ConfigError::UnexpectedEnd)
    }
}

/// Reads a scalar: the eight bytes of its encoding, low byte first.
pub fn parse_scalar(file: &[u8], at: usize) -> (r: Result<(Scalar, usize), ConfigError>)
    ensures
        r == scalar_at(file@, at),
{
    if available(file, at, 8) {
        let bits: u64 = (file[at] as u64) + (file[at + 1] as u64) * 0x100 + (file[at + 2] as u64)
            * 0x1_0000 + (file[at + 3] as u64) * 0x100_0000 + (file[at + 4] as u64) * 0x1_0000_0000
            + (file[at + 5] as u64) * 0x100_0000_0000 + (file[at + 6] as u64) * 0x1_0000_0000_0000
            + (file[at + 7] as u64) * 0x100_0000_0000_0000;
        Ok((Scalar { bits }, at + 8))
    } else {
        Err(ConfigError::UnexpectedEnd)
    }
}

/// Reads the four corners of a segment or rectangle.
pub fn parse_coordinates(file: &[u8], at: usize) -> (r: Result<
    ((u16, u16, u16, u16), usize),
    ConfigError,
>)
    ensures
        r == coordinates_at(file@, at),
{
    if available(file, at, 8) {
        let x0 = two_u8le_to_u16(file[at], file[at + 1]);
        let y0 = two_u8le_to_u16(file[at + 2], file[at + 3]);
        let x1 = two_u8le_to_u16(file[at + 4], file[at + 5]);
        let y1 = two_u8le_to_u16(file[at + 6], file[at + 7]);
        Ok(((x0, y0, x1, y1), at + 8))
    } else {
        Err(ConfigError::UnexpectedEnd)
    }
}

/// `core::str::from_utf8`: the bytes as a string slice if they are valid
/// UTF-8, the slice then holding the characters that they encode; nothing
/// if they are not.
#[verifier::external_body]
fn str_from_utf8(bytes: &[u8]) -> (text: Option<&str>)
    ensures
        text is Some <==> valid_utf8(bytes@),
        text is Some ==> text.unwrap()@ == decode_utf8(bytes@),
{
    core::str::from_utf8(bytes).ok()
}

/// Reads a string: its length, then that many bytes of UTF-8.
pub fn parse_string(file: &[u8], at: usize) -> (r: Result<(String, usize), ConfigError>)
    ensures
        match string_at(file@, at) {
            Ok((text, next)) => r is Ok && r.unwrap().0@ == text && r.unwrap().1 == next,
            Err(e) => r is Err && r.unwrap_err() == e,
        },
{
    let (length, start) = parse_u16(file, at)?;
    if length > MAX_STRING_LENGTH {
        return Err(ConfigError::StringTooLong(length));
    }
    if !available(file, start, length as usize) {
        return Err(ConfigError::UnexpectedEnd);
    }
    let end = start + length as usize;
    match str_from_utf8(slice_subrange(file, start, end)) {
        Some(text) => Ok((text.to_owned(), end)),
        None => Err(ConfigError::InvalidString),
    }
}

/// Reads a distribution: its kind, then its two parameters.
pub fn parse_distribution(file: &[u8], at: usize) -> (r: Result<
    (DistributionValue, usize),
    ConfigError,
>)
    ensures
        r == distribution_at(file@, at),
{
    let (kind, start) = parse_u8(file, at)?;
    if kind < 1 || kind > 3 {
        return Err(ConfigError::UnknownDistribution(kind));
    }
    if !available(file, start, 16) {
        return Err(ConfigError::UnexpectedEnd);
    }
    let (first, middle) = parse_scalar(file, start)?;
    let (second, end) = parse_scalar(file, middle)?;
    let value = if kind == 1 {
        DistributionValue::UniformDistributionValue { from: first, to: second }
    } else if kind == 2 {
        DistributionValue::NormalDistributionValue { mean: first, std_deviation: second }
    } else {
        DistributionValue::TimeInfiniteDistributionValue { avg_rate: first, rate_deviation: second }
    };
    Ok((value, end))
}

} // verus!
