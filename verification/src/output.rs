//! The records of the output stream, as bytes.
//!
//! A record is appended to a buffer; sending the buffer on is the
//! caller's part. Whole numbers stand with their high byte first, scalars
//! with their low byte first, as in the configuration stream.

use crate::configuration::{
    Configuration, DensityMapEnabled, DensityMapMaxThreshold, DensityMapMinThreshold, Key,
    SceneFilename, SceneScale,
};
use crate::configuration::bytes::{
    scalar_at, string_at, u16_at, u32_at, u8_at, ConfigError, MAX_STRING_LENGTH,
};
use crate::scalar::Scalar;
use vstd::prelude::*;
use vstd::string::StringSliceAdditionalSpecFns;
use vstd::utf8::{encode_utf8, encode_utf8_decode_utf8, encode_utf8_valid_utf8};

verus! {

pub const CURRENT_TIME_TYPE: u8 = 0;

pub const LOCATIONS_TYPE: u8 = 1;

pub const DENSITY_MAP_TYPE: u8 = 2;

pub const STATISTICS_TYPE: u8 = 3;

/// Where a person is, to the nearest cell, and how it fares.
#[derive(Debug, Clone, Copy, PartialEq, Eq, Structural)]
pub struct PersonLocation {
    pub x: u16,
    pub y: u16,
    pub heading: Scalar,
    pub panic_level: Scalar,
}

/// The statistics of the travel times, as they stand at the end of a run.
#[derive(Debug, Clone, Copy, PartialEq, Eq, Structural)]
pub struct StatisticsSummary {
    pub min: Scalar,
    pub max: Scalar,
    pub count: u32,
    pub avg: Scalar,
    pub variance: Scalar,
    pub std_deviation: Scalar,
}

pub open spec fn u8_bytes(num: u8) -> Seq<u8> {
    seq![num]
}

/// The two bytes of a 16-bit number, the high byte first.
pub open spec fn u16_bytes(num: u16) -> Seq<u8> {
    seq![(num / 0x100) as u8, (num % 0x100) as u8]
}

/// The four bytes of a 32-bit number, the highest first.
pub open spec fn u32_bytes(num: u32) -> Seq<u8> {
    seq![
        (num / 0x100_0000) as u8,
        (num / 0x1_0000 % 0x100) as u8,
        (num / 0x100 % 0x100) as u8,
        (num % 0x100) as u8,
    ]
}

/// The eight bytes of a scalar's encoding, the lowest first.
pub open spec fn scalar_bytes(num: Scalar) -> Seq<u8> {
    seq![
        (num.bits % 0x100) as u8,
        (num.bits / 0x100 % 0x100) as u8,
        (num.bits / 0x1_0000 % 0x100) as u8,
        (num.bits / 0x100_0000 % 0x100) as u8,
        (num.bits / 0x1_0000_0000 % 0x100) as u8,
        (num.bits / 0x100_0000_0000 % 0x100) as u8,
        (num.bits / 0x1_0000_0000_0000 % 0x100) as u8,
        (num.bits / 0x100_0000_0000_0000) as u8,
    ]
}

/// A count as the stream holds it: its lowest 32 bits.
pub open spec fn count_bytes(count: int) -> Seq<u8> {
    u32_bytes((count % 0x1_0000_0000) as u32)
}

/// A string: the lowest 16 bits of its length in bytes, then its UTF-8
/// bytes.
pub open spec fn string_bytes(text: Seq<char>) -> Seq<u8> {
    u16_bytes((encode_utf8(text).len() % 0x1_0000) as u16) + encode_utf8(text)
}

pub fn write_u8(out: &mut Vec<u8>, num: u8)
    ensures
        final(out)@ == old(out)@ + u8_bytes(num),
{
    out.push(num);
}

pub fn write_u16(out: &mut Vec<u8>, num: u16)
    ensures
        final(out)@ == old(out)@ + u16_bytes(num),
{
    out.push((num / 0x100) as u8);
    out.push((num % 0x100) as u8);
}

pub fn write_u32(out: &mut Vec<u8>, num: u32)
    ensures
        final(out)@ == old(out)@ + u32_bytes(num),
{
    out.push((num / 0x100_0000) as u8);
    out.push((num / 0x1_0000 % 0x100) as u8);
    out.push((num / 0x100 % 0x100) as u8);
    out.push((num % 0x100) as u8);
}

/// Appends a scalar: the eight bytes of its encoding, the lowest first.
pub fn write_scalar(out: &mut Vec<u8>, num: Scalar)
    ensures
        final(out)@ == old(out)@ + scalar_bytes(num),
{
    out.push((num.bits % 0x100) as u8);
    out.push((num.bits / 0x100 % 0x100) as u8);
    out.push((num.bits / 0x1_0000 % 0x100) as u8);
    out.push((num.bits / 0x100_0000 % 0x100) as u8);
    out.push((num.bits / 0x1_0000_0000 % 0x100) as u8);
    out.push((num.bits / 0x100_0000_0000 % 0x100) as u8);
    out.push((num.bits / 0x1_0000_0000_0000 % 0x100) as u8);
    out.push((num.bits / 0x100_0000_0000_0000) as u8);
}

/// Appends a count: its lowest 32 bits.
fn write_count(out: &mut Vec<u8>, count: usize)
    ensures
        final(out)@ == old(out)@ + count_bytes(count as int),
{
    write_u32(out, (count as u64 % 0x1_0000_0000) as u32);
}

/// Appends a string: the lowest 16 bits of its length, then its bytes.
pub fn write_string(out: &mut Vec<u8>, string: &String)
    ensures
        final(out)@ == old(out)@ + string_bytes(string@),
{
    let bytes = string.as_str().as_bytes();
    write_u16(out, (bytes.len() % 0x1_0000) as u16);
    let ghost start = out@;
    let mut i: usize = 0;
    while i < bytes.len()
        invariant
            i <= bytes@.len(),
            out@ == start + bytes@.take(i as int),
        decreases bytes.len() - i,
    {
        out.push(bytes[i]);
        i = i + 1;
    }
    proof {
        assert(bytes@.take(bytes@.len() as int) == bytes@);
    }
}

/// A cell of the density map that is written out.
#[derive(Debug, Clone, Copy, PartialEq, Eq, Structural)]
pub struct DensityCell {
    pub x: u16,
    pub y: u16,
    pub value: Scalar,
}

/// What the output keeps from the configuration, and its place in the
/// schedule of the density map.
pub struct Output {
    scene_file_name: String,
    scene_scale: Scalar,
    density_map_enabled: bool,
    density_map_min_threshold: Scalar,
    density_map_max_threshold: Scalar,
    ticks_without_density: u32,
}

/// An output, as contracts speak of it.
pub struct OutputView {
    pub scene_file_name: Seq<char>,
    pub scene_scale: Scalar,
    pub density_map_enabled: bool,
    pub density_map_min_threshold: Scalar,
    pub density_map_max_threshold: Scalar,
    /// States to write before the density map is written again.
    pub ticks_without_density: u32,
}

impl View for Output {
    type V = OutputView;

    closed spec fn view(&self) -> OutputView {
        OutputView {
            scene_file_name: self.scene_file_name@,
            scene_scale: self.scene_scale,
            density_map_enabled: self.density_map_enabled,
            density_map_min_threshold: self.density_map_min_threshold,
            density_map_max_threshold: self.density_map_max_threshold,
            ticks_without_density: self.ticks_without_density,
        }
    }
}

/// The first setting, in the order in which an output asks for them,
/// that the configuration lacks.
pub open spec fn first_missing(settings: Map<Key, crate::configuration::Entry>) -> Option<Key> {
    if !settings.dom().contains(Key::SceneScale) {
        Some(Key::SceneScale)
    } else if !settings.dom().contains(Key::SceneFilename) {
        Some(Key::SceneFilename)
    } else if !settings.dom().contains(Key::DensityMapEnabled) {
        Some(Key::DensityMapEnabled)
    } else if !settings.dom().contains(Key::DensityMapMinThreshold) {
        Some(Key::DensityMapMinThreshold)
    } else if !settings.dom().contains(Key::DensityMapMaxThreshold) {
        Some(Key::DensityMapMaxThreshold)
    } else {
        None
    }
}

/// The output that settings describe: the density map is due with the
/// first state.
pub open spec fn output_of(settings: Map<Key, crate::configuration::Entry>) -> OutputView {
    OutputView {
        scene_file_name: settings[Key::SceneFilename]->SceneFilename_0,
        scene_scale: settings[Key::SceneScale]->SceneScale_0,
        density_map_enabled: settings[Key::DensityMapEnabled]->DensityMapEnabled_0,
        density_map_min_threshold: settings[Key::DensityMapMinThreshold]->DensityMapMinThreshold_0,
        density_map_max_threshold: settings[Key::DensityMapMaxThreshold]->DensityMapMaxThreshold_0,
        ticks_without_density: 0,
    }
}

/// The record that opens the stream: the name of the scene file, the
/// scale, and the two thresholds of the density map.
pub open spec fn init_record(output: OutputView) -> Seq<u8> {
    string_bytes(output.scene_file_name) + scalar_bytes(output.scene_scale) + scalar_bytes(
        output.density_map_min_threshold,
    ) + scalar_bytes(output.density_map_max_threshold)
}

pub open spec fn time_record(current_time: Scalar) -> Seq<u8> {
    u8_bytes(CURRENT_TIME_TYPE) + scalar_bytes(current_time)
}

pub open spec fn location_bytes(location: PersonLocation) -> Seq<u8> {
    u16_bytes(location.x) + u16_bytes(location.y) + scalar_bytes(location.heading) + scalar_bytes(
        location.panic_level,
    )
}

pub open spec fn locations_bytes(locations: Seq<PersonLocation>) -> Seq<u8>
    decreases locations.len(),
{
    if locations.len() == 0 {
        Seq::empty()
    } else {
        locations_bytes(locations.drop_last()) + location_bytes(locations.last())
    }
}

/// The record of where the people are: their number, then each of them.
pub open spec fn locations_record(locations: Seq<PersonLocation>) -> Seq<u8> {
    u8_bytes(LOCATIONS_TYPE) + count_bytes(locations.len() as int) + locations_bytes(locations)
}

/// The density map as a grid of rows.
pub open spec fn grid(density_map: Seq<Vec<Scalar>>) -> Seq<Seq<Scalar>> {
    Seq::new(density_map.len(), |i: int| density_map[i]@)
}

/// The cells among the first `columns` of the row `y` whose density is
/// greater than the threshold, from left to right. A cell's coordinates
/// are written with their lowest 16 bits.
pub open spec fn row_cells(row: Seq<Scalar>, y: int, columns: int, threshold: Scalar) -> Seq<
    DensityCell,
>
    decreases columns,
{
    if columns <= 0 {
        Seq::empty()
    } else if columns <= row.len() && row[columns - 1].greater(threshold) {
        row_cells(row, y, columns - 1, threshold).push(
            DensityCell {
                x: ((columns - 1) % 0x1_0000) as u16,
                y: (y % 0x1_0000) as u16,
                value: row[columns - 1],
            },
        )
    } else {
        row_cells(row, y, columns - 1, threshold)
    }
}

/// The cells of the first `rows` rows whose density is greater than the
/// threshold, row by row.
pub open spec fn map_cells(map: Seq<Seq<Scalar>>, rows: int, threshold: Scalar) -> Seq<DensityCell>
    decreases rows,
{
    if rows <= 0 {
        Seq::empty()
    } else if rows <= map.len() {
        map_cells(map, rows - 1, threshold) + row_cells(
            map[rows - 1],
            rows - 1,
            map[rows - 1].len() as int,
            threshold,
        )
    } else {
        map_cells(map, rows - 1, threshold)
    }
}

pub open spec fn cell_bytes(cell: DensityCell) -> Seq<u8> {
    u16_bytes(cell.x) + u16_bytes(cell.y) + scalar_bytes(cell.value)
}

pub open spec fn cells_bytes(cells: Seq<DensityCell>) -> Seq<u8>
    decreases cells.len(),
{
    if cells.len() == 0 {
        Seq::empty()
    } else {
        cells_bytes(cells.drop_last()) + cell_bytes(cells.last())
    }
}

/// The record of the density map: the number of cells whose density is
/// greater than the threshold, then each of them.
pub open spec fn density_record(map: Seq<Seq<Scalar>>, threshold: Scalar) -> Seq<u8> {
    u8_bytes(DENSITY_MAP_TYPE) + count_bytes(
        map_cells(map, map.len() as int, threshold).len() as int,
    ) + cells_bytes(map_cells(map, map.len() as int, threshold))
}

/// Whether the density map goes out with the next state.
pub open spec fn density_due(output: OutputView) -> bool {
    output.density_map_enabled && output.ticks_without_density == 0
}

/// The records of one state: the time, the density map if it is due,
/// and where the people are.
pub open spec fn state_record(
    output: OutputView,
    current_time: Scalar,
    map: Seq<Seq<Scalar>>,
    locations: Seq<PersonLocation>,
) -> Seq<u8> {
    time_record(current_time) + if density_due(output) {
        density_record(map, output.density_map_min_threshold)
    } else {
        Seq::empty()
    } + locations_record(locations)
}

/// The output after a state went out: where the density map went out,
/// `period` states pass before it does again.
pub open spec fn after_state(output: OutputView, period: u32) -> OutputView {
    OutputView {
        ticks_without_density: if !output.density_map_enabled {
            output.ticks_without_density
        } else if output.ticks_without_density == 0 {
            period
        } else {
            (output.ticks_without_density - 1) as u32
        },
        ..output
    }
}

/// The record that closes the stream: the time, then the statistics.
pub open spec fn statistics_record(current_time: Scalar, summary: StatisticsSummary) -> Seq<u8> {
    scalar_bytes(current_time) + u8_bytes(STATISTICS_TYPE) + scalar_bytes(summary.min)
        + scalar_bytes(summary.max) + u32_bytes(summary.count) + scalar_bytes(summary.avg)
        + scalar_bytes(summary.variance) + scalar_bytes(summary.std_deviation)
}

impl Output {
    /// The output that a configuration describes; the key of the first
    /// setting that it lacks, where it lacks one.
    pub fn new(configuration: &Configuration) -> (r: Result<Output, Key>)
        ensures
            match first_missing(configuration@) {
                Some(key) => r == Err::<Output, Key>(key),
                None => r is Ok && r.unwrap()@ == output_of(configuration@),
            },
    {
        let scene_scale = match configuration.get::<SceneScale>() {
            Some(held) => held.0,
            None => {
                return Err(Key::SceneScale);
            },
        };
        let scene_file_name = match configuration.get::<SceneFilename>() {
            Some(held) => held.0.clone(),
            None => {
                return Err(Key::SceneFilename);
            },
        };
        let density_map_enabled = match configuration.get::<DensityMapEnabled>() {
            Some(held) => held.0,
            None => {
                return Err(Key::DensityMapEnabled);
            },
        };
        let density_map_min_threshold = match configuration.get::<DensityMapMinThreshold>() {
            Some(held) => held.0,
            None => {
                return Err(Key::DensityMapMinThreshold);
            },
        };
        let density_map_max_threshold = match configuration.get::<DensityMapMaxThreshold>() {
            Some(held) => held.0,
            None => {
                return Err(Key::DensityMapMaxThreshold);
            },
        };
        Ok(
            Output {
                scene_file_name,
                scene_scale,
                density_map_enabled,
                density_map_min_threshold,
                density_map_max_threshold,
                ticks_without_density: 0,
            },
        )
    }

    /// Appends the record that opens the stream.
    pub fn send_init(&self, out: &mut Vec<u8>)
        ensures
            final(out)@ == old(out)@ + init_record(self@),
    {
        write_string(out, &self.scene_file_name);
        write_scalar(out, self.scene_scale);
        write_scalar(out, self.density_map_min_threshold);
        write_scalar(out, self.density_map_max_threshold);
        assert(out@ =~= old(out)@ + init_record(self@));
    }

    /// Whether the density map goes out with the next state.
    pub fn density_due(&self) -> (r: bool)
        ensures
            r == density_due(self@),
    {
        self.density_map_enabled && self.ticks_without_density == 0
    }

    /// Appends the records of one state. The density map goes out only
    /// where it is due; `period` states then pass before it is due again.
    pub fn dump_state(
        &mut self,
        out: &mut Vec<u8>,
        current_time: Scalar,
        density_map: &Vec<Vec<Scalar>>,
        period: u32,
        locations: &Vec<PersonLocation>,
    )
        ensures
            final(out)@ == old(out)@ + state_record(
                old(self)@,
                current_time,
                grid(density_map@),
                locations@,
            ),
            final(self)@ == after_state(old(self)@, period),
    {
        self.dump_current_time(out, current_time);
        if self.density_map_enabled {
            if self.ticks_without_density == 0 {
                self.dump_density_map(out, density_map);
                self.ticks_without_density = period;
            } else {
                self.ticks_without_density = self.ticks_without_density - 1;
            }
        }
        self.dump_people_location(out, locations);
        assert(out@ =~= old(out)@ + state_record(
            old(self)@,
            current_time,
            grid(density_map@),
            locations@,
        ));
    }

    /// Appends the record that closes the stream.
    pub fn dump_statistics(&self, out: &mut Vec<u8>, current_time: Scalar, summary: &StatisticsSummary)
        ensures
            final(out)@ == old(out)@ + statistics_record(current_time, *summary),
    {
        write_scalar(out, current_time);
        write_u8(out, STATISTICS_TYPE);
        write_scalar(out, summary.min);
        write_scalar(out, summary.max);
        write_u32(out, summary.count);
        write_scalar(out, summary.avg);
        write_scalar(out, summary.variance);
        write_scalar(out, summary.std_deviation);
        assert(out@ =~= old(out)@ + statistics_record(current_time, *summary));
    }

    /// Appends the record of the time.
    pub fn dump_current_time(&self, out: &mut Vec<u8>, current_time: Scalar)
        ensures
            final(out)@ == old(out)@ + time_record(current_time),
    {
        write_u8(out, CURRENT_TIME_TYPE);
        write_scalar(out, current_time);
        assert(out@ =~= old(out)@ + time_record(current_time));
    }

    /// Appends the record of where the people are.
    pub fn dump_people_location(&self, out: &mut Vec<u8>, locations: &Vec<PersonLocation>)
        ensures
            final(out)@ == old(out)@ + locations_record(locations@),
    {
        write_u8(out, LOCATIONS_TYPE);
        write_count(out, locations.len());
        let ghost start = out@;
        let mut i: usize = 0;
        while i < locations.len()
            invariant
                i <= locations@.len(),
                out@ == start + locations_bytes(locations@.take(i as int)),
            decreases locations.len() - i,
        {
            proof {
                assert(locations@.take(i + 1).drop_last() == locations@.take(i as int));
            }
            let ghost before = out@;
            write_u16(out, locations[i].x);
            write_u16(out, locations[i].y);
            write_scalar(out, locations[i].heading);
            write_scalar(out, locations[i].panic_level);
            assert(out@ =~= before + location_bytes(locations@[i as int]));
            assert(out@ =~= start + locations_bytes(locations@.take(i + 1)));
            i = i + 1;
        }
        proof {
            assert(locations@.take(locations@.len() as int) == locations@);
            assert(out@ =~= old(out)@ + locations_record(locations@));
        }
    }

    /// Appends the record of the density map: the cells whose density is
    /// greater than the lower threshold.
    pub fn dump_density_map(&self, out: &mut Vec<u8>, density_map: &Vec<Vec<Scalar>>)
        ensures
            final(out)@ == old(out)@ + density_record(
                grid(density_map@),
                self@.density_map_min_threshold,
            ),
    {
        let threshold = self.density_map_min_threshold;
        let ghost map = grid(density_map@);
        let mut values_to_write: Vec<DensityCell> = Vec::new();
        let mut i: usize = 0;
        while i < density_map.len()
            invariant
                i <= density_map@.len(),
                map == grid(density_map@),
                values_to_write@ == map_cells(map, i as int, threshold),
            decreases density_map.len() - i,
        {
            let row = &density_map[i];
            let ghost done = values_to_write@;
            let mut j: usize = 0;
            while j < row.len()
                invariant
                    j <= row@.len(),
                    i < density_map@.len(),
                    row@ == map[i as int],
                    values_to_write@ == done + row_cells(row@, i as int, j as int, threshold),
                decreases row.len() - j,
            {
                let value = row[j];
                if value.greater_than(&threshold) {
                    values_to_write.push(
                        DensityCell {
                            x: (j as u64 % 0x1_0000) as u16,
                            y: (i as u64 % 0x1_0000) as u16,
                            value,
                        },
                    );
                }
                j = j + 1;
                assert(values_to_write@ =~= done + row_cells(row@, i as int, j as int, threshold));
            }
            i = i + 1;
        }
        write_u8(out, DENSITY_MAP_TYPE);
        write_count(out, values_to_write.len());
        let ghost start = out@;
        let mut k: usize = 0;
        while k < values_to_write.len()
            invariant
                k <= values_to_write@.len(),
                out@ == start + cells_bytes(values_to_write@.take(k as int)),
            decreases values_to_write.len() - k,
        {
            proof {
                assert(values_to_write@.take(k + 1).drop_last() == values_to_write@.take(k as int));
            }
            let ghost before = out@;
            write_u16(out, values_to_write[k].x);
            write_u16(out, values_to_write[k].y);
            write_scalar(out, values_to_write[k].value);
            assert(out@ =~= before + cell_bytes(values_to_write@[k as int]));
            assert(out@ =~= start + cells_bytes(values_to_write@.take(k + 1)));
            k = k + 1;
        }
        proof {
            assert(values_to_write@.take(values_to_write@.len() as int) == values_to_write@);
            assert(out@ =~= old(out)@ + density_record(map, threshold));
        }
    }
}

/// A byte that was written is read back as it was.
pub proof fn lemma_u8_reads_back(head: Seq<u8>, num: u8, tail: Seq<u8>)
    requires
        head.len() + 1 + tail.len() <= usize::MAX,
    ensures
        u8_at(head + u8_bytes(num) + tail, head.len() as usize) == Ok::<(u8, usize), ConfigError>(
            (num, (head.len() + 1) as usize),
        ),
{
}

/// A 16-bit number that was written is read back as it was.
pub proof fn lemma_u16_reads_back(head: Seq<u8>, num: u16, tail: Seq<u8>)
    requires
        head.len() + 2 + tail.len() <= usize::MAX,
    ensures
        u16_at(head + u16_bytes(num) + tail, head.len() as usize) == Ok::<(u16, usize), ConfigError>(
            (num, (head.len() + 2) as usize),
        ),
{
}

/// A 32-bit number that was written is read back as it was.
pub proof fn lemma_u32_reads_back(head: Seq<u8>, num: u32, tail: Seq<u8>)
    requires
        head.len() + 4 + tail.len() <= usize::MAX,
    ensures
        u32_at(head + u32_bytes(num) + tail, head.len() as usize) == Ok::<(u32, usize), ConfigError>(
            (num, (head.len() + 4) as usize),
        ),
{
}

/// A scalar that was written is read back as it was.
pub proof fn lemma_scalar_reads_back(head: Seq<u8>, num: Scalar, tail: Seq<u8>)
    requires
        head.len() + 8 + tail.len() <= usize::MAX,
    ensures
        scalar_at(head + scalar_bytes(num) + tail, head.len() as usize) == Ok::<
            (Scalar, usize),
            ConfigError,
        >((num, (head.len() + 8) as usize)),
{
    let bits = num.bits;
    assert(bits % 0x100 + (bits / 0x100 % 0x100) * 0x100 + (bits / 0x1_0000 % 0x100) * 0x1_0000 + (
    bits / 0x100_0000 % 0x100) * 0x100_0000 + (bits / 0x1_0000_0000 % 0x100) * 0x1_0000_0000 + (
    bits / 0x100_0000_0000 % 0x100) * 0x100_0000_0000 + (bits / 0x1_0000_0000_0000 % 0x100)
        * 0x1_0000_0000_0000 + (bits / 0x100_0000_0000_0000) * 0x100_0000_0000_0000 == bits)
        by (bit_vector);
    let bytes = head + scalar_bytes(num) + tail;
    let at = head.len() as int;
    assert(bytes[at] == (bits % 0x100) as u8);
    assert(bytes[at + 1] == (bits / 0x100 % 0x100) as u8);
    assert(bytes[at + 2] == (bits / 0x1_0000 % 0x100) as u8);
    assert(bytes[at + 3] == (bits / 0x100_0000 % 0x100) as u8);
    assert(bytes[at + 4] == (bits / 0x1_0000_0000 % 0x100) as u8);
    assert(bytes[at + 5] == (bits / 0x100_0000_0000 % 0x100) as u8);
    assert(bytes[at + 6] == (bits / 0x1_0000_0000_0000 % 0x100) as u8);
    assert(bytes[at + 7] == (bits / 0x100_0000_0000_0000) as u8);
}

/// A string that was written is read back as it was, if it is no longer
/// than a string of the configuration stream may be.
pub proof fn lemma_string_reads_back(head: Seq<u8>, text: Seq<char>, tail: Seq<u8>)
    requires
        encode_utf8(text).len() <= MAX_STRING_LENGTH,
        head.len() + 2 + encode_utf8(text).len() + tail.len() <= usize::MAX,
    ensures
        string_at(head + string_bytes(text) + tail, head.len() as usize) == Ok::<
            (Seq<char>, usize),
            ConfigError,
        >((text, (head.len() + 2 + encode_utf8(text).len()) as usize)),
{
    let bytes = head + string_bytes(text) + tail;
    let start: int = head.len() as int + 2;
    let length: nat = encode_utf8(text).len();
    assert(bytes.subrange(start as int, start + length as int) =~= encode_utf8(text));
    encode_utf8_valid_utf8(text);
    encode_utf8_decode_utf8(text);
}

} // verus!
