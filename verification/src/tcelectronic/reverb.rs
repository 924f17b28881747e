//! State and meter of the reverb effect.
//!
//! The reverb composite is embedded verbatim in several device models; its
//! byte window is defined once here and composed by value.

use vstd::prelude::*;
use crate::codec::{
    bool_at, bool_to_quadlet, i32_at, quadlet_at, read_bool_quadlet, read_i32_quadlet,
    read_quadlet, write_bool_quadlet, write_i32_quadlet, write_quadlet,
};

verus! {

/// The byte size of the reverb state window: sixteen parameter quadlets and
/// one trailing reserved quadlet.
pub const REVERB_STATE_SIZE: usize = 68;

/// The byte size of the reverb meter window: four level quadlets and two
/// trailing reserved quadlets.
pub const REVERB_METER_SIZE: usize = 24;

/// The algorithm the reverb effect runs.
#[derive(Clone, Copy, Debug, PartialEq, Eq, Structural)]
pub enum ReverbAlgorithm {
    Live1,
    Hall,
    Plate,
    Club,
    ConcertHall,
    Cathedral,
    Church,
    Room,
    SmallRoom,
    Box,
    Ambient,
    Live2,
    Live3,
    Spring,
}

impl ReverbAlgorithm {
    /// The algorithm a quadlet value denotes; undocumented values fall back
    /// to the default algorithm rather than failing.
    pub open spec fn spec_decode(val: u32) -> ReverbAlgorithm {
        if val == 1 {
            ReverbAlgorithm::Hall
        } else if val == 2 {
            ReverbAlgorithm::Plate
        } else if val == 3 {
            ReverbAlgorithm::Club
        } else if val == 4 {
            ReverbAlgorithm::ConcertHall
        } else if val == 5 {
            ReverbAlgorithm::Cathedral
        } else if val == 6 {
            ReverbAlgorithm::Church
        } else if val == 7 {
            ReverbAlgorithm::Room
        } else if val == 8 {
            ReverbAlgorithm::SmallRoom
        } else if val == 9 {
            ReverbAlgorithm::Box
        } else if val == 10 {
            ReverbAlgorithm::Ambient
        } else if val == 11 {
            ReverbAlgorithm::Live2
        } else if val == 12 {
            ReverbAlgorithm::Live3
        } else if val == 13 {
            ReverbAlgorithm::Spring
        } else {
            ReverbAlgorithm::Live1
        }
    }

    /// The canonical quadlet encoding of an algorithm.
    pub open spec fn spec_encode(self) -> u32 {
        match self {
            ReverbAlgorithm::Live1 => 0,
            ReverbAlgorithm::Hall => 1,
            ReverbAlgorithm::Plate => 2,
            ReverbAlgorithm::Club => 3,
            ReverbAlgorithm::ConcertHall => 4,
            ReverbAlgorithm::Cathedral => 5,
            ReverbAlgorithm::Church => 6,
            ReverbAlgorithm::Room => 7,
            ReverbAlgorithm::SmallRoom => 8,
            ReverbAlgorithm::Box => 9,
            ReverbAlgorithm::Ambient => 10,
            ReverbAlgorithm::Live2 => 11,
            ReverbAlgorithm::Live3 => 12,
            ReverbAlgorithm::Spring => 13,
        }
    }

    /// Decode a quadlet value, falling back to the default for any
    /// undocumented encoding.
    pub fn decode(val: u32) -> (r: ReverbAlgorithm)
        ensures
            r == ReverbAlgorithm::spec_decode(val),
    {
        match val {
            1 => ReverbAlgorithm::Hall,
            2 => ReverbAlgorithm::Plate,
            3 => ReverbAlgorithm::Club,
            4 => ReverbAlgorithm::ConcertHall,
            5 => ReverbAlgorithm::Cathedral,
            6 => ReverbAlgorithm::Church,
            7 => ReverbAlgorithm::Room,
            8 => ReverbAlgorithm::SmallRoom,
            9 => ReverbAlgorithm::Box,
            10 => ReverbAlgorithm::Ambient,
            11 => ReverbAlgorithm::Live2,
            12 => ReverbAlgorithm::Live3,
            13 => ReverbAlgorithm::Spring,
            _ => ReverbAlgorithm::Live1,
        }
    }

    /// Encode the algorithm as its canonical quadlet value.
    pub fn encode(self) -> (r: u32)
        ensures
            r == self.spec_encode(),
    {
        match self {
            ReverbAlgorithm::Live1 => 0,
            ReverbAlgorithm::Hall => 1,
            ReverbAlgorithm::Plate => 2,
            ReverbAlgorithm::Club => 3,
            ReverbAlgorithm::ConcertHall => 4,
            ReverbAlgorithm::Cathedral => 5,
            ReverbAlgorithm::Church => 6,
            ReverbAlgorithm::Room => 7,
            ReverbAlgorithm::SmallRoom => 8,
            ReverbAlgorithm::Box => 9,
            ReverbAlgorithm::Ambient => 10,
            ReverbAlgorithm::Live2 => 11,
            ReverbAlgorithm::Live3 => 12,
            ReverbAlgorithm::Spring => 13,
        }
    }
}

impl Default for ReverbAlgorithm {
    /// The documented default algorithm.
    fn default() -> (r: Self)
        ensures
            r == ReverbAlgorithm::Live1,
    {
        ReverbAlgorithm::Live1
    }
}

/// Every valid algorithm encoding decodes back to the same algorithm.
pub proof fn lemma_reverb_algorithm_roundtrip(a: ReverbAlgorithm)
    ensures
        ReverbAlgorithm::spec_decode(a.spec_encode()) == a,
{
}

/// Every encoding outside the documented domain decodes to the default.
pub proof fn lemma_reverb_algorithm_default(val: u32)
    requires
        val > 13,
    ensures
        ReverbAlgorithm::spec_decode(val) == ReverbAlgorithm::Live1,
{
}

/// State of the reverb effect, one parameter per quadlet.
#[derive(Clone, Copy, Debug, PartialEq, Eq, Structural)]
pub struct ReverbState {
    pub input_level: i32,
    pub bypass: bool,
    pub kill_wet: bool,
    pub kill_dry: bool,
    pub output_level: i32,
    pub time_decay: i32,
    pub time_pre_decay: i32,
    pub color_low: i32,
    pub color_high: i32,
    pub color_high_factor: i32,
    pub mod_rate: i32,
    pub mod_depth: i32,
    pub level_early: i32,
    pub level_reverb: i32,
    pub level_dry: i32,
    pub algorithm: ReverbAlgorithm,
}

/// The reverb state encoded by the window at `pos`.
pub open spec fn reverb_state_parsed(s: Seq<u8>, pos: int) -> ReverbState {
    ReverbState {
        input_level: i32_at(s, pos),
        bypass: bool_at(s, pos + 4),
        kill_wet: bool_at(s, pos + 8),
        kill_dry: bool_at(s, pos + 12),
        output_level: i32_at(s, pos + 16),
        time_decay: i32_at(s, pos + 20),
        time_pre_decay: i32_at(s, pos + 24),
        color_low: i32_at(s, pos + 28),
        color_high: i32_at(s, pos + 32),
        color_high_factor: i32_at(s, pos + 36),
        mod_rate: i32_at(s, pos + 40),
        mod_depth: i32_at(s, pos + 44),
        level_early: i32_at(s, pos + 48),
        level_reverb: i32_at(s, pos + 52),
        level_dry: i32_at(s, pos + 56),
        algorithm: ReverbAlgorithm::spec_decode(quadlet_at(s, pos + 60)),
    }
}

impl ReverbState {
    /// Write the canonical encoding of this state into the window at `pos`.
    /// Parsing the result reproduces this state; the trailing reserved
    /// quadlet and every byte outside the window are preserved.
    pub fn build(&self, raw: &mut Vec<u8>, pos: usize)
        requires
            pos + REVERB_STATE_SIZE <= old(raw)@.len(),
        ensures
            final(raw)@.len() == old(raw)@.len(),
            forall|i: int|
                0 <= i < old(raw)@.len() && !(pos <= i < pos + 64) ==> final(raw)@[i] == old(
                    raw,
                )@[i],
            reverb_state_parsed(final(raw)@, pos as int) == *self,
            quadlet_at(final(raw)@, pos + 4) == bool_to_quadlet(self.bypass),
            quadlet_at(final(raw)@, pos + 8) == bool_to_quadlet(self.kill_wet),
            quadlet_at(final(raw)@, pos + 12) == bool_to_quadlet(self.kill_dry),
            quadlet_at(final(raw)@, pos + 60) == self.algorithm.spec_encode(),
    {
        let n: usize = raw.len();
        write_i32_quadlet(raw, pos, self.input_level);
        write_bool_quadlet(raw, pos + 4, self.bypass);
        write_bool_quadlet(raw, pos + 8, self.kill_wet);
        write_bool_quadlet(raw, pos + 12, self.kill_dry);
        write_i32_quadlet(raw, pos + 16, self.output_level);
        write_i32_quadlet(raw, pos + 20, self.time_decay);
        write_i32_quadlet(raw, pos + 24, self.time_pre_decay);
        write_i32_quadlet(raw, pos + 28, self.color_low);
        write_i32_quadlet(raw, pos + 32, self.color_high);
        write_i32_quadlet(raw, pos + 36, self.color_high_factor);
        write_i32_quadlet(raw, pos + 40, self.mod_rate);
        write_i32_quadlet(raw, pos + 44, self.mod_depth);
        write_i32_quadlet(raw, pos + 48, self.level_early);
        write_i32_quadlet(raw, pos + 52, self.level_reverb);
        write_i32_quadlet(raw, pos + 56, self.level_dry);
        write_quadlet(raw, pos + 60, self.algorithm.encode());
    }

    /// Replace this state by the one the window at `pos` encodes.
    pub fn parse(&mut self, raw: &Vec<u8>, pos: usize)
        requires
            pos + REVERB_STATE_SIZE <= raw@.len(),
        ensures
            *final(self) == reverb_state_parsed(raw@, pos as int),
    {
        let n: usize = raw.len();
        self.input_level = read_i32_quadlet(raw, pos);
        self.bypass = read_bool_quadlet(raw, pos + 4);
        self.kill_wet = read_bool_quadlet(raw, pos + 8);
        self.kill_dry = read_bool_quadlet(raw, pos + 12);
        self.output_level = read_i32_quadlet(raw, pos + 16);
        self.time_decay = read_i32_quadlet(raw, pos + 20);
        self.time_pre_decay = read_i32_quadlet(raw, pos + 24);
        self.color_low = read_i32_quadlet(raw, pos + 28);
        self.color_high = read_i32_quadlet(raw, pos + 32);
        self.color_high_factor = read_i32_quadlet(raw, pos + 36);
        self.mod_rate = read_i32_quadlet(raw, pos + 40);
        self.mod_depth = read_i32_quadlet(raw, pos + 44);
        self.level_early = read_i32_quadlet(raw, pos + 48);
        self.level_reverb = read_i32_quadlet(raw, pos + 52);
        self.level_dry = read_i32_quadlet(raw, pos + 56);
        self.algorithm = ReverbAlgorithm::decode(read_quadlet(raw, pos + 60));
    }
}

impl Default for ReverbState {
    /// The zero state every parameter quadlet starts from.
    fn default() -> (r: Self)
        ensures
            r == (ReverbState {
                input_level: 0i32,
                bypass: false,
                kill_wet: false,
                kill_dry: false,
                output_level: 0i32,
                time_decay: 0i32,
                time_pre_decay: 0i32,
                color_low: 0i32,
                color_high: 0i32,
                color_high_factor: 0i32,
                mod_rate: 0i32,
                mod_depth: 0i32,
                level_early: 0i32,
                level_reverb: 0i32,
                level_dry: 0i32,
                algorithm: ReverbAlgorithm::Live1,
            }),
    {
        ReverbState {
            input_level: 0,
            bypass: false,
            kill_wet: false,
            kill_dry: false,
            output_level: 0,
            time_decay: 0,
            time_pre_decay: 0,
            color_low: 0,
            color_high: 0,
            color_high_factor: 0,
            mod_rate: 0,
            mod_depth: 0,
            level_early: 0,
            level_reverb: 0,
            level_dry: 0,
            algorithm: ReverbAlgorithm::Live1,
        }
    }
}

/// Levels reported by the reverb effect, one stereo pair in and out.
#[derive(Clone, Copy, Debug, PartialEq, Eq, Structural)]
pub struct ReverbMeter {
    pub input_left: i32,
    pub input_right: i32,
    pub output_left: i32,
    pub output_right: i32,
}

/// The reverb meter encoded by the window at `pos`.
pub open spec fn reverb_meter_parsed(s: Seq<u8>, pos: int) -> ReverbMeter {
    ReverbMeter {
        input_left: i32_at(s, pos),
        input_right: i32_at(s, pos + 4),
        output_left: i32_at(s, pos + 8),
        output_right: i32_at(s, pos + 12),
    }
}

impl ReverbMeter {
    /// Write the encoding of this meter into the window at `pos`.  Parsing
    /// the result reproduces this meter; the two trailing reserved quadlets
    /// and every byte outside the window are preserved.
    pub fn build(&self, raw: &mut Vec<u8>, pos: usize)
        requires
            pos + REVERB_METER_SIZE <= old(raw)@.len(),
        ensures
            final(raw)@.len() == old(raw)@.len(),
            forall|i: int|
                0 <= i < old(raw)@.len() && !(pos <= i < pos + 16) ==> final(raw)@[i] == old(
                    raw,
                )@[i],
            reverb_meter_parsed(final(raw)@, pos as int) == *self,
    {
        let n: usize = raw.len();
        write_i32_quadlet(raw, pos, self.input_left);
        write_i32_quadlet(raw, pos + 4, self.input_right);
        write_i32_quadlet(raw, pos + 8, self.output_left);
        write_i32_quadlet(raw, pos + 12, self.output_right);
    }

    /// Replace this meter by the one the window at `pos` encodes.
    pub fn parse(&mut self, raw: &Vec<u8>, pos: usize)
        requires
            pos + REVERB_METER_SIZE <= raw@.len(),
        ensures
            *final(self) == reverb_meter_parsed(raw@, pos as int),
    {
        let n: usize = raw.len();
        self.input_left = read_i32_quadlet(raw, pos);
        self.input_right = read_i32_quadlet(raw, pos + 4);
        self.output_left = read_i32_quadlet(raw, pos + 8);
        self.output_right = read_i32_quadlet(raw, pos + 12);
    }
}

impl Default for ReverbMeter {
    /// The zero meter.
    fn default() -> (r: Self)
        ensures
            r == (ReverbMeter {
                input_left: 0i32,
                input_right: 0i32,
                output_left: 0i32,
                output_right: 0i32,
            }),
    {
        ReverbMeter { input_left: 0, input_right: 0, output_left: 0, output_right: 0 }
    }
}

} // verus!
