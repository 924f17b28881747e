//! States and meters of the channel strip effect.
//!
//! A channel strip chains a compressor, a de-esser, a four-band equalizer
//! and a limiter.  Devices carry a fixed number of strips; the segment
//! window holds one fixed-size element per strip at `index * element size`,
//! with no padding between elements.

use vstd::prelude::*;
use crate::codec::{
    bool_at, bool_to_quadlet, i32_at, lemma_quadlet_bytes_equal, quadlet_at, read_bool_quadlet,
    read_i32_quadlet, read_quadlet, write_bool_quadlet, write_i32_quadlet, write_quadlet,
};

verus! {

/// The byte size of one channel strip state element.
pub const CH_STRIP_STATE_SIZE: usize = 144;

/// The byte size of one channel strip meter element.
pub const CH_STRIP_METER_SIZE: usize = 28;

/// The source of the channel strip effect.
#[derive(Clone, Copy, Debug, PartialEq, Eq, Structural)]
pub enum ChStripSrc {
    Stream01,
    Analog01,
    Analog23,
    Digital01,
    Digital23,
    Digital45,
    Digital67,
    MixerOutput,
    NoSource,
}

impl ChStripSrc {
    /// The source a quadlet value denotes; undocumented values fall back to
    /// the default source rather than failing.
    pub open spec fn spec_decode(val: u32) -> ChStripSrc {
        if val == 0 {
            ChStripSrc::Stream01
        } else if val == 4 {
            ChStripSrc::Analog01
        } else if val == 5 {
            ChStripSrc::Analog23
        } else if val == 6 {
            ChStripSrc::Digital01
        } else if val == 7 {
            ChStripSrc::Digital23
        } else if val == 8 {
            ChStripSrc::Digital45
        } else if val == 9 {
            ChStripSrc::Digital67
        } else if val == 10 {
            ChStripSrc::MixerOutput
        } else {
            ChStripSrc::NoSource
        }
    }

    /// The canonical quadlet encoding of a source.
    pub open spec fn spec_encode(self) -> u32 {
        match self {
            ChStripSrc::Stream01 => 0,
            ChStripSrc::Analog01 => 4,
            ChStripSrc::Analog23 => 5,
            ChStripSrc::Digital01 => 6,
            ChStripSrc::Digital23 => 7,
            ChStripSrc::Digital45 => 8,
            ChStripSrc::Digital67 => 9,
            ChStripSrc::MixerOutput => 10,
            ChStripSrc::NoSource => 11,
        }
    }

    /// Decode a quadlet value, falling back to the default for any
    /// undocumented encoding.
    pub fn decode(val: u32) -> (r: ChStripSrc)
        ensures
            r == ChStripSrc::spec_decode(val),
    {
        match val {
            0 => ChStripSrc::Stream01,
            4 => ChStripSrc::Analog01,
            5 => ChStripSrc::Analog23,
            6 => ChStripSrc::Digital01,
            7 => ChStripSrc::Digital23,
            8 => ChStripSrc::Digital45,
            9 => ChStripSrc::Digital67,
            10 => ChStripSrc::MixerOutput,
            _ => ChStripSrc::NoSource,
        }
    }

    /// Encode the source as its canonical quadlet value.
    pub fn encode(self) -> (r: u32)
        ensures
            r == self.spec_encode(),
    {
        match self {
            ChStripSrc::Stream01 => 0,
            ChStripSrc::Analog01 => 4,
            ChStripSrc::Analog23 => 5,
            ChStripSrc::Digital01 => 6,
            ChStripSrc::Digital23 => 7,
            ChStripSrc::Digital45 => 8,
            ChStripSrc::Digital67 => 9,
            ChStripSrc::MixerOutput => 10,
            ChStripSrc::NoSource => 11,
        }
    }
}

impl Default for ChStripSrc {
    /// The documented default source.
    fn default() -> (r: Self)
        ensures
            r == ChStripSrc::NoSource,
    {
        ChStripSrc::NoSource
    }
}

/// Every source encoding decodes back to the same source.
pub proof fn lemma_ch_strip_src_roundtrip(src: ChStripSrc)
    ensures
        ChStripSrc::spec_decode(src.spec_encode()) == src,
{
}

/// Every encoding outside the documented domain decodes to the default.
pub proof fn lemma_ch_strip_src_default(val: u32)
    requires
        val != 0 && !(4 <= val <= 10),
    ensures
        ChStripSrc::spec_decode(val) == ChStripSrc::NoSource,
{
}

/// The type of the channel strip effect.
#[derive(Clone, Copy, Debug, PartialEq, Eq, Structural)]
pub enum ChStripMode {
    FabrikC,
    RIAA1964,
    RIAA1987,
}

impl ChStripMode {
    /// The mode a quadlet value denotes; undocumented values fall back to
    /// the default mode rather than failing.
    pub open spec fn spec_decode(val: u32) -> ChStripMode {
        if val == 1 {
            ChStripMode::RIAA1964
        } else if val == 2 {
            ChStripMode::RIAA1987
        } else {
            ChStripMode::FabrikC
        }
    }

    /// The canonical quadlet encoding of a mode.
    pub open spec fn spec_encode(self) -> u32 {
        match self {
            ChStripMode::FabrikC => 0,
            ChStripMode::RIAA1964 => 1,
            ChStripMode::RIAA1987 => 2,
        }
    }

    /// Decode a quadlet value, falling back to the default for any
    /// undocumented encoding.
    pub fn decode(val: u32) -> (r: ChStripMode)
        ensures
            r == ChStripMode::spec_decode(val),
    {
        match val {
            1 => ChStripMode::RIAA1964,
            2 => ChStripMode::RIAA1987,
            _ => ChStripMode::FabrikC,
        }
    }

    /// Encode the mode as its canonical quadlet value.
    pub fn encode(self) -> (r: u32)
        ensures
            r == self.spec_encode(),
    {
        match self {
            ChStripMode::FabrikC => 0,
            ChStripMode::RIAA1964 => 1,
            ChStripMode::RIAA1987 => 2,
        }
    }
}

impl Default for ChStripMode {
    /// The documented default mode.
    fn default() -> (r: Self)
        ensures
            r == ChStripMode::FabrikC,
    {
        ChStripMode::FabrikC
    }
}

/// Every mode encoding decodes back to the same mode.
pub proof fn lemma_ch_strip_mode_roundtrip(mode: ChStripMode)
    ensures
        ChStripMode::spec_decode(mode.spec_encode()) == mode,
{
}

/// Every encoding outside the documented domain decodes to the default.
pub proof fn lemma_ch_strip_mode_default(val: u32)
    requires
        val > 2,
    ensures
        ChStripMode::spec_decode(val) == ChStripMode::FabrikC,
{
}

/// State of the compressor block, nine parameter quadlets.
#[derive(Clone, Copy, Debug, PartialEq, Eq, Structural, Default)]
pub struct CompressorState {
    pub input_gain: i32,
    pub make_up_gain: i32,
    pub full_band_enabled: bool,
    pub full_band_ratio: i32,
    pub low_ratio: i32,
    pub mid_ratio: i32,
    pub high_ratio: i32,
    pub attack: i32,
    pub release: i32,
}

/// The compressor state encoded at `pos`.
pub open spec fn compressor_state_parsed(s: Seq<u8>, pos: int) -> CompressorState {
    CompressorState {
        input_gain: i32_at(s, pos),
        make_up_gain: i32_at(s, pos + 4),
        full_band_enabled: bool_at(s, pos + 8),
        full_band_ratio: i32_at(s, pos + 12),
        low_ratio: i32_at(s, pos + 16),
        mid_ratio: i32_at(s, pos + 20),
        high_ratio: i32_at(s, pos + 24),
        attack: i32_at(s, pos + 28),
        release: i32_at(s, pos + 32),
    }
}

impl CompressorState {
    /// Write the canonical encoding of this block at `pos`; parsing the
    /// result reproduces this block and no byte outside it changes.
    pub fn build(&self, raw: &mut Vec<u8>, pos: usize)
        requires
            pos + 36 <= old(raw)@.len(),
        ensures
            final(raw)@.len() == old(raw)@.len(),
            forall|i: int|
                0 <= i < old(raw)@.len() && !(pos <= i < pos + 36) ==> final(raw)@[i] == old(
                    raw,
                )@[i],
            compressor_state_parsed(final(raw)@, pos as int) == *self,
            quadlet_at(final(raw)@, pos as int) == self.input_gain as u32,
            quadlet_at(final(raw)@, pos + 4) == self.make_up_gain as u32,
            quadlet_at(final(raw)@, pos + 8) == bool_to_quadlet(self.full_band_enabled),
            quadlet_at(final(raw)@, pos + 12) == self.full_band_ratio as u32,
            quadlet_at(final(raw)@, pos + 16) == self.low_ratio as u32,
            quadlet_at(final(raw)@, pos + 20) == self.mid_ratio as u32,
            quadlet_at(final(raw)@, pos + 24) == self.high_ratio as u32,
            quadlet_at(final(raw)@, pos + 28) == self.attack as u32,
            quadlet_at(final(raw)@, pos + 32) == self.release as u32,
    {
        let n: usize = raw.len();
        write_i32_quadlet(raw, pos, self.input_gain);
        write_i32_quadlet(raw, pos + 4, self.make_up_gain);
        write_bool_quadlet(raw, pos + 8, self.full_band_enabled);
        write_i32_quadlet(raw, pos + 12, self.full_band_ratio);
        write_i32_quadlet(raw, pos + 16, self.low_ratio);
        write_i32_quadlet(raw, pos + 20, self.mid_ratio);
        write_i32_quadlet(raw, pos + 24, self.high_ratio);
        write_i32_quadlet(raw, pos + 28, self.attack);
        write_i32_quadlet(raw, pos + 32, self.release);
    }

    /// Replace this block by the one encoded at `pos`.
    pub fn parse(&mut self, raw: &Vec<u8>, pos: usize)
        requires
            pos + 36 <= raw@.len(),
        ensures
            *final(self) == compressor_state_parsed(raw@, pos as int),
    {
        let n: usize = raw.len();
        self.input_gain = read_i32_quadlet(raw, pos);
        self.make_up_gain = read_i32_quadlet(raw, pos + 4);
        self.full_band_enabled = read_bool_quadlet(raw, pos + 8);
        self.full_band_ratio = read_i32_quadlet(raw, pos + 12);
        self.low_ratio = read_i32_quadlet(raw, pos + 16);
        self.mid_ratio = read_i32_quadlet(raw, pos + 20);
        self.high_ratio = read_i32_quadlet(raw, pos + 24);
        self.attack = read_i32_quadlet(raw, pos + 28);
        self.release = read_i32_quadlet(raw, pos + 32);
    }
}

/// State of the de-esser block, two parameter quadlets.
#[derive(Clone, Copy, Debug, PartialEq, Eq, Structural, Default)]
pub struct DeesserState {
    pub ratio: i32,
    pub bypass: bool,
}

/// The de-esser state encoded at `pos`.
pub open spec fn deesser_state_parsed(s: Seq<u8>, pos: int) -> DeesserState {
    DeesserState { ratio: i32_at(s, pos), bypass: bool_at(s, pos + 4) }
}

impl DeesserState {
    /// Write the canonical encoding of this block at `pos`; parsing the
    /// result reproduces this block and no byte outside it changes.
    pub fn build(&self, raw: &mut Vec<u8>, pos: usize)
        requires
            pos + 8 <= old(raw)@.len(),
        ensures
            final(raw)@.len() == old(raw)@.len(),
            forall|i: int|
                0 <= i < old(raw)@.len() && !(pos <= i < pos + 8) ==> final(raw)@[i] == old(
                    raw,
                )@[i],
            deesser_state_parsed(final(raw)@, pos as int) == *self,
            quadlet_at(final(raw)@, pos as int) == self.ratio as u32,
            quadlet_at(final(raw)@, pos + 4) == bool_to_quadlet(self.bypass),
    {
        let n: usize = raw.len();
        write_i32_quadlet(raw, pos, self.ratio);
        write_bool_quadlet(raw, pos + 4, self.bypass);
    }

    /// Replace this block by the one encoded at `pos`.
    pub fn parse(&mut self, raw: &Vec<u8>, pos: usize)
        requires
            pos + 8 <= raw@.len(),
        ensures
            *final(self) == deesser_state_parsed(raw@, pos as int),
    {
        let n: usize = raw.len();
        self.ratio = read_i32_quadlet(raw, pos);
        self.bypass = read_bool_quadlet(raw, pos + 4);
    }
}

/// State of one equalizer band, four parameter quadlets.
#[derive(Clone, Copy, Debug, PartialEq, Eq, Structural, Default)]
pub struct EqBandState {
    pub enabled: bool,
    pub frequency: i32,
    pub gain: i32,
    pub width: i32,
}

/// The equalizer band encoded at `pos`.
pub open spec fn eq_band_state_parsed(s: Seq<u8>, pos: int) -> EqBandState {
    EqBandState {
        enabled: bool_at(s, pos),
        frequency: i32_at(s, pos + 4),
        gain: i32_at(s, pos + 8),
        width: i32_at(s, pos + 12),
    }
}

impl EqBandState {
    /// Write the canonical encoding of this band at `pos`; parsing the
    /// result reproduces this band and no byte outside it changes.
    pub fn build(&self, raw: &mut Vec<u8>, pos: usize)
        requires
            pos + 16 <= old(raw)@.len(),
        ensures
            final(raw)@.len() == old(raw)@.len(),
            forall|i: int|
                0 <= i < old(raw)@.len() && !(pos <= i < pos + 16) ==> final(raw)@[i] == old(
                    raw,
                )@[i],
            eq_band_state_parsed(final(raw)@, pos as int) == *self,
            quadlet_at(final(raw)@, pos as int) == bool_to_quadlet(self.enabled),
            quadlet_at(final(raw)@, pos + 4) == self.frequency as u32,
            quadlet_at(final(raw)@, pos + 8) == self.gain as u32,
            quadlet_at(final(raw)@, pos + 12) == self.width as u32,
    {
        let n: usize = raw.len();
        write_bool_quadlet(raw, pos, self.enabled);
        write_i32_quadlet(raw, pos + 4, self.frequency);
        write_i32_quadlet(raw, pos + 8, self.gain);
        write_i32_quadlet(raw, pos + 12, self.width);
    }

    /// Replace this band by the one encoded at `pos`.
    pub fn parse(&mut self, raw: &Vec<u8>, pos: usize)
        requires
            pos + 16 <= raw@.len(),
        ensures
            *final(self) == eq_band_state_parsed(raw@, pos as int),
    {
        let n: usize = raw.len();
        self.enabled = read_bool_quadlet(raw, pos);
        self.frequency = read_i32_quadlet(raw, pos + 4);
        self.gain = read_i32_quadlet(raw, pos + 8);
        self.width = read_i32_quadlet(raw, pos + 12);
    }
}

/// State of the limiter block, four parameter quadlets.
#[derive(Clone, Copy, Debug, PartialEq, Eq, Structural, Default)]
pub struct LimiterState {
    pub threshold: i32,
    pub ceiling: i32,
    pub release: i32,
    pub bypass: bool,
}

/// The limiter state encoded at `pos`.
pub open spec fn limiter_state_parsed(s: Seq<u8>, pos: int) -> LimiterState {
    LimiterState {
        threshold: i32_at(s, pos),
        ceiling: i32_at(s, pos + 4),
        release: i32_at(s, pos + 8),
        bypass: bool_at(s, pos + 12),
    }
}

impl LimiterState {
    /// Write the canonical encoding of this block at `pos`; parsing the
    /// result reproduces this block and no byte outside it changes.
    pub fn build(&self, raw: &mut Vec<u8>, pos: usize)
        requires
            pos + 16 <= old(raw)@.len(),
        ensures
            final(raw)@.len() == old(raw)@.len(),
            forall|i: int|
                0 <= i < old(raw)@.len() && !(pos <= i < pos + 16) ==> final(raw)@[i] == old(
                    raw,
                )@[i],
            limiter_state_parsed(final(raw)@, pos as int) == *self,
            quadlet_at(final(raw)@, pos as int) == self.threshold as u32,
            quadlet_at(final(raw)@, pos + 4) == self.ceiling as u32,
            quadlet_at(final(raw)@, pos + 8) == self.release as u32,
            quadlet_at(final(raw)@, pos + 12) == bool_to_quadlet(self.bypass),
    {
        let n: usize = raw.len();
        write_i32_quadlet(raw, pos, self.threshold);
        write_i32_quadlet(raw, pos + 4, self.ceiling);
        write_i32_quadlet(raw, pos + 8, self.release);
        write_bool_quadlet(raw, pos + 12, self.bypass);
    }

    /// Replace this block by the one encoded at `pos`.
    pub fn parse(&mut self, raw: &Vec<u8>, pos: usize)
        requires
            pos + 16 <= raw@.len(),
        ensures
            *final(self) == limiter_state_parsed(raw@, pos as int),
    {
        let n: usize = raw.len();
        self.threshold = read_i32_quadlet(raw, pos);
        self.ceiling = read_i32_quadlet(raw, pos + 4);
        self.release = read_i32_quadlet(raw, pos + 8);
        self.bypass = read_bool_quadlet(raw, pos + 12);
    }
}

/// State of one channel strip: source, mode, bypass, then the processing
/// blocks in wire order, then two reserved quadlets.
#[derive(Clone, Copy, Debug, PartialEq, Eq, Structural)]
pub struct ChStripState {
    pub src: ChStripSrc,
    pub mode: ChStripMode,
    pub bypass: bool,
    pub comp: CompressorState,
    pub deesser: DeesserState,
    pub eq_low: EqBandState,
    pub eq_low_mid: EqBandState,
    pub eq_high_mid: EqBandState,
    pub eq_high: EqBandState,
    pub limiter: LimiterState,
}

/// The channel strip state encoded at `pos`.
pub open spec fn ch_strip_state_parsed(s: Seq<u8>, pos: int) -> ChStripState {
    ChStripState {
        src: ChStripSrc::spec_decode(quadlet_at(s, pos)),
        mode: ChStripMode::spec_decode(quadlet_at(s, pos + 4)),
        bypass: bool_at(s, pos + 8),
        comp: compressor_state_parsed(s, pos + 12),
        deesser: deesser_state_parsed(s, pos + 48),
        eq_low: eq_band_state_parsed(s, pos + 56),
        eq_low_mid: eq_band_state_parsed(s, pos + 72),
        eq_high_mid: eq_band_state_parsed(s, pos + 88),
        eq_high: eq_band_state_parsed(s, pos + 104),
        limiter: limiter_state_parsed(s, pos + 120),
    }
}

/// A channel strip read depends only on the bytes of its own element window.
pub proof fn lemma_ch_strip_state_parsed_congruence(s1: Seq<u8>, s2: Seq<u8>, pos: int)
    requires
        forall|i: int| pos <= i < pos + CH_STRIP_STATE_SIZE ==> s1[i] == s2[i],
    ensures
        ch_strip_state_parsed(s1, pos) == ch_strip_state_parsed(s2, pos),
{
    assert(forall|p: int|
        pos <= p && p + 4 <= pos + CH_STRIP_STATE_SIZE ==> quadlet_at(s1, p) == quadlet_at(
            s2,
            p,
        ));
}

/// Whether the element window at `pos` holds exactly the canonical
/// encoding of `st` in every written quadlet.  Together with the build
/// frame over the reserved tail, this pins the window's bytes as a
/// function of the strip state.
pub open spec fn ch_strip_state_canonical(s: Seq<u8>, pos: int, st: ChStripState) -> bool {
    &&& quadlet_at(s, pos) == st.src.spec_encode()
    &&& quadlet_at(s, pos + 4) == st.mode.spec_encode()
    &&& quadlet_at(s, pos + 8) == bool_to_quadlet(st.bypass)
    &&& quadlet_at(s, pos + 12) == st.comp.input_gain as u32
    &&& quadlet_at(s, pos + 16) == st.comp.make_up_gain as u32
    &&& quadlet_at(s, pos + 20) == bool_to_quadlet(st.comp.full_band_enabled)
    &&& quadlet_at(s, pos + 24) == st.comp.full_band_ratio as u32
    &&& quadlet_at(s, pos + 28) == st.comp.low_ratio as u32
    &&& quadlet_at(s, pos + 32) == st.comp.mid_ratio as u32
    &&& quadlet_at(s, pos + 36) == st.comp.high_ratio as u32
    &&& quadlet_at(s, pos + 40) == st.comp.attack as u32
    &&& quadlet_at(s, pos + 44) == st.comp.release as u32
    &&& quadlet_at(s, pos + 48) == st.deesser.ratio as u32
    &&& quadlet_at(s, pos + 52) == bool_to_quadlet(st.deesser.bypass)
    &&& quadlet_at(s, pos + 56) == bool_to_quadlet(st.eq_low.enabled)
    &&& quadlet_at(s, pos + 60) == st.eq_low.frequency as u32
    &&& quadlet_at(s, pos + 64) == st.eq_low.gain as u32
    &&& quadlet_at(s, pos + 68) == st.eq_low.width as u32
    &&& quadlet_at(s, pos + 72) == bool_to_quadlet(st.eq_low_mid.enabled)
    &&& quadlet_at(s, pos + 76) == st.eq_low_mid.frequency as u32
    &&& quadlet_at(s, pos + 80) == st.eq_low_mid.gain as u32
    &&& quadlet_at(s, pos + 84) == st.eq_low_mid.width as u32
    &&& quadlet_at(s, pos + 88) == bool_to_quadlet(st.eq_high_mid.enabled)
    &&& quadlet_at(s, pos + 92) == st.eq_high_mid.frequency as u32
    &&& quadlet_at(s, pos + 96) == st.eq_high_mid.gain as u32
    &&& quadlet_at(s, pos + 100) == st.eq_high_mid.width as u32
    &&& quadlet_at(s, pos + 104) == bool_to_quadlet(st.eq_high.enabled)
    &&& quadlet_at(s, pos + 108) == st.eq_high.frequency as u32
    &&& quadlet_at(s, pos + 112) == st.eq_high.gain as u32
    &&& quadlet_at(s, pos + 116) == st.eq_high.width as u32
    &&& quadlet_at(s, pos + 120) == st.limiter.threshold as u32
    &&& quadlet_at(s, pos + 124) == st.limiter.ceiling as u32
    &&& quadlet_at(s, pos + 128) == st.limiter.release as u32
    &&& quadlet_at(s, pos + 132) == bool_to_quadlet(st.limiter.bypass)
}

/// A canonical window check depends only on the bytes of its own element
/// window.
pub proof fn lemma_ch_strip_state_canonical_congruence(
    s1: Seq<u8>,
    s2: Seq<u8>,
    pos: int,
    st: ChStripState,
)
    requires
        forall|i: int| pos <= i < pos + CH_STRIP_STATE_SIZE ==> s1[i] == s2[i],
        ch_strip_state_canonical(s1, pos, st),
    ensures
        ch_strip_state_canonical(s2, pos, st),
{
    assert(forall|p: int|
        pos <= p && p + 4 <= pos + CH_STRIP_STATE_SIZE ==> quadlet_at(s1, p) == quadlet_at(
            s2,
            p,
        ));
}

/// Two element windows holding the canonical encoding of the same strip
/// state, with identical reserved tails, are byte-identical: rewriting one
/// element of a strip array leaves every other element's bytes unchanged.
pub proof fn lemma_ch_strip_canonical_bytes_identical(
    s1: Seq<u8>,
    s2: Seq<u8>,
    pos: int,
    st: ChStripState,
)
    requires
        ch_strip_state_canonical(s1, pos, st),
        ch_strip_state_canonical(s2, pos, st),
        forall|i: int| pos + 136 <= i < pos + 144 ==> s1[i] == s2[i],
    ensures
        forall|i: int| pos <= i < pos + CH_STRIP_STATE_SIZE ==> s1[i] == s2[i],
{
    assert forall|i: int| pos <= i < pos + CH_STRIP_STATE_SIZE implies s1[i] == s2[i] by {
        if pos <= i < pos + 4 {
            lemma_quadlet_bytes_equal(s1, s2, pos);
        } else if pos + 4 <= i < pos + 4 + 4 {
            lemma_quadlet_bytes_equal(s1, s2, pos + 4);
        } else if pos + 8 <= i < pos + 8 + 4 {
            lemma_quadlet_bytes_equal(s1, s2, pos + 8);
        } else if pos + 12 <= i < pos + 12 + 4 {
            lemma_quadlet_bytes_equal(s1, s2, pos + 12);
        } else if pos + 16 <= i < pos + 16 + 4 {
            lemma_quadlet_bytes_equal(s1, s2, pos + 16);
        } else if pos + 20 <= i < pos + 20 + 4 {
            lemma_quadlet_bytes_equal(s1, s2, pos + 20);
        } else if pos + 24 <= i < pos + 24 + 4 {
            lemma_quadlet_bytes_equal(s1, s2, pos + 24);
        } else if pos + 28 <= i < pos + 28 + 4 {
            lemma_quadlet_bytes_equal(s1, s2, pos + 28);
        } else if pos + 32 <= i < pos + 32 + 4 {
            lemma_quadlet_bytes_equal(s1, s2, pos + 32);
        } else if pos + 36 <= i < pos + 36 + 4 {
            lemma_quadlet_bytes_equal(s1, s2, pos + 36);
        } else if pos + 40 <= i < pos + 40 + 4 {
            lemma_quadlet_bytes_equal(s1, s2, pos + 40);
        } else if pos + 44 <= i < pos + 44 + 4 {
            lemma_quadlet_bytes_equal(s1, s2, pos + 44);
        } else if pos + 48 <= i < pos + 48 + 4 {
            lemma_quadlet_bytes_equal(s1, s2, pos + 48);
        } else if pos + 52 <= i < pos + 52 + 4 {
            lemma_quadlet_bytes_equal(s1, s2, pos + 52);
        } else if pos + 56 <= i < pos + 56 + 4 {
            lemma_quadlet_bytes_equal(s1, s2, pos + 56);
        } else if pos + 60 <= i < pos + 60 + 4 {
            lemma_quadlet_bytes_equal(s1, s2, pos + 60);
        } else if pos + 64 <= i < pos + 64 + 4 {
            lemma_quadlet_bytes_equal(s1, s2, pos + 64);
        } else if pos + 68 <= i < pos + 68 + 4 {
            lemma_quadlet_bytes_equal(s1, s2, pos + 68);
        } else if pos + 72 <= i < pos + 72 + 4 {
            lemma_quadlet_bytes_equal(s1, s2, pos + 72);
        } else if pos + 76 <= i < pos + 76 + 4 {
            lemma_quadlet_bytes_equal(s1, s2, pos + 76);
        } else if pos + 80 <= i < pos + 80 + 4 {
            lemma_quadlet_bytes_equal(s1, s2, pos + 80);
        } else if pos + 84 <= i < pos + 84 + 4 {
            lemma_quadlet_bytes_equal(s1, s2, pos + 84);
        } else if pos + 88 <= i < pos + 88 + 4 {
            lemma_quadlet_bytes_equal(s1, s2, pos + 88);
        } else if pos + 92 <= i < pos + 92 + 4 {
            lemma_quadlet_bytes_equal(s1, s2, pos + 92);
        } else if pos + 96 <= i < pos + 96 + 4 {
            lemma_quadlet_bytes_equal(s1, s2, pos + 96);
        } else if pos + 100 <= i < pos + 100 + 4 {
            lemma_quadlet_bytes_equal(s1, s2, pos + 100);
        } else if pos + 104 <= i < pos + 104 + 4 {
            lemma_quadlet_bytes_equal(s1, s2, pos + 104);
        } else if pos + 108 <= i < pos + 108 + 4 {
            lemma_quadlet_bytes_equal(s1, s2, pos + 108);
        } else if pos + 112 <= i < pos + 112 + 4 {
            lemma_quadlet_bytes_equal(s1, s2, pos + 112);
        } else if pos + 116 <= i < pos + 116 + 4 {
            lemma_quadlet_bytes_equal(s1, s2, pos + 116);
        } else if pos + 120 <= i < pos + 120 + 4 {
            lemma_quadlet_bytes_equal(s1, s2, pos + 120);
        } else if pos + 124 <= i < pos + 124 + 4 {
            lemma_quadlet_bytes_equal(s1, s2, pos + 124);
        } else if pos + 128 <= i < pos + 128 + 4 {
            lemma_quadlet_bytes_equal(s1, s2, pos + 128);
        } else if pos + 132 <= i < pos + 132 + 4 {
            lemma_quadlet_bytes_equal(s1, s2, pos + 132);
        }
    }
}

impl ChStripState {
    /// Write the canonical encoding of this strip into its element window at
    /// `pos`.  Parsing the result reproduces this strip; the two trailing
    /// reserved quadlets and every byte outside the window are preserved.
    pub fn build(&self, raw: &mut Vec<u8>, pos: usize)
        requires
            pos + CH_STRIP_STATE_SIZE <= old(raw)@.len(),
        ensures
            final(raw)@.len() == old(raw)@.len(),
            forall|i: int|
                0 <= i < old(raw)@.len() && !(pos <= i < pos + 136) ==> final(raw)@[i] == old(
                    raw,
                )@[i],
            ch_strip_state_parsed(final(raw)@, pos as int) == *self,
            ch_strip_state_canonical(final(raw)@, pos as int, *self),
    {
        let n: usize = raw.len();
        write_quadlet(raw, pos, self.src.encode());
        write_quadlet(raw, pos + 4, self.mode.encode());
        write_bool_quadlet(raw, pos + 8, self.bypass);
        self.comp.build(raw, pos + 12);
        self.deesser.build(raw, pos + 48);
        self.eq_low.build(raw, pos + 56);
        self.eq_low_mid.build(raw, pos + 72);
        self.eq_high_mid.build(raw, pos + 88);
        self.eq_high.build(raw, pos + 104);
        self.limiter.build(raw, pos + 120);
    }

    /// Replace this strip by the one its element window at `pos` encodes.
    pub fn parse(&mut self, raw: &Vec<u8>, pos: usize)
        requires
            pos + CH_STRIP_STATE_SIZE <= raw@.len(),
        ensures
            *final(self) == ch_strip_state_parsed(raw@, pos as int),
    {
        let n: usize = raw.len();
        self.src = ChStripSrc::decode(read_quadlet(raw, pos));
        self.mode = ChStripMode::decode(read_quadlet(raw, pos + 4));
        self.bypass = read_bool_quadlet(raw, pos + 8);
        self.comp.parse(raw, pos + 12);
        self.deesser.parse(raw, pos + 48);
        self.eq_low.parse(raw, pos + 56);
        self.eq_low_mid.parse(raw, pos + 72);
        self.eq_high_mid.parse(raw, pos + 88);
        self.eq_high.parse(raw, pos + 104);
        self.limiter.parse(raw, pos + 120);
    }
}

impl ChStripState {
    /// The default strip: no source, the default mode, everything zero.
    pub open spec fn spec_default() -> ChStripState {
        ChStripState {
            src: ChStripSrc::NoSource,
            mode: ChStripMode::FabrikC,
            bypass: false,
            comp: CompressorState {
                input_gain: 0i32,
                make_up_gain: 0i32,
                full_band_enabled: false,
                full_band_ratio: 0i32,
                low_ratio: 0i32,
                mid_ratio: 0i32,
                high_ratio: 0i32,
                attack: 0i32,
                release: 0i32,
            },
            deesser: DeesserState { ratio: 0i32, bypass: false },
            eq_low: ChStripState::spec_default_band(),
            eq_low_mid: ChStripState::spec_default_band(),
            eq_high_mid: ChStripState::spec_default_band(),
            eq_high: ChStripState::spec_default_band(),
            limiter: LimiterState { threshold: 0i32, ceiling: 0i32, release: 0i32, bypass: false },
        }
    }

    /// The default equalizer band: disabled and zeroed.
    pub open spec fn spec_default_band() -> EqBandState {
        EqBandState { enabled: false, frequency: 0i32, gain: 0i32, width: 0i32 }
    }
}

impl Default for ChStripState {
    /// The default strip: no source, the default mode, everything zero.
    fn default() -> (r: Self)
        ensures
            r == ChStripState::spec_default(),
    {
        let band = EqBandState { enabled: false, frequency: 0, gain: 0, width: 0 };
        ChStripState {
            src: ChStripSrc::NoSource,
            mode: ChStripMode::FabrikC,
            bypass: false,
            comp: CompressorState {
                input_gain: 0,
                make_up_gain: 0,
                full_band_enabled: false,
                full_band_ratio: 0,
                low_ratio: 0,
                mid_ratio: 0,
                high_ratio: 0,
                attack: 0,
                release: 0,
            },
            deesser: DeesserState { ratio: 0, bypass: false },
            eq_low: band,
            eq_low_mid: band,
            eq_high_mid: band,
            eq_high: band,
            limiter: LimiterState { threshold: 0, ceiling: 0, release: 0, bypass: false },
        }
    }
}

/// Levels reported by one channel strip.
#[derive(Clone, Copy, Debug, PartialEq, Eq, Structural)]
pub struct ChStripMeter {
    pub input: i32,
    pub limit: i32,
    pub output: i32,
    pub gain_low: i32,
    pub gain_low_mid: i32,
    pub gain_high_mid: i32,
    pub gain_high: i32,
}

/// The channel strip meter encoded at `pos`.
pub open spec fn ch_strip_meter_parsed(s: Seq<u8>, pos: int) -> ChStripMeter {
    ChStripMeter {
        input: i32_at(s, pos),
        limit: i32_at(s, pos + 4),
        output: i32_at(s, pos + 8),
        gain_low: i32_at(s, pos + 12),
        gain_low_mid: i32_at(s, pos + 16),
        gain_high_mid: i32_at(s, pos + 20),
        gain_high: i32_at(s, pos + 24),
    }
}

/// A strip meter read depends only on the bytes of its own element window.
pub proof fn lemma_ch_strip_meter_parsed_congruence(s1: Seq<u8>, s2: Seq<u8>, pos: int)
    requires
        forall|i: int| pos <= i < pos + CH_STRIP_METER_SIZE ==> s1[i] == s2[i],
    ensures
        ch_strip_meter_parsed(s1, pos) == ch_strip_meter_parsed(s2, pos),
{
    assert(forall|p: int|
        pos <= p && p + 4 <= pos + CH_STRIP_METER_SIZE ==> quadlet_at(s1, p) == quadlet_at(
            s2,
            p,
        ));
}

impl ChStripMeter {
    /// Write the encoding of this meter into its element window at `pos`;
    /// parsing the result reproduces it and no byte outside it changes.
    pub fn build(&self, raw: &mut Vec<u8>, pos: usize)
        requires
            pos + CH_STRIP_METER_SIZE <= old(raw)@.len(),
        ensures
            final(raw)@.len() == old(raw)@.len(),
            forall|i: int|
                0 <= i < old(raw)@.len() && !(pos <= i < pos + 28) ==> final(raw)@[i] == old(
                    raw,
                )@[i],
            ch_strip_meter_parsed(final(raw)@, pos as int) == *self,
    {
        let n: usize = raw.len();
        write_i32_quadlet(raw, pos, self.input);
        write_i32_quadlet(raw, pos + 4, self.limit);
        write_i32_quadlet(raw, pos + 8, self.output);
        write_i32_quadlet(raw, pos + 12, self.gain_low);
        write_i32_quadlet(raw, pos + 16, self.gain_low_mid);
        write_i32_quadlet(raw, pos + 20, self.gain_high_mid);
        write_i32_quadlet(raw, pos + 24, self.gain_high);
    }

    /// Replace this meter by the one its element window at `pos` encodes.
    pub fn parse(&mut self, raw: &Vec<u8>, pos: usize)
        requires
            pos + CH_STRIP_METER_SIZE <= raw@.len(),
        ensures
            *final(self) == ch_strip_meter_parsed(raw@, pos as int),
    {
        let n: usize = raw.len();
        self.input = read_i32_quadlet(raw, pos);
        self.limit = read_i32_quadlet(raw, pos + 4);
        self.output = read_i32_quadlet(raw, pos + 8);
        self.gain_low = read_i32_quadlet(raw, pos + 12);
        self.gain_low_mid = read_i32_quadlet(raw, pos + 16);
        self.gain_high_mid = read_i32_quadlet(raw, pos + 20);
        self.gain_high = read_i32_quadlet(raw, pos + 24);
    }
}

impl Default for ChStripMeter {
    /// The zero meter.
    fn default() -> (r: Self)
        ensures
            r == (ChStripMeter {
                input: 0i32,
                limit: 0i32,
                output: 0i32,
                gain_low: 0i32,
                gain_low_mid: 0i32,
                gain_high_mid: 0i32,
                gain_high: 0i32,
            }),
    {
        ChStripMeter {
            input: 0,
            limit: 0,
            output: 0,
            gain_low: 0,
            gain_low_mid: 0,
            gain_high_mid: 0,
            gain_high: 0,
        }
    }
}

/// Write every strip of `states` into consecutive element windows starting
/// at `pos`: element `k` lands at `pos + k * CH_STRIP_STATE_SIZE`, bytes
/// outside the written elements are preserved, and each element window
/// parses back to its strip.
#[verifier::rlimit(60)]
pub fn ch_strip_states_build(states: &Vec<ChStripState>, raw: &mut Vec<u8>, pos: usize)
    requires
        pos + states@.len() * CH_STRIP_STATE_SIZE <= old(raw)@.len(),
    ensures
        final(raw)@.len() == old(raw)@.len(),
        forall|i: int|
            0 <= i < old(raw)@.len() && !(pos <= i < pos + states@.len() * CH_STRIP_STATE_SIZE)
                ==> final(raw)@[i] == old(raw)@[i],
        forall|k: int|
            0 <= k < states@.len() ==> ch_strip_state_parsed(
                final(raw)@,
                pos + k * CH_STRIP_STATE_SIZE,
            ) == states@[k],
        forall|k: int|
            0 <= k < states@.len() ==> ch_strip_state_canonical(
                final(raw)@,
                pos + k * CH_STRIP_STATE_SIZE,
                states@[k],
            ),
{
    let n: usize = raw.len();
    let count: usize = states.len();
    let mut k: usize = 0;
    let mut base: usize = pos;
    while k < count
        invariant
            n == old(raw)@.len(),
            count == states@.len(),
            0 <= k <= count,
            base == pos + k * CH_STRIP_STATE_SIZE,
            pos + count * CH_STRIP_STATE_SIZE <= raw@.len(),
            raw@.len() == old(raw)@.len(),
            forall|i: int|
                0 <= i < old(raw)@.len() && !(pos <= i < pos + k * CH_STRIP_STATE_SIZE)
                    ==> raw@[i] == old(raw)@[i],
            forall|j: int|
                0 <= j < k ==> ch_strip_state_parsed(raw@, pos + j * CH_STRIP_STATE_SIZE)
                    == states@[j],
            forall|j: int|
                0 <= j < k ==> ch_strip_state_canonical(
                    raw@,
                    pos + j * CH_STRIP_STATE_SIZE,
                    states@[j],
                ),
        decreases count - k,
    {
        proof {
            assert((k + 1) * CH_STRIP_STATE_SIZE == k * CH_STRIP_STATE_SIZE
                + CH_STRIP_STATE_SIZE) by (nonlinear_arith);
            assert(k * CH_STRIP_STATE_SIZE + CH_STRIP_STATE_SIZE <= count
                * CH_STRIP_STATE_SIZE) by (nonlinear_arith)
                requires
                    k < count,
            ;
        }
        let ghost prev = raw@;
        states[k].build(raw, base);
        proof {
            assert forall|j: int|
                0 <= j < k + 1 implies ch_strip_state_parsed(
                raw@,
                pos + j * CH_STRIP_STATE_SIZE,
            ) == states@[j] && ch_strip_state_canonical(
                raw@,
                pos + j * CH_STRIP_STATE_SIZE,
                states@[j],
            ) by {
                if j < k {
                    assert((j + 1) * CH_STRIP_STATE_SIZE == j * CH_STRIP_STATE_SIZE
                        + CH_STRIP_STATE_SIZE) by (nonlinear_arith);
                    assert(j * CH_STRIP_STATE_SIZE + CH_STRIP_STATE_SIZE <= k
                        * CH_STRIP_STATE_SIZE) by (nonlinear_arith)
                        requires
                            j < k,
                    ;
                    lemma_ch_strip_state_parsed_congruence(
                        raw@,
                        prev,
                        pos + j * CH_STRIP_STATE_SIZE,
                    );
                    lemma_ch_strip_state_canonical_congruence(
                        prev,
                        raw@,
                        pos + j * CH_STRIP_STATE_SIZE,
                        states@[j],
                    );
                }
            }
        }
        k = k + 1;
        base = base + CH_STRIP_STATE_SIZE;
    }
}

/// Parse every element window starting at `pos` into `states`: element `k`
/// is read from `pos + k * CH_STRIP_STATE_SIZE` and the number of strips is
/// preserved.
pub fn ch_strip_states_parse(states: &mut Vec<ChStripState>, raw: &Vec<u8>, pos: usize)
    requires
        pos + old(states)@.len() * CH_STRIP_STATE_SIZE <= raw@.len(),
    ensures
        final(states)@.len() == old(states)@.len(),
        forall|k: int|
            0 <= k < old(states)@.len() ==> final(states)@[k] == ch_strip_state_parsed(
                raw@,
                pos + k * CH_STRIP_STATE_SIZE,
            ),
{
    let n: usize = raw.len();
    let count: usize = states.len();
    let mut k: usize = 0;
    let mut base: usize = pos;
    while k < count
        invariant
            n == raw@.len(),
            count == old(states)@.len(),
            states@.len() == count,
            0 <= k <= count,
            base == pos + k * CH_STRIP_STATE_SIZE,
            pos + count * CH_STRIP_STATE_SIZE <= raw@.len(),
            forall|j: int|
                0 <= j < k ==> states@[j] == ch_strip_state_parsed(
                    raw@,
                    pos + j * CH_STRIP_STATE_SIZE,
                ),
        decreases count - k,
    {
        proof {
            assert((k + 1) * CH_STRIP_STATE_SIZE == k * CH_STRIP_STATE_SIZE
                + CH_STRIP_STATE_SIZE) by (nonlinear_arith);
            assert(k * CH_STRIP_STATE_SIZE + CH_STRIP_STATE_SIZE <= count
                * CH_STRIP_STATE_SIZE) by (nonlinear_arith)
                requires
                    k < count,
            ;
        }
        let mut st = states[k];
        st.parse(raw, base);
        states.set(k, st);
        k = k + 1;
        base = base + CH_STRIP_STATE_SIZE;
    }
}

/// Write every meter of `meters` into consecutive element windows starting
/// at `pos`, one per strip.
pub fn ch_strip_meters_build(meters: &Vec<ChStripMeter>, raw: &mut Vec<u8>, pos: usize)
    requires
        pos + meters@.len() * CH_STRIP_METER_SIZE <= old(raw)@.len(),
    ensures
        final(raw)@.len() == old(raw)@.len(),
        forall|i: int|
            0 <= i < old(raw)@.len() && !(pos <= i < pos + meters@.len() * CH_STRIP_METER_SIZE)
                ==> final(raw)@[i] == old(raw)@[i],
        forall|k: int|
            0 <= k < meters@.len() ==> ch_strip_meter_parsed(
                final(raw)@,
                pos + k * CH_STRIP_METER_SIZE,
            ) == meters@[k],
{
    let n: usize = raw.len();
    let count: usize = meters.len();
    let mut k: usize = 0;
    let mut base: usize = pos;
    while k < count
        invariant
            n == old(raw)@.len(),
            count == meters@.len(),
            0 <= k <= count,
            base == pos + k * CH_STRIP_METER_SIZE,
            pos + count * CH_STRIP_METER_SIZE <= raw@.len(),
            raw@.len() == old(raw)@.len(),
            forall|i: int|
                0 <= i < old(raw)@.len() && !(pos <= i < pos + k * CH_STRIP_METER_SIZE)
                    ==> raw@[i] == old(raw)@[i],
            forall|j: int|
                0 <= j < k ==> ch_strip_meter_parsed(raw@, pos + j * CH_STRIP_METER_SIZE)
                    == meters@[j],
        decreases count - k,
    {
        proof {
            assert((k + 1) * CH_STRIP_METER_SIZE == k * CH_STRIP_METER_SIZE
                + CH_STRIP_METER_SIZE) by (nonlinear_arith);
            assert(k * CH_STRIP_METER_SIZE + CH_STRIP_METER_SIZE <= count
                * CH_STRIP_METER_SIZE) by (nonlinear_arith)
                requires
                    k < count,
            ;
        }
        let ghost prev = raw@;
        meters[k].build(raw, base);
        proof {
            assert forall|j: int|
                0 <= j < k + 1 implies ch_strip_meter_parsed(
                raw@,
                pos + j * CH_STRIP_METER_SIZE,
            ) == meters@[j] by {
                if j < k {
                    assert((j + 1) * CH_STRIP_METER_SIZE == j * CH_STRIP_METER_SIZE
                        + CH_STRIP_METER_SIZE) by (nonlinear_arith);
                    assert(j * CH_STRIP_METER_SIZE + CH_STRIP_METER_SIZE <= k
                        * CH_STRIP_METER_SIZE) by (nonlinear_arith)
                        requires
                            j < k,
                    ;
                    lemma_ch_strip_meter_parsed_congruence(
                        raw@,
                        prev,
                        pos + j * CH_STRIP_METER_SIZE,
                    );
                }
            }
        }
        k = k + 1;
        base = base + CH_STRIP_METER_SIZE;
    }
}

/// Parse every element window starting at `pos` into `meters`, one per
/// strip; the number of meters is preserved.
pub fn ch_strip_meters_parse(meters: &mut Vec<ChStripMeter>, raw: &Vec<u8>, pos: usize)
    requires
        pos + old(meters)@.len() * CH_STRIP_METER_SIZE <= raw@.len(),
    ensures
        final(meters)@.len() == old(meters)@.len(),
        forall|k: int|
            0 <= k < old(meters)@.len() ==> final(meters)@[k] == ch_strip_meter_parsed(
                raw@,
                pos + k * CH_STRIP_METER_SIZE,
            ),
{
    let n: usize = raw.len();
    let count: usize = meters.len();
    let mut k: usize = 0;
    let mut base: usize = pos;
    while k < count
        invariant
            n == raw@.len(),
            count == old(meters)@.len(),
            meters@.len() == count,
            0 <= k <= count,
            base == pos + k * CH_STRIP_METER_SIZE,
            pos + count * CH_STRIP_METER_SIZE <= raw@.len(),
            forall|j: int|
                0 <= j < k ==> meters@[j] == ch_strip_meter_parsed(
                    raw@,
                    pos + j * CH_STRIP_METER_SIZE,
                ),
        decreases count - k,
    {
        proof {
            assert((k + 1) * CH_STRIP_METER_SIZE == k * CH_STRIP_METER_SIZE
                + CH_STRIP_METER_SIZE) by (nonlinear_arith);
            assert(k * CH_STRIP_METER_SIZE + CH_STRIP_METER_SIZE <= count
                * CH_STRIP_METER_SIZE) by (nonlinear_arith)
                requires
                    k < count,
            ;
        }
        let mut m = meters[k];
        m.parse(raw, base);
        meters.set(k, m);
        k = k + 1;
        base = base + CH_STRIP_METER_SIZE;
    }
}

} // verus!
