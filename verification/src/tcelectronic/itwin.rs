//! Protocol defined by TC Electronic for Impact Twin.
//!
//! The memory space of the model is partitioned into the segments below;
//! each segment type carries its byte-exact codec, and the registry at the
//! end drives notification-driven refresh.

use vstd::prelude::*;
use crate::codec::{quadlet_at, read_quadlet, write_quadlet, zeroed_vec};
use crate::tcelectronic::ch_strip::{
    ch_strip_meter_parsed, ch_strip_meters_build, ch_strip_meters_parse, ch_strip_state_canonical,
    ch_strip_state_parsed, ch_strip_states_build, ch_strip_states_parse, ChStripMeter,
    ChStripState, CH_STRIP_METER_SIZE, CH_STRIP_STATE_SIZE,
};
use crate::tcelectronic::reverb::{
    reverb_meter_parsed, reverb_state_parsed, ReverbMeter, ReverbState, REVERB_METER_SIZE,
    REVERB_STATE_SIZE,
};
use crate::tcelectronic::segment::{SegmentDescriptor, TcKonnektSegment, descriptor_matches_mask, segment_notified};
use crate::tcelectronic::shell::{
    shell_hw_state_parsed, FireWireLedState, ShellAnalogJackState, ShellHwState,
    SHELL_CH_STRIP_COUNT, SHELL_CH_STRIP_NOTIFY_FLAG, SHELL_HW_STATE_NOTIFY_FLAG,
    SHELL_HW_STATE_SIZE, SHELL_REVERB_NOTIFY_FLAG,
};
use crate::ProtocolError;

verus! {

/// The byte size of the reverb state segment window.
pub const ITWIN_REVERB_STATE_SIZE: usize = REVERB_STATE_SIZE;

/// State of the reverb segment of this model.
#[derive(Clone, Copy, Debug, PartialEq, Eq, Structural, Default)]
pub struct ItwinReverbState(pub ReverbState);

impl ItwinReverbState {
    /// Write the canonical encoding of this state into a reverb window.
    pub fn build(&self, raw: &mut Vec<u8>)
        requires
            old(raw)@.len() == ITWIN_REVERB_STATE_SIZE,
        ensures
            final(raw)@.len() == old(raw)@.len(),
            forall|i: int| 64 <= i < old(raw)@.len() ==> final(raw)@[i] == old(raw)@[i],
            reverb_state_parsed(final(raw)@, 0) == self.0,
    {
        self.0.build(raw, 0);
    }

    /// Replace this state by the one a reverb window encodes.
    pub fn parse(&mut self, raw: &Vec<u8>)
        requires
            raw@.len() == ITWIN_REVERB_STATE_SIZE,
        ensures
            final(self).0 == reverb_state_parsed(raw@, 0),
    {
        self.0.parse(raw, 0);
    }
}

/// The byte size of the channel strip state segment window: one element per
/// strip and one trailing reserved quadlet.
pub const ITWIN_CH_STRIP_STATES_SIZE: usize = 292;

/// States of the channel strip effects of this model.
#[derive(Clone, Debug, PartialEq, Eq)]
pub struct ItwinChStripStates(pub Vec<ChStripState>);

/// Whether `sts` holds exactly the strip states a channel strip window
/// encodes.
pub open spec fn itwin_ch_strip_states_parses_to(
    s: Seq<u8>,
    pos: int,
    sts: ItwinChStripStates,
) -> bool {
    &&& sts.0@.len() == SHELL_CH_STRIP_COUNT
    &&& forall|k: int|
        0 <= k < SHELL_CH_STRIP_COUNT ==> sts.0@[k] == ch_strip_state_parsed(
            s,
            pos + k * CH_STRIP_STATE_SIZE,
        )
}

impl ItwinChStripStates {
    /// A well-formed value has one state per strip of the model.
    pub open spec fn wf(self) -> bool {
        self.0@.len() == SHELL_CH_STRIP_COUNT
    }

    /// One default state per strip of the model.
    pub fn new_default() -> (r: Self)
        ensures
            r.wf(),
    {
        let mut sts: Vec<ChStripState> = Vec::new();
        sts.push(ChStripState::default());
        sts.push(ChStripState::default());
        ItwinChStripStates(sts)
    }

    /// Write the canonical encoding of these states into a channel strip
    /// window; the trailing reserved quadlet is preserved.
    pub fn build(&self, raw: &mut Vec<u8>)
        requires
            self.wf(),
            old(raw)@.len() == ITWIN_CH_STRIP_STATES_SIZE,
        ensures
            final(raw)@.len() == old(raw)@.len(),
            forall|i: int| 288 <= i < old(raw)@.len() ==> final(raw)@[i] == old(raw)@[i],
            itwin_ch_strip_states_parses_to(final(raw)@, 0, *self),
            forall|k: int|
                0 <= k < SHELL_CH_STRIP_COUNT ==> ch_strip_state_canonical(
                    final(raw)@,
                    k * CH_STRIP_STATE_SIZE,
                    self.0@[k],
                ),
    {
        ch_strip_states_build(&self.0, raw, 0);
    }

    /// Replace these states by the ones a channel strip window encodes.
    pub fn parse(&mut self, raw: &Vec<u8>)
        requires
            old(self).wf(),
            raw@.len() == ITWIN_CH_STRIP_STATES_SIZE,
        ensures
            itwin_ch_strip_states_parses_to(raw@, 0, *final(self)),
    {
        ch_strip_states_parse(&mut self.0, raw, 0);
    }
}

impl Default for ItwinChStripStates {
    /// The default states, one per strip.
    fn default() -> (r: Self)
        ensures
            r.wf(),
    {
        ItwinChStripStates::new_default()
    }
}

/// The mode to listen for the analog outputs.
#[derive(Clone, Copy, Debug, PartialEq, Eq, Structural)]
pub enum ListeningMode {
    Monaural,
    Stereo,
    Side,
}

impl ListeningMode {
    /// The mode a quadlet value denotes.  Only the two low bits matter;
    /// their remaining combination falls back to the default mode rather
    /// than failing.
    pub open spec fn spec_decode(val: u32) -> ListeningMode {
        if val & 0x03 == 0x01 {
            ListeningMode::Stereo
        } else if val & 0x03 == 0x02 {
            ListeningMode::Side
        } else {
            ListeningMode::Monaural
        }
    }

    /// The canonical quadlet encoding of a mode.
    pub open spec fn spec_encode(self) -> u32 {
        match self {
            ListeningMode::Monaural => 0x00,
            ListeningMode::Stereo => 0x01,
            ListeningMode::Side => 0x02,
        }
    }

    /// Decode a quadlet value by its two low bits, falling back to the
    /// default for the undocumented combination.
    pub fn decode(val: u32) -> (r: ListeningMode)
        ensures
            r == ListeningMode::spec_decode(val),
    {
        if val & 0x03 == 0x01 {
            ListeningMode::Stereo
        } else if val & 0x03 == 0x02 {
            ListeningMode::Side
        } else {
            ListeningMode::Monaural
        }
    }

    /// Encode the mode as its canonical quadlet value.
    pub fn encode(self) -> (r: u32)
        ensures
            r == self.spec_encode(),
    {
        match self {
            ListeningMode::Monaural => 0x00,
            ListeningMode::Stereo => 0x01,
            ListeningMode::Side => 0x02,
        }
    }
}

impl Default for ListeningMode {
    /// The documented default mode.
    fn default() -> (r: Self)
        ensures
            r == ListeningMode::Monaural,
    {
        ListeningMode::Monaural
    }
}

/// Every mode encoding decodes back to the same mode, and any value whose
/// two low bits are the undocumented combination decodes to the default.
pub proof fn lemma_listening_mode_roundtrip(mode: ListeningMode)
    ensures
        ListeningMode::spec_decode(mode.spec_encode()) == mode,
{
    assert(0x00u32 & 0x03 == 0x00 && 0x01u32 & 0x03 == 0x01 && 0x02u32 & 0x03
        == 0x02) by (bit_vector);
}

/// Any value whose two low bits are the one undocumented combination
/// decodes to the default mode.
pub proof fn lemma_listening_mode_default(val: u32)
    requires
        val & 0x03 == 0x03,
    ensures
        ListeningMode::spec_decode(val) == ListeningMode::Monaural,
{
}

/// The byte size of the hardware state segment window.
pub const ITWIN_HW_STATE_SIZE: usize = SHELL_HW_STATE_SIZE;

/// State of the hardware segment of this model: the shared hardware state,
/// and the listening mode this model overlays on the window's third
/// quadlet.
#[derive(Clone, Copy, Debug, PartialEq, Eq, Structural, Default)]
pub struct ItwinHwState {
    pub hw_state: ShellHwState,
    pub listening_mode: ListeningMode,
}

/// The hardware state encoded by a hardware window of this model.
pub open spec fn itwin_hw_state_parsed(s: Seq<u8>, pos: int) -> ItwinHwState {
    ItwinHwState {
        hw_state: shell_hw_state_parsed(s, pos),
        listening_mode: ListeningMode::spec_decode(quadlet_at(s, pos + 8)),
    }
}

impl ItwinHwState {
    /// Write the canonical encoding of this state into a hardware window.
    /// Parsing the result reproduces this state; the reserved bytes of the
    /// window are preserved.
    pub fn build(&self, raw: &mut Vec<u8>)
        requires
            old(raw)@.len() == ITWIN_HW_STATE_SIZE,
        ensures
            final(raw)@.len() == old(raw)@.len(),
            forall|i: int|
                0 <= i < old(raw)@.len() && !(0 <= i < 12) && !(20 <= i < 24)
                    ==> final(raw)@[i] == old(raw)@[i],
            itwin_hw_state_parsed(final(raw)@, 0) == *self,
            quadlet_at(final(raw)@, 0) == self.hw_state.analog_jack_0.spec_encode(),
            quadlet_at(final(raw)@, 4) == self.hw_state.analog_jack_1.spec_encode(),
            quadlet_at(final(raw)@, 8) == self.listening_mode.spec_encode(),
            quadlet_at(final(raw)@, 20) == self.hw_state.firewire_led.spec_encode(),
    {
        self.hw_state.build(raw, 0);
        write_quadlet(raw, 8, self.listening_mode.encode());
        proof {
            lemma_listening_mode_roundtrip(self.listening_mode);
        }
    }

    /// Replace this state by the one a hardware window encodes.
    pub fn parse(&mut self, raw: &Vec<u8>)
        requires
            raw@.len() == ITWIN_HW_STATE_SIZE,
        ensures
            *final(self) == itwin_hw_state_parsed(raw@, 0),
    {
        self.hw_state.parse(raw, 0);
        self.listening_mode = ListeningMode::decode(read_quadlet(raw, 8));
    }
}

/// The byte size of the reverb meter segment window.
pub const ITWIN_REVERB_METER_SIZE: usize = REVERB_METER_SIZE;

/// Meter of the reverb segment of this model.
#[derive(Clone, Copy, Debug, PartialEq, Eq, Structural, Default)]
pub struct ItwinReverbMeter(pub ReverbMeter);

impl ItwinReverbMeter {
    /// Write the encoding of this meter into a reverb meter window.
    pub fn build(&self, raw: &mut Vec<u8>)
        requires
            old(raw)@.len() == ITWIN_REVERB_METER_SIZE,
        ensures
            final(raw)@.len() == old(raw)@.len(),
            forall|i: int| 16 <= i < old(raw)@.len() ==> final(raw)@[i] == old(raw)@[i],
            reverb_meter_parsed(final(raw)@, 0) == self.0,
    {
        self.0.build(raw, 0);
    }

    /// Replace this meter by the one a reverb meter window encodes.
    pub fn parse(&mut self, raw: &Vec<u8>)
        requires
            raw@.len() == ITWIN_REVERB_METER_SIZE,
        ensures
            final(self).0 == reverb_meter_parsed(raw@, 0),
    {
        self.0.parse(raw, 0);
    }
}

/// The byte size of the channel strip meter segment window: one element per
/// strip and one trailing reserved quadlet.
pub const ITWIN_CH_STRIP_METERS_SIZE: usize = 60;

/// Meters of the channel strip effects of this model.
#[derive(Clone, Debug, PartialEq, Eq)]
pub struct ItwinChStripMeters(pub Vec<ChStripMeter>);

/// Whether `ms` holds exactly the meters a channel strip meter window
/// encodes.
pub open spec fn itwin_ch_strip_meters_parses_to(
    s: Seq<u8>,
    pos: int,
    ms: ItwinChStripMeters,
) -> bool {
    &&& ms.0@.len() == SHELL_CH_STRIP_COUNT
    &&& forall|k: int|
        0 <= k < SHELL_CH_STRIP_COUNT ==> ms.0@[k] == ch_strip_meter_parsed(
            s,
            pos + k * CH_STRIP_METER_SIZE,
        )
}

impl ItwinChStripMeters {
    /// A well-formed value has one meter per strip of the model.
    pub open spec fn wf(self) -> bool {
        self.0@.len() == SHELL_CH_STRIP_COUNT
    }

    /// One zero meter per strip of the model.
    pub fn new_default() -> (r: Self)
        ensures
            r.wf(),
    {
        let mut ms: Vec<ChStripMeter> = Vec::new();
        ms.push(ChStripMeter::default());
        ms.push(ChStripMeter::default());
        ItwinChStripMeters(ms)
    }

    /// Write the encoding of these meters into a channel strip meter
    /// window; the trailing reserved quadlet is preserved.
    pub fn build(&self, raw: &mut Vec<u8>)
        requires
            self.wf(),
            old(raw)@.len() == ITWIN_CH_STRIP_METERS_SIZE,
        ensures
            final(raw)@.len() == old(raw)@.len(),
            forall|i: int| 56 <= i < old(raw)@.len() ==> final(raw)@[i] == old(raw)@[i],
            itwin_ch_strip_meters_parses_to(final(raw)@, 0, *self),
    {
        ch_strip_meters_build(&self.0, raw, 0);
    }

    /// Replace these meters by the ones a channel strip meter window
    /// encodes.
    pub fn parse(&mut self, raw: &Vec<u8>)
        requires
            old(self).wf(),
            raw@.len() == ITWIN_CH_STRIP_METERS_SIZE,
        ensures
            itwin_ch_strip_meters_parses_to(raw@, 0, *final(self)),
    {
        ch_strip_meters_parse(&mut self.0, raw, 0);
    }
}

impl Default for ItwinChStripMeters {
    /// The zero meters, one per strip.
    fn default() -> (r: Self)
        ensures
            r.wf(),
    {
        ItwinChStripMeters::new_default()
    }
}

/// The segments of the memory space of Impact Twin.
#[derive(Clone, Debug, PartialEq, Eq)]
pub struct ItwinSegments {
    /// Segment for state of reverb effect.
    pub reverb_state: TcKonnektSegment<ItwinReverbState>,
    /// Segment for states of channel strip effect.
    pub ch_strip_state: TcKonnektSegment<ItwinChStripStates>,
    /// Segment for state of hardware.
    pub hw_state: TcKonnektSegment<ItwinHwState>,
    /// Segment for meter of reverb effect.
    pub reverb_meter: TcKonnektSegment<ItwinReverbMeter>,
    /// Segment for meters of channel strip effect.
    pub ch_strip_meter: TcKonnektSegment<ItwinChStripMeters>,
}

/// One segment of the model, in the order of the registry.
#[derive(Clone, Copy, Debug, PartialEq, Eq, Structural)]
pub enum ItwinSegmentId {
    ReverbState,
    ChStripState,
    HwState,
    ReverbMeter,
    ChStripMeter,
}

/// The fixed descriptor of one segment of the model.
pub open spec fn spec_itwin_segment_descriptor(id: ItwinSegmentId) -> SegmentDescriptor {
    match id {
        ItwinSegmentId::ReverbState => SegmentDescriptor {
            offset: 0x0244,
            size: ITWIN_REVERB_STATE_SIZE,
            notify_flag: Some(SHELL_REVERB_NOTIFY_FLAG),
        },
        ItwinSegmentId::ChStripState => SegmentDescriptor {
            offset: 0x0288,
            size: ITWIN_CH_STRIP_STATES_SIZE,
            notify_flag: Some(SHELL_CH_STRIP_NOTIFY_FLAG),
        },
        ItwinSegmentId::HwState => SegmentDescriptor {
            offset: 0x1008,
            size: ITWIN_HW_STATE_SIZE,
            notify_flag: Some(SHELL_HW_STATE_NOTIFY_FLAG),
        },
        ItwinSegmentId::ReverbMeter => SegmentDescriptor {
            offset: 0x10c8,
            size: ITWIN_REVERB_METER_SIZE,
            notify_flag: None,
        },
        ItwinSegmentId::ChStripMeter => SegmentDescriptor {
            offset: 0x10e0,
            size: ITWIN_CH_STRIP_METERS_SIZE,
            notify_flag: None,
        },
    }
}

/// The fixed descriptor of one segment of the model: its window offset and
/// size and its notification flag, if it has one.
pub fn itwin_segment_descriptor(id: ItwinSegmentId) -> (r: SegmentDescriptor)
    ensures
        r == spec_itwin_segment_descriptor(id),
{
    match id {
        ItwinSegmentId::ReverbState => SegmentDescriptor {
            offset: 0x0244,
            size: ITWIN_REVERB_STATE_SIZE,
            notify_flag: Some(SHELL_REVERB_NOTIFY_FLAG),
        },
        ItwinSegmentId::ChStripState => SegmentDescriptor {
            offset: 0x0288,
            size: ITWIN_CH_STRIP_STATES_SIZE,
            notify_flag: Some(SHELL_CH_STRIP_NOTIFY_FLAG),
        },
        ItwinSegmentId::HwState => SegmentDescriptor {
            offset: 0x1008,
            size: ITWIN_HW_STATE_SIZE,
            notify_flag: Some(SHELL_HW_STATE_NOTIFY_FLAG),
        },
        ItwinSegmentId::ReverbMeter => SegmentDescriptor {
            offset: 0x10c8,
            size: ITWIN_REVERB_METER_SIZE,
            notify_flag: None,
        },
        ItwinSegmentId::ChStripMeter => SegmentDescriptor {
            offset: 0x10e0,
            size: ITWIN_CH_STRIP_METERS_SIZE,
            notify_flag: None,
        },
    }
}

/// The registry of the model: every segment, in fixed order.
pub open spec fn spec_itwin_registry() -> Seq<ItwinSegmentId> {
    seq![
        ItwinSegmentId::ReverbState,
        ItwinSegmentId::ChStripState,
        ItwinSegmentId::HwState,
        ItwinSegmentId::ReverbMeter,
        ItwinSegmentId::ChStripMeter,
    ]
}

/// The registry of the model as a vector, in the fixed order.
pub fn itwin_registry() -> (r: Vec<ItwinSegmentId>)
    ensures
        r@ == spec_itwin_registry(),
{
    let mut v: Vec<ItwinSegmentId> = Vec::new();
    v.push(ItwinSegmentId::ReverbState);
    v.push(ItwinSegmentId::ChStripState);
    v.push(ItwinSegmentId::HwState);
    v.push(ItwinSegmentId::ReverbMeter);
    v.push(ItwinSegmentId::ChStripMeter);
    proof {
        assert(v@ =~= spec_itwin_registry());
    }
    v
}

/// The position of a segment in the registry order.
pub open spec fn spec_itwin_registry_index(id: ItwinSegmentId) -> int {
    match id {
        ItwinSegmentId::ReverbState => 0,
        ItwinSegmentId::ChStripState => 1,
        ItwinSegmentId::HwState => 2,
        ItwinSegmentId::ReverbMeter => 3,
        ItwinSegmentId::ChStripMeter => 4,
    }
}

/// The segments a notification mask marks stale, in registry order: a
/// segment is in the result if and only if its flag shares a bit with
/// `mask`.  Segments without a flag are never selected, and no segment
/// appears twice.
pub fn itwin_notified_segments(mask: u32) -> (r: Vec<ItwinSegmentId>)
    ensures
        forall|id: ItwinSegmentId|
            r@.contains(id) <==> segment_notified(spec_itwin_segment_descriptor(id), mask),
        forall|j1: int, j2: int|
            0 <= j1 < j2 < r@.len() ==> spec_itwin_registry_index(r@[j1])
                < spec_itwin_registry_index(r@[j2]),
{
    let reg = itwin_registry();
    let count: usize = reg.len();
    let mut out: Vec<ItwinSegmentId> = Vec::new();
    let mut k: usize = 0;
    while k < count
        invariant
            count == 5,
            reg@ == spec_itwin_registry(),
            0 <= k <= count,
            forall|j: int|
                0 <= j < out@.len() ==> spec_itwin_registry_index(out@[j]) < k
                    && segment_notified(spec_itwin_segment_descriptor(out@[j]), mask),
            forall|i: int|
                0 <= i < k && segment_notified(spec_itwin_segment_descriptor(reg@[i]), mask)
                    ==> out@.contains(reg@[i]),
            forall|j1: int, j2: int|
                0 <= j1 < j2 < out@.len() ==> spec_itwin_registry_index(out@[j1])
                    < spec_itwin_registry_index(out@[j2]),
        decreases count - k,
    {
        let ghost prev = out@;
        let id = reg[k];
        let d = itwin_segment_descriptor(id);
        if descriptor_matches_mask(&d, mask) {
            out.push(id);
            proof {
                assert(spec_itwin_registry_index(id) == k as int);
                assert forall|i: int|
                    0 <= i < k + 1 && segment_notified(
                    spec_itwin_segment_descriptor(reg@[i]),
                    mask,
                ) implies out@.contains(reg@[i]) by {
                    if i < k {
                        let w = choose|w: int| 0 <= w < prev.len() && prev[w] == reg@[i];
                        assert(out@[w] == reg@[i]);
                    } else {
                        assert(out@[out@.len() - 1] == id);
                    }
                }
            }
        }
        k = k + 1;
    }
    proof {
        assert forall|id: ItwinSegmentId|
            out@.contains(id) <==> segment_notified(
            spec_itwin_segment_descriptor(id),
            mask,
        ) by {
            let i = spec_itwin_registry_index(id);
            assert(spec_itwin_registry()[i] == id);
        }
    }
    out
}

impl ItwinSegments {
    /// Every segment state carries the shape its codec expects.
    pub open spec fn wf(self) -> bool {
        &&& self.ch_strip_state.data.wf()
        &&& self.ch_strip_meter.data.wf()
    }

    /// All segments in their default state, as when the owning control
    /// object is constructed and before the first load.
    pub fn new_default() -> (r: Self)
        ensures
            r.wf(),
            r.hw_state.data.listening_mode == ListeningMode::Monaural,
            r.hw_state.data.hw_state.firewire_led == FireWireLedState::Off,
            r.reverb_state.data.0.algorithm
                == crate::tcelectronic::reverb::ReverbAlgorithm::Live1,
    {
        ItwinSegments {
            reverb_state: TcKonnektSegment { data: ItwinReverbState(ReverbState::default()) },
            ch_strip_state: TcKonnektSegment { data: ItwinChStripStates::new_default() },
            hw_state: TcKonnektSegment {
                data: ItwinHwState {
                    hw_state: ShellHwState {
                        analog_jack_0: ShellAnalogJackState::default(),
                        analog_jack_1: ShellAnalogJackState::default(),
                        firewire_led: FireWireLedState::default(),
                    },
                    listening_mode: ListeningMode::default(),
                },
            },
            reverb_meter: TcKonnektSegment { data: ItwinReverbMeter(ReverbMeter::default()) },
            ch_strip_meter: TcKonnektSegment { data: ItwinChStripMeters::new_default() },
        }
    }

    /// Build the write image of one segment: a scratch buffer of exactly
    /// the segment's size holding the canonical encoding of its current
    /// state, reserved bytes zero.  Parsing the image reproduces the state.
    pub fn build_segment(&self, id: ItwinSegmentId) -> (r: Vec<u8>)
        requires
            self.wf(),
        ensures
            r@.len() == spec_itwin_segment_descriptor(id).size,
            id == ItwinSegmentId::ReverbState ==> reverb_state_parsed(r@, 0)
                == self.reverb_state.data.0,
            id == ItwinSegmentId::ChStripState ==> itwin_ch_strip_states_parses_to(
                r@,
                0,
                self.ch_strip_state.data,
            ),
            id == ItwinSegmentId::HwState ==> itwin_hw_state_parsed(r@, 0)
                == self.hw_state.data,
            id == ItwinSegmentId::ReverbMeter ==> reverb_meter_parsed(r@, 0)
                == self.reverb_meter.data.0,
            id == ItwinSegmentId::ChStripMeter ==> itwin_ch_strip_meters_parses_to(
                r@,
                0,
                self.ch_strip_meter.data,
            ),
    {
        let d = itwin_segment_descriptor(id);
        let mut scratch = zeroed_vec(d.size);
        match id {
            ItwinSegmentId::ReverbState => self.reverb_state.data.build(&mut scratch),
            ItwinSegmentId::ChStripState => self.ch_strip_state.data.build(&mut scratch),
            ItwinSegmentId::HwState => self.hw_state.data.build(&mut scratch),
            ItwinSegmentId::ReverbMeter => self.reverb_meter.data.build(&mut scratch),
            ItwinSegmentId::ChStripMeter => self.ch_strip_meter.data.build(&mut scratch),
        }
        scratch
    }

    /// Feed the bytes read from one segment's window to that segment's
    /// codec.  A buffer of any other length than the segment's fixed size
    /// is a programming error, reported without touching any state; on
    /// success only the addressed segment changes.
    pub fn parse_segment(&mut self, id: ItwinSegmentId, raw: &Vec<u8>) -> (r: Result<
        (),
        ProtocolError,
    >)
        requires
            old(self).wf(),
        ensures
            final(self).wf(),
            r is Ok <==> raw@.len() == spec_itwin_segment_descriptor(id).size,
            r is Err ==> *final(self) == *old(self) && r == Err::<(), ProtocolError>(
                ProtocolError::SizeMismatch,
            ),
            id != ItwinSegmentId::ReverbState ==> final(self).reverb_state == old(
                self,
            ).reverb_state,
            id != ItwinSegmentId::ChStripState ==> final(self).ch_strip_state == old(
                self,
            ).ch_strip_state,
            id != ItwinSegmentId::HwState ==> final(self).hw_state == old(self).hw_state,
            id != ItwinSegmentId::ReverbMeter ==> final(self).reverb_meter == old(
                self,
            ).reverb_meter,
            id != ItwinSegmentId::ChStripMeter ==> final(self).ch_strip_meter == old(
                self,
            ).ch_strip_meter,
            r is Ok && id == ItwinSegmentId::ReverbState ==> final(self).reverb_state.data.0
                == reverb_state_parsed(raw@, 0),
            r is Ok && id == ItwinSegmentId::ChStripState ==> itwin_ch_strip_states_parses_to(
                raw@,
                0,
                final(self).ch_strip_state.data,
            ),
            r is Ok && id == ItwinSegmentId::HwState ==> final(self).hw_state.data
                == itwin_hw_state_parsed(raw@, 0),
            r is Ok && id == ItwinSegmentId::ReverbMeter ==> final(self).reverb_meter.data.0
                == reverb_meter_parsed(raw@, 0),
            r is Ok && id == ItwinSegmentId::ChStripMeter ==> itwin_ch_strip_meters_parses_to(
                raw@,
                0,
                final(self).ch_strip_meter.data,
            ),
    {
        let d = itwin_segment_descriptor(id);
        if raw.len() != d.size {
            return Err(ProtocolError::SizeMismatch);
        }
        match id {
            ItwinSegmentId::ReverbState => self.reverb_state.data.parse(raw),
            ItwinSegmentId::ChStripState => self.ch_strip_state.data.parse(raw),
            ItwinSegmentId::HwState => self.hw_state.data.parse(raw),
            ItwinSegmentId::ReverbMeter => self.reverb_meter.data.parse(raw),
            ItwinSegmentId::ChStripMeter => self.ch_strip_meter.data.parse(raw),
        }
        Ok(())
    }
}

impl Default for ItwinSegments {
    /// All segments in their default state.
    fn default() -> (r: Self)
        ensures
            r.wf(),
    {
        ItwinSegments::new_default()
    }
}

} // verus!
