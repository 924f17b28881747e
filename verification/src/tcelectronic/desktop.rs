//! Protocol defined by TC Electronic for Desktop Konnekt 6.
//!
//! The model exposes a front panel segment, refreshed on notification, and
//! a meter segment polled periodically.

use vstd::prelude::*;
use crate::codec::{
    bool_at, bool_to_quadlet, i32_at, quadlet_at, read_bool_quadlet, read_i32_quadlet,
    read_quadlet, write_bool_quadlet, write_i32_quadlet, write_quadlet, zeroed_vec,
    i32_block_build, i32_block_parse,
};
use crate::tcelectronic::segment::{SegmentDescriptor, TcKonnektSegment, descriptor_matches_mask, segment_notified};
use crate::tcelectronic::shell::FireWireLedState;
use crate::ProtocolError;

verus! {

/// The byte size of the panel segment window.
pub const DESKTOP_PANEL_SIZE: usize = 28;

/// The byte size of the meter segment window.
pub const DESKTOP_METER_SIZE: usize = 24;

/// The notification bit the device raises when the panel segment changed.
pub const DESKTOP_PANEL_NOTIFY_FLAG: u32 = 0x00020000;

/// State of the front panel segment.
#[derive(Clone, Copy, Debug, PartialEq, Eq, Structural, Default)]
pub struct DesktopPanel {
    /// How often a panel button was pushed since power-up.
    pub panel_button_count: u32,
    /// The position of the main knob.
    pub main_knob_value: i32,
    /// The position of the phone knob.
    pub phone_knob_value: i32,
    /// The position of the mix knob.
    pub mix_knob_value: u32,
    /// Whether the reverb indicator is lit.
    pub reverb_led_on: bool,
    /// The position of the reverb knob.
    pub reverb_knob_value: i32,
    /// The state of the FireWire indicator LED.
    pub firewire_led: FireWireLedState,
}

/// The panel state encoded by a panel window.
pub open spec fn desktop_panel_parsed(s: Seq<u8>, pos: int) -> DesktopPanel {
    DesktopPanel {
        panel_button_count: quadlet_at(s, pos),
        main_knob_value: i32_at(s, pos + 4),
        phone_knob_value: i32_at(s, pos + 8),
        mix_knob_value: quadlet_at(s, pos + 12),
        reverb_led_on: bool_at(s, pos + 16),
        reverb_knob_value: i32_at(s, pos + 20),
        firewire_led: FireWireLedState::spec_decode(quadlet_at(s, pos + 24)),
    }
}

impl DesktopPanel {
    /// Write the canonical encoding of this state into a panel window;
    /// parsing the result reproduces this state.
    pub fn build(&self, raw: &mut Vec<u8>)
        requires
            old(raw)@.len() == DESKTOP_PANEL_SIZE,
        ensures
            final(raw)@.len() == old(raw)@.len(),
            desktop_panel_parsed(final(raw)@, 0) == *self,
            quadlet_at(final(raw)@, 16) == bool_to_quadlet(self.reverb_led_on),
            quadlet_at(final(raw)@, 24) == self.firewire_led.spec_encode(),
    {
        write_quadlet(raw, 0, self.panel_button_count);
        write_i32_quadlet(raw, 4, self.main_knob_value);
        write_i32_quadlet(raw, 8, self.phone_knob_value);
        write_quadlet(raw, 12, self.mix_knob_value);
        write_bool_quadlet(raw, 16, self.reverb_led_on);
        write_i32_quadlet(raw, 20, self.reverb_knob_value);
        write_quadlet(raw, 24, self.firewire_led.encode());
    }

    /// Replace this state by the one a panel window encodes.
    pub fn parse(&mut self, raw: &Vec<u8>)
        requires
            raw@.len() == DESKTOP_PANEL_SIZE,
        ensures
            *final(self) == desktop_panel_parsed(raw@, 0),
    {
        self.panel_button_count = read_quadlet(raw, 0);
        self.main_knob_value = read_i32_quadlet(raw, 4);
        self.phone_knob_value = read_i32_quadlet(raw, 8);
        self.mix_knob_value = read_quadlet(raw, 12);
        self.reverb_led_on = read_bool_quadlet(raw, 16);
        self.reverb_knob_value = read_i32_quadlet(raw, 20);
        self.firewire_led = FireWireLedState::decode(read_quadlet(raw, 24));
    }
}

/// Levels the model reports, one stereo pair per stage.
#[derive(Clone, Debug, PartialEq, Eq)]
pub struct DesktopMeter {
    pub analog_inputs: Vec<i32>,
    pub mixer_outputs: Vec<i32>,
    pub stream_inputs: Vec<i32>,
}

/// Whether `m` holds exactly the levels a meter window encodes.
pub open spec fn desktop_meter_parses_to(s: Seq<u8>, pos: int, m: DesktopMeter) -> bool {
    &&& m.analog_inputs@.len() == 2
    &&& m.mixer_outputs@.len() == 2
    &&& m.stream_inputs@.len() == 2
    &&& forall|k: int| 0 <= k < 2 ==> m.analog_inputs@[k] == i32_at(s, pos + 4 * k)
    &&& forall|k: int| 0 <= k < 2 ==> m.mixer_outputs@[k] == i32_at(s, pos + 8 + 4 * k)
    &&& forall|k: int| 0 <= k < 2 ==> m.stream_inputs@[k] == i32_at(s, pos + 16 + 4 * k)
}

impl DesktopMeter {
    /// A well-formed meter carries one stereo pair per stage.
    pub open spec fn wf(self) -> bool {
        &&& self.analog_inputs@.len() == 2
        &&& self.mixer_outputs@.len() == 2
        &&& self.stream_inputs@.len() == 2
    }

    /// The zero meter.
    pub fn new_default() -> (r: Self)
        ensures
            r.wf(),
    {
        let mut analog: Vec<i32> = Vec::new();
        analog.push(0);
        analog.push(0);
        let mut mixer: Vec<i32> = Vec::new();
        mixer.push(0);
        mixer.push(0);
        let mut stream: Vec<i32> = Vec::new();
        stream.push(0);
        stream.push(0);
        DesktopMeter { analog_inputs: analog, mixer_outputs: mixer, stream_inputs: stream }
    }

    /// Write the encoding of this meter into a meter window; parsing the
    /// result reproduces this meter.
    pub fn build(&self, raw: &mut Vec<u8>)
        requires
            self.wf(),
            old(raw)@.len() == DESKTOP_METER_SIZE,
        ensures
            final(raw)@.len() == old(raw)@.len(),
            desktop_meter_parses_to(final(raw)@, 0, *self),
    {
        i32_block_build(&self.analog_inputs, raw, 0);
        i32_block_build(&self.mixer_outputs, raw, 8);
        i32_block_build(&self.stream_inputs, raw, 16);
    }

    /// Replace this meter by the one a meter window encodes.
    pub fn parse(&mut self, raw: &Vec<u8>)
        requires
            old(self).wf(),
            raw@.len() == DESKTOP_METER_SIZE,
        ensures
            desktop_meter_parses_to(raw@, 0, *final(self)),
    {
        i32_block_parse(&mut self.analog_inputs, raw, 0, 2);
        i32_block_parse(&mut self.mixer_outputs, raw, 8, 2);
        i32_block_parse(&mut self.stream_inputs, raw, 16, 2);
    }
}

impl Default for DesktopMeter {
    /// The zero meter.
    fn default() -> (r: Self)
        ensures
            r.wf(),
    {
        DesktopMeter::new_default()
    }
}

/// The segments of the memory space of Desktop Konnekt 6.
#[derive(Clone, Debug, PartialEq, Eq)]
pub struct DesktopSegments {
    /// Segment for the front panel; refreshed on notification.
    pub panel: TcKonnektSegment<DesktopPanel>,
    /// Segment for the meters; polled periodically, never notified.
    pub meter: TcKonnektSegment<DesktopMeter>,
}

/// One segment of the model, in the order of the registry.
#[derive(Clone, Copy, Debug, PartialEq, Eq, Structural)]
pub enum DesktopSegmentId {
    Panel,
    Meter,
}

/// The fixed descriptor of one segment of the model.
pub open spec fn spec_desktop_segment_descriptor(id: DesktopSegmentId) -> SegmentDescriptor {
    match id {
        DesktopSegmentId::Panel => SegmentDescriptor {
            offset: 0x0008,
            size: DESKTOP_PANEL_SIZE,
            notify_flag: Some(DESKTOP_PANEL_NOTIFY_FLAG),
        },
        DesktopSegmentId::Meter => SegmentDescriptor {
            offset: 0x20e4,
            size: DESKTOP_METER_SIZE,
            notify_flag: None,
        },
    }
}

/// The fixed descriptor of one segment of the model: its window offset and
/// size and its notification flag, if it has one.
pub fn desktop_segment_descriptor(id: DesktopSegmentId) -> (r: SegmentDescriptor)
    ensures
        r == spec_desktop_segment_descriptor(id),
{
    match id {
        DesktopSegmentId::Panel => SegmentDescriptor {
            offset: 0x0008,
            size: DESKTOP_PANEL_SIZE,
            notify_flag: Some(DESKTOP_PANEL_NOTIFY_FLAG),
        },
        DesktopSegmentId::Meter => SegmentDescriptor {
            offset: 0x20e4,
            size: DESKTOP_METER_SIZE,
            notify_flag: None,
        },
    }
}

/// The segments a notification mask marks stale: the panel segment exactly
/// when its flag shares a bit with `mask`; the meter segment never, since
/// it has no flag.
pub fn desktop_notified_segments(mask: u32) -> (r: Vec<DesktopSegmentId>)
    ensures
        r@.contains(DesktopSegmentId::Panel) <==> segment_notified(
            spec_desktop_segment_descriptor(DesktopSegmentId::Panel),
            mask,
        ),
        !r@.contains(DesktopSegmentId::Meter),
        r@.len() <= 1,
{
    let mut out: Vec<DesktopSegmentId> = Vec::new();
    let d = desktop_segment_descriptor(DesktopSegmentId::Panel);
    if descriptor_matches_mask(&d, mask) {
        out.push(DesktopSegmentId::Panel);
    }
    proof {
        if out@.len() > 0 {
            assert(out@[0] == DesktopSegmentId::Panel);
        }
    }
    out
}

impl DesktopSegments {
    /// Every segment state carries the shape its codec expects.
    pub open spec fn wf(self) -> bool {
        self.meter.data.wf()
    }

    /// All segments in their default state, as when the owning control
    /// object is constructed and before the first load.
    pub fn new_default() -> (r: Self)
        ensures
            r.wf(),
            r.panel.data == (DesktopPanel {
                panel_button_count: 0u32,
                main_knob_value: 0i32,
                phone_knob_value: 0i32,
                mix_knob_value: 0u32,
                reverb_led_on: false,
                reverb_knob_value: 0i32,
                firewire_led: FireWireLedState::Off,
            }),
    {
        DesktopSegments {
            panel: TcKonnektSegment {
                data: DesktopPanel {
                    panel_button_count: 0,
                    main_knob_value: 0,
                    phone_knob_value: 0,
                    mix_knob_value: 0,
                    reverb_led_on: false,
                    reverb_knob_value: 0,
                    firewire_led: FireWireLedState::default(),
                },
            },
            meter: TcKonnektSegment { data: DesktopMeter::new_default() },
        }
    }

    /// Build the write image of one segment: a scratch buffer of exactly
    /// the segment's size holding the canonical encoding of its current
    /// state.  Parsing the image reproduces the state.
    pub fn build_segment(&self, id: DesktopSegmentId) -> (r: Vec<u8>)
        requires
            self.wf(),
        ensures
            r@.len() == spec_desktop_segment_descriptor(id).size,
            id == DesktopSegmentId::Panel ==> desktop_panel_parsed(r@, 0) == self.panel.data,
            id == DesktopSegmentId::Meter ==> desktop_meter_parses_to(r@, 0, self.meter.data),
    {
        let d = desktop_segment_descriptor(id);
        let mut scratch = zeroed_vec(d.size);
        match id {
            DesktopSegmentId::Panel => self.panel.data.build(&mut scratch),
            DesktopSegmentId::Meter => self.meter.data.build(&mut scratch),
        }
        scratch
    }

    /// Feed the bytes read from one segment's window to that segment's
    /// codec.  A buffer of any other length than the segment's fixed size
    /// is a programming error, reported without touching any state; on
    /// success only the addressed segment changes.
    pub fn parse_segment(&mut self, id: DesktopSegmentId, raw: &Vec<u8>) -> (r: Result<
        (),
        ProtocolError,
    >)
        requires
            old(self).wf(),
        ensures
            final(self).wf(),
            r is Ok <==> raw@.len() == spec_desktop_segment_descriptor(id).size,
            r is Err ==> *final(self) == *old(self) && r == Err::<(), ProtocolError>(
                ProtocolError::SizeMismatch,
            ),
            id != DesktopSegmentId::Panel ==> final(self).panel == old(self).panel,
            id != DesktopSegmentId::Meter ==> final(self).meter == old(self).meter,
            r is Ok && id == DesktopSegmentId::Panel ==> final(self).panel.data
                == desktop_panel_parsed(raw@, 0),
            r is Ok && id == DesktopSegmentId::Meter ==> desktop_meter_parses_to(
                raw@,
                0,
                final(self).meter.data,
            ),
    {
        let d = desktop_segment_descriptor(id);
        if raw.len() != d.size {
            return Err(ProtocolError::SizeMismatch);
        }
        match id {
            DesktopSegmentId::Panel => self.panel.data.parse(raw),
            DesktopSegmentId::Meter => self.meter.data.parse(raw),
        }
        Ok(())
    }
}

impl Default for DesktopSegments {
    /// All segments in their default state.
    fn default() -> (r: Self)
        ensures
            r.wf(),
    {
        DesktopSegments::new_default()
    }
}

} // verus!
