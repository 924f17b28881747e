//! Protocol defined by TC Electronic for Konnekt Live.
//!
//! The memory space of the model is partitioned into the segments below;
//! each segment type carries its byte-exact codec, and the registry at the
//! end drives notification-driven refresh.

use vstd::prelude::*;
use crate::codec::{
    bool_at, bool_to_quadlet, i32_at, quadlet_at, read_bool_quadlet, read_quadlet,
    write_bool_quadlet, write_quadlet, zeroed_vec,
};
use crate::tcelectronic::ch_strip::{
    ch_strip_meter_parsed, ch_strip_meters_build, ch_strip_meters_parse, ch_strip_state_canonical,
    ch_strip_state_parsed, ch_strip_states_build, ch_strip_states_parse, ChStripMeter,
    ChStripMode, ChStripSrc, ChStripState, CH_STRIP_METER_SIZE, CH_STRIP_STATE_SIZE,
};
use crate::tcelectronic::reverb::{
    reverb_meter_parsed, reverb_state_parsed, ReverbMeter, ReverbState, REVERB_METER_SIZE,
    REVERB_STATE_SIZE,
};
use crate::tcelectronic::segment::{
    SegmentDescriptor, TcKonnektSegment, descriptor_matches_mask, segment_notified,
};
use crate::tcelectronic::shell::{
    midi_sender_parsed, shell_hw_state_parsed, shell_monitor_src_param_parsed,
    shell_opt_iface_config_parsed, shell_reverb_return_parsed, FireWireLedState,
    ShellAnalogJackState, ShellCoaxOutPairSrc, ShellHwState, ShellOptIfaceFormat,
    ShellKnob2Target, ShellKnobTarget, ShellMixerMeter, ShellMixerState, ShellMixerStreamSrcPair,
    ShellOptIfaceConfig, ShellPhysOutSrc, ShellReverbReturn, ShellStandaloneClkSrc,
    TcKonnektLoadedProgram, TcKonnektMidiSender, TcKonnektStandaloneClkRate,
    SHELL_CH_STRIP_COUNT, SHELL_CH_STRIP_NOTIFY_FLAG, SHELL_CONFIG_NOTIFY_FLAG,
    SHELL_HW_STATE_NOTIFY_FLAG, SHELL_KNOB_NOTIFY_FLAG, SHELL_KNOB_SIZE,
    SHELL_MIXER_METER_SIZE, SHELL_MIXER_MONITOR_SRC_COUNT, SHELL_MIXER_NOTIFY_FLAG,
    SHELL_MIXER_STATE_SIZE, SHELL_MONITOR_SRC_PARAM_SIZE, SHELL_REVERB_NOTIFY_FLAG,
    SHELL_HW_STATE_SIZE,
};
use crate::ProtocolError;

verus! {

/// The number of analog inputs the model meters.
pub const KLIVE_METER_ANALOG_INPUT_COUNT: usize = 4;

/// The number of digital inputs the model meters.
pub const KLIVE_METER_DIGITAL_INPUT_COUNT: usize = 8;

/// The impedance of an analog output pair.
#[derive(Clone, Copy, Debug, PartialEq, Eq, Structural)]
pub enum OutputImpedance {
    Unbalance,
    Balance,
}

impl OutputImpedance {
    /// The impedance a quadlet value denotes: zero is unbalanced, any
    /// nonzero value is read as balanced rather than failing.
    pub open spec fn spec_decode(val: u32) -> OutputImpedance {
        if val == 0 {
            OutputImpedance::Unbalance
        } else {
            OutputImpedance::Balance
        }
    }

    /// The canonical quadlet encoding of an impedance.  Decoding accepts
    /// any nonzero value as balanced; encoding only ever emits this value.
    pub open spec fn spec_encode(self) -> u32 {
        match self {
            OutputImpedance::Unbalance => 0,
            OutputImpedance::Balance => 1,
        }
    }

    /// Decode a quadlet value: zero is unbalanced, anything else balanced.
    pub fn decode(val: u32) -> (r: OutputImpedance)
        ensures
            r == OutputImpedance::spec_decode(val),
    {
        if val == 0 {
            OutputImpedance::Unbalance
        } else {
            OutputImpedance::Balance
        }
    }

    /// Encode the impedance as its canonical quadlet value.
    pub fn encode(self) -> (r: u32)
        ensures
            r == self.spec_encode(),
    {
        match self {
            OutputImpedance::Unbalance => 0,
            OutputImpedance::Balance => 1,
        }
    }
}

impl Default for OutputImpedance {
    /// The documented default impedance.
    fn default() -> (r: Self)
        ensures
            r == OutputImpedance::Unbalance,
    {
        OutputImpedance::Unbalance
    }
}

/// Every impedance encoding decodes back to the same impedance, and every
/// nonzero value — documented or not — decodes to balanced.
pub proof fn lemma_output_impedance_roundtrip(imp: OutputImpedance, val: u32)
    ensures
        OutputImpedance::spec_decode(imp.spec_encode()) == imp,
        val != 0 ==> OutputImpedance::spec_decode(val) == OutputImpedance::Balance,
{
}

/// The byte size of the knob segment window.
pub const KLIVE_KNOB_SIZE: usize = SHELL_KNOB_SIZE;

/// State of the knob segment.
#[derive(Clone, Copy, Debug, PartialEq, Eq, Structural)]
pub struct KliveKnob {
    pub target: ShellKnobTarget,
    pub knob2_target: ShellKnob2Target,
    pub prog: TcKonnektLoadedProgram,
    pub out_01_impedance: OutputImpedance,
    pub out_23_impedance: OutputImpedance,
}

/// The knob state encoded by a knob window.
pub open spec fn klive_knob_parsed(s: Seq<u8>, pos: int) -> KliveKnob {
    KliveKnob {
        target: ShellKnobTarget(quadlet_at(s, pos)),
        knob2_target: ShellKnob2Target(quadlet_at(s, pos + 4)),
        prog: TcKonnektLoadedProgram(quadlet_at(s, pos + 8)),
        out_01_impedance: OutputImpedance::spec_decode(quadlet_at(s, pos + 12)),
        out_23_impedance: OutputImpedance::spec_decode(quadlet_at(s, pos + 16)),
    }
}

impl KliveKnob {
    /// Write the canonical encoding of this state into a knob window.
    /// Parsing the result reproduces this state; the reserved tail of the
    /// window is preserved.
    pub fn build(&self, raw: &mut Vec<u8>)
        requires
            old(raw)@.len() == KLIVE_KNOB_SIZE,
        ensures
            final(raw)@.len() == old(raw)@.len(),
            forall|i: int| 20 <= i < old(raw)@.len() ==> final(raw)@[i] == old(raw)@[i],
            klive_knob_parsed(final(raw)@, 0) == *self,
            quadlet_at(final(raw)@, 12) == self.out_01_impedance.spec_encode(),
            quadlet_at(final(raw)@, 16) == self.out_23_impedance.spec_encode(),
    {
        write_quadlet(raw, 0, self.target.0);
        write_quadlet(raw, 4, self.knob2_target.0);
        write_quadlet(raw, 8, self.prog.0);
        write_quadlet(raw, 12, self.out_01_impedance.encode());
        write_quadlet(raw, 16, self.out_23_impedance.encode());
    }

    /// Replace this state by the one a knob window encodes.
    pub fn parse(&mut self, raw: &Vec<u8>)
        requires
            raw@.len() == KLIVE_KNOB_SIZE,
        ensures
            *final(self) == klive_knob_parsed(raw@, 0),
    {
        self.target = ShellKnobTarget(read_quadlet(raw, 0));
        self.knob2_target = ShellKnob2Target(read_quadlet(raw, 4));
        self.prog = TcKonnektLoadedProgram(read_quadlet(raw, 8));
        self.out_01_impedance = OutputImpedance::decode(read_quadlet(raw, 12));
        self.out_23_impedance = OutputImpedance::decode(read_quadlet(raw, 16));
    }
}

impl Default for KliveKnob {
    /// The default knob state: zero targets and unbalanced outputs.
    fn default() -> (r: Self)
        ensures
            r == (KliveKnob {
                target: ShellKnobTarget(0u32),
                knob2_target: ShellKnob2Target(0u32),
                prog: TcKonnektLoadedProgram(0u32),
                out_01_impedance: OutputImpedance::Unbalance,
                out_23_impedance: OutputImpedance::Unbalance,
            }),
    {
        KliveKnob {
            target: ShellKnobTarget(0),
            knob2_target: ShellKnob2Target(0),
            prog: TcKonnektLoadedProgram(0),
            out_01_impedance: OutputImpedance::Unbalance,
            out_23_impedance: OutputImpedance::Unbalance,
        }
    }
}

/// The byte size of the configuration segment window.
pub const KLIVE_CONFIG_SIZE: usize = 132;

/// State of the configuration segment.
#[derive(Clone, Copy, Debug, PartialEq, Eq, Structural)]
pub struct KliveConfig {
    pub opt: ShellOptIfaceConfig,
    pub coax_out_src: ShellCoaxOutPairSrc,
    pub out_01_src: ShellPhysOutSrc,
    pub out_23_src: ShellPhysOutSrc,
    pub mixer_stream_src_pair: ShellMixerStreamSrcPair,
    pub standalone_src: ShellStandaloneClkSrc,
    pub standalone_rate: TcKonnektStandaloneClkRate,
    pub midi_sender: TcKonnektMidiSender,
}

/// The configuration encoded by a configuration window.
pub open spec fn klive_config_parsed(s: Seq<u8>, pos: int) -> KliveConfig {
    KliveConfig {
        opt: shell_opt_iface_config_parsed(s, pos),
        coax_out_src: ShellCoaxOutPairSrc(ShellPhysOutSrc::spec_decode(quadlet_at(s, pos + 12))),
        out_01_src: ShellPhysOutSrc::spec_decode(quadlet_at(s, pos + 16)),
        out_23_src: ShellPhysOutSrc::spec_decode(quadlet_at(s, pos + 20)),
        mixer_stream_src_pair: ShellMixerStreamSrcPair::spec_decode(quadlet_at(s, pos + 24)),
        standalone_src: ShellStandaloneClkSrc::spec_decode(quadlet_at(s, pos + 28)),
        standalone_rate: TcKonnektStandaloneClkRate::spec_decode(quadlet_at(s, pos + 32)),
        midi_sender: midi_sender_parsed(s, pos + 84),
    }
}

impl KliveConfig {
    /// Write the canonical encoding of this configuration into a
    /// configuration window.  Parsing the result reproduces it; the
    /// reserved regions of the window are preserved.
    pub fn build(&self, raw: &mut Vec<u8>)
        requires
            old(raw)@.len() == KLIVE_CONFIG_SIZE,
        ensures
            final(raw)@.len() == old(raw)@.len(),
            forall|i: int|
                0 <= i < old(raw)@.len() && !(0 <= i < 36) && !(84 <= i < 112)
                    ==> final(raw)@[i] == old(raw)@[i],
            klive_config_parsed(final(raw)@, 0) == *self,
            quadlet_at(final(raw)@, 12) == self.coax_out_src.0.spec_encode(),
            quadlet_at(final(raw)@, 16) == self.out_01_src.spec_encode(),
            quadlet_at(final(raw)@, 20) == self.out_23_src.spec_encode(),
            quadlet_at(final(raw)@, 24) == self.mixer_stream_src_pair.spec_encode(),
            quadlet_at(final(raw)@, 28) == self.standalone_src.spec_encode(),
            quadlet_at(final(raw)@, 32) == self.standalone_rate.spec_encode(),
    {
        self.opt.build(raw, 0);
        write_quadlet(raw, 12, self.coax_out_src.0.encode());
        write_quadlet(raw, 16, self.out_01_src.encode());
        write_quadlet(raw, 20, self.out_23_src.encode());
        write_quadlet(raw, 24, self.mixer_stream_src_pair.encode());
        write_quadlet(raw, 28, self.standalone_src.encode());
        write_quadlet(raw, 32, self.standalone_rate.encode());
        self.midi_sender.build(raw, 84);
    }

    /// Replace this configuration by the one a configuration window
    /// encodes.
    pub fn parse(&mut self, raw: &Vec<u8>)
        requires
            raw@.len() == KLIVE_CONFIG_SIZE,
        ensures
            *final(self) == klive_config_parsed(raw@, 0),
    {
        self.opt.parse(raw, 0);
        self.coax_out_src = ShellCoaxOutPairSrc(ShellPhysOutSrc::decode(read_quadlet(raw, 12)));
        self.out_01_src = ShellPhysOutSrc::decode(read_quadlet(raw, 16));
        self.out_23_src = ShellPhysOutSrc::decode(read_quadlet(raw, 20));
        self.mixer_stream_src_pair = ShellMixerStreamSrcPair::decode(read_quadlet(raw, 24));
        self.standalone_src = ShellStandaloneClkSrc::decode(read_quadlet(raw, 28));
        self.standalone_rate = TcKonnektStandaloneClkRate::decode(read_quadlet(raw, 32));
        self.midi_sender.parse(raw, 84);
    }
}

impl Default for KliveConfig {
    /// The default configuration: every route and rate at its documented
    /// default, the MIDI sender silent.
    fn default() -> (r: Self)
        ensures
            r.opt == (ShellOptIfaceConfig {
                input_format: ShellOptIfaceFormat::Adat,
                output_format: ShellOptIfaceFormat::Adat,
                link_enabled: false,
            }),
            r.coax_out_src == ShellCoaxOutPairSrc(ShellPhysOutSrc::Stream),
            r.out_01_src == ShellPhysOutSrc::Stream,
            r.out_23_src == ShellPhysOutSrc::Stream,
            r.mixer_stream_src_pair == ShellMixerStreamSrcPair::Stream01,
            r.standalone_src == ShellStandaloneClkSrc::Internal,
            r.standalone_rate == TcKonnektStandaloneClkRate::R44100,
            r.midi_sender == (TcKonnektMidiSender {
                normal_ch: 0u32,
                normal_cc: 0u32,
                normal_send: false,
                event_ch: 0u32,
                event_cc: 0u32,
                event_send: false,
                send_to_stream: false,
            }),
    {
        KliveConfig {
            opt: ShellOptIfaceConfig {
                input_format: ShellOptIfaceFormat::Adat,
                output_format: ShellOptIfaceFormat::Adat,
                link_enabled: false,
            },
            coax_out_src: ShellCoaxOutPairSrc(ShellPhysOutSrc::Stream),
            out_01_src: ShellPhysOutSrc::Stream,
            out_23_src: ShellPhysOutSrc::Stream,
            mixer_stream_src_pair: ShellMixerStreamSrcPair::Stream01,
            standalone_src: ShellStandaloneClkSrc::Internal,
            standalone_rate: TcKonnektStandaloneClkRate::R44100,
            midi_sender: TcKonnektMidiSender {
                normal_ch: 0,
                normal_cc: 0,
                normal_send: false,
                event_ch: 0,
                event_cc: 0,
                event_send: false,
                send_to_stream: false,
            },
        }
    }
}

/// The byte size of the mixer state segment window.
pub const KLIVE_MIXER_STATE_SIZE: usize = 364;

/// State of the mixer segment: the shared shell mixer, the reverb return,
/// and the channel-strip routing of this model.
#[derive(Clone, Debug, PartialEq, Eq)]
pub struct KliveMixerState {
    /// The common state of the shell mixer.
    pub mixer: ShellMixerState,
    /// The parameter of the return from the reverb effect.
    pub reverb_return: ShellReverbReturn,
    /// Whether the channel strip effect is used as a plugin, putting its
    /// output on the tx stream.
    pub use_ch_strip_as_plugin: bool,
    /// The source of the channel strip effect.
    pub ch_strip_src: ChStripSrc,
    /// The type of the channel strip effect.
    pub ch_strip_mode: ChStripMode,
    /// Whether the reverb effect also runs at middle sampling rates.
    pub use_reverb_at_mid_rate: bool,
    /// Whether the mixer function is enabled.
    pub enabled: bool,
}

/// Whether `st` is exactly the mixer state a mixer window encodes.
pub open spec fn klive_mixer_state_parses_to(s: Seq<u8>, pos: int, st: KliveMixerState) -> bool {
    &&& st.mixer.wf()
    &&& forall|k: int|
        0 <= k < SHELL_MIXER_MONITOR_SRC_COUNT ==> st.mixer.monitor_srcs@[k]
            == shell_monitor_src_param_parsed(s, pos + k * SHELL_MONITOR_SRC_PARAM_SIZE)
    &&& st.mixer.stream_gain == i32_at(s, pos + 280)
    &&& st.mixer.stream_mute == bool_at(s, pos + 284)
    &&& st.mixer.main_gain == i32_at(s, pos + 288)
    &&& st.mixer.main_mute == bool_at(s, pos + 292)
    &&& st.mixer.monitor_gain == i32_at(s, pos + 296)
    &&& st.mixer.monitor_mute == bool_at(s, pos + 300)
    &&& st.reverb_return == shell_reverb_return_parsed(s, pos + 316)
    &&& st.use_ch_strip_as_plugin == bool_at(s, pos + 328)
    &&& st.ch_strip_src == ChStripSrc::spec_decode(quadlet_at(s, pos + 332))
    &&& st.ch_strip_mode == ChStripMode::spec_decode(quadlet_at(s, pos + 336))
    &&& st.use_reverb_at_mid_rate == bool_at(s, pos + 340)
    &&& st.enabled == bool_at(s, pos + 344)
}

impl KliveMixerState {
    /// A well-formed mixer state has one parameter set per monitor source.
    pub open spec fn wf(self) -> bool {
        self.mixer.wf()
    }

    /// The mixer state the model starts from: every monitor source at its
    /// default parameters, the output stage zeroed, the reverb return
    /// silent, the channel strip unrouted, and the mixer disabled.
    pub fn new_default() -> (r: Self)
        ensures
            r.wf(),
            forall|k: int|
                0 <= k < SHELL_MIXER_MONITOR_SRC_COUNT ==> r.mixer.monitor_srcs@[k]
                    == crate::tcelectronic::shell::ShellMonitorSrcParam::spec_default(),
            r.mixer.stream_gain == 0i32 && !r.mixer.stream_mute,
            r.mixer.main_gain == 0i32 && !r.mixer.main_mute,
            r.mixer.monitor_gain == 0i32 && !r.mixer.monitor_mute,
            r.reverb_return == (ShellReverbReturn {
                plugin_mode: false,
                return_gain: 0i32,
                return_mute: false,
            }),
            !r.use_ch_strip_as_plugin,
            r.ch_strip_src == ChStripSrc::NoSource,
            r.ch_strip_mode == ChStripMode::FabrikC,
            !r.use_reverb_at_mid_rate,
            !r.enabled,
    {
        KliveMixerState {
            mixer: ShellMixerState::new_default(),
            reverb_return: ShellReverbReturn {
                plugin_mode: false,
                return_gain: 0,
                return_mute: false,
            },
            use_ch_strip_as_plugin: false,
            ch_strip_src: ChStripSrc::default(),
            ch_strip_mode: ChStripMode::default(),
            use_reverb_at_mid_rate: false,
            enabled: false,
        }
    }

    /// Write the canonical encoding of this state into a mixer window.
    /// Parsing the result reproduces this state; the reserved tail of the
    /// window is preserved.
    pub fn build(&self, raw: &mut Vec<u8>)
        requires
            self.wf(),
            old(raw)@.len() == KLIVE_MIXER_STATE_SIZE,
        ensures
            final(raw)@.len() == old(raw)@.len(),
            forall|i: int| 348 <= i < old(raw)@.len() ==> final(raw)@[i] == old(raw)@[i],
            klive_mixer_state_parses_to(final(raw)@, 0, *self),
            quadlet_at(final(raw)@, 328) == bool_to_quadlet(self.use_ch_strip_as_plugin),
            quadlet_at(final(raw)@, 332) == self.ch_strip_src.spec_encode(),
            quadlet_at(final(raw)@, 336) == self.ch_strip_mode.spec_encode(),
            quadlet_at(final(raw)@, 340) == bool_to_quadlet(self.use_reverb_at_mid_rate),
            quadlet_at(final(raw)@, 344) == bool_to_quadlet(self.enabled),
    {
        self.mixer.build(raw, 0);
        let ghost after_mixer = raw@;
        self.reverb_return.build(raw, 316);
        write_bool_quadlet(raw, 328, self.use_ch_strip_as_plugin);
        write_quadlet(raw, 332, self.ch_strip_src.encode());
        write_quadlet(raw, 336, self.ch_strip_mode.encode());
        write_bool_quadlet(raw, 340, self.use_reverb_at_mid_rate);
        write_bool_quadlet(raw, 344, self.enabled);
        proof {
            assert forall|k: int|
                0 <= k < SHELL_MIXER_MONITOR_SRC_COUNT implies shell_monitor_src_param_parsed(
                final(raw)@,
                0 + k * SHELL_MONITOR_SRC_PARAM_SIZE,
            ) == self.mixer.monitor_srcs@[k] by {
                crate::tcelectronic::shell::lemma_shell_monitor_src_param_parsed_congruence(
                    final(raw)@,
                    after_mixer,
                    0 + k * SHELL_MONITOR_SRC_PARAM_SIZE,
                );
            }
        }
    }

    /// Replace this state by the one a mixer window encodes.
    pub fn parse(&mut self, raw: &Vec<u8>)
        requires
            old(self).wf(),
            raw@.len() == KLIVE_MIXER_STATE_SIZE,
        ensures
            klive_mixer_state_parses_to(raw@, 0, *final(self)),
    {
        self.mixer.parse(raw, 0);
        self.reverb_return.parse(raw, 316);
        self.use_ch_strip_as_plugin = read_bool_quadlet(raw, 328);
        self.ch_strip_src = ChStripSrc::decode(read_quadlet(raw, 332));
        self.ch_strip_mode = ChStripMode::decode(read_quadlet(raw, 336));
        self.use_reverb_at_mid_rate = read_bool_quadlet(raw, 340);
        self.enabled = read_bool_quadlet(raw, 344);
    }
}

impl Default for KliveMixerState {
    /// The default mixer state, fully populated: every monitor source at
    /// its default parameters, everything silent and disabled.
    fn default() -> (r: Self)
        ensures
            r.wf(),
            forall|k: int|
                0 <= k < SHELL_MIXER_MONITOR_SRC_COUNT ==> r.mixer.monitor_srcs@[k]
                    == crate::tcelectronic::shell::ShellMonitorSrcParam::spec_default(),
            r.mixer.stream_gain == 0i32 && !r.mixer.stream_mute,
            r.mixer.main_gain == 0i32 && !r.mixer.main_mute,
            r.mixer.monitor_gain == 0i32 && !r.mixer.monitor_mute,
            r.reverb_return == (ShellReverbReturn {
                plugin_mode: false,
                return_gain: 0i32,
                return_mute: false,
            }),
            !r.use_ch_strip_as_plugin,
            r.ch_strip_src == ChStripSrc::NoSource,
            r.ch_strip_mode == ChStripMode::FabrikC,
            !r.use_reverb_at_mid_rate,
            !r.enabled,
    {
        KliveMixerState::new_default()
    }
}

/// The byte size of the reverb state segment window.
pub const KLIVE_REVERB_STATE_SIZE: usize = REVERB_STATE_SIZE;

/// State of the reverb segment of this model.
#[derive(Clone, Copy, Debug, PartialEq, Eq, Structural, Default)]
pub struct KliveReverbState(pub ReverbState);

impl KliveReverbState {
    /// Write the canonical encoding of this state into a reverb window.
    pub fn build(&self, raw: &mut Vec<u8>)
        requires
            old(raw)@.len() == KLIVE_REVERB_STATE_SIZE,
        ensures
            final(raw)@.len() == old(raw)@.len(),
            forall|i: int| 64 <= i < old(raw)@.len() ==> final(raw)@[i] == old(raw)@[i],
            reverb_state_parsed(final(raw)@, 0) == self.0,
    {
        self.0.build(raw, 0);
    }

    /// Replace this state by the one a reverb window encodes.
    pub fn parse(&mut self, raw: &Vec<u8>)
        requires
            raw@.len() == KLIVE_REVERB_STATE_SIZE,
        ensures
            final(self).0 == reverb_state_parsed(raw@, 0),
    {
        self.0.parse(raw, 0);
    }
}

/// The byte size of the channel strip state segment window: one element per
/// strip and one trailing reserved quadlet.
pub const KLIVE_CH_STRIP_STATES_SIZE: usize = 292;

/// States of the channel strip effects of this model.
#[derive(Clone, Debug, PartialEq, Eq)]
pub struct KliveChStripStates(pub Vec<ChStripState>);

/// Whether `sts` holds exactly the strip states a channel strip window
/// encodes.
pub open spec fn klive_ch_strip_states_parses_to(
    s: Seq<u8>,
    pos: int,
    sts: KliveChStripStates,
) -> bool {
    &&& sts.0@.len() == SHELL_CH_STRIP_COUNT
    &&& forall|k: int|
        0 <= k < SHELL_CH_STRIP_COUNT ==> sts.0@[k] == ch_strip_state_parsed(
            s,
            pos + k * CH_STRIP_STATE_SIZE,
        )
}

impl KliveChStripStates {
    /// A well-formed value has one state per strip of the model.
    pub open spec fn wf(self) -> bool {
        self.0@.len() == SHELL_CH_STRIP_COUNT
    }

    /// One default state per strip of the model.
    pub fn new_default() -> (r: Self)
        ensures
            r.wf(),
    {
        let mut sts: Vec<ChStripState> = Vec::new();
        sts.push(ChStripState::default());
        sts.push(ChStripState::default());
        KliveChStripStates(sts)
    }

    /// Write the canonical encoding of these states into a channel strip
    /// window, one element per strip.  Parsing the result reproduces them;
    /// the trailing reserved quadlet is preserved.
    pub fn build(&self, raw: &mut Vec<u8>)
        requires
            self.wf(),
            old(raw)@.len() == KLIVE_CH_STRIP_STATES_SIZE,
        ensures
            final(raw)@.len() == old(raw)@.len(),
            forall|i: int| 288 <= i < old(raw)@.len() ==> final(raw)@[i] == old(raw)@[i],
            klive_ch_strip_states_parses_to(final(raw)@, 0, *self),
            forall|k: int|
                0 <= k < SHELL_CH_STRIP_COUNT ==> ch_strip_state_canonical(
                    final(raw)@,
                    k * CH_STRIP_STATE_SIZE,
                    self.0@[k],
                ),
    {
        ch_strip_states_build(&self.0, raw, 0);
    }

    /// Replace these states by the ones a channel strip window encodes.
    pub fn parse(&mut self, raw: &Vec<u8>)
        requires
            old(self).wf(),
            raw@.len() == KLIVE_CH_STRIP_STATES_SIZE,
        ensures
            klive_ch_strip_states_parses_to(raw@, 0, *final(self)),
    {
        ch_strip_states_parse(&mut self.0, raw, 0);
    }
}

impl Default for KliveChStripStates {
    /// The default states, one per strip.
    fn default() -> (r: Self)
        ensures
            r.wf(),
    {
        KliveChStripStates::new_default()
    }
}

/// The byte size of the hardware state segment window.
pub const KLIVE_HW_STATE_SIZE: usize = SHELL_HW_STATE_SIZE;

/// State of the hardware segment of this model.
#[derive(Clone, Copy, Debug, PartialEq, Eq, Structural, Default)]
pub struct KliveHwState(pub ShellHwState);

impl KliveHwState {
    /// Write the canonical encoding of this state into a hardware window.
    pub fn build(&self, raw: &mut Vec<u8>)
        requires
            old(raw)@.len() == KLIVE_HW_STATE_SIZE,
        ensures
            final(raw)@.len() == old(raw)@.len(),
            forall|i: int|
                0 <= i < old(raw)@.len() && !(0 <= i < 8) && !(20 <= i < 24)
                    ==> final(raw)@[i] == old(raw)@[i],
            shell_hw_state_parsed(final(raw)@, 0) == self.0,
            quadlet_at(final(raw)@, 0) == self.0.analog_jack_0.spec_encode(),
            quadlet_at(final(raw)@, 4) == self.0.analog_jack_1.spec_encode(),
            quadlet_at(final(raw)@, 20) == self.0.firewire_led.spec_encode(),
    {
        self.0.build(raw, 0);
    }

    /// Replace this state by the one a hardware window encodes.
    pub fn parse(&mut self, raw: &Vec<u8>)
        requires
            raw@.len() == KLIVE_HW_STATE_SIZE,
        ensures
            final(self).0 == shell_hw_state_parsed(raw@, 0),
    {
        self.0.parse(raw, 0);
    }
}

/// The byte size of the mixer meter segment window.
pub const KLIVE_MIXER_METER_SIZE: usize = SHELL_MIXER_METER_SIZE;

/// Meter of the mixer segment of this model.
#[derive(Clone, Debug, PartialEq, Eq)]
pub struct KliveMixerMeter(pub ShellMixerMeter);

/// Whether `m` holds exactly the levels a mixer meter window encodes for
/// this model's numbers of inputs.
pub open spec fn klive_mixer_meter_parses_to(s: Seq<u8>, pos: int, m: KliveMixerMeter) -> bool {
    &&& m.0.wf()
    &&& m.0.analog_inputs@.len() == KLIVE_METER_ANALOG_INPUT_COUNT
    &&& m.0.digital_inputs@.len() == KLIVE_METER_DIGITAL_INPUT_COUNT
    &&& forall|k: int| 0 <= k < 2 ==> m.0.stream_inputs@[k] == i32_at(s, pos + 4 * k)
    &&& forall|k: int|
        0 <= k < KLIVE_METER_ANALOG_INPUT_COUNT ==> m.0.analog_inputs@[k] == i32_at(
            s,
            pos + 8 + 4 * k,
        )
    &&& forall|k: int|
        0 <= k < KLIVE_METER_DIGITAL_INPUT_COUNT ==> m.0.digital_inputs@[k] == i32_at(
            s,
            pos + 40 + 4 * k,
        )
    &&& forall|k: int| 0 <= k < 2 ==> m.0.main_outputs@[k] == i32_at(s, pos + 72 + 4 * k)
}

impl KliveMixerMeter {
    /// A well-formed meter carries this model's numbers of inputs.
    pub open spec fn wf(self) -> bool {
        &&& self.0.wf()
        &&& self.0.analog_inputs@.len() == KLIVE_METER_ANALOG_INPUT_COUNT
        &&& self.0.digital_inputs@.len() == KLIVE_METER_DIGITAL_INPUT_COUNT
    }

    /// A zero meter with this model's numbers of inputs.
    pub fn new_default() -> (r: Self)
        ensures
            r.wf(),
    {
        KliveMixerMeter(
            ShellMixerMeter::new_zeroed(
                KLIVE_METER_ANALOG_INPUT_COUNT,
                KLIVE_METER_DIGITAL_INPUT_COUNT,
            ),
        )
    }

    /// Write the encoding of this meter into a mixer meter window.
    pub fn build(&self, raw: &mut Vec<u8>)
        requires
            self.wf(),
            old(raw)@.len() == KLIVE_MIXER_METER_SIZE,
        ensures
            final(raw)@.len() == old(raw)@.len(),
            forall|i: int| 80 <= i < old(raw)@.len() ==> final(raw)@[i] == old(raw)@[i],
            klive_mixer_meter_parses_to(final(raw)@, 0, *self),
    {
        self.0.build(raw, 0);
    }

    /// Replace this meter by the one a mixer meter window encodes.
    pub fn parse(&mut self, raw: &Vec<u8>)
        requires
            old(self).wf(),
            raw@.len() == KLIVE_MIXER_METER_SIZE,
        ensures
            klive_mixer_meter_parses_to(raw@, 0, *final(self)),
    {
        self.0.parse(raw, 0);
    }
}

impl Default for KliveMixerMeter {
    /// The zero meter with this model's numbers of inputs.
    fn default() -> (r: Self)
        ensures
            r.wf(),
    {
        KliveMixerMeter::new_default()
    }
}

/// The byte size of the reverb meter segment window.
pub const KLIVE_REVERB_METER_SIZE: usize = REVERB_METER_SIZE;

/// Meter of the reverb segment of this model.
#[derive(Clone, Copy, Debug, PartialEq, Eq, Structural, Default)]
pub struct KliveReverbMeter(pub ReverbMeter);

impl KliveReverbMeter {
    /// Write the encoding of this meter into a reverb meter window.
    pub fn build(&self, raw: &mut Vec<u8>)
        requires
            old(raw)@.len() == KLIVE_REVERB_METER_SIZE,
        ensures
            final(raw)@.len() == old(raw)@.len(),
            forall|i: int| 16 <= i < old(raw)@.len() ==> final(raw)@[i] == old(raw)@[i],
            reverb_meter_parsed(final(raw)@, 0) == self.0,
    {
        self.0.build(raw, 0);
    }

    /// Replace this meter by the one a reverb meter window encodes.
    pub fn parse(&mut self, raw: &Vec<u8>)
        requires
            raw@.len() == KLIVE_REVERB_METER_SIZE,
        ensures
            final(self).0 == reverb_meter_parsed(raw@, 0),
    {
        self.0.parse(raw, 0);
    }
}

/// The byte size of the channel strip meter segment window: one element per
/// strip and one trailing reserved quadlet.
pub const KLIVE_CH_STRIP_METERS_SIZE: usize = 60;

/// Meters of the channel strip effects of this model.
#[derive(Clone, Debug, PartialEq, Eq)]
pub struct KliveChStripMeters(pub Vec<ChStripMeter>);

/// Whether `ms` holds exactly the meters a channel strip meter window
/// encodes.
pub open spec fn klive_ch_strip_meters_parses_to(
    s: Seq<u8>,
    pos: int,
    ms: KliveChStripMeters,
) -> bool {
    &&& ms.0@.len() == SHELL_CH_STRIP_COUNT
    &&& forall|k: int|
        0 <= k < SHELL_CH_STRIP_COUNT ==> ms.0@[k] == ch_strip_meter_parsed(
            s,
            pos + k * CH_STRIP_METER_SIZE,
        )
}

impl KliveChStripMeters {
    /// A well-formed value has one meter per strip of the model.
    pub open spec fn wf(self) -> bool {
        self.0@.len() == SHELL_CH_STRIP_COUNT
    }

    /// One zero meter per strip of the model.
    pub fn new_default() -> (r: Self)
        ensures
            r.wf(),
    {
        let mut ms: Vec<ChStripMeter> = Vec::new();
        ms.push(ChStripMeter::default());
        ms.push(ChStripMeter::default());
        KliveChStripMeters(ms)
    }

    /// Write the encoding of these meters into a channel strip meter
    /// window, one element per strip; the trailing reserved quadlet is
    /// preserved.
    pub fn build(&self, raw: &mut Vec<u8>)
        requires
            self.wf(),
            old(raw)@.len() == KLIVE_CH_STRIP_METERS_SIZE,
        ensures
            final(raw)@.len() == old(raw)@.len(),
            forall|i: int| 56 <= i < old(raw)@.len() ==> final(raw)@[i] == old(raw)@[i],
            klive_ch_strip_meters_parses_to(final(raw)@, 0, *self),
    {
        ch_strip_meters_build(&self.0, raw, 0);
    }

    /// Replace these meters by the ones a channel strip meter window
    /// encodes.
    pub fn parse(&mut self, raw: &Vec<u8>)
        requires
            old(self).wf(),
            raw@.len() == KLIVE_CH_STRIP_METERS_SIZE,
        ensures
            klive_ch_strip_meters_parses_to(raw@, 0, *final(self)),
    {
        ch_strip_meters_parse(&mut self.0, raw, 0);
    }
}

impl Default for KliveChStripMeters {
    /// The zero meters, one per strip.
    fn default() -> (r: Self)
        ensures
            r.wf(),
    {
        KliveChStripMeters::new_default()
    }
}

/// The segments of the memory space of Konnekt Live.
#[derive(Clone, Debug, PartialEq, Eq)]
pub struct KliveSegments {
    /// Segment for knob.
    pub knob: TcKonnektSegment<KliveKnob>,
    /// Segment for configuration.
    pub config: TcKonnektSegment<KliveConfig>,
    /// Segment for state of mixer.
    pub mixer_state: TcKonnektSegment<KliveMixerState>,
    /// Segment for state of reverb effect.
    pub reverb_state: TcKonnektSegment<KliveReverbState>,
    /// Segment for states of channel strip effect.
    pub ch_strip_state: TcKonnektSegment<KliveChStripStates>,
    /// Segment for mixer meter.
    pub mixer_meter: TcKonnektSegment<KliveMixerMeter>,
    /// Segment for state of hardware.
    pub hw_state: TcKonnektSegment<KliveHwState>,
    /// Segment for meter of reverb effect.
    pub reverb_meter: TcKonnektSegment<KliveReverbMeter>,
    /// Segment for meters of channel strip effect.
    pub ch_strip_meter: TcKonnektSegment<KliveChStripMeters>,
}

/// One segment of the model, in the order of the registry.
#[derive(Clone, Copy, Debug, PartialEq, Eq, Structural)]
pub enum KliveSegmentId {
    Knob,
    Config,
    MixerState,
    ReverbState,
    ChStripState,
    MixerMeter,
    HwState,
    ReverbMeter,
    ChStripMeter,
}

/// The fixed descriptor of one segment of the model.
pub open spec fn spec_klive_segment_descriptor(id: KliveSegmentId) -> SegmentDescriptor {
    match id {
        KliveSegmentId::Knob => SegmentDescriptor {
            offset: 0x0004,
            size: KLIVE_KNOB_SIZE,
            notify_flag: Some(SHELL_KNOB_NOTIFY_FLAG),
        },
        KliveSegmentId::Config => SegmentDescriptor {
            offset: 0x0028,
            size: KLIVE_CONFIG_SIZE,
            notify_flag: Some(SHELL_CONFIG_NOTIFY_FLAG),
        },
        KliveSegmentId::MixerState => SegmentDescriptor {
            offset: 0x00ac,
            size: KLIVE_MIXER_STATE_SIZE,
            notify_flag: Some(SHELL_MIXER_NOTIFY_FLAG),
        },
        KliveSegmentId::ReverbState => SegmentDescriptor {
            offset: 0x0218,
            size: KLIVE_REVERB_STATE_SIZE,
            notify_flag: Some(SHELL_REVERB_NOTIFY_FLAG),
        },
        KliveSegmentId::ChStripState => SegmentDescriptor {
            offset: 0x025c,
            size: KLIVE_CH_STRIP_STATES_SIZE,
            notify_flag: Some(SHELL_CH_STRIP_NOTIFY_FLAG),
        },
        KliveSegmentId::MixerMeter => SegmentDescriptor {
            offset: 0x1068,
            size: KLIVE_MIXER_METER_SIZE,
            notify_flag: None,
        },
        KliveSegmentId::HwState => SegmentDescriptor {
            offset: 0x1008,
            size: KLIVE_HW_STATE_SIZE,
            notify_flag: Some(SHELL_HW_STATE_NOTIFY_FLAG),
        },
        KliveSegmentId::ReverbMeter => SegmentDescriptor {
            offset: 0x10c4,
            size: KLIVE_REVERB_METER_SIZE,
            notify_flag: None,
        },
        KliveSegmentId::ChStripMeter => SegmentDescriptor {
            offset: 0x10dc,
            size: KLIVE_CH_STRIP_METERS_SIZE,
            notify_flag: None,
        },
    }
}

/// The fixed descriptor of one segment of the model: its window offset and
/// size and its notification flag, if it has one.
pub fn klive_segment_descriptor(id: KliveSegmentId) -> (r: SegmentDescriptor)
    ensures
        r == spec_klive_segment_descriptor(id),
{
    match id {
        KliveSegmentId::Knob => SegmentDescriptor {
            offset: 0x0004,
            size: KLIVE_KNOB_SIZE,
            notify_flag: Some(SHELL_KNOB_NOTIFY_FLAG),
        },
        KliveSegmentId::Config => SegmentDescriptor {
            offset: 0x0028,
            size: KLIVE_CONFIG_SIZE,
            notify_flag: Some(SHELL_CONFIG_NOTIFY_FLAG),
        },
        KliveSegmentId::MixerState => SegmentDescriptor {
            offset: 0x00ac,
            size: KLIVE_MIXER_STATE_SIZE,
            notify_flag: Some(SHELL_MIXER_NOTIFY_FLAG),
        },
        KliveSegmentId::ReverbState => SegmentDescriptor {
            offset: 0x0218,
            size: KLIVE_REVERB_STATE_SIZE,
            notify_flag: Some(SHELL_REVERB_NOTIFY_FLAG),
        },
        KliveSegmentId::ChStripState => SegmentDescriptor {
            offset: 0x025c,
            size: KLIVE_CH_STRIP_STATES_SIZE,
            notify_flag: Some(SHELL_CH_STRIP_NOTIFY_FLAG),
        },
        KliveSegmentId::MixerMeter => SegmentDescriptor {
            offset: 0x1068,
            size: KLIVE_MIXER_METER_SIZE,
            notify_flag: None,
        },
        KliveSegmentId::HwState => SegmentDescriptor {
            offset: 0x1008,
            size: KLIVE_HW_STATE_SIZE,
            notify_flag: Some(SHELL_HW_STATE_NOTIFY_FLAG),
        },
        KliveSegmentId::ReverbMeter => SegmentDescriptor {
            offset: 0x10c4,
            size: KLIVE_REVERB_METER_SIZE,
            notify_flag: None,
        },
        KliveSegmentId::ChStripMeter => SegmentDescriptor {
            offset: 0x10dc,
            size: KLIVE_CH_STRIP_METERS_SIZE,
            notify_flag: None,
        },
    }
}

/// The registry of the model: every segment, in fixed order.
pub open spec fn spec_klive_registry() -> Seq<KliveSegmentId> {
    seq![
        KliveSegmentId::Knob,
        KliveSegmentId::Config,
        KliveSegmentId::MixerState,
        KliveSegmentId::ReverbState,
        KliveSegmentId::ChStripState,
        KliveSegmentId::MixerMeter,
        KliveSegmentId::HwState,
        KliveSegmentId::ReverbMeter,
        KliveSegmentId::ChStripMeter,
    ]
}

/// The registry of the model as a vector, in the fixed order.
pub fn klive_registry() -> (r: Vec<KliveSegmentId>)
    ensures
        r@ == spec_klive_registry(),
{
    let mut v: Vec<KliveSegmentId> = Vec::new();
    v.push(KliveSegmentId::Knob);
    v.push(KliveSegmentId::Config);
    v.push(KliveSegmentId::MixerState);
    v.push(KliveSegmentId::ReverbState);
    v.push(KliveSegmentId::ChStripState);
    v.push(KliveSegmentId::MixerMeter);
    v.push(KliveSegmentId::HwState);
    v.push(KliveSegmentId::ReverbMeter);
    v.push(KliveSegmentId::ChStripMeter);
    proof {
        assert(v@ =~= spec_klive_registry());
    }
    v
}

/// The position of a segment in the registry order.
pub open spec fn spec_klive_registry_index(id: KliveSegmentId) -> int {
    match id {
        KliveSegmentId::Knob => 0,
        KliveSegmentId::Config => 1,
        KliveSegmentId::MixerState => 2,
        KliveSegmentId::ReverbState => 3,
        KliveSegmentId::ChStripState => 4,
        KliveSegmentId::MixerMeter => 5,
        KliveSegmentId::HwState => 6,
        KliveSegmentId::ReverbMeter => 7,
        KliveSegmentId::ChStripMeter => 8,
    }
}

/// The segments a notification mask marks stale, in registry order: a
/// segment is in the result if and only if its flag shares a bit with
/// `mask`.  Segments without a flag are never selected, and no segment
/// appears twice.
pub fn klive_notified_segments(mask: u32) -> (r: Vec<KliveSegmentId>)
    ensures
        forall|id: KliveSegmentId|
            r@.contains(id) <==> segment_notified(spec_klive_segment_descriptor(id), mask),
        forall|j1: int, j2: int|
            0 <= j1 < j2 < r@.len() ==> spec_klive_registry_index(r@[j1])
                < spec_klive_registry_index(r@[j2]),
{
    let reg = klive_registry();
    let count: usize = reg.len();
    let mut out: Vec<KliveSegmentId> = Vec::new();
    let mut k: usize = 0;
    while k < count
        invariant
            count == 9,
            reg@ == spec_klive_registry(),
            0 <= k <= count,
            forall|j: int|
                0 <= j < out@.len() ==> spec_klive_registry_index(out@[j]) < k
                    && segment_notified(spec_klive_segment_descriptor(out@[j]), mask),
            forall|i: int|
                0 <= i < k && segment_notified(spec_klive_segment_descriptor(reg@[i]), mask)
                    ==> out@.contains(reg@[i]),
            forall|j1: int, j2: int|
                0 <= j1 < j2 < out@.len() ==> spec_klive_registry_index(out@[j1])
                    < spec_klive_registry_index(out@[j2]),
        decreases count - k,
    {
        let ghost prev = out@;
        let id = reg[k];
        let d = klive_segment_descriptor(id);
        if descriptor_matches_mask(&d, mask) {
            out.push(id);
            proof {
                assert(spec_klive_registry_index(id) == k as int);
                assert forall|i: int|
                    0 <= i < k + 1 && segment_notified(
                    spec_klive_segment_descriptor(reg@[i]),
                    mask,
                ) implies out@.contains(reg@[i]) by {
                    if i < k {
                        let w = choose|w: int| 0 <= w < prev.len() && prev[w] == reg@[i];
                        assert(out@[w] == reg@[i]);
                    } else {
                        assert(out@[out@.len() - 1] == id);
                    }
                }
            }
        }
        k = k + 1;
    }
    proof {
        assert forall|id: KliveSegmentId|
            out@.contains(id) <==> segment_notified(
            spec_klive_segment_descriptor(id),
            mask,
        ) by {
            let i = spec_klive_registry_index(id);
            assert(spec_klive_registry()[i] == id);
        }
    }
    out
}

impl KliveSegments {
    /// Every segment state carries the shape its codec expects.
    pub open spec fn wf(self) -> bool {
        &&& self.mixer_state.data.wf()
        &&& self.ch_strip_state.data.wf()
        &&& self.mixer_meter.data.wf()
        &&& self.ch_strip_meter.data.wf()
    }

    /// All segments in their default state, as when the owning control
    /// object is constructed and before the first load.
    pub fn new_default() -> (r: Self)
        ensures
            r.wf(),
            r.knob.data.out_01_impedance == OutputImpedance::Unbalance,
            r.knob.data.out_23_impedance == OutputImpedance::Unbalance,
            r.config.data.standalone_src == ShellStandaloneClkSrc::Internal,
            !r.mixer_state.data.enabled,
            r.mixer_state.data.ch_strip_src == ChStripSrc::NoSource,
            r.reverb_state.data.0.algorithm
                == crate::tcelectronic::reverb::ReverbAlgorithm::Live1,
            r.hw_state.data.0.firewire_led == FireWireLedState::Off,
    {
        KliveSegments {
            knob: TcKonnektSegment { data: KliveKnob::default() },
            config: TcKonnektSegment { data: KliveConfig::default() },
            mixer_state: TcKonnektSegment { data: KliveMixerState::new_default() },
            reverb_state: TcKonnektSegment { data: KliveReverbState(ReverbState::default()) },
            ch_strip_state: TcKonnektSegment { data: KliveChStripStates::new_default() },
            mixer_meter: TcKonnektSegment { data: KliveMixerMeter::new_default() },
            hw_state: TcKonnektSegment {
                data: KliveHwState(
                    ShellHwState {
                        analog_jack_0: ShellAnalogJackState::default(),
                        analog_jack_1: ShellAnalogJackState::default(),
                        firewire_led: FireWireLedState::default(),
                    },
                ),
            },
            reverb_meter: TcKonnektSegment { data: KliveReverbMeter(ReverbMeter::default()) },
            ch_strip_meter: TcKonnektSegment { data: KliveChStripMeters::new_default() },
        }
    }

    /// Build the write image of one segment: a scratch buffer of exactly
    /// the segment's size holding the canonical encoding of its current
    /// state, reserved bytes zero.  Parsing the image reproduces the state.
    pub fn build_segment(&self, id: KliveSegmentId) -> (r: Vec<u8>)
        requires
            self.wf(),
        ensures
            r@.len() == spec_klive_segment_descriptor(id).size,
            id == KliveSegmentId::Knob ==> klive_knob_parsed(r@, 0) == self.knob.data,
            id == KliveSegmentId::Config ==> klive_config_parsed(r@, 0) == self.config.data,
            id == KliveSegmentId::MixerState ==> klive_mixer_state_parses_to(
                r@,
                0,
                self.mixer_state.data,
            ),
            id == KliveSegmentId::ReverbState ==> reverb_state_parsed(r@, 0)
                == self.reverb_state.data.0,
            id == KliveSegmentId::ChStripState ==> klive_ch_strip_states_parses_to(
                r@,
                0,
                self.ch_strip_state.data,
            ),
            id == KliveSegmentId::MixerMeter ==> klive_mixer_meter_parses_to(
                r@,
                0,
                self.mixer_meter.data,
            ),
            id == KliveSegmentId::HwState ==> shell_hw_state_parsed(r@, 0)
                == self.hw_state.data.0,
            id == KliveSegmentId::ReverbMeter ==> reverb_meter_parsed(r@, 0)
                == self.reverb_meter.data.0,
            id == KliveSegmentId::ChStripMeter ==> klive_ch_strip_meters_parses_to(
                r@,
                0,
                self.ch_strip_meter.data,
            ),
    {
        let d = klive_segment_descriptor(id);
        let mut scratch = zeroed_vec(d.size);
        match id {
            KliveSegmentId::Knob => self.knob.data.build(&mut scratch),
            KliveSegmentId::Config => self.config.data.build(&mut scratch),
            KliveSegmentId::MixerState => self.mixer_state.data.build(&mut scratch),
            KliveSegmentId::ReverbState => self.reverb_state.data.build(&mut scratch),
            KliveSegmentId::ChStripState => self.ch_strip_state.data.build(&mut scratch),
            KliveSegmentId::MixerMeter => self.mixer_meter.data.build(&mut scratch),
            KliveSegmentId::HwState => self.hw_state.data.build(&mut scratch),
            KliveSegmentId::ReverbMeter => self.reverb_meter.data.build(&mut scratch),
            KliveSegmentId::ChStripMeter => self.ch_strip_meter.data.build(&mut scratch),
        }
        scratch
    }

    /// Feed the bytes read from one segment's window to that segment's
    /// codec.  A buffer of any other length than the segment's fixed size
    /// is a programming error, reported without touching any state; on
    /// success only the addressed segment changes.
    pub fn parse_segment(&mut self, id: KliveSegmentId, raw: &Vec<u8>) -> (r: Result<
        (),
        ProtocolError,
    >)
        requires
            old(self).wf(),
        ensures
            final(self).wf(),
            r is Ok <==> raw@.len() == spec_klive_segment_descriptor(id).size,
            r is Err ==> *final(self) == *old(self) && r == Err::<(), ProtocolError>(
                ProtocolError::SizeMismatch,
            ),
            id != KliveSegmentId::Knob ==> final(self).knob == old(self).knob,
            id != KliveSegmentId::Config ==> final(self).config == old(self).config,
            id != KliveSegmentId::MixerState ==> final(self).mixer_state == old(
                self,
            ).mixer_state,
            id != KliveSegmentId::ReverbState ==> final(self).reverb_state == old(
                self,
            ).reverb_state,
            id != KliveSegmentId::ChStripState ==> final(self).ch_strip_state == old(
                self,
            ).ch_strip_state,
            id != KliveSegmentId::MixerMeter ==> final(self).mixer_meter == old(
                self,
            ).mixer_meter,
            id != KliveSegmentId::HwState ==> final(self).hw_state == old(self).hw_state,
            id != KliveSegmentId::ReverbMeter ==> final(self).reverb_meter == old(
                self,
            ).reverb_meter,
            id != KliveSegmentId::ChStripMeter ==> final(self).ch_strip_meter == old(
                self,
            ).ch_strip_meter,
            r is Ok && id == KliveSegmentId::Knob ==> final(self).knob.data == klive_knob_parsed(
                raw@,
                0,
            ),
            r is Ok && id == KliveSegmentId::Config ==> final(self).config.data
                == klive_config_parsed(raw@, 0),
            r is Ok && id == KliveSegmentId::MixerState ==> klive_mixer_state_parses_to(
                raw@,
                0,
                final(self).mixer_state.data,
            ),
            r is Ok && id == KliveSegmentId::ReverbState ==> final(self).reverb_state.data.0
                == reverb_state_parsed(raw@, 0),
            r is Ok && id == KliveSegmentId::ChStripState ==> klive_ch_strip_states_parses_to(
                raw@,
                0,
                final(self).ch_strip_state.data,
            ),
            r is Ok && id == KliveSegmentId::MixerMeter ==> klive_mixer_meter_parses_to(
                raw@,
                0,
                final(self).mixer_meter.data,
            ),
            r is Ok && id == KliveSegmentId::HwState ==> final(self).hw_state.data.0
                == shell_hw_state_parsed(raw@, 0),
            r is Ok && id == KliveSegmentId::ReverbMeter ==> final(self).reverb_meter.data.0
                == reverb_meter_parsed(raw@, 0),
            r is Ok && id == KliveSegmentId::ChStripMeter ==> klive_ch_strip_meters_parses_to(
                raw@,
                0,
                final(self).ch_strip_meter.data,
            ),
    {
        let d = klive_segment_descriptor(id);
        if raw.len() != d.size {
            return Err(ProtocolError::SizeMismatch);
        }
        match id {
            KliveSegmentId::Knob => self.knob.data.parse(raw),
            KliveSegmentId::Config => self.config.data.parse(raw),
            KliveSegmentId::MixerState => self.mixer_state.data.parse(raw),
            KliveSegmentId::ReverbState => self.reverb_state.data.parse(raw),
            KliveSegmentId::ChStripState => self.ch_strip_state.data.parse(raw),
            KliveSegmentId::MixerMeter => self.mixer_meter.data.parse(raw),
            KliveSegmentId::HwState => self.hw_state.data.parse(raw),
            KliveSegmentId::ReverbMeter => self.reverb_meter.data.parse(raw),
            KliveSegmentId::ChStripMeter => self.ch_strip_meter.data.parse(raw),
        }
        Ok(())
    }
}

impl Default for KliveSegments {
    /// All segments in their default state.
    fn default() -> (r: Self)
        ensures
            r.wf(),
    {
        KliveSegments::new_default()
    }
}

} // verus!
