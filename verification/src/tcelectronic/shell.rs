//! Composite states shared by the shell-family Konnekt models.
//!
//! The knob, configuration, mixer, hardware and meter composites below are
//! embedded by value in the segment layouts of several device models; each
//! has one byte-exact codec, defined here once.

use vstd::prelude::*;
use crate::codec::{
    bool_at, bool_to_quadlet, i32_at, i32_block_build, i32_block_parse, quadlet_at,
    read_bool_quadlet, read_i32_quadlet, read_quadlet, write_bool_quadlet, write_i32_quadlet,
    write_quadlet,
};

verus! {

/// The byte size of the knob segment window.
pub const SHELL_KNOB_SIZE: usize = 36;

/// The number of channel strip effects a shell model carries.
pub const SHELL_CH_STRIP_COUNT: usize = 2;

/// The number of monitor sources of the shell mixer.
pub const SHELL_MIXER_MONITOR_SRC_COUNT: usize = 10;

/// The byte size of the shell mixer state window.
pub const SHELL_MIXER_STATE_SIZE: usize = 316;

/// The byte size of the shell mixer meter window.
pub const SHELL_MIXER_METER_SIZE: usize = 92;

/// The byte size of the shell hardware state window.
pub const SHELL_HW_STATE_SIZE: usize = 28;

/// The notification bit the device raises when the knob segment changed.
pub const SHELL_KNOB_NOTIFY_FLAG: u32 = 0x00010000;

/// The notification bit the device raises when the configuration segment
/// changed.
pub const SHELL_CONFIG_NOTIFY_FLAG: u32 = 0x00020000;

/// The notification bit the device raises when the mixer segment changed.
pub const SHELL_MIXER_NOTIFY_FLAG: u32 = 0x00040000;

/// The notification bit the device raises when the reverb segment changed.
pub const SHELL_REVERB_NOTIFY_FLAG: u32 = 0x00080000;

/// The notification bit the device raises when the channel strip segment
/// changed.
pub const SHELL_CH_STRIP_NOTIFY_FLAG: u32 = 0x00100000;

/// The notification bit the device raises when the hardware state segment
/// changed.
pub const SHELL_HW_STATE_NOTIFY_FLAG: u32 = 0x01000000;

/// The state of the FireWire indicator LED.
#[derive(Clone, Copy, Debug, PartialEq, Eq, Structural)]
pub enum FireWireLedState {
    Off,
    On,
    BlinkFast,
    BlinkSlow,
}

impl FireWireLedState {
    /// The LED state a quadlet value denotes; undocumented values fall back
    /// to the default state rather than failing.
    pub open spec fn spec_decode(val: u32) -> FireWireLedState {
        if val == 1 {
            FireWireLedState::On
        } else if val == 2 {
            FireWireLedState::BlinkFast
        } else if val == 3 {
            FireWireLedState::BlinkSlow
        } else {
            FireWireLedState::Off
        }
    }

    /// The canonical quadlet encoding of an LED state.
    pub open spec fn spec_encode(self) -> u32 {
        match self {
            FireWireLedState::Off => 0,
            FireWireLedState::On => 1,
            FireWireLedState::BlinkFast => 2,
            FireWireLedState::BlinkSlow => 3,
        }
    }

    /// Decode a quadlet value, falling back to the default for any
    /// undocumented encoding.
    pub fn decode(val: u32) -> (r: FireWireLedState)
        ensures
            r == FireWireLedState::spec_decode(val),
    {
        match val {
            1 => FireWireLedState::On,
            2 => FireWireLedState::BlinkFast,
            3 => FireWireLedState::BlinkSlow,
            _ => FireWireLedState::Off,
        }
    }

    /// Encode the LED state as its canonical quadlet value.
    pub fn encode(self) -> (r: u32)
        ensures
            r == self.spec_encode(),
    {
        match self {
            FireWireLedState::Off => 0,
            FireWireLedState::On => 1,
            FireWireLedState::BlinkFast => 2,
            FireWireLedState::BlinkSlow => 3,
        }
    }
}

impl Default for FireWireLedState {
    /// The documented default LED state.
    fn default() -> (r: Self)
        ensures
            r == FireWireLedState::Off,
    {
        FireWireLedState::Off
    }
}

/// Every LED state encoding decodes back to the same state, and every
/// encoding outside the documented domain decodes to the default.
pub proof fn lemma_firewire_led_state_roundtrip(st: FireWireLedState, val: u32)
    ensures
        FireWireLedState::spec_decode(st.spec_encode()) == st,
        val > 3 ==> FireWireLedState::spec_decode(val) == FireWireLedState::Off,
{
}

/// The state of one analog jack of the device.
#[derive(Clone, Copy, Debug, PartialEq, Eq, Structural)]
pub enum ShellAnalogJackState {
    FrontSelected,
    FrontInserted,
    RearSelected,
    RearInserted,
}

impl ShellAnalogJackState {
    /// The jack state a quadlet value denotes; undocumented values fall back
    /// to the default state rather than failing.
    pub open spec fn spec_decode(val: u32) -> ShellAnalogJackState {
        if val == 1 {
            ShellAnalogJackState::FrontInserted
        } else if val == 2 {
            ShellAnalogJackState::RearSelected
        } else if val == 3 {
            ShellAnalogJackState::RearInserted
        } else {
            ShellAnalogJackState::FrontSelected
        }
    }

    /// The canonical quadlet encoding of a jack state.
    pub open spec fn spec_encode(self) -> u32 {
        match self {
            ShellAnalogJackState::FrontSelected => 0,
            ShellAnalogJackState::FrontInserted => 1,
            ShellAnalogJackState::RearSelected => 2,
            ShellAnalogJackState::RearInserted => 3,
        }
    }

    /// Decode a quadlet value, falling back to the default for any
    /// undocumented encoding.
    pub fn decode(val: u32) -> (r: ShellAnalogJackState)
        ensures
            r == ShellAnalogJackState::spec_decode(val),
    {
        match val {
            1 => ShellAnalogJackState::FrontInserted,
            2 => ShellAnalogJackState::RearSelected,
            3 => ShellAnalogJackState::RearInserted,
            _ => ShellAnalogJackState::FrontSelected,
        }
    }

    /// Encode the jack state as its canonical quadlet value.
    pub fn encode(self) -> (r: u32)
        ensures
            r == self.spec_encode(),
    {
        match self {
            ShellAnalogJackState::FrontSelected => 0,
            ShellAnalogJackState::FrontInserted => 1,
            ShellAnalogJackState::RearSelected => 2,
            ShellAnalogJackState::RearInserted => 3,
        }
    }
}

impl Default for ShellAnalogJackState {
    /// The documented default jack state.
    fn default() -> (r: Self)
        ensures
            r == ShellAnalogJackState::FrontSelected,
    {
        ShellAnalogJackState::FrontSelected
    }
}

/// Every jack state encoding decodes back to the same state, and every
/// encoding outside the documented domain decodes to the default.
pub proof fn lemma_analog_jack_state_roundtrip(st: ShellAnalogJackState, val: u32)
    ensures
        ShellAnalogJackState::spec_decode(st.spec_encode()) == st,
        val > 3 ==> ShellAnalogJackState::spec_decode(val) == ShellAnalogJackState::FrontSelected,
{
}

/// State of the hardware window: two analog jack states, then a reserved
/// region a model may overlay, then the FireWire LED.
#[derive(Clone, Copy, Debug, PartialEq, Eq, Structural, Default)]
pub struct ShellHwState {
    pub analog_jack_0: ShellAnalogJackState,
    pub analog_jack_1: ShellAnalogJackState,
    pub firewire_led: FireWireLedState,
}

/// The hardware state encoded by the window at `pos`.
pub open spec fn shell_hw_state_parsed(s: Seq<u8>, pos: int) -> ShellHwState {
    ShellHwState {
        analog_jack_0: ShellAnalogJackState::spec_decode(quadlet_at(s, pos)),
        analog_jack_1: ShellAnalogJackState::spec_decode(quadlet_at(s, pos + 4)),
        firewire_led: FireWireLedState::spec_decode(quadlet_at(s, pos + 20)),
    }
}

impl ShellHwState {
    /// Write the canonical encoding of this state into the window at `pos`.
    /// Only the jack quadlets and the LED quadlet change: the quadlets in
    /// between are left to the model that overlays them, and everything
    /// outside the window is preserved.
    pub fn build(&self, raw: &mut Vec<u8>, pos: usize)
        requires
            pos + SHELL_HW_STATE_SIZE <= old(raw)@.len(),
        ensures
            final(raw)@.len() == old(raw)@.len(),
            forall|i: int|
                0 <= i < old(raw)@.len() && !(pos <= i < pos + 8) && !(pos + 20 <= i < pos + 24)
                    ==> final(raw)@[i] == old(raw)@[i],
            shell_hw_state_parsed(final(raw)@, pos as int) == *self,
            quadlet_at(final(raw)@, pos as int) == self.analog_jack_0.spec_encode(),
            quadlet_at(final(raw)@, pos + 4) == self.analog_jack_1.spec_encode(),
            quadlet_at(final(raw)@, pos + 20) == self.firewire_led.spec_encode(),
    {
        let n: usize = raw.len();
        write_quadlet(raw, pos, self.analog_jack_0.encode());
        write_quadlet(raw, pos + 4, self.analog_jack_1.encode());
        write_quadlet(raw, pos + 20, self.firewire_led.encode());
    }

    /// Replace this state by the one the window at `pos` encodes.
    pub fn parse(&mut self, raw: &Vec<u8>, pos: usize)
        requires
            pos + SHELL_HW_STATE_SIZE <= raw@.len(),
        ensures
            *final(self) == shell_hw_state_parsed(raw@, pos as int),
    {
        let n: usize = raw.len();
        self.analog_jack_0 = ShellAnalogJackState::decode(read_quadlet(raw, pos));
        self.analog_jack_1 = ShellAnalogJackState::decode(read_quadlet(raw, pos + 4));
        self.firewire_led = FireWireLedState::decode(read_quadlet(raw, pos + 20));
    }
}

/// The source routed to a physical output pair.
#[derive(Clone, Copy, Debug, PartialEq, Eq, Structural)]
pub enum ShellPhysOutSrc {
    Stream,
    Analog,
    MixerOut,
    MixerSend,
}

impl ShellPhysOutSrc {
    /// The source a quadlet value denotes; undocumented values fall back to
    /// the default source rather than failing.
    pub open spec fn spec_decode(val: u32) -> ShellPhysOutSrc {
        if val == 1 {
            ShellPhysOutSrc::Analog
        } else if val == 2 {
            ShellPhysOutSrc::MixerOut
        } else if val == 3 {
            ShellPhysOutSrc::MixerSend
        } else {
            ShellPhysOutSrc::Stream
        }
    }

    /// The canonical quadlet encoding of a source.
    pub open spec fn spec_encode(self) -> u32 {
        match self {
            ShellPhysOutSrc::Stream => 0,
            ShellPhysOutSrc::Analog => 1,
            ShellPhysOutSrc::MixerOut => 2,
            ShellPhysOutSrc::MixerSend => 3,
        }
    }

    /// Decode a quadlet value, falling back to the default for any
    /// undocumented encoding.
    pub fn decode(val: u32) -> (r: ShellPhysOutSrc)
        ensures
            r == ShellPhysOutSrc::spec_decode(val),
    {
        match val {
            1 => ShellPhysOutSrc::Analog,
            2 => ShellPhysOutSrc::MixerOut,
            3 => ShellPhysOutSrc::MixerSend,
            _ => ShellPhysOutSrc::Stream,
        }
    }

    /// Encode the source as its canonical quadlet value.
    pub fn encode(self) -> (r: u32)
        ensures
            r == self.spec_encode(),
    {
        match self {
            ShellPhysOutSrc::Stream => 0,
            ShellPhysOutSrc::Analog => 1,
            ShellPhysOutSrc::MixerOut => 2,
            ShellPhysOutSrc::MixerSend => 3,
        }
    }
}

impl Default for ShellPhysOutSrc {
    /// The documented default source.
    fn default() -> (r: Self)
        ensures
            r == ShellPhysOutSrc::Stream,
    {
        ShellPhysOutSrc::Stream
    }
}

/// Every output source encoding decodes back to the same source, and
/// every encoding outside the documented domain decodes to the default.
pub proof fn lemma_phys_out_src_roundtrip(src: ShellPhysOutSrc, val: u32)
    ensures
        ShellPhysOutSrc::spec_decode(src.spec_encode()) == src,
        val > 3 ==> ShellPhysOutSrc::spec_decode(val) == ShellPhysOutSrc::Stream,
{
}

/// The source routed to the coaxial output pair.
#[derive(Clone, Copy, Debug, PartialEq, Eq, Structural, Default)]
pub struct ShellCoaxOutPairSrc(pub ShellPhysOutSrc);

/// The format a shell optical interface runs.
#[derive(Clone, Copy, Debug, PartialEq, Eq, Structural)]
pub enum ShellOptIfaceFormat {
    Adat,
    Spdif,
}

impl ShellOptIfaceFormat {
    /// The format a quadlet value denotes; undocumented values fall back to
    /// the default format rather than failing.
    pub open spec fn spec_decode(val: u32) -> ShellOptIfaceFormat {
        if val == 1 {
            ShellOptIfaceFormat::Spdif
        } else {
            ShellOptIfaceFormat::Adat
        }
    }

    /// The canonical quadlet encoding of a format.
    pub open spec fn spec_encode(self) -> u32 {
        match self {
            ShellOptIfaceFormat::Adat => 0,
            ShellOptIfaceFormat::Spdif => 1,
        }
    }

    /// Decode a quadlet value, falling back to the default for any
    /// undocumented encoding.
    pub fn decode(val: u32) -> (r: ShellOptIfaceFormat)
        ensures
            r == ShellOptIfaceFormat::spec_decode(val),
    {
        if val == 1 {
            ShellOptIfaceFormat::Spdif
        } else {
            ShellOptIfaceFormat::Adat
        }
    }

    /// Encode the format as its canonical quadlet value.
    pub fn encode(self) -> (r: u32)
        ensures
            r == self.spec_encode(),
    {
        match self {
            ShellOptIfaceFormat::Adat => 0,
            ShellOptIfaceFormat::Spdif => 1,
        }
    }
}

impl Default for ShellOptIfaceFormat {
    /// The documented default format.
    fn default() -> (r: Self)
        ensures
            r == ShellOptIfaceFormat::Adat,
    {
        ShellOptIfaceFormat::Adat
    }
}

/// Every format encoding decodes back to the same format, and every
/// encoding outside the documented domain decodes to the default.
pub proof fn lemma_opt_iface_format_roundtrip(fmt: ShellOptIfaceFormat, val: u32)
    ensures
        ShellOptIfaceFormat::spec_decode(fmt.spec_encode()) == fmt,
        val > 1 ==> ShellOptIfaceFormat::spec_decode(val) == ShellOptIfaceFormat::Adat,
{
}

/// Configuration of the optical interfaces: input format, output format,
/// and whether the optical link is enabled.
#[derive(Clone, Copy, Debug, PartialEq, Eq, Structural, Default)]
pub struct ShellOptIfaceConfig {
    pub input_format: ShellOptIfaceFormat,
    pub output_format: ShellOptIfaceFormat,
    pub link_enabled: bool,
}

/// The optical interface configuration encoded at `pos`.
pub open spec fn shell_opt_iface_config_parsed(s: Seq<u8>, pos: int) -> ShellOptIfaceConfig {
    ShellOptIfaceConfig {
        input_format: ShellOptIfaceFormat::spec_decode(quadlet_at(s, pos)),
        output_format: ShellOptIfaceFormat::spec_decode(quadlet_at(s, pos + 4)),
        link_enabled: bool_at(s, pos + 8),
    }
}

impl ShellOptIfaceConfig {
    /// Write the canonical encoding of this configuration at `pos`; parsing
    /// the result reproduces it and no byte outside it changes.
    pub fn build(&self, raw: &mut Vec<u8>, pos: usize)
        requires
            pos + 12 <= old(raw)@.len(),
        ensures
            final(raw)@.len() == old(raw)@.len(),
            forall|i: int|
                0 <= i < old(raw)@.len() && !(pos <= i < pos + 12) ==> final(raw)@[i] == old(
                    raw,
                )@[i],
            shell_opt_iface_config_parsed(final(raw)@, pos as int) == *self,
            quadlet_at(final(raw)@, pos as int) == self.input_format.spec_encode(),
            quadlet_at(final(raw)@, pos + 4) == self.output_format.spec_encode(),
            quadlet_at(final(raw)@, pos + 8) == bool_to_quadlet(self.link_enabled),
    {
        let n: usize = raw.len();
        write_quadlet(raw, pos, self.input_format.encode());
        write_quadlet(raw, pos + 4, self.output_format.encode());
        write_bool_quadlet(raw, pos + 8, self.link_enabled);
    }

    /// Replace this configuration by the one encoded at `pos`.
    pub fn parse(&mut self, raw: &Vec<u8>, pos: usize)
        requires
            pos + 12 <= raw@.len(),
        ensures
            *final(self) == shell_opt_iface_config_parsed(raw@, pos as int),
    {
        let n: usize = raw.len();
        self.input_format = ShellOptIfaceFormat::decode(read_quadlet(raw, pos));
        self.output_format = ShellOptIfaceFormat::decode(read_quadlet(raw, pos + 4));
        self.link_enabled = read_bool_quadlet(raw, pos + 8);
    }
}

/// The pair of stream channels fed to the mixer.
#[derive(Clone, Copy, Debug, PartialEq, Eq, Structural)]
pub enum ShellMixerStreamSrcPair {
    Stream01,
    Stream23,
    Stream45,
    Stream67,
    Stream89,
    Stream1011,
}

impl ShellMixerStreamSrcPair {
    /// The pair a quadlet value denotes; undocumented values fall back to
    /// the default pair rather than failing.
    pub open spec fn spec_decode(val: u32) -> ShellMixerStreamSrcPair {
        if val == 1 {
            ShellMixerStreamSrcPair::Stream23
        } else if val == 2 {
            ShellMixerStreamSrcPair::Stream45
        } else if val == 3 {
            ShellMixerStreamSrcPair::Stream67
        } else if val == 4 {
            ShellMixerStreamSrcPair::Stream89
        } else if val == 5 {
            ShellMixerStreamSrcPair::Stream1011
        } else {
            ShellMixerStreamSrcPair::Stream01
        }
    }

    /// The canonical quadlet encoding of a pair.
    pub open spec fn spec_encode(self) -> u32 {
        match self {
            ShellMixerStreamSrcPair::Stream01 => 0,
            ShellMixerStreamSrcPair::Stream23 => 1,
            ShellMixerStreamSrcPair::Stream45 => 2,
            ShellMixerStreamSrcPair::Stream67 => 3,
            ShellMixerStreamSrcPair::Stream89 => 4,
            ShellMixerStreamSrcPair::Stream1011 => 5,
        }
    }

    /// Decode a quadlet value, falling back to the default for any
    /// undocumented encoding.
    pub fn decode(val: u32) -> (r: ShellMixerStreamSrcPair)
        ensures
            r == ShellMixerStreamSrcPair::spec_decode(val),
    {
        match val {
            1 => ShellMixerStreamSrcPair::Stream23,
            2 => ShellMixerStreamSrcPair::Stream45,
            3 => ShellMixerStreamSrcPair::Stream67,
            4 => ShellMixerStreamSrcPair::Stream89,
            5 => ShellMixerStreamSrcPair::Stream1011,
            _ => ShellMixerStreamSrcPair::Stream01,
        }
    }

    /// Encode the pair as its canonical quadlet value.
    pub fn encode(self) -> (r: u32)
        ensures
            r == self.spec_encode(),
    {
        match self {
            ShellMixerStreamSrcPair::Stream01 => 0,
            ShellMixerStreamSrcPair::Stream23 => 1,
            ShellMixerStreamSrcPair::Stream45 => 2,
            ShellMixerStreamSrcPair::Stream67 => 3,
            ShellMixerStreamSrcPair::Stream89 => 4,
            ShellMixerStreamSrcPair::Stream1011 => 5,
        }
    }
}

impl Default for ShellMixerStreamSrcPair {
    /// The documented default pair.
    fn default() -> (r: Self)
        ensures
            r == ShellMixerStreamSrcPair::Stream01,
    {
        ShellMixerStreamSrcPair::Stream01
    }
}

/// Every stream pair encoding decodes back to the same pair, and every
/// encoding outside the documented domain decodes to the default.
pub proof fn lemma_mixer_stream_src_pair_roundtrip(pair: ShellMixerStreamSrcPair, val: u32)
    ensures
        ShellMixerStreamSrcPair::spec_decode(pair.spec_encode()) == pair,
        val > 5 ==> ShellMixerStreamSrcPair::spec_decode(val)
            == ShellMixerStreamSrcPair::Stream01,
{
}

/// The source of the sampling clock in standalone mode.
#[derive(Clone, Copy, Debug, PartialEq, Eq, Structural)]
pub enum ShellStandaloneClkSrc {
    Optical,
    Coaxial,
    Internal,
}

impl ShellStandaloneClkSrc {
    /// The source a quadlet value denotes; undocumented values fall back to
    /// the internal clock rather than failing.
    pub open spec fn spec_decode(val: u32) -> ShellStandaloneClkSrc {
        if val == 0 {
            ShellStandaloneClkSrc::Optical
        } else if val == 1 {
            ShellStandaloneClkSrc::Coaxial
        } else {
            ShellStandaloneClkSrc::Internal
        }
    }

    /// The canonical quadlet encoding of a source.
    pub open spec fn spec_encode(self) -> u32 {
        match self {
            ShellStandaloneClkSrc::Optical => 0,
            ShellStandaloneClkSrc::Coaxial => 1,
            ShellStandaloneClkSrc::Internal => 2,
        }
    }

    /// Decode a quadlet value, falling back to the default for any
    /// undocumented encoding.
    pub fn decode(val: u32) -> (r: ShellStandaloneClkSrc)
        ensures
            r == ShellStandaloneClkSrc::spec_decode(val),
    {
        match val {
            0 => ShellStandaloneClkSrc::Optical,
            1 => ShellStandaloneClkSrc::Coaxial,
            _ => ShellStandaloneClkSrc::Internal,
        }
    }

    /// Encode the source as its canonical quadlet value.
    pub fn encode(self) -> (r: u32)
        ensures
            r == self.spec_encode(),
    {
        match self {
            ShellStandaloneClkSrc::Optical => 0,
            ShellStandaloneClkSrc::Coaxial => 1,
            ShellStandaloneClkSrc::Internal => 2,
        }
    }
}

impl Default for ShellStandaloneClkSrc {
    /// The documented default source.
    fn default() -> (r: Self)
        ensures
            r == ShellStandaloneClkSrc::Internal,
    {
        ShellStandaloneClkSrc::Internal
    }
}

/// Every clock source encoding decodes back to the same source; the
/// fallback for values outside the documented domain is the internal
/// clock, which is also the default source.
pub proof fn lemma_standalone_clk_src_roundtrip(src: ShellStandaloneClkSrc, val: u32)
    ensures
        ShellStandaloneClkSrc::spec_decode(src.spec_encode()) == src,
        val > 2 ==> ShellStandaloneClkSrc::spec_decode(val) == ShellStandaloneClkSrc::Internal,
{
}

/// The rate of the sampling clock in standalone mode.
#[derive(Clone, Copy, Debug, PartialEq, Eq, Structural)]
pub enum TcKonnektStandaloneClkRate {
    R44100,
    R48000,
    R88200,
    R96000,
}

impl TcKonnektStandaloneClkRate {
    /// The rate a quadlet value denotes; undocumented values fall back to
    /// the default rate rather than failing.
    pub open spec fn spec_decode(val: u32) -> TcKonnektStandaloneClkRate {
        if val == 1 {
            TcKonnektStandaloneClkRate::R48000
        } else if val == 2 {
            TcKonnektStandaloneClkRate::R88200
        } else if val == 3 {
            TcKonnektStandaloneClkRate::R96000
        } else {
            TcKonnektStandaloneClkRate::R44100
        }
    }

    /// The canonical quadlet encoding of a rate.
    pub open spec fn spec_encode(self) -> u32 {
        match self {
            TcKonnektStandaloneClkRate::R44100 => 0,
            TcKonnektStandaloneClkRate::R48000 => 1,
            TcKonnektStandaloneClkRate::R88200 => 2,
            TcKonnektStandaloneClkRate::R96000 => 3,
        }
    }

    /// Decode a quadlet value, falling back to the default for any
    /// undocumented encoding.
    pub fn decode(val: u32) -> (r: TcKonnektStandaloneClkRate)
        ensures
            r == TcKonnektStandaloneClkRate::spec_decode(val),
    {
        match val {
            1 => TcKonnektStandaloneClkRate::R48000,
            2 => TcKonnektStandaloneClkRate::R88200,
            3 => TcKonnektStandaloneClkRate::R96000,
            _ => TcKonnektStandaloneClkRate::R44100,
        }
    }

    /// Encode the rate as its canonical quadlet value.
    pub fn encode(self) -> (r: u32)
        ensures
            r == self.spec_encode(),
    {
        match self {
            TcKonnektStandaloneClkRate::R44100 => 0,
            TcKonnektStandaloneClkRate::R48000 => 1,
            TcKonnektStandaloneClkRate::R88200 => 2,
            TcKonnektStandaloneClkRate::R96000 => 3,
        }
    }
}

impl Default for TcKonnektStandaloneClkRate {
    /// The documented default rate.
    fn default() -> (r: Self)
        ensures
            r == TcKonnektStandaloneClkRate::R44100,
    {
        TcKonnektStandaloneClkRate::R44100
    }
}

/// Every clock rate encoding decodes back to the same rate, and every
/// encoding outside the documented domain decodes to the default.
pub proof fn lemma_standalone_clk_rate_roundtrip(rate: TcKonnektStandaloneClkRate, val: u32)
    ensures
        TcKonnektStandaloneClkRate::spec_decode(rate.spec_encode()) == rate,
        val > 3 ==> TcKonnektStandaloneClkRate::spec_decode(val)
            == TcKonnektStandaloneClkRate::R44100,
{
}

/// The program the device loaded last.
#[derive(Clone, Copy, Debug, PartialEq, Eq, Structural, Default)]
pub struct TcKonnektLoadedProgram(pub u32);

impl TcKonnektLoadedProgram {
    /// Write this program index as a quadlet at `pos`; only that quadlet
    /// changes and it reads back unchanged.
    pub fn build(&self, raw: &mut Vec<u8>, pos: usize)
        requires
            pos + 4 <= old(raw)@.len(),
        ensures
            final(raw)@.len() == old(raw)@.len(),
            forall|i: int|
                0 <= i < old(raw)@.len() && !(pos <= i < pos + 4) ==> final(raw)@[i] == old(
                    raw,
                )@[i],
            quadlet_at(final(raw)@, pos as int) == self.0,
    {
        write_quadlet(raw, pos, self.0);
    }

    /// Replace this program index by the quadlet at `pos`.
    pub fn parse(&mut self, raw: &Vec<u8>, pos: usize)
        requires
            pos + 4 <= raw@.len(),
        ensures
            final(self).0 == quadlet_at(raw@, pos as int),
    {
        self.0 = read_quadlet(raw, pos);
    }
}

/// The target the large knob controls, as the raw quadlet the device
/// reports; which values are meaningful differs per model.
#[derive(Clone, Copy, Debug, PartialEq, Eq, Structural, Default)]
pub struct ShellKnobTarget(pub u32);

/// The target the second knob controls, as the raw quadlet the device
/// reports; the number of targets differs per model.
#[derive(Clone, Copy, Debug, PartialEq, Eq, Structural, Default)]
pub struct ShellKnob2Target(pub u32);

/// Parameters of the MIDI event sender of the device.
#[derive(Clone, Copy, Debug, PartialEq, Eq, Structural, Default)]
pub struct TcKonnektMidiSender {
    pub normal_ch: u32,
    pub normal_cc: u32,
    pub normal_send: bool,
    pub event_ch: u32,
    pub event_cc: u32,
    pub event_send: bool,
    pub send_to_stream: bool,
}

/// The MIDI sender parameters encoded at `pos`.
pub open spec fn midi_sender_parsed(s: Seq<u8>, pos: int) -> TcKonnektMidiSender {
    TcKonnektMidiSender {
        normal_ch: quadlet_at(s, pos),
        normal_cc: quadlet_at(s, pos + 4),
        normal_send: bool_at(s, pos + 8),
        event_ch: quadlet_at(s, pos + 12),
        event_cc: quadlet_at(s, pos + 16),
        event_send: bool_at(s, pos + 20),
        send_to_stream: bool_at(s, pos + 24),
    }
}

impl TcKonnektMidiSender {
    /// Write the canonical encoding of these parameters at `pos`.  Parsing
    /// the result reproduces them; the two trailing reserved quadlets and
    /// every byte outside the window are preserved.
    pub fn build(&self, raw: &mut Vec<u8>, pos: usize)
        requires
            pos + 36 <= old(raw)@.len(),
        ensures
            final(raw)@.len() == old(raw)@.len(),
            forall|i: int|
                0 <= i < old(raw)@.len() && !(pos <= i < pos + 28) ==> final(raw)@[i] == old(
                    raw,
                )@[i],
            midi_sender_parsed(final(raw)@, pos as int) == *self,
            quadlet_at(final(raw)@, pos + 8) == bool_to_quadlet(self.normal_send),
            quadlet_at(final(raw)@, pos + 20) == bool_to_quadlet(self.event_send),
            quadlet_at(final(raw)@, pos + 24) == bool_to_quadlet(self.send_to_stream),
    {
        let n: usize = raw.len();
        write_quadlet(raw, pos, self.normal_ch);
        write_quadlet(raw, pos + 4, self.normal_cc);
        write_bool_quadlet(raw, pos + 8, self.normal_send);
        write_quadlet(raw, pos + 12, self.event_ch);
        write_quadlet(raw, pos + 16, self.event_cc);
        write_bool_quadlet(raw, pos + 20, self.event_send);
        write_bool_quadlet(raw, pos + 24, self.send_to_stream);
    }

    /// Replace these parameters by the ones encoded at `pos`.
    pub fn parse(&mut self, raw: &Vec<u8>, pos: usize)
        requires
            pos + 36 <= raw@.len(),
        ensures
            *final(self) == midi_sender_parsed(raw@, pos as int),
    {
        let n: usize = raw.len();
        self.normal_ch = read_quadlet(raw, pos);
        self.normal_cc = read_quadlet(raw, pos + 4);
        self.normal_send = read_bool_quadlet(raw, pos + 8);
        self.event_ch = read_quadlet(raw, pos + 12);
        self.event_cc = read_quadlet(raw, pos + 16);
        self.event_send = read_bool_quadlet(raw, pos + 20);
        self.send_to_stream = read_bool_quadlet(raw, pos + 24);
    }
}

/// The parameter of the return from the reverb effect into the mixer.
#[derive(Clone, Copy, Debug, PartialEq, Eq, Structural, Default)]
pub struct ShellReverbReturn {
    pub plugin_mode: bool,
    pub return_gain: i32,
    pub return_mute: bool,
}

/// The reverb return parameters encoded at `pos`.
pub open spec fn shell_reverb_return_parsed(s: Seq<u8>, pos: int) -> ShellReverbReturn {
    ShellReverbReturn {
        plugin_mode: bool_at(s, pos),
        return_gain: i32_at(s, pos + 4),
        return_mute: bool_at(s, pos + 8),
    }
}

impl ShellReverbReturn {
    /// Write the canonical encoding of these parameters at `pos`; parsing
    /// the result reproduces them and no byte outside them changes.
    pub fn build(&self, raw: &mut Vec<u8>, pos: usize)
        requires
            pos + 12 <= old(raw)@.len(),
        ensures
            final(raw)@.len() == old(raw)@.len(),
            forall|i: int|
                0 <= i < old(raw)@.len() && !(pos <= i < pos + 12) ==> final(raw)@[i] == old(
                    raw,
                )@[i],
            shell_reverb_return_parsed(final(raw)@, pos as int) == *self,
            quadlet_at(final(raw)@, pos as int) == bool_to_quadlet(self.plugin_mode),
            quadlet_at(final(raw)@, pos + 8) == bool_to_quadlet(self.return_mute),
    {
        let n: usize = raw.len();
        write_bool_quadlet(raw, pos, self.plugin_mode);
        write_i32_quadlet(raw, pos + 4, self.return_gain);
        write_bool_quadlet(raw, pos + 8, self.return_mute);
    }

    /// Replace these parameters by the ones encoded at `pos`.
    pub fn parse(&mut self, raw: &Vec<u8>, pos: usize)
        requires
            pos + 12 <= raw@.len(),
        ensures
            *final(self) == shell_reverb_return_parsed(raw@, pos as int),
    {
        let n: usize = raw.len();
        self.plugin_mode = read_bool_quadlet(raw, pos);
        self.return_gain = read_i32_quadlet(raw, pos + 4);
        self.return_mute = read_bool_quadlet(raw, pos + 8);
    }
}

/// Mixer parameters of one monitor source.
#[derive(Clone, Copy, Debug, PartialEq, Eq, Structural, Default)]
pub struct ShellMonitorSrcParam {
    pub gain_to_main: i32,
    pub pan_to_main: i32,
    pub gain_to_send: i32,
    pub pan_to_send: i32,
    pub mute: bool,
    pub solo: bool,
    pub enabled: bool,
}

/// The byte size of one monitor source element.
pub const SHELL_MONITOR_SRC_PARAM_SIZE: usize = 28;

/// The monitor source parameters encoded at `pos`.
pub open spec fn shell_monitor_src_param_parsed(s: Seq<u8>, pos: int) -> ShellMonitorSrcParam {
    ShellMonitorSrcParam {
        gain_to_main: i32_at(s, pos),
        pan_to_main: i32_at(s, pos + 4),
        gain_to_send: i32_at(s, pos + 8),
        pan_to_send: i32_at(s, pos + 12),
        mute: bool_at(s, pos + 16),
        solo: bool_at(s, pos + 20),
        enabled: bool_at(s, pos + 24),
    }
}

/// A monitor source read depends only on the bytes of its own element.
pub proof fn lemma_shell_monitor_src_param_parsed_congruence(s1: Seq<u8>, s2: Seq<u8>, pos: int)
    requires
        forall|i: int| pos <= i < pos + SHELL_MONITOR_SRC_PARAM_SIZE ==> s1[i] == s2[i],
    ensures
        shell_monitor_src_param_parsed(s1, pos) == shell_monitor_src_param_parsed(s2, pos),
{
    assert(forall|p: int|
        pos <= p && p + 4 <= pos + SHELL_MONITOR_SRC_PARAM_SIZE ==> quadlet_at(s1, p)
            == quadlet_at(s2, p));
}

impl ShellMonitorSrcParam {
    /// Write the canonical encoding of these parameters at `pos`; parsing
    /// the result reproduces them and no byte outside them changes.
    pub fn build(&self, raw: &mut Vec<u8>, pos: usize)
        requires
            pos + SHELL_MONITOR_SRC_PARAM_SIZE <= old(raw)@.len(),
        ensures
            final(raw)@.len() == old(raw)@.len(),
            forall|i: int|
                0 <= i < old(raw)@.len() && !(pos <= i < pos + 28) ==> final(raw)@[i] == old(
                    raw,
                )@[i],
            shell_monitor_src_param_parsed(final(raw)@, pos as int) == *self,
            quadlet_at(final(raw)@, pos + 16) == bool_to_quadlet(self.mute),
            quadlet_at(final(raw)@, pos + 20) == bool_to_quadlet(self.solo),
            quadlet_at(final(raw)@, pos + 24) == bool_to_quadlet(self.enabled),
    {
        let n: usize = raw.len();
        write_i32_quadlet(raw, pos, self.gain_to_main);
        write_i32_quadlet(raw, pos + 4, self.pan_to_main);
        write_i32_quadlet(raw, pos + 8, self.gain_to_send);
        write_i32_quadlet(raw, pos + 12, self.pan_to_send);
        write_bool_quadlet(raw, pos + 16, self.mute);
        write_bool_quadlet(raw, pos + 20, self.solo);
        write_bool_quadlet(raw, pos + 24, self.enabled);
    }

    /// Replace these parameters by the ones encoded at `pos`.
    pub fn parse(&mut self, raw: &Vec<u8>, pos: usize)
        requires
            pos + SHELL_MONITOR_SRC_PARAM_SIZE <= raw@.len(),
        ensures
            *final(self) == shell_monitor_src_param_parsed(raw@, pos as int),
    {
        let n: usize = raw.len();
        self.gain_to_main = read_i32_quadlet(raw, pos);
        self.pan_to_main = read_i32_quadlet(raw, pos + 4);
        self.gain_to_send = read_i32_quadlet(raw, pos + 8);
        self.pan_to_send = read_i32_quadlet(raw, pos + 12);
        self.mute = read_bool_quadlet(raw, pos + 16);
        self.solo = read_bool_quadlet(raw, pos + 20);
        self.enabled = read_bool_quadlet(raw, pos + 24);
    }
}

/// State of the shell mixer: parameters of every monitor source, then the
/// output stage, then three reserved quadlets.
///
/// The ten monitor source slots are coded uniformly; which physical
/// source — stream, analog or digital — each slot carries differs per
/// model and is a fact of the surrounding driver's tables, not of the
/// wire format.
#[derive(Clone, Debug, PartialEq, Eq, Default)]
pub struct ShellMixerState {
    pub monitor_srcs: Vec<ShellMonitorSrcParam>,
    pub stream_gain: i32,
    pub stream_mute: bool,
    pub main_gain: i32,
    pub main_mute: bool,
    pub monitor_gain: i32,
    pub monitor_mute: bool,
}

impl ShellMixerState {
    /// A well-formed mixer state carries one parameter set per monitor
    /// source.
    pub open spec fn wf(self) -> bool {
        self.monitor_srcs@.len() == SHELL_MIXER_MONITOR_SRC_COUNT
    }

    /// A mixer state populated with defaults, one parameter set per monitor
    /// source.
    pub fn new_default() -> (r: Self)
        ensures
            r.wf(),
            forall|k: int|
                0 <= k < SHELL_MIXER_MONITOR_SRC_COUNT ==> r.monitor_srcs@[k]
                    == ShellMonitorSrcParam::spec_default(),
            r.stream_gain == 0i32 && !r.stream_mute,
            r.main_gain == 0i32 && !r.main_mute,
            r.monitor_gain == 0i32 && !r.monitor_mute,
    {
        let mut srcs: Vec<ShellMonitorSrcParam> = Vec::new();
        let mut k: usize = 0;
        while k < SHELL_MIXER_MONITOR_SRC_COUNT
            invariant
                0 <= k <= SHELL_MIXER_MONITOR_SRC_COUNT,
                srcs@.len() == k,
                forall|j: int| 0 <= j < k ==> srcs@[j] == ShellMonitorSrcParam::spec_default(),
            decreases SHELL_MIXER_MONITOR_SRC_COUNT - k,
        {
            srcs.push(
                ShellMonitorSrcParam {
                    gain_to_main: 0,
                    pan_to_main: 0,
                    gain_to_send: 0,
                    pan_to_send: 0,
                    mute: false,
                    solo: false,
                    enabled: false,
                },
            );
            k = k + 1;
        }
        ShellMixerState {
            monitor_srcs: srcs,
            stream_gain: 0,
            stream_mute: false,
            main_gain: 0,
            main_mute: false,
            monitor_gain: 0,
            monitor_mute: false,
        }
    }

    /// Write the canonical encoding of this state into the window at `pos`:
    /// monitor source `k` at `pos + k * SHELL_MONITOR_SRC_PARAM_SIZE`, the
    /// output stage after them.  Parsing the result reproduces this state;
    /// the three trailing reserved quadlets and every byte outside the
    /// window are preserved.
    pub fn build(&self, raw: &mut Vec<u8>, pos: usize)
        requires
            self.wf(),
            pos + SHELL_MIXER_STATE_SIZE <= old(raw)@.len(),
        ensures
            final(raw)@.len() == old(raw)@.len(),
            forall|i: int|
                0 <= i < old(raw)@.len() && !(pos <= i < pos + 304) ==> final(raw)@[i] == old(
                    raw,
                )@[i],
            forall|k: int|
                0 <= k < SHELL_MIXER_MONITOR_SRC_COUNT ==> shell_monitor_src_param_parsed(
                    final(raw)@,
                    pos + k * SHELL_MONITOR_SRC_PARAM_SIZE,
                ) == self.monitor_srcs@[k],
            i32_at(final(raw)@, pos + 280) == self.stream_gain,
            bool_at(final(raw)@, pos + 284) == self.stream_mute,
            i32_at(final(raw)@, pos + 288) == self.main_gain,
            bool_at(final(raw)@, pos + 292) == self.main_mute,
            i32_at(final(raw)@, pos + 296) == self.monitor_gain,
            bool_at(final(raw)@, pos + 300) == self.monitor_mute,
            quadlet_at(final(raw)@, pos + 284) == bool_to_quadlet(self.stream_mute),
            quadlet_at(final(raw)@, pos + 292) == bool_to_quadlet(self.main_mute),
            quadlet_at(final(raw)@, pos + 300) == bool_to_quadlet(self.monitor_mute),
    {
        let n: usize = raw.len();
        let count: usize = self.monitor_srcs.len();
        let mut k: usize = 0;
        let mut base: usize = pos;
        while k < count
            invariant
                n == old(raw)@.len(),
                count == SHELL_MIXER_MONITOR_SRC_COUNT,
                count == self.monitor_srcs@.len(),
                0 <= k <= count,
                base == pos + k * SHELL_MONITOR_SRC_PARAM_SIZE,
                pos + SHELL_MIXER_STATE_SIZE <= raw@.len(),
                raw@.len() == old(raw)@.len(),
                forall|i: int|
                    0 <= i < old(raw)@.len() && !(pos <= i < pos + k
                        * SHELL_MONITOR_SRC_PARAM_SIZE) ==> raw@[i] == old(raw)@[i],
                forall|j: int|
                    0 <= j < k ==> shell_monitor_src_param_parsed(
                        raw@,
                        pos + j * SHELL_MONITOR_SRC_PARAM_SIZE,
                    ) == self.monitor_srcs@[j],
            decreases count - k,
        {
            let ghost prev = raw@;
            self.monitor_srcs[k].build(raw, base);
            proof {
                assert forall|j: int|
                    0 <= j < k + 1 implies shell_monitor_src_param_parsed(
                    raw@,
                    pos + j * SHELL_MONITOR_SRC_PARAM_SIZE,
                ) == self.monitor_srcs@[j] by {
                    if j < k {
                        lemma_shell_monitor_src_param_parsed_congruence(
                            raw@,
                            prev,
                            pos + j * SHELL_MONITOR_SRC_PARAM_SIZE,
                        );
                    }
                }
            }
            k = k + 1;
            base = base + SHELL_MONITOR_SRC_PARAM_SIZE;
        }
        write_i32_quadlet(raw, pos + 280, self.stream_gain);
        write_bool_quadlet(raw, pos + 284, self.stream_mute);
        write_i32_quadlet(raw, pos + 288, self.main_gain);
        write_bool_quadlet(raw, pos + 292, self.main_mute);
        write_i32_quadlet(raw, pos + 296, self.monitor_gain);
        write_bool_quadlet(raw, pos + 300, self.monitor_mute);
        proof {
            assert forall|j: int|
                0 <= j < SHELL_MIXER_MONITOR_SRC_COUNT implies shell_monitor_src_param_parsed(
                final(raw)@,
                pos + j * SHELL_MONITOR_SRC_PARAM_SIZE,
            ) == self.monitor_srcs@[j] by {
                lemma_shell_monitor_src_param_parsed_congruence(
                    final(raw)@,
                    raw@,
                    pos + j * SHELL_MONITOR_SRC_PARAM_SIZE,
                );
            }
        }
    }

    /// Replace this state by the one the window at `pos` encodes.
    pub fn parse(&mut self, raw: &Vec<u8>, pos: usize)
        requires
            old(self).wf(),
            pos + SHELL_MIXER_STATE_SIZE <= raw@.len(),
        ensures
            final(self).wf(),
            forall|k: int|
                0 <= k < SHELL_MIXER_MONITOR_SRC_COUNT ==> final(self).monitor_srcs@[k]
                    == shell_monitor_src_param_parsed(
                    raw@,
                    pos + k * SHELL_MONITOR_SRC_PARAM_SIZE,
                ),
            final(self).stream_gain == i32_at(raw@, pos + 280),
            final(self).stream_mute == bool_at(raw@, pos + 284),
            final(self).main_gain == i32_at(raw@, pos + 288),
            final(self).main_mute == bool_at(raw@, pos + 292),
            final(self).monitor_gain == i32_at(raw@, pos + 296),
            final(self).monitor_mute == bool_at(raw@, pos + 300),
    {
        let n: usize = raw.len();
        let count: usize = self.monitor_srcs.len();
        let mut k: usize = 0;
        let mut base: usize = pos;
        while k < count
            invariant
                n == raw@.len(),
                count == SHELL_MIXER_MONITOR_SRC_COUNT,
                self.monitor_srcs@.len() == count,
                0 <= k <= count,
                base == pos + k * SHELL_MONITOR_SRC_PARAM_SIZE,
                pos + SHELL_MIXER_STATE_SIZE <= raw@.len(),
                forall|j: int|
                    0 <= j < k ==> self.monitor_srcs@[j] == shell_monitor_src_param_parsed(
                        raw@,
                        pos + j * SHELL_MONITOR_SRC_PARAM_SIZE,
                    ),
            decreases count - k,
        {
            let mut param = self.monitor_srcs[k];
            param.parse(raw, base);
            self.monitor_srcs.set(k, param);
            k = k + 1;
            base = base + SHELL_MONITOR_SRC_PARAM_SIZE;
        }
        self.stream_gain = read_i32_quadlet(raw, pos + 280);
        self.stream_mute = read_bool_quadlet(raw, pos + 284);
        self.main_gain = read_i32_quadlet(raw, pos + 288);
        self.main_mute = read_bool_quadlet(raw, pos + 292);
        self.monitor_gain = read_i32_quadlet(raw, pos + 296);
        self.monitor_mute = read_bool_quadlet(raw, pos + 300);
    }
}

impl ShellMonitorSrcParam {
    /// The default parameter set: silent, centered and disabled.
    pub open spec fn spec_default() -> ShellMonitorSrcParam {
        ShellMonitorSrcParam {
            gain_to_main: 0i32,
            pan_to_main: 0i32,
            gain_to_send: 0i32,
            pan_to_send: 0i32,
            mute: false,
            solo: false,
            enabled: false,
        }
    }
}

/// Levels reported by the shell mixer.  The analog and digital regions have
/// a fixed capacity; a model fills the number of inputs it has.
#[derive(Clone, Debug, PartialEq, Eq, Default)]
pub struct ShellMixerMeter {
    pub stream_inputs: Vec<i32>,
    pub analog_inputs: Vec<i32>,
    pub digital_inputs: Vec<i32>,
    pub main_outputs: Vec<i32>,
}

/// The capacity of the analog input region of the meter window, in
/// quadlets.
pub const SHELL_MIXER_METER_ANALOG_INPUT_CAPACITY: usize = 8;

/// The capacity of the digital input region of the meter window, in
/// quadlets.
pub const SHELL_MIXER_METER_DIGITAL_INPUT_CAPACITY: usize = 8;

impl ShellMixerMeter {
    /// A well-formed meter carries two stream levels, two main levels, and
    /// at most the region capacity of analog and digital levels.
    pub open spec fn wf(self) -> bool {
        &&& self.stream_inputs@.len() == 2
        &&& self.analog_inputs@.len() <= SHELL_MIXER_METER_ANALOG_INPUT_CAPACITY
        &&& self.digital_inputs@.len() <= SHELL_MIXER_METER_DIGITAL_INPUT_CAPACITY
        &&& self.main_outputs@.len() == 2
    }

    /// A zero meter for a model with the given numbers of analog and
    /// digital inputs.
    pub fn new_zeroed(analog_count: usize, digital_count: usize) -> (r: Self)
        requires
            analog_count <= SHELL_MIXER_METER_ANALOG_INPUT_CAPACITY,
            digital_count <= SHELL_MIXER_METER_DIGITAL_INPUT_CAPACITY,
        ensures
            r.wf(),
            r.analog_inputs@.len() == analog_count,
            r.digital_inputs@.len() == digital_count,
            forall|k: int| 0 <= k < 2 ==> r.stream_inputs@[k] == 0i32,
            forall|k: int| 0 <= k < analog_count ==> r.analog_inputs@[k] == 0i32,
            forall|k: int| 0 <= k < digital_count ==> r.digital_inputs@[k] == 0i32,
            forall|k: int| 0 <= k < 2 ==> r.main_outputs@[k] == 0i32,
    {
        let mut stream: Vec<i32> = Vec::new();
        stream.push(0);
        stream.push(0);
        let mut analog: Vec<i32> = Vec::new();
        let mut k: usize = 0;
        while k < analog_count
            invariant
                0 <= k <= analog_count,
                analog@.len() == k,
                forall|j: int| 0 <= j < k ==> analog@[j] == 0i32,
            decreases analog_count - k,
        {
            analog.push(0);
            k = k + 1;
        }
        let mut digital: Vec<i32> = Vec::new();
        let mut m: usize = 0;
        while m < digital_count
            invariant
                0 <= m <= digital_count,
                digital@.len() == m,
                forall|j: int| 0 <= j < m ==> digital@[j] == 0i32,
            decreases digital_count - m,
        {
            digital.push(0);
            m = m + 1;
        }
        let mut main: Vec<i32> = Vec::new();
        main.push(0);
        main.push(0);
        ShellMixerMeter {
            stream_inputs: stream,
            analog_inputs: analog,
            digital_inputs: digital,
            main_outputs: main,
        }
    }

    /// Write the encoding of this meter into the window at `pos`: stream
    /// levels first, then the analog region, the digital region and the
    /// main levels, each region at its fixed offset.  Parsing the result
    /// with the same counts reproduces this meter.
    pub fn build(&self, raw: &mut Vec<u8>, pos: usize)
        requires
            self.wf(),
            pos + SHELL_MIXER_METER_SIZE <= old(raw)@.len(),
        ensures
            final(raw)@.len() == old(raw)@.len(),
            forall|i: int|
                0 <= i < old(raw)@.len() && !(pos <= i < pos + 80) ==> final(raw)@[i] == old(
                    raw,
                )@[i],
            forall|k: int|
                0 <= k < 2 ==> i32_at(final(raw)@, pos + 4 * k) == self.stream_inputs@[k],
            forall|k: int|
                0 <= k < self.analog_inputs@.len() ==> i32_at(final(raw)@, pos + 8 + 4 * k)
                    == self.analog_inputs@[k],
            forall|k: int|
                0 <= k < self.digital_inputs@.len() ==> i32_at(final(raw)@, pos + 40 + 4 * k)
                    == self.digital_inputs@[k],
            forall|k: int|
                0 <= k < 2 ==> i32_at(final(raw)@, pos + 72 + 4 * k) == self.main_outputs@[k],
    {
        let n: usize = raw.len();
        i32_block_build(&self.stream_inputs, raw, pos);
        i32_block_build(&self.analog_inputs, raw, pos + 8);
        i32_block_build(&self.digital_inputs, raw, pos + 40);
        i32_block_build(&self.main_outputs, raw, pos + 72);
    }

    /// Replace this meter by the one the window at `pos` encodes, keeping
    /// the per-model numbers of analog and digital inputs.
    pub fn parse(&mut self, raw: &Vec<u8>, pos: usize)
        requires
            old(self).wf(),
            pos + SHELL_MIXER_METER_SIZE <= raw@.len(),
        ensures
            final(self).wf(),
            final(self).analog_inputs@.len() == old(self).analog_inputs@.len(),
            final(self).digital_inputs@.len() == old(self).digital_inputs@.len(),
            forall|k: int| 0 <= k < 2 ==> final(self).stream_inputs@[k] == i32_at(raw@, pos + 4 * k),
            forall|k: int|
                0 <= k < old(self).analog_inputs@.len() ==> final(self).analog_inputs@[k]
                    == i32_at(raw@, pos + 8 + 4 * k),
            forall|k: int|
                0 <= k < old(self).digital_inputs@.len() ==> final(self).digital_inputs@[k]
                    == i32_at(raw@, pos + 40 + 4 * k),
            forall|k: int| 0 <= k < 2 ==> final(self).main_outputs@[k] == i32_at(raw@, pos + 72 + 4 * k),
    {
        let n: usize = raw.len();
        let analog_count: usize = self.analog_inputs.len();
        let digital_count: usize = self.digital_inputs.len();
        i32_block_parse(&mut self.stream_inputs, raw, pos, 2);
        i32_block_parse(&mut self.analog_inputs, raw, pos + 8, analog_count);
        i32_block_parse(&mut self.digital_inputs, raw, pos + 40, digital_count);
        i32_block_parse(&mut self.main_outputs, raw, pos + 72, 2);
    }
}

} // verus!
