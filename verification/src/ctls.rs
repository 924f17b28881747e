//! Control-surface value logic.
//!
//! The surrounding driver exposes the device as control elements looked up
//! by name.  The functions here carry the per-element decisions: how a
//! wire-level volume maps to a control value and back around the mute
//! sentinel, which feature function block and channel an element index
//! addresses on each model, and which value each panel element reports.

use vstd::prelude::*;
use crate::avc_audio::{AudioCh, AudioFeature, CtlAttr, FeatureCtl, NEG_INFINITY};
use crate::tcelectronic::desktop::{DesktopMeter, DesktopPanel};
use crate::ProtocolError;

verus! {

/// The control value that stands for a muted channel on the host side,
/// distinct from every numeric volume.
pub const CTL_VALUE_MUTE: i32 = -9999999;

/// Relies on `alsa_ctl_tlv_codec::CTL_VALUE_MUTE`: the control value
/// reserved for mute in the ALSA TLV convention, -9999999.
#[verifier::external_body]
fn ctl_value_mute() -> (r: i32)
    ensures
        r == CTL_VALUE_MUTE,
{
    alsa_ctl_tlv_codec::CTL_VALUE_MUTE
}

/// The control value a wire volume surfaces as: the mute sentinel becomes
/// the dedicated mute control value, every other level is the level
/// itself.
pub open spec fn spec_volume_to_ctl(vol: i16) -> i32 {
    if vol == NEG_INFINITY {
        CTL_VALUE_MUTE
    } else {
        vol as i32
    }
}

/// The lowest numeric wire level, one above the mute sentinel.
pub const VOLUME_NUMERIC_MIN: i16 = -32767;

/// The wire volume a control value encodes as: the dedicated mute control
/// value becomes the mute sentinel, every other value is truncated to the
/// signed 16-bit level — except that a value whose truncation would
/// collide with the sentinel's bit pattern is clamped to the lowest
/// numeric level, so that only the dedicated mute value ever encodes the
/// sentinel.
pub open spec fn spec_ctl_to_volume(val: i32) -> i16 {
    if val == CTL_VALUE_MUTE {
        NEG_INFINITY
    } else if (val as i16) == NEG_INFINITY {
        VOLUME_NUMERIC_MIN
    } else {
        val as i16
    }
}

/// Surface a wire volume as a control value, muting through the dedicated
/// mute control value.
pub fn volume_to_ctl_value(vol: i16) -> (r: i32)
    ensures
        r == spec_volume_to_ctl(vol),
{
    if vol == NEG_INFINITY {
        ctl_value_mute()
    } else {
        vol as i32
    }
}

/// Encode a control value as a wire volume, mapping the dedicated mute
/// control value to the mute sentinel and clamping any other value off
/// the sentinel's bit pattern: a numeric control value never encodes the
/// sentinel.
pub fn ctl_value_to_volume(val: i32) -> (r: i16)
    ensures
        r == spec_ctl_to_volume(val),
        val != CTL_VALUE_MUTE ==> r != NEG_INFINITY,
{
    let mute = ctl_value_mute();
    if val == mute {
        NEG_INFINITY
    } else {
        let level = #[verifier::truncate] (val as i16);
        if level == NEG_INFINITY {
            VOLUME_NUMERIC_MIN
        } else {
            level
        }
    }
}

/// The mute sentinel law: the sentinel surfaces as the dedicated mute
/// value and decodes back to the sentinel; no numeric level surfaces as
/// the mute value; no control value other than the dedicated mute value
/// encodes the sentinel; and round-tripping any wire volume through the
/// control value is the identity.
pub proof fn lemma_volume_mute_sentinel(vol: i16, val: i32)
    ensures
        spec_volume_to_ctl(NEG_INFINITY) == CTL_VALUE_MUTE,
        spec_ctl_to_volume(CTL_VALUE_MUTE) == NEG_INFINITY,
        vol != NEG_INFINITY ==> spec_volume_to_ctl(vol) != CTL_VALUE_MUTE,
        val != CTL_VALUE_MUTE ==> spec_ctl_to_volume(val) != NEG_INFINITY,
        spec_ctl_to_volume(spec_volume_to_ctl(vol)) == vol,
{
}

/// The number of outputs the Scratchamp volume element covers.
pub const STANTON_OUTPUT_COUNT: usize = 6;

/// The feature function block and audio channel one Scratchamp output
/// index addresses: outputs pair up on function blocks one to three, left
/// and right on channels zero and one.
pub fn stanton_output_fb_and_ch(idx: usize) -> (r: (u8, u8))
    requires
        idx < STANTON_OUTPUT_COUNT,
    ensures
        r.0 as int == idx / 2 + 1,
        r.1 as int == idx % 2,
{
    ((idx / 2 + 1) as u8, (idx % 2) as u8)
}

/// The number of playback channels of the Griffin model.
pub const GRIFFIN_CHANNEL_COUNT: usize = 6;

/// The function block ID of the Griffin volume control.
pub const GRIFFIN_VOL_FB_ID: u8 = 0x02;

/// The function block ID of the Griffin mute control.
pub const GRIFFIN_MUTE_FB_ID: u8 = 0x01;

/// The function block ID of the LaCie volume and mute control.
pub const LACIE_FB_ID: u8 = 0x01;

/// The device channel one Griffin element index addresses: the element
/// order interleaves the rear pair between the front and center pairs.
pub open spec fn spec_griffin_device_channel(idx: int) -> int {
    if idx == 2 {
        4
    } else if idx == 3 {
        5
    } else if idx == 4 {
        2
    } else if idx == 5 {
        3
    } else {
        idx
    }
}

/// The device channel one Griffin element index addresses.
pub fn griffin_device_channel(idx: usize) -> (r: u8)
    requires
        idx < GRIFFIN_CHANNEL_COUNT,
    ensures
        r as int == spec_griffin_device_channel(idx as int),
{
    if idx == 2 {
        4
    } else if idx == 3 {
        5
    } else if idx == 4 {
        2
    } else if idx == 5 {
        3
    } else {
        idx as u8
    }
}

/// A status command reading the given attribute of one volume control,
/// with the placeholder payload the convention sends.
pub fn volume_status_op(fb_id: u8, attr: CtlAttr, ch: AudioCh) -> (r: AudioFeature)
    requires
        ch.wf(),
    ensures
        r.wf(),
        r.fb_id == fb_id,
        r.ctl_attr == attr,
        r.audio_ch == ch,
        (match r.ctl {
            FeatureCtl::Volume(v) => v@ == seq![-1i16],
            FeatureCtl::Mute(_) => false,
        }),
{
    let mut data: Vec<i16> = Vec::new();
    data.push(-1);
    AudioFeature::new(fb_id, attr, ch, FeatureCtl::Volume(data))
}

/// A control command setting the current level of one volume control.
pub fn volume_control_op(fb_id: u8, ch: AudioCh, vol: i16) -> (r: AudioFeature)
    requires
        ch.wf(),
    ensures
        r.wf(),
        r.fb_id == fb_id,
        r.ctl_attr == CtlAttr::Current,
        r.audio_ch == ch,
        (match r.ctl {
            FeatureCtl::Volume(v) => v@ == seq![vol],
            FeatureCtl::Mute(_) => false,
        }),
{
    let mut data: Vec<i16> = Vec::new();
    data.push(vol);
    AudioFeature::new(fb_id, CtlAttr::Current, ch, FeatureCtl::Volume(data))
}

/// A status command reading the current state of one mute control, with
/// the placeholder payload the convention sends.
pub fn mute_status_op(fb_id: u8, ch: AudioCh) -> (r: AudioFeature)
    requires
        ch.wf(),
    ensures
        r.wf(),
        r.fb_id == fb_id,
        r.ctl_attr == CtlAttr::Current,
        r.audio_ch == ch,
        (match r.ctl {
            FeatureCtl::Mute(m) => m@ == seq![false],
            FeatureCtl::Volume(_) => false,
        }),
{
    let mut data: Vec<bool> = Vec::new();
    data.push(false);
    AudioFeature::new(fb_id, CtlAttr::Current, ch, FeatureCtl::Mute(data))
}

/// A control command setting the current state of one mute control.
pub fn mute_control_op(fb_id: u8, ch: AudioCh, mute: bool) -> (r: AudioFeature)
    requires
        ch.wf(),
    ensures
        r.wf(),
        r.fb_id == fb_id,
        r.ctl_attr == CtlAttr::Current,
        r.audio_ch == ch,
        (match r.ctl {
            FeatureCtl::Mute(m) => m@ == seq![mute],
            FeatureCtl::Volume(_) => false,
        }),
{
    let mut data: Vec<bool> = Vec::new();
    data.push(mute);
    AudioFeature::new(fb_id, CtlAttr::Current, ch, FeatureCtl::Mute(data))
}

/// The first volume level of a decoded response.  A response of any other
/// payload kind is a protocol violation reported as an explicit error,
/// never an unreachable branch.
pub fn volume_from_response(op: &AudioFeature) -> (r: Result<i16, ProtocolError>)
    ensures
        match op.ctl {
            FeatureCtl::Volume(v) => if v@.len() >= 1 {
                r == Ok::<i16, ProtocolError>(v@[0])
            } else {
                r == Err::<i16, ProtocolError>(ProtocolError::DecodeViolation)
            },
            FeatureCtl::Mute(_) => r == Err::<i16, ProtocolError>(
                ProtocolError::DecodeViolation,
            ),
        },
{
    match &op.ctl {
        FeatureCtl::Volume(data) => {
            if data.len() >= 1 {
                Ok(data[0])
            } else {
                Err(ProtocolError::DecodeViolation)
            }
        },
        FeatureCtl::Mute(_) => Err(ProtocolError::DecodeViolation),
    }
}

/// The first mute flag of a decoded response.  A response of any other
/// payload kind is a protocol violation reported as an explicit error,
/// never an unreachable branch.
pub fn mute_from_response(op: &AudioFeature) -> (r: Result<bool, ProtocolError>)
    ensures
        match op.ctl {
            FeatureCtl::Mute(m) => if m@.len() >= 1 {
                r == Ok::<bool, ProtocolError>(m@[0])
            } else {
                r == Err::<bool, ProtocolError>(ProtocolError::DecodeViolation)
            },
            FeatureCtl::Volume(_) => r == Err::<bool, ProtocolError>(
                ProtocolError::DecodeViolation,
            ),
        },
{
    match &op.ctl {
        FeatureCtl::Mute(data) => {
            if data.len() >= 1 {
                Ok(data[0])
            } else {
                Err(ProtocolError::DecodeViolation)
            }
        },
        FeatureCtl::Volume(_) => Err(ProtocolError::DecodeViolation),
    }
}

/// The indices at which a newly written multi-value element differs from
/// the old value, in ascending order: exactly those channels are sent to
/// the device on a user write.
pub fn changed_indices(new_vals: &Vec<i32>, old_vals: &Vec<i32>) -> (r: Vec<usize>)
    requires
        new_vals@.len() == old_vals@.len(),
    ensures
        forall|j: int|
            0 <= j < r@.len() ==> (r@[j] as int) < new_vals@.len() && new_vals@[r@[j] as int]
                != old_vals@[r@[j] as int],
        forall|i: int|
            0 <= i < new_vals@.len() && new_vals@[i] != old_vals@[i] ==> r@.contains(i as usize),
        forall|j1: int, j2: int| 0 <= j1 < j2 < r@.len() ==> r@[j1] < r@[j2],
{
    let count: usize = new_vals.len();
    let mut out: Vec<usize> = Vec::new();
    let mut k: usize = 0;
    while k < count
        invariant
            count == new_vals@.len(),
            count == old_vals@.len(),
            0 <= k <= count,
            forall|j: int|
                0 <= j < out@.len() ==> (out@[j] as int) < k && new_vals@[out@[j] as int]
                    != old_vals@[out@[j] as int],
            forall|i: int|
                0 <= i < k && new_vals@[i] != old_vals@[i] ==> out@.contains(i as usize),
            forall|j1: int, j2: int| 0 <= j1 < j2 < out@.len() ==> out@[j1] < out@[j2],
        decreases count - k,
    {
        let ghost prev = out@;
        if new_vals[k] != old_vals[k] {
            out.push(k);
            proof {
                assert forall|i: int|
                    0 <= i < k + 1 && new_vals@[i] != old_vals@[i] implies out@.contains(
                    i as usize,
                ) by {
                    if i < k {
                        let w = choose|w: int| 0 <= w < prev.len() && prev[w] == i as usize;
                        assert(out@[w] == i as usize);
                    } else {
                        assert(out@[out@.len() - 1] == k);
                    }
                }
            }
        }
        k = k + 1;
    }
    out
}

/// A value carried by one control element.
#[derive(Clone, Debug, PartialEq, Eq)]
pub enum CtlValue {
    Int(i32),
    Bool(bool),
}

/// One element of the Desktop Konnekt 6 panel surface.
#[derive(Clone, Copy, Debug, PartialEq, Eq, Structural)]
pub enum DesktopPanelElem {
    PanelButtonCount,
    MainKnobValue,
    PhoneKnobValue,
    MixKnobValue,
    ReverbLedState,
    ReverbKnobValue,
}

impl DesktopPanelElem {
    /// The control element name of this panel element.
    pub open spec fn spec_name(self) -> Seq<char> {
        match self {
            DesktopPanelElem::PanelButtonCount => "panel-button-count"@,
            DesktopPanelElem::MainKnobValue => "main-knob-value"@,
            DesktopPanelElem::PhoneKnobValue => "phone-knob-value"@,
            DesktopPanelElem::MixKnobValue => "mix-knob-value"@,
            DesktopPanelElem::ReverbLedState => "reverb-led-state"@,
            DesktopPanelElem::ReverbKnobValue => "reverb-knob-value"@,
        }
    }

    /// The control element name of this panel element.
    pub fn name(self) -> (r: String)
        ensures
            r@ == self.spec_name(),
    {
        match self {
            DesktopPanelElem::PanelButtonCount => "panel-button-count".to_owned(),
            DesktopPanelElem::MainKnobValue => "main-knob-value".to_owned(),
            DesktopPanelElem::PhoneKnobValue => "phone-knob-value".to_owned(),
            DesktopPanelElem::MixKnobValue => "mix-knob-value".to_owned(),
            DesktopPanelElem::ReverbLedState => "reverb-led-state".to_owned(),
            DesktopPanelElem::ReverbKnobValue => "reverb-knob-value".to_owned(),
        }
    }

    /// The panel element a control element name addresses: `Some` of the
    /// element bearing the name, `None` for a name no panel element bears.
    pub fn of_name(name: &String) -> (r: Option<DesktopPanelElem>)
        ensures
            r matches Some(e) ==> name@ == e.spec_name(),
            r is None ==> forall|e: DesktopPanelElem| name@ != e.spec_name(),
    {
        if *name == DesktopPanelElem::PanelButtonCount.name() {
            Some(DesktopPanelElem::PanelButtonCount)
        } else if *name == DesktopPanelElem::MainKnobValue.name() {
            Some(DesktopPanelElem::MainKnobValue)
        } else if *name == DesktopPanelElem::PhoneKnobValue.name() {
            Some(DesktopPanelElem::PhoneKnobValue)
        } else if *name == DesktopPanelElem::MixKnobValue.name() {
            Some(DesktopPanelElem::MixKnobValue)
        } else if *name == DesktopPanelElem::ReverbLedState.name() {
            Some(DesktopPanelElem::ReverbLedState)
        } else if *name == DesktopPanelElem::ReverbKnobValue.name() {
            Some(DesktopPanelElem::ReverbKnobValue)
        } else {
            proof {
                assert forall|e: DesktopPanelElem| name@ != e.spec_name() by {
                    match e {
                        DesktopPanelElem::PanelButtonCount => {},
                        DesktopPanelElem::MainKnobValue => {},
                        DesktopPanelElem::PhoneKnobValue => {},
                        DesktopPanelElem::MixKnobValue => {},
                        DesktopPanelElem::ReverbLedState => {},
                        DesktopPanelElem::ReverbKnobValue => {},
                    }
                }
            }
            None
        }
    }
}

/// The name of the output volume element of the BeBoB models.
pub fn out_vol_name() -> (r: String)
    ensures
        r@ == "output-volume"@,
{
    "output-volume".to_owned()
}

/// The value a panel element reports from the cached panel state: knob
/// positions and the button count as integers, the reverb indicator as a
/// flag.
pub fn desktop_panel_elem_value(panel: &DesktopPanel, elem: DesktopPanelElem) -> (r: CtlValue)
    ensures
        elem == DesktopPanelElem::PanelButtonCount ==> r == CtlValue::Int(
            panel.panel_button_count as i32,
        ),
        elem == DesktopPanelElem::MainKnobValue ==> r == CtlValue::Int(panel.main_knob_value),
        elem == DesktopPanelElem::PhoneKnobValue ==> r == CtlValue::Int(panel.phone_knob_value),
        elem == DesktopPanelElem::MixKnobValue ==> r == CtlValue::Int(
            panel.mix_knob_value as i32,
        ),
        elem == DesktopPanelElem::ReverbLedState ==> r == CtlValue::Bool(panel.reverb_led_on),
        elem == DesktopPanelElem::ReverbKnobValue ==> r == CtlValue::Int(
            panel.reverb_knob_value,
        ),
{
    match elem {
        DesktopPanelElem::PanelButtonCount => CtlValue::Int(
            #[verifier::truncate]
            (panel.panel_button_count as i32),
        ),
        DesktopPanelElem::MainKnobValue => CtlValue::Int(panel.main_knob_value),
        DesktopPanelElem::PhoneKnobValue => CtlValue::Int(panel.phone_knob_value),
        DesktopPanelElem::MixKnobValue => CtlValue::Int(
            #[verifier::truncate]
            (panel.mix_knob_value as i32),
        ),
        DesktopPanelElem::ReverbLedState => CtlValue::Bool(panel.reverb_led_on),
        DesktopPanelElem::ReverbKnobValue => CtlValue::Int(panel.reverb_knob_value),
    }
}

/// One meter element of the Desktop Konnekt 6 surface.
#[derive(Clone, Copy, Debug, PartialEq, Eq, Structural)]
pub enum DesktopMeterElem {
    AnalogInputMeters,
    MixerOutputMeters,
    StreamInputMeters,
}

impl DesktopMeterElem {
    /// The control element name of this meter element.
    pub open spec fn spec_name(self) -> Seq<char> {
        match self {
            DesktopMeterElem::AnalogInputMeters => "analog-input-meters"@,
            DesktopMeterElem::MixerOutputMeters => "mixer-output-meters"@,
            DesktopMeterElem::StreamInputMeters => "stream-input-meters"@,
        }
    }

    /// The control element name of this meter element.
    pub fn name(self) -> (r: String)
        ensures
            r@ == self.spec_name(),
    {
        match self {
            DesktopMeterElem::AnalogInputMeters => "analog-input-meters".to_owned(),
            DesktopMeterElem::MixerOutputMeters => "mixer-output-meters".to_owned(),
            DesktopMeterElem::StreamInputMeters => "stream-input-meters".to_owned(),
        }
    }
}

/// The levels a meter element reports from the cached meter state.
pub fn desktop_meter_elem_values(meter: &DesktopMeter, elem: DesktopMeterElem) -> (r: Vec<i32>)
    ensures
        elem == DesktopMeterElem::AnalogInputMeters ==> r@ == meter.analog_inputs@,
        elem == DesktopMeterElem::MixerOutputMeters ==> r@ == meter.mixer_outputs@,
        elem == DesktopMeterElem::StreamInputMeters ==> r@ == meter.stream_inputs@,
{
    let src: &Vec<i32> = match elem {
        DesktopMeterElem::AnalogInputMeters => &meter.analog_inputs,
        DesktopMeterElem::MixerOutputMeters => &meter.mixer_outputs,
        DesktopMeterElem::StreamInputMeters => &meter.stream_inputs,
    };
    let count: usize = src.len();
    let mut out: Vec<i32> = Vec::new();
    let mut k: usize = 0;
    while k < count
        invariant
            count == src@.len(),
            0 <= k <= count,
            out@.len() == k,
            forall|j: int| 0 <= j < k ==> out@[j] == src@[j],
        decreases count - k,
    {
        out.push(src[k]);
        k = k + 1;
    }
    proof {
        assert(out@ =~= src@);
    }
    out
}

/// Apply a user write to the one writable panel element: the reverb
/// indicator.  The cached state is mutated before the caller writes the
/// segment back; nothing else changes.
pub fn desktop_panel_set_reverb_led(panel: &mut DesktopPanel, on: bool)
    ensures
        final(panel).reverb_led_on == on,
        final(panel).panel_button_count == old(panel).panel_button_count,
        final(panel).main_knob_value == old(panel).main_knob_value,
        final(panel).phone_knob_value == old(panel).phone_knob_value,
        final(panel).mix_knob_value == old(panel).mix_knob_value,
        final(panel).reverb_knob_value == old(panel).reverb_knob_value,
        final(panel).firewire_led == old(panel).firewire_led,
{
    panel.reverb_led_on = on;
}

} // verus!
