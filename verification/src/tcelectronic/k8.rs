//! Protocol defined by TC Electronic for Konnekt 8.
//!
//! The model mirrors only the shell hardware state segment; it is
//! refreshed on notification like the other shell models.

use vstd::prelude::*;
use crate::codec::{quadlet_at, zeroed_vec};
use crate::tcelectronic::segment::{
    SegmentDescriptor, TcKonnektSegment, descriptor_matches_mask, segment_notified,
};
use crate::tcelectronic::shell::{
    shell_hw_state_parsed, FireWireLedState, ShellAnalogJackState, ShellHwState,
    SHELL_HW_STATE_NOTIFY_FLAG, SHELL_HW_STATE_SIZE,
};
use crate::ProtocolError;

verus! {

/// The byte size of the hardware state segment window.
pub const K8_HW_STATE_SIZE: usize = SHELL_HW_STATE_SIZE;

/// State of the hardware segment of this model.
#[derive(Clone, Copy, Debug, PartialEq, Eq, Structural, Default)]
pub struct K8HwState(pub ShellHwState);

impl K8HwState {
    /// Write the canonical encoding of this state into a hardware window.
    pub fn build(&self, raw: &mut Vec<u8>)
        requires
            old(raw)@.len() == K8_HW_STATE_SIZE,
        ensures
            final(raw)@.len() == old(raw)@.len(),
            forall|i: int|
                0 <= i < old(raw)@.len() && !(0 <= i < 8) && !(20 <= i < 24)
                    ==> final(raw)@[i] == old(raw)@[i],
            shell_hw_state_parsed(final(raw)@, 0) == self.0,
            quadlet_at(final(raw)@, 0) == self.0.analog_jack_0.spec_encode(),
            quadlet_at(final(raw)@, 4) == self.0.analog_jack_1.spec_encode(),
            quadlet_at(final(raw)@, 20) == self.0.firewire_led.spec_encode(),
    {
        self.0.build(raw, 0);
    }

    /// Replace this state by the one a hardware window encodes.
    pub fn parse(&mut self, raw: &Vec<u8>)
        requires
            raw@.len() == K8_HW_STATE_SIZE,
        ensures
            final(self).0 == shell_hw_state_parsed(raw@, 0),
    {
        self.0.parse(raw, 0);
    }
}

/// The segments of the memory space of Konnekt 8.
#[derive(Clone, Copy, Debug, PartialEq, Eq)]
pub struct K8Segments {
    /// Segment for state of hardware.
    pub hw_state: TcKonnektSegment<K8HwState>,
}

/// One segment of the model.
#[derive(Clone, Copy, Debug, PartialEq, Eq, Structural)]
pub enum K8SegmentId {
    HwState,
}

/// The fixed descriptor of one segment of the model.
pub open spec fn spec_k8_segment_descriptor(id: K8SegmentId) -> SegmentDescriptor {
    match id {
        K8SegmentId::HwState => SegmentDescriptor {
            offset: 0x1008,
            size: K8_HW_STATE_SIZE,
            notify_flag: Some(SHELL_HW_STATE_NOTIFY_FLAG),
        },
    }
}

/// The fixed descriptor of one segment of the model: its window offset and
/// size and its notification flag.
pub fn k8_segment_descriptor(id: K8SegmentId) -> (r: SegmentDescriptor)
    ensures
        r == spec_k8_segment_descriptor(id),
{
    match id {
        K8SegmentId::HwState => SegmentDescriptor {
            offset: 0x1008,
            size: K8_HW_STATE_SIZE,
            notify_flag: Some(SHELL_HW_STATE_NOTIFY_FLAG),
        },
    }
}

/// The segments a notification mask marks stale: the hardware segment
/// exactly when its flag shares a bit with `mask`.
pub fn k8_notified_segments(mask: u32) -> (r: Vec<K8SegmentId>)
    ensures
        r@.contains(K8SegmentId::HwState) <==> segment_notified(
            spec_k8_segment_descriptor(K8SegmentId::HwState),
            mask,
        ),
        r@.len() <= 1,
{
    let mut out: Vec<K8SegmentId> = Vec::new();
    let d = k8_segment_descriptor(K8SegmentId::HwState);
    if descriptor_matches_mask(&d, mask) {
        out.push(K8SegmentId::HwState);
    }
    proof {
        if out@.len() > 0 {
            assert(out@[0] == K8SegmentId::HwState);
        }
    }
    out
}

impl K8Segments {
    /// All segments in their default state, as when the owning control
    /// object is constructed and before the first load.
    pub fn new_default() -> (r: Self)
        ensures
            r.hw_state.data.0.firewire_led == FireWireLedState::Off,
    {
        K8Segments {
            hw_state: TcKonnektSegment {
                data: K8HwState(
                    ShellHwState {
                        analog_jack_0: ShellAnalogJackState::default(),
                        analog_jack_1: ShellAnalogJackState::default(),
                        firewire_led: FireWireLedState::default(),
                    },
                ),
            },
        }
    }

    /// Build the write image of one segment: a scratch buffer of exactly
    /// the segment's size holding the canonical encoding of its current
    /// state.  Parsing the image reproduces the state.
    pub fn build_segment(&self, id: K8SegmentId) -> (r: Vec<u8>)
        ensures
            r@.len() == spec_k8_segment_descriptor(id).size,
            id == K8SegmentId::HwState ==> shell_hw_state_parsed(r@, 0) == self.hw_state.data.0,
    {
        let d = k8_segment_descriptor(id);
        let mut scratch = zeroed_vec(d.size);
        match id {
            K8SegmentId::HwState => self.hw_state.data.build(&mut scratch),
        }
        scratch
    }

    /// Feed the bytes read from one segment's window to that segment's
    /// codec.  A buffer of any other length than the segment's fixed size
    /// is a programming error, reported without touching any state.
    pub fn parse_segment(&mut self, id: K8SegmentId, raw: &Vec<u8>) -> (r: Result<
        (),
        ProtocolError,
    >)
        ensures
            r is Ok <==> raw@.len() == spec_k8_segment_descriptor(id).size,
            r is Err ==> *final(self) == *old(self) && r == Err::<(), ProtocolError>(
                ProtocolError::SizeMismatch,
            ),
            r is Ok && id == K8SegmentId::HwState ==> final(self).hw_state.data.0
                == shell_hw_state_parsed(raw@, 0),
    {
        let d = k8_segment_descriptor(id);
        if raw.len() != d.size {
            return Err(ProtocolError::SizeMismatch);
        }
        match id {
            K8SegmentId::HwState => self.hw_state.data.parse(raw),
        }
        Ok(())
    }
}

impl Default for K8Segments {
    /// All segments in their default state.
    fn default() -> (r: Self)
        ensures
            r.hw_state.data.0.firewire_led == FireWireLedState::Off,
    {
        K8Segments::new_default()
    }
}

} // verus!
