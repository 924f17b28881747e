//! AV/C feature function block codec.
//!
//! Volume and mute of an audio subunit are read and written through
//! status/control commands addressing a feature function block by numeric
//! ID and audio channel.  The codec below builds the operand frame of such
//! a command and decodes the response frame; a response whose shape cannot
//! be interpreted is a protocol violation reported as an explicit error,
//! never ignored.  Volume uses a dedicated sentinel for "muted": the most
//! negative representable level stands for negative infinity.

use vstd::prelude::*;
use crate::codec::{i16_at, push_i16_be, read_i16_be};
use crate::ProtocolError;

verus! {

/// The wire encoding of "negative infinity", the volume sentinel that
/// stands for a muted channel.
pub const NEG_INFINITY: i16 = -32768;

/// The function block type code of a feature function block.
pub const FEATURE_FUNCTION_BLOCK_TYPE: u8 = 0x81;

/// The control selector code of the mute control.
pub const MUTE_CONTROL_SELECTOR: u8 = 0x01;

/// The control selector code of the volume control.
pub const VOLUME_CONTROL_SELECTOR: u8 = 0x02;

/// The mute control data byte for a muted channel.
pub const MUTE_ON_BYTE: u8 = 0x70;

/// The mute control data byte for an unmuted channel.
pub const MUTE_OFF_BYTE: u8 = 0x60;

/// The attribute of a control a command addresses.
#[derive(Clone, Copy, Debug, PartialEq, Eq, Structural)]
pub enum CtlAttr {
    Resolution,
    Minimum,
    Maximum,
    Current,
}

impl CtlAttr {
    /// The wire code of an attribute.
    pub open spec fn spec_code(self) -> u8 {
        match self {
            CtlAttr::Resolution => 0x01,
            CtlAttr::Minimum => 0x02,
            CtlAttr::Maximum => 0x03,
            CtlAttr::Current => 0x10,
        }
    }

    /// Encode the attribute as its wire code.
    pub fn code(self) -> (r: u8)
        ensures
            r == self.spec_code(),
    {
        match self {
            CtlAttr::Resolution => 0x01,
            CtlAttr::Minimum => 0x02,
            CtlAttr::Maximum => 0x03,
            CtlAttr::Current => 0x10,
        }
    }
}

/// The audio channel a command addresses: the master channel standing for
/// all channels, or one specific channel by index.
#[derive(Clone, Copy, Debug, PartialEq, Eq, Structural)]
pub enum AudioCh {
    All,
    Each(u8),
}

impl AudioCh {
    /// A specific channel index must leave room for the master encoding.
    pub open spec fn wf(self) -> bool {
        match self {
            AudioCh::All => true,
            AudioCh::Each(ch) => ch < 0xff,
        }
    }

    /// The wire code of a channel: zero for the master channel, the index
    /// shifted up by one for a specific channel.
    pub open spec fn spec_code(self) -> u8 {
        match self {
            AudioCh::All => 0u8,
            AudioCh::Each(ch) => (ch + 1) as u8,
        }
    }

    /// Encode the channel as its wire code.
    pub fn code(self) -> (r: u8)
        requires
            self.wf(),
        ensures
            r == self.spec_code(),
    {
        match self {
            AudioCh::All => 0,
            AudioCh::Each(ch) => ch + 1,
        }
    }
}

/// The payload of a feature control command: a volume level per addressed
/// channel, or a mute flag per addressed channel.
#[derive(Clone, Debug, PartialEq, Eq)]
pub enum FeatureCtl {
    Volume(Vec<i16>),
    Mute(Vec<bool>),
}

impl FeatureCtl {
    /// The control selector code of this payload kind.
    pub open spec fn spec_selector(self) -> u8 {
        match self {
            FeatureCtl::Volume(_) => VOLUME_CONTROL_SELECTOR,
            FeatureCtl::Mute(_) => MUTE_CONTROL_SELECTOR,
        }
    }

    /// The control data byte count of this payload.
    pub open spec fn spec_data_len(self) -> int {
        match self {
            FeatureCtl::Volume(v) => 2 * (v@.len() as int),
            FeatureCtl::Mute(m) => m@.len() as int,
        }
    }

    /// A payload must address at least one channel and fit the one-byte
    /// data length field of the frame.
    pub open spec fn wf(self) -> bool {
        match self {
            FeatureCtl::Volume(v) => 1 <= v@.len() && 2 * v@.len() <= 254,
            FeatureCtl::Mute(m) => 1 <= m@.len() && m@.len() <= 254,
        }
    }
}

/// Whether `ctl` holds exactly the control data the frame tail `s` after
/// the six header bytes encodes.
pub open spec fn feature_data_matches(ctl: FeatureCtl, s: Seq<u8>) -> bool {
    match ctl {
        FeatureCtl::Volume(v) => {
            &&& s.len() == 6 + 2 * v@.len()
            &&& forall|k: int| 0 <= k < v@.len() ==> v@[k] == i16_at(s, 6 + 2 * k)
        },
        FeatureCtl::Mute(m) => {
            &&& s.len() == 6 + m@.len()
            &&& forall|k: int| 0 <= k < m@.len() ==> m@[k] == (s[6 + k] == MUTE_ON_BYTE)
        },
    }
}

/// A status or control operation on one feature function block.
#[derive(Clone, Debug, PartialEq, Eq)]
pub struct AudioFeature {
    /// The numeric ID of the addressed function block.
    pub fb_id: u8,
    /// The addressed attribute of the control.
    pub ctl_attr: CtlAttr,
    /// The addressed audio channel.
    pub audio_ch: AudioCh,
    /// The control payload: a placeholder on a status command, the levels
    /// to set on a control command, the device's answer after a response
    /// was decoded.
    pub ctl: FeatureCtl,
}

/// The six header bytes every feature frame of this operation carries.
pub open spec fn feature_header_matches(op: AudioFeature, s: Seq<u8>) -> bool {
    &&& s.len() >= 6
    &&& s[0] == FEATURE_FUNCTION_BLOCK_TYPE
    &&& s[1] == op.fb_id
    &&& s[2] == op.ctl_attr.spec_code()
    &&& s[3] == op.audio_ch.spec_code()
    &&& s[4] == op.ctl.spec_selector()
    &&& s[5] as int == s.len() - 6
}

/// Whether a response frame is acceptable for this operation: the header
/// echoes the command, the data length field is consistent, and the data
/// bytes are decodable for the payload kind.  Any other shape is a
/// protocol violation.
pub open spec fn feature_response_acceptable(op: AudioFeature, s: Seq<u8>) -> bool {
    &&& op.audio_ch.wf()
    &&& feature_header_matches(op, s)
    &&& s.len() <= 260
    &&& match op.ctl {
        FeatureCtl::Volume(_) => (s.len() - 6) % 2 == 0 && s.len() > 6,
        FeatureCtl::Mute(_) => {
            &&& s.len() > 6
            &&& forall|k: int| 6 <= k < s.len() ==> s[k] == MUTE_ON_BYTE || s[k] == MUTE_OFF_BYTE
        },
    }
}

impl AudioFeature {
    /// A well-formed operation has a well-formed channel and payload.
    pub open spec fn wf(self) -> bool {
        &&& self.audio_ch.wf()
        &&& self.ctl.wf()
    }

    /// An operation on one feature function block.
    pub fn new(fb_id: u8, ctl_attr: CtlAttr, audio_ch: AudioCh, ctl: FeatureCtl) -> (r:
        AudioFeature)
        ensures
            r == (AudioFeature { fb_id, ctl_attr, audio_ch, ctl }),
    {
        AudioFeature { fb_id, ctl_attr, audio_ch, ctl }
    }

    /// Build the operand frame of this operation: the six header bytes,
    /// then the control data in wire order.  The frame is an acceptable
    /// response for this same operation, so decoding what was built
    /// reproduces the payload.
    pub fn build_operands(&self) -> (r: Vec<u8>)
        requires
            self.wf(),
        ensures
            feature_header_matches(*self, r@),
            feature_data_matches(self.ctl, r@),
            r@.len() == 6 + self.ctl.spec_data_len(),
            feature_response_acceptable(*self, r@),
    {
        let mut ops: Vec<u8> = Vec::new();
        ops.push(FEATURE_FUNCTION_BLOCK_TYPE);
        ops.push(self.fb_id);
        ops.push(self.ctl_attr.code());
        ops.push(self.audio_ch.code());
        match &self.ctl {
            FeatureCtl::Volume(vols) => {
                ops.push(VOLUME_CONTROL_SELECTOR);
                let count: usize = vols.len();
                ops.push((2 * count) as u8);
                let mut k: usize = 0;
                while k < count
                    invariant
                        count == vols@.len(),
                        2 * count <= 254,
                        0 <= k <= count,
                        ops@.len() == 6 + 2 * k,
                        ops@[0] == FEATURE_FUNCTION_BLOCK_TYPE,
                        ops@[1] == self.fb_id,
                        ops@[2] == self.ctl_attr.spec_code(),
                        ops@[3] == self.audio_ch.spec_code(),
                        ops@[4] == VOLUME_CONTROL_SELECTOR,
                        ops@[5] as int == 2 * count,
                        forall|j: int| 0 <= j < k ==> vols@[j] == i16_at(ops@, 6 + 2 * j),
                    decreases count - k,
                {
                    let ghost prev = ops@;
                    push_i16_be(&mut ops, vols[k]);
                    proof {
                        assert(forall|j: int|
                            0 <= j < k ==> #[trigger] i16_at(ops@, 6 + 2 * j) == i16_at(
                                prev,
                                6 + 2 * j,
                            ));
                    }
                    k = k + 1;
                }
                ops
            },
            FeatureCtl::Mute(mutes) => {
                ops.push(MUTE_CONTROL_SELECTOR);
                let count: usize = mutes.len();
                ops.push(count as u8);
                let mut k: usize = 0;
                while k < count
                    invariant
                        count == mutes@.len(),
                        count <= 254,
                        0 <= k <= count,
                        ops@.len() == 6 + k,
                        ops@[0] == FEATURE_FUNCTION_BLOCK_TYPE,
                        ops@[1] == self.fb_id,
                        ops@[2] == self.ctl_attr.spec_code(),
                        ops@[3] == self.audio_ch.spec_code(),
                        ops@[4] == MUTE_CONTROL_SELECTOR,
                        ops@[5] as int == count,
                        forall|j: int| 0 <= j < k ==> mutes@[j] == (ops@[6 + j] == MUTE_ON_BYTE),
                        forall|j: int|
                            0 <= j < k ==> #[trigger] ops@[6 + j] == MUTE_ON_BYTE || ops@[6 + j]
                                == MUTE_OFF_BYTE,
                    decreases count - k,
                {
                    if mutes[k] {
                        ops.push(MUTE_ON_BYTE);
                    } else {
                        ops.push(MUTE_OFF_BYTE);
                    }
                    k = k + 1;
                }
                proof {
                    assert forall|w: int|
                        6 <= w < ops@.len() implies ops@[w] == MUTE_ON_BYTE || ops@[w]
                        == MUTE_OFF_BYTE by {
                        assert(ops@[6 + (w - 6)] == MUTE_ON_BYTE || ops@[6 + (w - 6)]
                            == MUTE_OFF_BYTE);
                    }
                }
                ops
            },
        }
    }

    /// Decode a response frame.  A frame that does not echo this command's
    /// header, or whose data cannot be interpreted for the payload kind, is
    /// a protocol violation: the operation fails with a decode error and
    /// the payload is left untouched.  On success the payload holds the
    /// channel values the device reported.
    pub fn parse_operands(&mut self, ops: &Vec<u8>) -> (r: Result<(), ProtocolError>)
        ensures
            r is Ok <==> feature_response_acceptable(*old(self), ops@),
            r is Err ==> *final(self) == *old(self) && r == Err::<(), ProtocolError>(
                ProtocolError::DecodeViolation,
            ),
            final(self).fb_id == old(self).fb_id,
            final(self).ctl_attr == old(self).ctl_attr,
            final(self).audio_ch == old(self).audio_ch,
            r is Ok ==> feature_data_matches(final(self).ctl, ops@),
            r is Ok ==> (final(self).ctl is Volume <==> old(self).ctl is Volume),
            r is Ok ==> (final(self).ctl is Mute <==> old(self).ctl is Mute),
    {
        let n: usize = ops.len();
        if n < 6 || n > 260 {
            return Err(ProtocolError::DecodeViolation);
        }
        if ops[0] != FEATURE_FUNCTION_BLOCK_TYPE || ops[1] != self.fb_id {
            return Err(ProtocolError::DecodeViolation);
        }
        if ops[2] != self.ctl_attr.code() {
            return Err(ProtocolError::DecodeViolation);
        }
        let ch_code = match self.audio_ch {
            AudioCh::All => 0u8,
            AudioCh::Each(ch) => {
                if ch == 0xff {
                    return Err(ProtocolError::DecodeViolation);
                }
                ch + 1
            },
        };
        if ops[3] != ch_code {
            return Err(ProtocolError::DecodeViolation);
        }
        if ops[5] as usize != n - 6 {
            return Err(ProtocolError::DecodeViolation);
        }
        let is_volume = match &self.ctl {
            FeatureCtl::Volume(_) => true,
            FeatureCtl::Mute(_) => false,
        };
        if is_volume {
            if ops[4] != VOLUME_CONTROL_SELECTOR {
                return Err(ProtocolError::DecodeViolation);
            }
            if n == 6 || (n - 6) % 2 != 0 {
                return Err(ProtocolError::DecodeViolation);
            }
            let count: usize = (n - 6) / 2;
            let mut vols: Vec<i16> = Vec::new();
            let mut k: usize = 0;
            while k < count
                invariant
                    n == ops@.len(),
                    n == 6 + 2 * count,
                    0 <= k <= count,
                    vols@.len() == k,
                    feature_response_acceptable(*self, ops@),
                    self.ctl is Volume,
                    forall|j: int| 0 <= j < k ==> vols@[j] == i16_at(ops@, 6 + 2 * j),
                decreases count - k,
            {
                vols.push(read_i16_be(ops, 6 + 2 * k));
                k = k + 1;
            }
            self.ctl = FeatureCtl::Volume(vols);
            Ok(())
        } else {
            if ops[4] != MUTE_CONTROL_SELECTOR {
                return Err(ProtocolError::DecodeViolation);
            }
            if n == 6 {
                return Err(ProtocolError::DecodeViolation);
            }
            let count: usize = n - 6;
            let mut mutes: Vec<bool> = Vec::new();
            let mut k: usize = 0;
            while k < count
                invariant
                    n == ops@.len(),
                    n == 6 + count,
                    0 <= k <= count,
                    mutes@.len() == k,
                    feature_header_matches(*self, ops@),
                    self.ctl is Mute,
                    forall|j: int| 0 <= j < k ==> mutes@[j] == (ops@[6 + j] == MUTE_ON_BYTE),
                    forall|j: int|
                        0 <= j < k ==> #[trigger] ops@[6 + j] == MUTE_ON_BYTE || ops@[6 + j]
                            == MUTE_OFF_BYTE,
                decreases count - k,
            {
                let b = ops[6 + k];
                if b == MUTE_ON_BYTE {
                    mutes.push(true);
                } else if b == MUTE_OFF_BYTE {
                    mutes.push(false);
                } else {
                    proof {
                        assert(ops@[6 + k as int] != MUTE_ON_BYTE && ops@[6 + k as int]
                            != MUTE_OFF_BYTE);
                    }
                    return Err(ProtocolError::DecodeViolation);
                }
                k = k + 1;
            }
            proof {
                assert forall|w: int|
                    6 <= w < ops@.len() implies ops@[w] == MUTE_ON_BYTE || ops@[w]
                    == MUTE_OFF_BYTE by {
                    assert(ops@[6 + (w - 6)] == MUTE_ON_BYTE || ops@[6 + (w - 6)]
                        == MUTE_OFF_BYTE);
                }
            }
            self.ctl = FeatureCtl::Mute(mutes);
            Ok(())
        }
    }
}

} // verus!
