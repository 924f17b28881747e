//! Verified control-protocol core for FireWire audio interfaces.
//!
//! The crate models the register/segment protocol of the DICE (TCAT) device
//! family — fixed-offset, fixed-size windows of a device's address space
//! mirrored host-side as typed state, with byte-exact build/parse codecs and
//! notification-driven refresh — together with the AV/C feature codec for
//! volume and mute controls.  The FireWire transport and the ALSA control
//! framework are outside collaborators: this library computes what to read
//! and write and interprets the bytes; the surrounding driver moves them.
//!
//! Requests to one device must stay strictly ordered: the segment model
//! assumes a single owning execution context per device and is not safe
//! against concurrent read-modify-write of one register window.

pub mod avc_audio;
pub mod codec;
pub mod config_rom;
pub mod models;
pub mod port_ctls;
pub mod ctls;
pub mod maudio;
pub mod tcelectronic;

use vstd::prelude::*;

verus! {

/// The failures a core operation can report.
///
/// Transport failures are surfaced by the surrounding driver and never
/// retried here; the variants below are the core's own.
#[derive(Clone, Copy, Debug, PartialEq, Eq, Structural)]
pub enum ProtocolError {
    /// A buffer handed to a build/parse call does not have the fixed size the
    /// codec was declared with.
    SizeMismatch,
    /// A response shape that cannot be interpreted at all.
    DecodeViolation,
    /// An argument outside the documented domain of an operation.
    InvalidArgument,
    /// The addressed device or datum is not supported.
    NotSupported,
}

} // verus!
