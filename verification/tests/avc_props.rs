//! AV/C feature codec and the mute sentinel convention.

use firewire_ctl::avc_audio::{
    AudioCh, AudioFeature, CtlAttr, FeatureCtl, NEG_INFINITY,
};
use firewire_ctl::ctls::{
    ctl_value_to_volume, mute_control_op, mute_from_response, mute_status_op, volume_control_op,
    volume_from_response, volume_status_op, volume_to_ctl_value, CTL_VALUE_MUTE,
};
use firewire_ctl::ProtocolError;

#[test]
fn volume_control_frame_is_byte_exact() {
    let op = volume_control_op(0x02, AudioCh::Each(1), -1234);
    let ops = op.build_operands();
    // Feature block type, block ID, current attribute, channel 1 encoded
    // as 2, volume selector, two data bytes, the level big-endian.
    assert_eq!(ops, vec![0x81, 0x02, 0x10, 0x02, 0x02, 0x02, 0xfb, 0x2e]);
}

#[test]
fn mute_control_frame_is_byte_exact() {
    let op = mute_control_op(0x01, AudioCh::All, true);
    let ops = op.build_operands();
    assert_eq!(ops, vec![0x81, 0x01, 0x10, 0x00, 0x01, 0x01, 0x70]);
}

#[test]
fn volume_response_roundtrips_through_parse() {
    let mut op = volume_status_op(0x02, CtlAttr::Current, AudioCh::Each(1));
    let frame = vec![0x81, 0x02, 0x10, 0x02, 0x02, 0x02, 0x80, 0x00];
    op.parse_operands(&frame).unwrap();
    assert_eq!(volume_from_response(&op), Ok(NEG_INFINITY));
}

#[test]
fn mute_response_roundtrips_through_parse() {
    let mut op = mute_status_op(0x01, AudioCh::All);
    let frame = vec![0x81, 0x01, 0x10, 0x00, 0x01, 0x01, 0x70];
    op.parse_operands(&frame).unwrap();
    assert_eq!(mute_from_response(&op), Ok(true));
}

#[test]
fn malformed_responses_fail_loudly() {
    // Wrong selector for a volume operation.
    let mut op = volume_status_op(0x02, CtlAttr::Current, AudioCh::All);
    let wrong_selector = vec![0x81, 0x02, 0x10, 0x00, 0x01, 0x02, 0x00, 0x00];
    assert_eq!(op.parse_operands(&wrong_selector), Err(ProtocolError::DecodeViolation));

    // Odd volume data length.
    let odd_len = vec![0x81, 0x02, 0x10, 0x00, 0x02, 0x01, 0x00];
    assert_eq!(op.parse_operands(&odd_len), Err(ProtocolError::DecodeViolation));

    // Wrong function block ID.
    let wrong_fb = vec![0x81, 0x07, 0x10, 0x00, 0x02, 0x02, 0x00, 0x00];
    assert_eq!(op.parse_operands(&wrong_fb), Err(ProtocolError::DecodeViolation));

    // An undecodable mute data byte.
    let mut mop = mute_status_op(0x01, AudioCh::All);
    let bad_byte = vec![0x81, 0x01, 0x10, 0x00, 0x01, 0x01, 0x55];
    assert_eq!(mop.parse_operands(&bad_byte), Err(ProtocolError::DecodeViolation));

    // A truncated frame.
    let short = vec![0x81, 0x01];
    assert_eq!(mop.parse_operands(&short), Err(ProtocolError::DecodeViolation));

    // The payload kind is preserved on failure.
    assert!(matches!(mop.ctl, FeatureCtl::Mute(_)));
}

#[test]
fn mute_sentinel_maps_to_dedicated_control_value() {
    // The library's dedicated mute value is the outside convention's.
    assert_eq!(CTL_VALUE_MUTE, alsa_ctl_tlv_codec::CTL_VALUE_MUTE);
    assert_eq!(volume_to_ctl_value(NEG_INFINITY), CTL_VALUE_MUTE);
    assert_eq!(ctl_value_to_volume(CTL_VALUE_MUTE), NEG_INFINITY);
    // Numeric levels pass through unchanged and never collide with mute.
    assert_eq!(volume_to_ctl_value(-1234), -1234);
    assert_eq!(volume_to_ctl_value(0), 0);
    assert_ne!(volume_to_ctl_value(i16::MIN + 1), CTL_VALUE_MUTE);
    assert_eq!(ctl_value_to_volume(-1234), -1234);
    // No numeric control value encodes the sentinel: values that would
    // truncate onto its bit pattern are clamped to the lowest level.
    assert_eq!(ctl_value_to_volume(-32768), -32767);
    assert_eq!(ctl_value_to_volume(-32768 - 65536), -32767);
    assert_ne!(ctl_value_to_volume(i32::MIN), NEG_INFINITY);
    // Round trip through the host value is the identity.
    assert_eq!(ctl_value_to_volume(volume_to_ctl_value(-32767)), -32767);
    assert_eq!(ctl_value_to_volume(volume_to_ctl_value(NEG_INFINITY)), NEG_INFINITY);
}

#[test]
fn status_placeholder_payloads() {
    let vop = volume_status_op(0x03, CtlAttr::Minimum, AudioCh::All);
    assert_eq!(vop.fb_id, 0x03);
    assert_eq!(vop.ctl_attr, CtlAttr::Minimum);
    assert!(matches!(vop.ctl, FeatureCtl::Volume(ref v) if v == &vec![-1i16]));
    let frame = vop.build_operands();
    assert_eq!(frame[2], 0x02);

    let direct = AudioFeature::new(
        0x03,
        CtlAttr::Maximum,
        AudioCh::Each(0),
        FeatureCtl::Volume(vec![-1]),
    );
    assert_eq!(direct.build_operands()[2], 0x03);
}
