//! Segment codecs, registries and notification routing on concrete states.

use firewire_ctl::codec::zeroed_vec;
use firewire_ctl::tcelectronic::ch_strip::{
    ch_strip_states_build, ChStripMode, ChStripSrc, ChStripState, CH_STRIP_STATE_SIZE,
};
use firewire_ctl::tcelectronic::desktop::{
    desktop_notified_segments, DesktopSegmentId, DesktopSegments, DESKTOP_PANEL_NOTIFY_FLAG,
};
use firewire_ctl::tcelectronic::k8::{k8_notified_segments, K8SegmentId, K8Segments};
use firewire_ctl::tcelectronic::itwin::{
    itwin_notified_segments, itwin_segment_descriptor, ItwinSegmentId, ItwinSegments,
    ListeningMode,
};
use firewire_ctl::tcelectronic::klive::{
    klive_notified_segments, klive_segment_descriptor, KliveSegmentId, KliveSegments,
    OutputImpedance,
};
use firewire_ctl::tcelectronic::reverb::ReverbAlgorithm;
use firewire_ctl::tcelectronic::segment::{notified_indices, SegmentDescriptor};
use firewire_ctl::tcelectronic::shell::{
    SHELL_HW_STATE_NOTIFY_FLAG, SHELL_MIXER_NOTIFY_FLAG, SHELL_REVERB_NOTIFY_FLAG,
};
use firewire_ctl::ProtocolError;

#[test]
fn klive_build_sizes_match_descriptors() {
    let segments = KliveSegments::new_default();
    let ids = [
        KliveSegmentId::Knob,
        KliveSegmentId::Config,
        KliveSegmentId::MixerState,
        KliveSegmentId::ReverbState,
        KliveSegmentId::ChStripState,
        KliveSegmentId::MixerMeter,
        KliveSegmentId::HwState,
        KliveSegmentId::ReverbMeter,
        KliveSegmentId::ChStripMeter,
    ];
    for id in ids {
        let image = segments.build_segment(id);
        assert_eq!(image.len(), klive_segment_descriptor(id).size);
    }
}

#[test]
fn klive_descriptor_sizes_are_fixed() {
    assert_eq!(klive_segment_descriptor(KliveSegmentId::Knob).offset, 0x0004);
    assert_eq!(klive_segment_descriptor(KliveSegmentId::Knob).size, 36);
    assert_eq!(klive_segment_descriptor(KliveSegmentId::Config).offset, 0x0028);
    assert_eq!(klive_segment_descriptor(KliveSegmentId::Config).size, 132);
    assert_eq!(klive_segment_descriptor(KliveSegmentId::MixerState).offset, 0x00ac);
    assert_eq!(klive_segment_descriptor(KliveSegmentId::MixerState).size, 364);
    assert_eq!(klive_segment_descriptor(KliveSegmentId::ReverbState).offset, 0x0218);
    assert_eq!(klive_segment_descriptor(KliveSegmentId::ReverbState).size, 68);
    assert_eq!(klive_segment_descriptor(KliveSegmentId::ChStripState).offset, 0x025c);
    assert_eq!(klive_segment_descriptor(KliveSegmentId::ChStripState).size, 292);
    assert_eq!(klive_segment_descriptor(KliveSegmentId::MixerMeter).offset, 0x1068);
    assert_eq!(klive_segment_descriptor(KliveSegmentId::MixerMeter).size, 92);
    assert_eq!(klive_segment_descriptor(KliveSegmentId::HwState).offset, 0x1008);
    assert_eq!(klive_segment_descriptor(KliveSegmentId::HwState).size, 28);
    assert_eq!(klive_segment_descriptor(KliveSegmentId::ReverbMeter).offset, 0x10c4);
    assert_eq!(klive_segment_descriptor(KliveSegmentId::ReverbMeter).size, 24);
    assert_eq!(klive_segment_descriptor(KliveSegmentId::ChStripMeter).offset, 0x10dc);
    assert_eq!(klive_segment_descriptor(KliveSegmentId::ChStripMeter).size, 60);
}

#[test]
fn klive_reverb_state_roundtrips_through_build() {
    let mut segments = KliveSegments::new_default();
    segments.reverb_state.data.0.input_level = -42;
    segments.reverb_state.data.0.bypass = true;
    segments.reverb_state.data.0.time_decay = 1234;
    segments.reverb_state.data.0.algorithm = ReverbAlgorithm::Spring;
    let image = segments.build_segment(KliveSegmentId::ReverbState);

    let mut fresh = KliveSegments::new_default();
    fresh.parse_segment(KliveSegmentId::ReverbState, &image).unwrap();
    assert_eq!(fresh.reverb_state.data, segments.reverb_state.data);
}

#[test]
fn klive_knob_roundtrips_through_build() {
    let mut segments = KliveSegments::new_default();
    segments.knob.data.target.0 = 3;
    segments.knob.data.knob2_target.0 = 7;
    segments.knob.data.prog.0 = 2;
    segments.knob.data.out_01_impedance = OutputImpedance::Balance;
    let image = segments.build_segment(KliveSegmentId::Knob);

    let mut fresh = KliveSegments::new_default();
    fresh.parse_segment(KliveSegmentId::Knob, &image).unwrap();
    assert_eq!(fresh.knob.data, segments.knob.data);
}

#[test]
fn klive_mixer_state_roundtrips_through_build() {
    let mut segments = KliveSegments::new_default();
    segments.mixer_state.data.enabled = true;
    segments.mixer_state.data.ch_strip_src = ChStripSrc::Analog01;
    segments.mixer_state.data.ch_strip_mode = ChStripMode::RIAA1987;
    segments.mixer_state.data.mixer.monitor_srcs[3].gain_to_main = -600;
    segments.mixer_state.data.mixer.monitor_srcs[3].mute = true;
    segments.mixer_state.data.mixer.main_gain = -128;
    segments.mixer_state.data.reverb_return.return_gain = -5;
    let image = segments.build_segment(KliveSegmentId::MixerState);

    let mut fresh = KliveSegments::new_default();
    fresh.parse_segment(KliveSegmentId::MixerState, &image).unwrap();
    assert_eq!(fresh.mixer_state.data, segments.mixer_state.data);
}

#[test]
fn klive_ch_strip_states_roundtrip_through_build() {
    let mut segments = KliveSegments::new_default();
    segments.ch_strip_state.data.0[1].mode = ChStripMode::RIAA1964;
    segments.ch_strip_state.data.0[1].comp.input_gain = 99;
    segments.ch_strip_state.data.0[0].eq_low.enabled = true;
    segments.ch_strip_state.data.0[0].eq_low.gain = -3;
    let image = segments.build_segment(KliveSegmentId::ChStripState);

    let mut fresh = KliveSegments::new_default();
    fresh.parse_segment(KliveSegmentId::ChStripState, &image).unwrap();
    assert_eq!(fresh.ch_strip_state.data, segments.ch_strip_state.data);
}

#[test]
fn klive_parse_rejects_wrong_size() {
    let mut segments = KliveSegments::new_default();
    let short = zeroed_vec(10);
    let before = segments.clone();
    let r = segments.parse_segment(KliveSegmentId::Knob, &short);
    assert_eq!(r, Err(ProtocolError::SizeMismatch));
    assert_eq!(segments, before);
}

#[test]
fn klive_parse_touches_only_the_addressed_segment() {
    let mut segments = KliveSegments::new_default();
    segments.knob.data.prog.0 = 9;
    let mut image = segments.build_segment(KliveSegmentId::ReverbState);
    image[0] = 0xff;
    image[1] = 0xff;
    image[2] = 0xff;
    image[3] = 0xfe;
    segments.parse_segment(KliveSegmentId::ReverbState, &image).unwrap();
    assert_eq!(segments.knob.data.prog.0, 9);
    assert_eq!(segments.reverb_state.data.0.input_level, -2);
}

#[test]
fn notification_routing_selects_exactly_matching_segments() {
    // Two segments sharing one flag, one segment with a different flag,
    // one segment without a flag.
    let descs = vec![
        SegmentDescriptor { offset: 0x00, size: 4, notify_flag: Some(0x8) },
        SegmentDescriptor { offset: 0x10, size: 8, notify_flag: Some(0x8) },
        SegmentDescriptor { offset: 0x20, size: 4, notify_flag: Some(0x10) },
        SegmentDescriptor { offset: 0x30, size: 4, notify_flag: None },
    ];
    assert_eq!(notified_indices(&descs, 0x8), vec![0, 1]);
    assert_eq!(notified_indices(&descs, 0x10), vec![2]);
    assert_eq!(notified_indices(&descs, 0x18), vec![0, 1, 2]);
    assert_eq!(notified_indices(&descs, 0x4), Vec::<usize>::new());
    assert_eq!(notified_indices(&descs, 0), Vec::<usize>::new());
}

#[test]
fn klive_notification_routing_by_flag() {
    assert_eq!(
        klive_notified_segments(SHELL_REVERB_NOTIFY_FLAG),
        vec![KliveSegmentId::ReverbState]
    );
    assert_eq!(
        klive_notified_segments(SHELL_MIXER_NOTIFY_FLAG | SHELL_HW_STATE_NOTIFY_FLAG),
        vec![KliveSegmentId::MixerState, KliveSegmentId::HwState]
    );
    assert_eq!(klive_notified_segments(0), Vec::<KliveSegmentId>::new());
    // Meters carry no flag and are never selected by any mask.
    assert!(!klive_notified_segments(0xffff_ffff).contains(&KliveSegmentId::MixerMeter));
}

#[test]
fn itwin_hw_state_roundtrips_with_listening_mode() {
    let mut segments = ItwinSegments::new_default();
    segments.hw_state.data.listening_mode = ListeningMode::Side;
    let image = segments.build_segment(ItwinSegmentId::HwState);
    assert_eq!(image.len(), itwin_segment_descriptor(ItwinSegmentId::HwState).size);
    // The listening mode overlays the third quadlet of the window.
    assert_eq!(&image[8..12], &[0, 0, 0, 2]);

    let mut fresh = ItwinSegments::new_default();
    fresh.parse_segment(ItwinSegmentId::HwState, &image).unwrap();
    assert_eq!(fresh.hw_state.data, segments.hw_state.data);
}

#[test]
fn itwin_notification_routing_by_flag() {
    assert_eq!(
        itwin_notified_segments(SHELL_REVERB_NOTIFY_FLAG),
        vec![ItwinSegmentId::ReverbState]
    );
    assert_eq!(
        itwin_notified_segments(SHELL_HW_STATE_NOTIFY_FLAG),
        vec![ItwinSegmentId::HwState]
    );
    assert_eq!(itwin_notified_segments(0), Vec::<ItwinSegmentId>::new());
}

#[test]
fn desktop_panel_roundtrips_and_routes() {
    let mut segments = DesktopSegments::new_default();
    segments.panel.data.panel_button_count = 5;
    segments.panel.data.main_knob_value = -300;
    segments.panel.data.reverb_led_on = true;
    let image = segments.build_segment(DesktopSegmentId::Panel);

    let mut fresh = DesktopSegments::new_default();
    fresh.parse_segment(DesktopSegmentId::Panel, &image).unwrap();
    assert_eq!(fresh.panel.data, segments.panel.data);

    assert_eq!(
        desktop_notified_segments(DESKTOP_PANEL_NOTIFY_FLAG),
        vec![DesktopSegmentId::Panel]
    );
    assert_eq!(desktop_notified_segments(0x4), Vec::<DesktopSegmentId>::new());
}

#[test]
fn k8_hw_state_roundtrips_and_routes() {
    let mut segments = K8Segments::new_default();
    let mut image = segments.build_segment(K8SegmentId::HwState);
    assert_eq!(image.len(), 28);
    // The LED quadlet sits at bytes 20..24.
    image[23] = 1;
    segments.parse_segment(K8SegmentId::HwState, &image).unwrap();
    assert_eq!(
        segments.hw_state.data.0.firewire_led,
        firewire_ctl::tcelectronic::shell::FireWireLedState::On
    );
    assert_eq!(
        k8_notified_segments(SHELL_HW_STATE_NOTIFY_FLAG),
        vec![K8SegmentId::HwState]
    );
    assert_eq!(k8_notified_segments(0x1), Vec::<K8SegmentId>::new());
}

#[test]
fn ch_strip_element_write_leaves_others_byte_identical() {
    // Four elements of fixed size; rewriting element index 2's mode field
    // must leave elements 0, 1 and 3 byte-identical.
    let mut states = vec![
        ChStripState::default(),
        ChStripState::default(),
        ChStripState::default(),
        ChStripState::default(),
    ];
    states[0].comp.input_gain = 10;
    states[1].deesser.ratio = 4;
    states[3].limiter.threshold = -60;
    let total = 4 * CH_STRIP_STATE_SIZE + 4;
    let mut raw = zeroed_vec(total);
    ch_strip_states_build(&states, &mut raw, 0);
    let before = raw.clone();

    states[2].mode = ChStripMode::RIAA1987;
    ch_strip_states_build(&states, &mut raw, 0);

    let s = CH_STRIP_STATE_SIZE;
    assert_eq!(&raw[0..s], &before[0..s]);
    assert_eq!(&raw[s..2 * s], &before[s..2 * s]);
    assert_eq!(&raw[3 * s..4 * s], &before[3 * s..4 * s]);
    assert_ne!(&raw[2 * s..3 * s], &before[2 * s..3 * s]);
    // Only the mode quadlet of element 2 changed.
    assert_eq!(&raw[2 * s + 4..2 * s + 8], &[0, 0, 0, 2]);
    assert_eq!(&before[2 * s + 4..2 * s + 8], &[0, 0, 0, 0]);
}
