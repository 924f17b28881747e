//! Model selection, configuration ROM walking, port controls, and the
//! ProFire application quadlets.

use firewire_ctl::config_rom::{
    detect_model_name, parse_textual_leaf, ConfigEntry, ConfigEntryData, KEY_BUS_DEPENDENT_INFO,
    KEY_DEPENDENT_INFO, KEY_UNIT,
};
use firewire_ctl::ctls::{
    desktop_panel_elem_value, desktop_panel_set_reverb_led, griffin_device_channel,
    stanton_output_fb_and_ch, CtlValue, DesktopPanelElem,
};
use firewire_ctl::maudio::{
    knob_assign_from_quadlet, knob_assign_to_quadlet, opt_iface_b_mode_from_quadlet,
    opt_iface_b_mode_to_quadlet, standalone_converter_mode_from_quadlet,
    standalone_converter_mode_to_quadlet, ClockSource, DstBlkId, OptIfaceMode, Pfire2626State,
    Pfire610State, PfireClkSpec, SrcBlk, SrcBlkId, StandaloneConerterMode, Tcd22xxSpec,
    KNOB_COUNT,
};
use firewire_ctl::models::{
    detect_tascam_unit_kind, BebobCtlModel, BebobModel, FirepowerModel, TascamUnit,
};
use firewire_ctl::port_ctls::{
    f828mk3_clk_src_vals, opt_iface_mode_index, opt_iface_mode_params, F828mk3, V2PortCtl,
    V2PortElem, V3PortElem,
};
use firewire_ctl::ctls::{
    changed_indices, desktop_meter_elem_values, out_vol_name, DesktopMeterElem,
};
use firewire_ctl::tcelectronic::desktop::DesktopMeter;
use firewire_ctl::tcelectronic::desktop::DesktopPanel;
use firewire_ctl::tcelectronic::shell::FireWireLedState;
use firewire_ctl::ProtocolError;

fn text_leaf(text: &[u8]) -> Vec<u8> {
    let mut leaf = vec![0, 0, 0, 0, 0, 0, 0, 0];
    leaf.extend_from_slice(text);
    leaf.push(0);
    leaf
}

#[test]
fn detect_model_name_finds_the_nested_leaf() {
    let entries = vec![
        ConfigEntry { key: 0x03, data: ConfigEntryData::Immediate(0x00022e) },
        ConfigEntry {
            key: KEY_UNIT,
            data: ConfigEntryData::Directory(vec![
                ConfigEntry { key: 0x12, data: ConfigEntryData::Immediate(0x00022e) },
                ConfigEntry {
                    key: KEY_DEPENDENT_INFO,
                    data: ConfigEntryData::Directory(vec![ConfigEntry {
                        key: KEY_BUS_DEPENDENT_INFO,
                        data: ConfigEntryData::Leaf(text_leaf(b"FW-1884")),
                    }]),
                },
            ]),
        },
    ];
    assert_eq!(detect_model_name(&entries), Ok(b"FW-1884".to_vec()));
}

#[test]
fn detect_model_name_rejects_a_rom_without_name() {
    let entries = vec![ConfigEntry {
        key: KEY_UNIT,
        data: ConfigEntryData::Directory(vec![ConfigEntry {
            key: 0x13,
            data: ConfigEntryData::Immediate(1),
        }]),
    }];
    assert_eq!(detect_model_name(&entries), Err(ProtocolError::DecodeViolation));
    assert_eq!(detect_model_name(&Vec::new()), Err(ProtocolError::DecodeViolation));
}

#[test]
fn textual_leaf_parsing() {
    assert_eq!(parse_textual_leaf(&text_leaf(b"FE-8")), Some(b"FE-8".to_vec()));
    // Too short for the descriptor header.
    assert_eq!(parse_textual_leaf(&vec![0, 0, 0]), None);
    // Not a textual descriptor.
    let mut icon = text_leaf(b"FE-8");
    icon[0] = 1;
    assert_eq!(parse_textual_leaf(&icon), None);
    // No terminator: the whole region is the text.
    let mut unterminated = vec![0u8; 8];
    unterminated.extend_from_slice(b"AB");
    assert_eq!(parse_textual_leaf(&unterminated), Some(b"AB".to_vec()));
}

#[test]
fn tascam_unit_kind_decisions() {
    let snd = String::from("snd");
    let fw = String::from("fw");
    let other = String::from("usb");
    assert_eq!(
        detect_tascam_unit_kind(&snd, &String::from("FW-1884")),
        Ok(TascamUnit::IsocConsole)
    );
    assert_eq!(
        detect_tascam_unit_kind(&snd, &String::from("FW-1082")),
        Ok(TascamUnit::IsocConsole)
    );
    assert_eq!(
        detect_tascam_unit_kind(&snd, &String::from("FW-1804")),
        Ok(TascamUnit::IsocRack)
    );
    assert_eq!(
        detect_tascam_unit_kind(&snd, &String::from("FE-8")),
        Err(ProtocolError::NotSupported)
    );
    assert_eq!(detect_tascam_unit_kind(&fw, &String::from("FE-8")), Ok(TascamUnit::Asynch));
    assert_eq!(
        detect_tascam_unit_kind(&fw, &String::from("FW-1884")),
        Err(ProtocolError::NotSupported)
    );
    assert_eq!(
        detect_tascam_unit_kind(&other, &String::from("FW-1884")),
        Err(ProtocolError::InvalidArgument)
    );
}

#[test]
fn bebob_model_selection() {
    let m = BebobModel::new(0x0003db, 0x01eeee).unwrap();
    assert_eq!(m.ctl_model, BebobCtlModel::ApogeeEnsemble);
    assert_eq!(BebobModel::new(0x0003db, 0x010001), Err(ProtocolError::NotSupported));
    assert_eq!(BebobModel::new(0, 0), Err(ProtocolError::NotSupported));
    let fp = FirepowerModel::new();
    assert!(!fp.loaded);
}

#[test]
fn knob_assign_read_modify_write_preserves_other_bits() {
    // A knob-assign quadlet with bits 0 and 2 set and unrelated high bits.
    let val: u32 = 0xabcd_0005;
    let mut targets = knob_assign_from_quadlet(val);
    assert_eq!(targets, vec![true, false, true, false]);
    // Setting bit 1 yields bits 0, 1 and 2 set; bits 3..31 unchanged.
    targets[1] = true;
    let updated = knob_assign_to_quadlet(val, &targets);
    assert_eq!(updated, 0xabcd_0007);
    assert_eq!(targets.len(), KNOB_COUNT);
}

#[test]
fn opt_iface_b_mode_flag_bit() {
    let val: u32 = 0x0000_000f;
    assert_eq!(opt_iface_b_mode_from_quadlet(val), OptIfaceMode::Adat);
    let spdif = opt_iface_b_mode_to_quadlet(val, OptIfaceMode::Spdif);
    assert_eq!(spdif, 0x0000_001f);
    assert_eq!(opt_iface_b_mode_from_quadlet(spdif), OptIfaceMode::Spdif);
    let back = opt_iface_b_mode_to_quadlet(spdif, OptIfaceMode::Adat);
    assert_eq!(back, val);
}

#[test]
fn standalone_converter_mode_flag_bit() {
    let val: u32 = 0xffff_fffd;
    assert_eq!(standalone_converter_mode_from_quadlet(val), StandaloneConerterMode::AdDa);
    let ad_only = standalone_converter_mode_to_quadlet(val, StandaloneConerterMode::AdOnly);
    assert_eq!(ad_only, 0xffff_ffff);
    assert_eq!(
        standalone_converter_mode_from_quadlet(ad_only),
        StandaloneConerterMode::AdOnly
    );
}

#[test]
fn pfire_clock_tables() {
    assert_eq!(Pfire2626State::avail_clk_rates().len(), 7);
    assert_eq!(Pfire610State::avail_clk_rates().len(), 7);
    assert_eq!(
        Pfire2626State::avail_clk_srcs(),
        vec![
            ClockSource::Aes1,
            ClockSource::Aes4,
            ClockSource::Adat,
            ClockSource::Tdif,
            ClockSource::WordClock,
            ClockSource::Internal,
        ]
    );
    assert_eq!(
        Pfire610State::avail_clk_srcs(),
        vec![ClockSource::Aes1, ClockSource::Internal]
    );
}

#[test]
fn pfire_router_tables() {
    let inputs = Pfire2626State::inputs();
    assert_eq!(inputs.len(), 4);
    assert_eq!(inputs[0].id, SrcBlkId::Ins1);
    assert_eq!(inputs[0].count, 8);
    assert_eq!(inputs[2].offset, 8);
    let outputs = Pfire2626State::outputs();
    assert_eq!(outputs.len(), 4);
    assert_eq!(outputs[3].id, DstBlkId::Aes);
    assert_eq!(outputs[3].count, 2);
    let fixed = Pfire2626State::fixed();
    assert_eq!(fixed.len(), 8);
    assert_eq!(fixed[7], SrcBlk { id: SrcBlkId::Ins1, ch: 7 });

    assert_eq!(Pfire610State::inputs().len(), 2);
    assert_eq!(Pfire610State::inputs()[0].id, SrcBlkId::Ins0);
    assert_eq!(Pfire610State::outputs()[0].count, 8);
    assert_eq!(
        Pfire610State::fixed(),
        vec![
            SrcBlk { id: SrcBlkId::Ins0, ch: 0 },
            SrcBlk { id: SrcBlkId::Ins0, ch: 1 },
        ]
    );
}

#[test]
fn opt_iface_mode_mapping() {
    assert_eq!(opt_iface_mode_index(false, false), 0);
    assert_eq!(opt_iface_mode_index(false, true), 0);
    assert_eq!(opt_iface_mode_index(true, false), 1);
    assert_eq!(opt_iface_mode_index(true, true), 2);
    assert_eq!(opt_iface_mode_params(0), Ok((false, false)));
    assert_eq!(opt_iface_mode_params(1), Ok((true, false)));
    assert_eq!(opt_iface_mode_params(2), Ok((true, true)));
    assert_eq!(opt_iface_mode_params(3), Err(ProtocolError::InvalidArgument));
}

#[test]
fn f828mk3_port_controls() {
    let model = F828mk3::new(Vec::new());
    assert!(model.port_ctls.has_elem(V3PortElem::PhoneAssign));
    assert!(model.port_ctls.has_elem(V3PortElem::MainAssign));
    assert!(model.port_ctls.has_elem(V3PortElem::WordOutMode));
    assert_eq!(model.port_ctls.assign_val_of_index(14), Ok(0x0e));
    assert_eq!(
        model.port_ctls.assign_val_of_index(15),
        Err(ProtocolError::InvalidArgument)
    );
    assert_eq!(f828mk3_clk_src_vals(), vec![0x00, 0x01, 0x10, 0x18, 0x19]);
}

#[test]
fn port_element_enumeration() {
    let full = F828mk3::new(Vec::new());
    assert_eq!(
        full.port_ctls.available_elems(),
        vec![
            V3PortElem::PhoneAssign,
            V3PortElem::MainAssign,
            V3PortElem::ReturnAssign,
            V3PortElem::WordOutMode,
            V3PortElem::OptIfaceInMode,
            V3PortElem::OptIfaceOutMode,
        ]
    );
    let bare = firewire_ctl::port_ctls::V3PortCtl::new(
        Vec::new(),
        Vec::new(),
        false,
        false,
        false,
        false,
    );
    assert_eq!(bare.available_elems(), vec![V3PortElem::PhoneAssign]);
}

#[test]
fn v2_port_controls() {
    let ctl = V2PortCtl::new(Vec::new(), vec![0x01, 0x02], true, false, true, false);
    assert!(ctl.has_elem(V2PortElem::PhoneAssign));
    assert!(ctl.has_elem(V2PortElem::MainVolTarget));
    assert!(!ctl.has_elem(V2PortElem::WordOutMode));
    assert_eq!(ctl.opt_iface_mode_count(), 2);
    assert_eq!(ctl.phone_assign_val_of_index(1), Ok(0x02));
    assert_eq!(ctl.phone_assign_val_of_index(2), Err(ProtocolError::InvalidArgument));
}

#[test]
fn output_channel_maps() {
    assert_eq!(stanton_output_fb_and_ch(0), (1, 0));
    assert_eq!(stanton_output_fb_and_ch(1), (1, 1));
    assert_eq!(stanton_output_fb_and_ch(4), (3, 0));
    assert_eq!(stanton_output_fb_and_ch(5), (3, 1));
    let map: Vec<u8> = (0..6).map(griffin_device_channel).collect();
    assert_eq!(map, vec![0, 1, 4, 5, 2, 3]);
}

#[test]
fn changed_value_indices() {
    let old_vals = vec![0, -10, 20, 30];
    let new_vals = vec![0, -11, 20, 31];
    assert_eq!(changed_indices(&new_vals, &old_vals), vec![1, 3]);
    assert_eq!(changed_indices(&old_vals, &old_vals), Vec::<usize>::new());
}

#[test]
fn desktop_meter_element_values() {
    let meter = DesktopMeter {
        analog_inputs: vec![-10, -20],
        mixer_outputs: vec![-1, -2],
        stream_inputs: vec![0, -5],
    };
    assert_eq!(
        desktop_meter_elem_values(&meter, DesktopMeterElem::AnalogInputMeters),
        vec![-10, -20]
    );
    assert_eq!(
        desktop_meter_elem_values(&meter, DesktopMeterElem::MixerOutputMeters),
        vec![-1, -2]
    );
    assert_eq!(
        desktop_meter_elem_values(&meter, DesktopMeterElem::StreamInputMeters),
        vec![0, -5]
    );
    assert_eq!(DesktopMeterElem::AnalogInputMeters.name(), "analog-input-meters");
}

#[test]
fn element_name_lookup() {
    assert_eq!(
        V3PortElem::of_name(&String::from("phone-assign")),
        Some(V3PortElem::PhoneAssign)
    );
    assert_eq!(
        V3PortElem::of_name(&String::from("optical-iface-out-mode")),
        Some(V3PortElem::OptIfaceOutMode)
    );
    assert_eq!(V3PortElem::of_name(&String::from("no-such-element")), None);
    assert_eq!(V3PortElem::WordOutMode.name(), "word-out-mode");

    assert_eq!(
        DesktopPanelElem::of_name(&String::from("reverb-led-state")),
        Some(DesktopPanelElem::ReverbLedState)
    );
    assert_eq!(DesktopPanelElem::of_name(&String::from("main-volume")), None);
    assert_eq!(DesktopPanelElem::MixKnobValue.name(), "mix-knob-value");

    assert_eq!(out_vol_name(), "output-volume");
}

#[test]
fn desktop_panel_element_values() {
    let mut panel = DesktopPanel {
        panel_button_count: 3,
        main_knob_value: -500,
        phone_knob_value: -10,
        mix_knob_value: 700,
        reverb_led_on: false,
        reverb_knob_value: -250,
        firewire_led: FireWireLedState::On,
    };
    assert_eq!(
        desktop_panel_elem_value(&panel, DesktopPanelElem::PanelButtonCount),
        CtlValue::Int(3)
    );
    assert_eq!(
        desktop_panel_elem_value(&panel, DesktopPanelElem::MainKnobValue),
        CtlValue::Int(-500)
    );
    assert_eq!(
        desktop_panel_elem_value(&panel, DesktopPanelElem::MixKnobValue),
        CtlValue::Int(700)
    );
    assert_eq!(
        desktop_panel_elem_value(&panel, DesktopPanelElem::ReverbLedState),
        CtlValue::Bool(false)
    );
    desktop_panel_set_reverb_led(&mut panel, true);
    assert_eq!(
        desktop_panel_elem_value(&panel, DesktopPanelElem::ReverbLedState),
        CtlValue::Bool(true)
    );
    assert_eq!(panel.main_knob_value, -500);
}
