//! Enum codecs: round trips over the documented domains and the default
//! fallback for undocumented encodings.

use firewire_ctl::tcelectronic::ch_strip::{ChStripMode, ChStripSrc};
use firewire_ctl::tcelectronic::itwin::ListeningMode;
use firewire_ctl::tcelectronic::klive::OutputImpedance;
use firewire_ctl::tcelectronic::reverb::ReverbAlgorithm;
use firewire_ctl::tcelectronic::shell::{
    FireWireLedState, ShellAnalogJackState, ShellMixerStreamSrcPair, ShellOptIfaceFormat,
    ShellPhysOutSrc, ShellStandaloneClkSrc, TcKonnektStandaloneClkRate,
};

#[test]
fn ch_strip_src_roundtrip_and_default() {
    let all = [
        ChStripSrc::Stream01,
        ChStripSrc::Analog01,
        ChStripSrc::Analog23,
        ChStripSrc::Digital01,
        ChStripSrc::Digital23,
        ChStripSrc::Digital45,
        ChStripSrc::Digital67,
        ChStripSrc::MixerOutput,
        ChStripSrc::NoSource,
    ];
    for src in all {
        assert_eq!(ChStripSrc::decode(src.encode()), src);
    }
    // Reserved encodings degrade to the default, never an error.
    assert_eq!(ChStripSrc::decode(1), ChStripSrc::NoSource);
    assert_eq!(ChStripSrc::decode(3), ChStripSrc::NoSource);
    assert_eq!(ChStripSrc::decode(0xffff), ChStripSrc::NoSource);
    assert_eq!(ChStripSrc::default(), ChStripSrc::NoSource);
}

#[test]
fn ch_strip_mode_roundtrip_and_default() {
    for mode in [ChStripMode::FabrikC, ChStripMode::RIAA1964, ChStripMode::RIAA1987] {
        assert_eq!(ChStripMode::decode(mode.encode()), mode);
    }
    assert_eq!(ChStripMode::decode(3), ChStripMode::FabrikC);
    assert_eq!(ChStripMode::decode(0xdead), ChStripMode::FabrikC);
}

#[test]
fn reverb_algorithm_roundtrip_and_default() {
    let all = [
        ReverbAlgorithm::Live1,
        ReverbAlgorithm::Hall,
        ReverbAlgorithm::Plate,
        ReverbAlgorithm::Club,
        ReverbAlgorithm::ConcertHall,
        ReverbAlgorithm::Cathedral,
        ReverbAlgorithm::Church,
        ReverbAlgorithm::Room,
        ReverbAlgorithm::SmallRoom,
        ReverbAlgorithm::Box,
        ReverbAlgorithm::Ambient,
        ReverbAlgorithm::Live2,
        ReverbAlgorithm::Live3,
        ReverbAlgorithm::Spring,
    ];
    for a in all {
        assert_eq!(ReverbAlgorithm::decode(a.encode()), a);
    }
    assert_eq!(ReverbAlgorithm::decode(14), ReverbAlgorithm::Live1);
    assert_eq!(ReverbAlgorithm::decode(0xffff_ffff), ReverbAlgorithm::Live1);
}

#[test]
fn impedance_zero_nonzero_semantics() {
    // Unbalance encodes zero; any nonzero value — the canonical one and
    // out-of-domain values alike — decodes to balanced.
    assert_eq!(OutputImpedance::Unbalance.encode(), 0);
    assert_eq!(OutputImpedance::Balance.encode(), 1);
    assert_eq!(OutputImpedance::decode(0), OutputImpedance::Unbalance);
    assert_eq!(OutputImpedance::decode(1), OutputImpedance::Balance);
    assert_eq!(OutputImpedance::decode(7), OutputImpedance::Balance);
    assert_eq!(
        OutputImpedance::decode(OutputImpedance::Balance.encode()),
        OutputImpedance::Balance
    );
}

#[test]
fn listening_mode_uses_low_bits() {
    for m in [ListeningMode::Monaural, ListeningMode::Stereo, ListeningMode::Side] {
        assert_eq!(ListeningMode::decode(m.encode()), m);
    }
    // Only the two low bits matter; the spare combination is the default.
    assert_eq!(ListeningMode::decode(0x03), ListeningMode::Monaural);
    assert_eq!(ListeningMode::decode(0x05), ListeningMode::Stereo);
    assert_eq!(ListeningMode::decode(0xfc), ListeningMode::Monaural);
}

#[test]
fn shell_enums_roundtrip_and_default() {
    for st in [
        FireWireLedState::Off,
        FireWireLedState::On,
        FireWireLedState::BlinkFast,
        FireWireLedState::BlinkSlow,
    ] {
        assert_eq!(FireWireLedState::decode(st.encode()), st);
    }
    assert_eq!(FireWireLedState::decode(9), FireWireLedState::Off);

    for st in [
        ShellAnalogJackState::FrontSelected,
        ShellAnalogJackState::FrontInserted,
        ShellAnalogJackState::RearSelected,
        ShellAnalogJackState::RearInserted,
    ] {
        assert_eq!(ShellAnalogJackState::decode(st.encode()), st);
    }
    assert_eq!(ShellAnalogJackState::decode(100), ShellAnalogJackState::FrontSelected);

    for src in [
        ShellPhysOutSrc::Stream,
        ShellPhysOutSrc::Analog,
        ShellPhysOutSrc::MixerOut,
        ShellPhysOutSrc::MixerSend,
    ] {
        assert_eq!(ShellPhysOutSrc::decode(src.encode()), src);
    }
    assert_eq!(ShellPhysOutSrc::decode(4), ShellPhysOutSrc::Stream);

    for fmt in [ShellOptIfaceFormat::Adat, ShellOptIfaceFormat::Spdif] {
        assert_eq!(ShellOptIfaceFormat::decode(fmt.encode()), fmt);
    }
    assert_eq!(ShellOptIfaceFormat::decode(2), ShellOptIfaceFormat::Adat);

    for pair in [
        ShellMixerStreamSrcPair::Stream01,
        ShellMixerStreamSrcPair::Stream23,
        ShellMixerStreamSrcPair::Stream45,
        ShellMixerStreamSrcPair::Stream67,
        ShellMixerStreamSrcPair::Stream89,
        ShellMixerStreamSrcPair::Stream1011,
    ] {
        assert_eq!(ShellMixerStreamSrcPair::decode(pair.encode()), pair);
    }
    assert_eq!(ShellMixerStreamSrcPair::decode(6), ShellMixerStreamSrcPair::Stream01);

    for src in [
        ShellStandaloneClkSrc::Optical,
        ShellStandaloneClkSrc::Coaxial,
        ShellStandaloneClkSrc::Internal,
    ] {
        assert_eq!(ShellStandaloneClkSrc::decode(src.encode()), src);
    }
    assert_eq!(ShellStandaloneClkSrc::decode(3), ShellStandaloneClkSrc::Internal);

    for rate in [
        TcKonnektStandaloneClkRate::R44100,
        TcKonnektStandaloneClkRate::R48000,
        TcKonnektStandaloneClkRate::R88200,
        TcKonnektStandaloneClkRate::R96000,
    ] {
        assert_eq!(TcKonnektStandaloneClkRate::decode(rate.encode()), rate);
    }
    assert_eq!(TcKonnektStandaloneClkRate::decode(4), TcKonnektStandaloneClkRate::R44100);
}
