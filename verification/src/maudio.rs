//! Hardware specification and application protocol specific to M-Audio
//! ProFire series.
//!
//! The application section of these devices packs several controls into
//! two quadlets: a knob-assignment bitmask sharing its quadlet with the
//! optical interface mode flag, and a standalone-converter flag quadlet.
//! The functions here turn those quadlets into typed values and back with
//! read-modify-write discipline: updating one control never disturbs the
//! other bits of its quadlet.  The surrounding driver reads a quadlet,
//! maps it through these functions, and writes the result back.

use vstd::prelude::*;

verus! {

/// The number of targets available to the knob master.
pub const KNOB_COUNT: usize = 4;

/// The byte offset of the knob-assignment quadlet in the application
/// section.
pub const KNOB_ASSIGN_OFFSET: usize = 0x00;

/// The byte offset of the standalone-mode quadlet in the application
/// section.
pub const STANDALONE_MODE_OFFSET: usize = 0x04;

/// The bits of the knob-assignment quadlet that carry knob targets.
pub const KNOB_ASSIGN_MASK: u32 = 0x0f;

/// The bit of the knob-assignment quadlet that selects S/PDIF on the
/// second optical interface.
pub const OPT_IFACE_B_IS_SPDIF_FLAG: u32 = 0x10;

/// The bit of the standalone-mode quadlet that selects the AD-only
/// converter mode.
pub const STANDALONE_CONVERTER_IS_AD_ONLY_FLAG: u32 = 0x02;

/// Whether bit `i` of `val` is set.
pub open spec fn bit_of(val: u32, i: u32) -> bool {
    (val >> i) & 1 == 1
}

/// Setting one bit leaves every other bit of the quadlet as it was.
pub proof fn lemma_bit_set(v: u32, i: u32)
    requires
        i < 32,
    ensures
        bit_of(v | (1u32 << i), i),
        forall|j: u32| j < 32 && j != i ==> bit_of(v | (1u32 << i), j) == bit_of(v, j),
{
    assert((((v | (1u32 << i)) >> i) & 1 == 1) && (forall|j: u32|
        j < 32 && j != i ==> ((v | (1u32 << i)) >> j) & 1 == (v >> j) & 1)) by (bit_vector)
        requires
            i < 32,
    ;
}

/// Clearing one bit leaves every other bit of the quadlet as it was.
pub proof fn lemma_bit_clear(v: u32, i: u32)
    requires
        i < 32,
    ensures
        !bit_of(v & !(1u32 << i), i),
        forall|j: u32| j < 32 && j != i ==> bit_of(v & !(1u32 << i), j) == bit_of(v, j),
{
    assert((((v & !(1u32 << i)) >> i) & 1 == 0) && (forall|j: u32|
        j < 32 && j != i ==> ((v & !(1u32 << i)) >> j) & 1 == (v >> j) & 1)) by (bit_vector)
        requires
            i < 32,
    ;
}

/// The knob targets a knob-assignment quadlet encodes: target `i` is
/// assigned exactly when bit `i` is set.
pub fn knob_assign_from_quadlet(val: u32) -> (r: Vec<bool>)
    ensures
        r@.len() == KNOB_COUNT,
        forall|i: int| 0 <= i < KNOB_COUNT ==> r@[i] == bit_of(val, i as u32),
{
    let mut targets: Vec<bool> = Vec::new();
    let mut i: usize = 0;
    while i < KNOB_COUNT
        invariant
            0 <= i <= KNOB_COUNT,
            targets@.len() == i,
            forall|j: int| 0 <= j < i ==> targets@[j] == bit_of(val, j as u32),
        decreases KNOB_COUNT - i,
    {
        targets.push((val >> (i as u32)) & 1 == 1);
        i = i + 1;
    }
    targets
}

/// The knob-assignment quadlet after assigning the given targets into
/// `old_val`: bit `i` becomes target `i`, and every bit outside the
/// target bits — the optical mode flag among them — keeps the value read
/// from the device.
pub fn knob_assign_to_quadlet(old_val: u32, targets: &Vec<bool>) -> (r: u32)
    requires
        targets@.len() == KNOB_COUNT,
    ensures
        forall|i: u32| i < KNOB_COUNT ==> bit_of(r, i) == targets@[i as int],
        forall|i: u32| KNOB_COUNT <= i < 32 ==> bit_of(r, i) == bit_of(old_val, i),
{
    let mut val: u32 = old_val;
    let mut i: usize = 0;
    while i < KNOB_COUNT
        invariant
            0 <= i <= KNOB_COUNT,
            targets@.len() == KNOB_COUNT,
            forall|j: u32| j < i ==> bit_of(val, j) == targets@[j as int],
            forall|j: u32| i <= j < 32 ==> bit_of(val, j) == bit_of(old_val, j),
        decreases KNOB_COUNT - i,
    {
        let ghost before = val;
        if targets[i] {
            val = val | (1u32 << (i as u32));
            proof {
                lemma_bit_set(before, i as u32);
                assert(bit_of(val, i as u32));
                assert(bit_of(val, i as u32) == targets@[i as int]);
                assert forall|j: u32| j < i + 1 implies bit_of(val, j) == targets@[j as int] by {
                    if j < i {
                        assert(bit_of(val, j) == bit_of(before, j));
                    } else {
                        assert(j == i as u32);
                    }
                }
            }
        } else {
            val = val & !(1u32 << (i as u32));
            proof {
                lemma_bit_clear(before, i as u32);
                assert(!bit_of(val, i as u32));
                assert forall|j: u32| j < i + 1 implies bit_of(val, j) == targets@[j as int] by {
                    if j < i {
                        assert(bit_of(val, j) == bit_of(before, j));
                    } else {
                        assert(j == i as u32);
                    }
                }
            }
        }
        i = i + 1;
    }
    val
}

/// The mode of the second optical interface.
#[derive(Clone, Copy, Debug, PartialEq, Eq, Structural)]
pub enum OptIfaceMode {
    Spdif,
    Adat,
}

/// The optical mode a knob-assignment quadlet encodes: S/PDIF when the
/// flag bit is set, ADAT otherwise.
pub fn opt_iface_b_mode_from_quadlet(val: u32) -> (r: OptIfaceMode)
    ensures
        r == (if bit_of(val, 4) {
            OptIfaceMode::Spdif
        } else {
            OptIfaceMode::Adat
        }),
{
    proof {
        assert(forall|v: u32| (v & 0x10 > 0) == ((v >> 4) & 1 == 1)) by (bit_vector);
    }
    if val & OPT_IFACE_B_IS_SPDIF_FLAG > 0 {
        OptIfaceMode::Spdif
    } else {
        OptIfaceMode::Adat
    }
}

/// The knob-assignment quadlet after selecting an optical mode into
/// `old_val`: the flag bit becomes the mode, every other bit — the knob
/// target bits among them — keeps the value read from the device.
pub fn opt_iface_b_mode_to_quadlet(old_val: u32, mode: OptIfaceMode) -> (r: u32)
    ensures
        bit_of(r, 4) == (mode == OptIfaceMode::Spdif),
        forall|j: u32| j < 32 && j != 4 ==> bit_of(r, j) == bit_of(old_val, j),
{
    let cleared = old_val & !OPT_IFACE_B_IS_SPDIF_FLAG;
    proof {
        assert(!0x10u32 == !(1u32 << 4u32) && 0x10u32 == (1u32 << 4u32)) by (bit_vector);
        lemma_bit_clear(old_val, 4);
    }
    if mode == OptIfaceMode::Spdif {
        proof {
            lemma_bit_set(cleared, 4);
        }
        cleared | OPT_IFACE_B_IS_SPDIF_FLAG
    } else {
        cleared
    }
}

/// The mode of the standalone converter.
#[derive(Clone, Copy, Debug, PartialEq, Eq, Structural)]
pub enum StandaloneConerterMode {
    AdDa,
    AdOnly,
}

/// The converter mode a standalone-mode quadlet encodes: AD-only when the
/// flag bit is set, AD/DA otherwise.
pub fn standalone_converter_mode_from_quadlet(val: u32) -> (r: StandaloneConerterMode)
    ensures
        r == (if bit_of(val, 1) {
            StandaloneConerterMode::AdOnly
        } else {
            StandaloneConerterMode::AdDa
        }),
{
    proof {
        assert(forall|v: u32| (v & 0x02 > 0) == ((v >> 1) & 1 == 1)) by (bit_vector);
    }
    if val & STANDALONE_CONVERTER_IS_AD_ONLY_FLAG > 0 {
        StandaloneConerterMode::AdOnly
    } else {
        StandaloneConerterMode::AdDa
    }
}

/// The standalone-mode quadlet after selecting a converter mode into
/// `old_val`: the flag bit becomes the mode, every other bit keeps the
/// value read from the device.
pub fn standalone_converter_mode_to_quadlet(old_val: u32, mode: StandaloneConerterMode) -> (r:
    u32)
    ensures
        bit_of(r, 1) == (mode == StandaloneConerterMode::AdOnly),
        forall|j: u32| j < 32 && j != 1 ==> bit_of(r, j) == bit_of(old_val, j),
{
    let cleared = old_val & !STANDALONE_CONVERTER_IS_AD_ONLY_FLAG;
    proof {
        assert(!0x02u32 == !(1u32 << 1u32) && 0x02u32 == (1u32 << 1u32)) by (bit_vector);
        lemma_bit_clear(old_val, 1);
    }
    if mode == StandaloneConerterMode::AdOnly {
        proof {
            lemma_bit_set(cleared, 1);
        }
        cleared | STANDALONE_CONVERTER_IS_AD_ONLY_FLAG
    } else {
        cleared
    }
}

/// The rate of the sampling clock.
#[derive(Clone, Copy, Debug, PartialEq, Eq, Structural)]
pub enum ClockRate {
    R32000,
    R44100,
    R48000,
    R88200,
    R96000,
    R176400,
    R192000,
}

/// The source of the sampling clock.
#[derive(Clone, Copy, Debug, PartialEq, Eq, Structural)]
pub enum ClockSource {
    Aes1,
    Aes4,
    Adat,
    Tdif,
    WordClock,
    Internal,
}

/// The rates and sources of the sampling clock a ProFire model offers.
pub trait PfireClkSpec {
    /// The rates every model of the series offers.
    fn avail_clk_rates() -> (r: Vec<ClockRate>)
        ensures
            r@.len() == 7,
    ;

    /// The clock sources of this model.
    fn avail_clk_srcs() -> (r: Vec<ClockSource>)
        ensures
            r@.len() >= 1,
    ;
}

/// The rates common to the series, lowest first.
pub fn pfire_avail_clk_rates() -> (r: Vec<ClockRate>)
    ensures
        r@ == seq![
            ClockRate::R32000,
            ClockRate::R44100,
            ClockRate::R48000,
            ClockRate::R88200,
            ClockRate::R96000,
            ClockRate::R176400,
            ClockRate::R192000,
        ],
{
    let mut v: Vec<ClockRate> = Vec::new();
    v.push(ClockRate::R32000);
    v.push(ClockRate::R44100);
    v.push(ClockRate::R48000);
    v.push(ClockRate::R88200);
    v.push(ClockRate::R96000);
    v.push(ClockRate::R176400);
    v.push(ClockRate::R192000);
    proof {
        assert(v@ =~= seq![
            ClockRate::R32000,
            ClockRate::R44100,
            ClockRate::R48000,
            ClockRate::R88200,
            ClockRate::R96000,
            ClockRate::R176400,
            ClockRate::R192000,
        ]);
    }
    v
}

/// The clock sources of ProFire 2626, in selection order.
pub fn pfire2626_clk_srcs() -> (r: Vec<ClockSource>)
    ensures
        r@ == seq![
            ClockSource::Aes1,
            ClockSource::Aes4,
            ClockSource::Adat,
            ClockSource::Tdif,
            ClockSource::WordClock,
            ClockSource::Internal,
        ],
{
    let mut v: Vec<ClockSource> = Vec::new();
    v.push(ClockSource::Aes1);
    v.push(ClockSource::Aes4);
    v.push(ClockSource::Adat);
    v.push(ClockSource::Tdif);
    v.push(ClockSource::WordClock);
    v.push(ClockSource::Internal);
    proof {
        assert(v@ =~= seq![
            ClockSource::Aes1,
            ClockSource::Aes4,
            ClockSource::Adat,
            ClockSource::Tdif,
            ClockSource::WordClock,
            ClockSource::Internal,
        ]);
    }
    v
}

/// The clock sources of ProFire 610, in selection order.
pub fn pfire610_clk_srcs() -> (r: Vec<ClockSource>)
    ensures
        r@ == seq![ClockSource::Aes1, ClockSource::Internal],
{
    let mut v: Vec<ClockSource> = Vec::new();
    v.push(ClockSource::Aes1);
    v.push(ClockSource::Internal);
    proof {
        assert(v@ =~= seq![ClockSource::Aes1, ClockSource::Internal]);
    }
    v
}

/// A source block of the TCD22xx router.
#[derive(Clone, Copy, Debug, PartialEq, Eq, Structural)]
pub enum SrcBlkId {
    Aes,
    Adat,
    Tdif,
    Ins0,
    Ins1,
}

/// A destination block of the TCD22xx router.
#[derive(Clone, Copy, Debug, PartialEq, Eq, Structural)]
pub enum DstBlkId {
    Aes,
    Adat,
    Tdif,
    Ins0,
    Ins1,
}

/// One input range of a model: a span of channels of a source block.
#[derive(Clone, Debug, PartialEq, Eq)]
pub struct Input {
    pub id: SrcBlkId,
    pub offset: u32,
    pub count: u32,
    pub label: Option<String>,
}

/// One output range of a model: a span of channels of a destination block.
#[derive(Clone, Debug, PartialEq, Eq)]
pub struct Output {
    pub id: DstBlkId,
    pub offset: u32,
    pub count: u32,
    pub label: Option<String>,
}

/// One source channel of the router.
#[derive(Clone, Copy, Debug, PartialEq, Eq, Structural)]
pub struct SrcBlk {
    pub id: SrcBlkId,
    pub ch: u8,
}

/// The router geometry of a TCD22xx-based model: its input and output
/// ranges and the source channels with a fixed route.
pub trait Tcd22xxSpec {
    /// The input ranges of the model.
    fn inputs() -> Vec<Input>;

    /// The output ranges of the model.
    fn outputs() -> Vec<Output>;

    /// The source channels whose route is fixed.
    fn fixed() -> Vec<SrcBlk>;
}

/// State of the TCD22xx router and peak logic of a device.  The live
/// router and peak entries are kept by the protocol engine that drives
/// the device; this mirror records what the daemon established.
#[derive(Clone, Copy, Debug, PartialEq, Eq, Structural, Default)]
pub struct Tcd22xxState {
    /// Whether the router was programmed since the device came up.
    pub router_configured: bool,
}

/// The input ranges of ProFire 2626.
pub fn pfire2626_inputs() -> (r: Vec<Input>)
    ensures
        r@ =~= seq![
            Input { id: SrcBlkId::Ins1, offset: 0u32, count: 8u32, label: None },
            Input { id: SrcBlkId::Adat, offset: 0u32, count: 8u32, label: None },
            Input { id: SrcBlkId::Adat, offset: 8u32, count: 8u32, label: None },
            Input { id: SrcBlkId::Aes, offset: 0u32, count: 2u32, label: None },
        ],
{
    let mut v: Vec<Input> = Vec::new();
    v.push(Input { id: SrcBlkId::Ins1, offset: 0, count: 8, label: None });
    v.push(Input { id: SrcBlkId::Adat, offset: 0, count: 8, label: None });
    v.push(Input { id: SrcBlkId::Adat, offset: 8, count: 8, label: None });
    v.push(Input { id: SrcBlkId::Aes, offset: 0, count: 2, label: None });
    proof {
        assert(v@ =~= seq![
            Input { id: SrcBlkId::Ins1, offset: 0u32, count: 8u32, label: None },
            Input { id: SrcBlkId::Adat, offset: 0u32, count: 8u32, label: None },
            Input { id: SrcBlkId::Adat, offset: 8u32, count: 8u32, label: None },
            Input { id: SrcBlkId::Aes, offset: 0u32, count: 2u32, label: None },
        ]);
    }
    v
}

/// The output ranges of ProFire 2626.
pub fn pfire2626_outputs() -> (r: Vec<Output>)
    ensures
        r@ =~= seq![
            Output { id: DstBlkId::Ins1, offset: 0u32, count: 8u32, label: None },
            Output { id: DstBlkId::Adat, offset: 0u32, count: 8u32, label: None },
            Output { id: DstBlkId::Adat, offset: 8u32, count: 8u32, label: None },
            Output { id: DstBlkId::Aes, offset: 0u32, count: 2u32, label: None },
        ],
{
    let mut v: Vec<Output> = Vec::new();
    v.push(Output { id: DstBlkId::Ins1, offset: 0, count: 8, label: None });
    v.push(Output { id: DstBlkId::Adat, offset: 0, count: 8, label: None });
    v.push(Output { id: DstBlkId::Adat, offset: 8, count: 8, label: None });
    v.push(Output { id: DstBlkId::Aes, offset: 0, count: 2, label: None });
    proof {
        assert(v@ =~= seq![
            Output { id: DstBlkId::Ins1, offset: 0u32, count: 8u32, label: None },
            Output { id: DstBlkId::Adat, offset: 0u32, count: 8u32, label: None },
            Output { id: DstBlkId::Adat, offset: 8u32, count: 8u32, label: None },
            Output { id: DstBlkId::Aes, offset: 0u32, count: 2u32, label: None },
        ]);
    }
    v
}

/// The fixed source routes of ProFire 2626: the eight line inputs.
pub fn pfire2626_fixed() -> (r: Vec<SrcBlk>)
    ensures
        r@.len() == 8,
        forall|k: int| 0 <= k < 8 ==> r@[k] == (SrcBlk { id: SrcBlkId::Ins1, ch: k as u8 }),
{
    let mut v: Vec<SrcBlk> = Vec::new();
    let mut k: usize = 0;
    while k < 8
        invariant
            0 <= k <= 8,
            v@.len() == k,
            forall|j: int| 0 <= j < k ==> v@[j] == (SrcBlk { id: SrcBlkId::Ins1, ch: j as u8 }),
        decreases 8 - k,
    {
        v.push(SrcBlk { id: SrcBlkId::Ins1, ch: k as u8 });
        k = k + 1;
    }
    v
}

/// The input ranges of ProFire 610.
pub fn pfire610_inputs() -> (r: Vec<Input>)
    ensures
        r@ =~= seq![
            Input { id: SrcBlkId::Ins0, offset: 0u32, count: 4u32, label: None },
            Input { id: SrcBlkId::Aes, offset: 0u32, count: 2u32, label: None },
        ],
{
    let mut v: Vec<Input> = Vec::new();
    v.push(Input { id: SrcBlkId::Ins0, offset: 0, count: 4, label: None });
    v.push(Input { id: SrcBlkId::Aes, offset: 0, count: 2, label: None });
    proof {
        assert(v@ =~= seq![
            Input { id: SrcBlkId::Ins0, offset: 0u32, count: 4u32, label: None },
            Input { id: SrcBlkId::Aes, offset: 0u32, count: 2u32, label: None },
        ]);
    }
    v
}

/// The output ranges of ProFire 610.
pub fn pfire610_outputs() -> (r: Vec<Output>)
    ensures
        r@ =~= seq![
            Output { id: DstBlkId::Ins0, offset: 0u32, count: 8u32, label: None },
            Output { id: DstBlkId::Aes, offset: 0u32, count: 2u32, label: None },
        ],
{
    let mut v: Vec<Output> = Vec::new();
    v.push(Output { id: DstBlkId::Ins0, offset: 0, count: 8, label: None });
    v.push(Output { id: DstBlkId::Aes, offset: 0, count: 2, label: None });
    proof {
        assert(v@ =~= seq![
            Output { id: DstBlkId::Ins0, offset: 0u32, count: 8u32, label: None },
            Output { id: DstBlkId::Aes, offset: 0u32, count: 2u32, label: None },
        ]);
    }
    v
}

/// The fixed source routes of ProFire 610: the first line input pair.
pub fn pfire610_fixed() -> (r: Vec<SrcBlk>)
    ensures
        r@ =~= seq![
            SrcBlk { id: SrcBlkId::Ins0, ch: 0u8 },
            SrcBlk { id: SrcBlkId::Ins0, ch: 1u8 },
        ],
{
    let mut v: Vec<SrcBlk> = Vec::new();
    v.push(SrcBlk { id: SrcBlkId::Ins0, ch: 0 });
    v.push(SrcBlk { id: SrcBlkId::Ins0, ch: 1 });
    proof {
        assert(v@ =~= seq![
            SrcBlk { id: SrcBlkId::Ins0, ch: 0u8 },
            SrcBlk { id: SrcBlkId::Ins0, ch: 1u8 },
        ]);
    }
    v
}

/// State of the TCD22xx on ProFire 2626.
#[derive(Clone, Copy, Debug, PartialEq, Eq, Structural, Default)]
pub struct Pfire2626State(pub Tcd22xxState);

impl Tcd22xxSpec for Pfire2626State {
    /// The input ranges of ProFire 2626.
    fn inputs() -> Vec<Input> {
        pfire2626_inputs()
    }

    /// The output ranges of ProFire 2626.
    fn outputs() -> Vec<Output> {
        pfire2626_outputs()
    }

    /// The fixed source routes of ProFire 2626.
    fn fixed() -> Vec<SrcBlk> {
        pfire2626_fixed()
    }
}

impl PfireClkSpec for Pfire2626State {
    /// The rates common to the series.
    fn avail_clk_rates() -> (r: Vec<ClockRate>) {
        pfire_avail_clk_rates()
    }

    /// The clock sources of ProFire 2626.
    fn avail_clk_srcs() -> (r: Vec<ClockSource>) {
        pfire2626_clk_srcs()
    }
}

/// State of the TCD22xx on ProFire 610.
#[derive(Clone, Copy, Debug, PartialEq, Eq, Structural, Default)]
pub struct Pfire610State(pub Tcd22xxState);

impl Tcd22xxSpec for Pfire610State {
    /// The input ranges of ProFire 610.
    fn inputs() -> Vec<Input> {
        pfire610_inputs()
    }

    /// The output ranges of ProFire 610.
    fn outputs() -> Vec<Output> {
        pfire610_outputs()
    }

    /// The fixed source routes of ProFire 610.
    fn fixed() -> Vec<SrcBlk> {
        pfire610_fixed()
    }
}

impl PfireClkSpec for Pfire610State {
    /// The rates common to the series.
    fn avail_clk_rates() -> (r: Vec<ClockRate>) {
        pfire_avail_clk_rates()
    }

    /// The clock sources of ProFire 610.
    fn avail_clk_srcs() -> (r: Vec<ClockSource>) {
        pfire610_clk_srcs()
    }
}

} // verus!
