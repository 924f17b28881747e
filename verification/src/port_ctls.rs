//! Port routing controls of the MOTU models.
//!
//! These models route headphone, main and return outputs by a per-model
//! table of device values, and run each optical interface in one of three
//! modes.  The mode is carried on the device as two flags; the functions
//! here map between the flag pair and the single mode index the control
//! surface shows, and validate user input against the documented domain.

use vstd::prelude::*;
use crate::ProtocolError;

verus! {

/// The mode index a flag pair reports for one optical interface: disabled,
/// ADAT, or S/PDIF.
pub open spec fn spec_opt_iface_mode_index(enabled: bool, no_adat: bool) -> u32 {
    if !enabled {
        0u32
    } else if !no_adat {
        1u32
    } else {
        2u32
    }
}

/// The mode index the device's flag pair reports for one optical
/// interface.
pub fn opt_iface_mode_index(enabled: bool, no_adat: bool) -> (r: u32)
    ensures
        r == spec_opt_iface_mode_index(enabled, no_adat),
{
    if !enabled {
        0
    } else if !no_adat {
        1
    } else {
        2
    }
}

/// The flag pair to write for a mode index, for exactly the three
/// documented indices; any other index is rejected as an invalid
/// argument.
pub fn opt_iface_mode_params(mode: u32) -> (r: Result<(bool, bool), ProtocolError>)
    ensures
        mode == 0 ==> r == Ok::<(bool, bool), ProtocolError>((false, false)),
        mode == 1 ==> r == Ok::<(bool, bool), ProtocolError>((true, false)),
        mode == 2 ==> r == Ok::<(bool, bool), ProtocolError>((true, true)),
        mode > 2 ==> r == Err::<(bool, bool), ProtocolError>(ProtocolError::InvalidArgument),
        r matches Ok(p) ==> spec_opt_iface_mode_index(p.0, p.1) == mode,
{
    match mode {
        0 => Ok((false, false)),
        1 => Ok((true, false)),
        2 => Ok((true, true)),
        _ => Err(ProtocolError::InvalidArgument),
    }
}

/// Every documented mode index round-trips through the flag pair.
pub proof fn lemma_opt_iface_mode_roundtrip(enabled: bool, no_adat: bool)
    ensures
        !enabled && !no_adat ==> spec_opt_iface_mode_index(enabled, no_adat) == 0,
        enabled && !no_adat ==> spec_opt_iface_mode_index(enabled, no_adat) == 1,
        enabled && no_adat ==> spec_opt_iface_mode_index(enabled, no_adat) == 2,
{
}

/// The port controls of a third-generation model: which optional elements
/// the model has, and its table of routable targets.
#[derive(Clone, Debug, PartialEq, Eq)]
pub struct V3PortCtl {
    /// The label shown for each routable target.
    pub assign_labels: Vec<String>,
    /// The device value of each routable target, by the same index.
    pub assign_vals: Vec<u8>,
    /// Whether the model routes its main output pair.
    pub has_main_assign: bool,
    /// Whether the model routes a return pair.
    pub has_return_assign: bool,
    /// Whether the model has optical interfaces.
    pub has_opt_ifaces: bool,
    /// Whether the model has a word clock output on BNC.
    pub has_word_bnc: bool,
}

/// One element of the port control surface of a third-generation model.
#[derive(Clone, Copy, Debug, PartialEq, Eq, Structural)]
pub enum V3PortElem {
    PhoneAssign,
    MainAssign,
    ReturnAssign,
    WordOutMode,
    OptIfaceInMode,
    OptIfaceOutMode,
}

impl V3PortElem {
    /// The control element name of this port element.
    pub open spec fn spec_name(self) -> Seq<char> {
        match self {
            V3PortElem::PhoneAssign => "phone-assign"@,
            V3PortElem::MainAssign => "main-assign"@,
            V3PortElem::ReturnAssign => "return-assign"@,
            V3PortElem::WordOutMode => "word-out-mode"@,
            V3PortElem::OptIfaceInMode => "optical-iface-in-mode"@,
            V3PortElem::OptIfaceOutMode => "optical-iface-out-mode"@,
        }
    }

    /// The control element name of this port element.
    pub fn name(self) -> (r: String)
        ensures
            r@ == self.spec_name(),
    {
        match self {
            V3PortElem::PhoneAssign => "phone-assign".to_owned(),
            V3PortElem::MainAssign => "main-assign".to_owned(),
            V3PortElem::ReturnAssign => "return-assign".to_owned(),
            V3PortElem::WordOutMode => "word-out-mode".to_owned(),
            V3PortElem::OptIfaceInMode => "optical-iface-in-mode".to_owned(),
            V3PortElem::OptIfaceOutMode => "optical-iface-out-mode".to_owned(),
        }
    }

    /// The position of this element in the fixed surface order.
    pub open spec fn spec_surface_index(self) -> int {
        match self {
            V3PortElem::PhoneAssign => 0,
            V3PortElem::MainAssign => 1,
            V3PortElem::ReturnAssign => 2,
            V3PortElem::WordOutMode => 3,
            V3PortElem::OptIfaceInMode => 4,
            V3PortElem::OptIfaceOutMode => 5,
        }
    }

    /// The port element a control element name addresses: `Some` of the
    /// element bearing the name, `None` for a name no port element bears.
    pub fn of_name(name: &String) -> (r: Option<V3PortElem>)
        ensures
            r matches Some(e) ==> name@ == e.spec_name(),
            r is None ==> forall|e: V3PortElem| name@ != e.spec_name(),
    {
        if *name == V3PortElem::PhoneAssign.name() {
            Some(V3PortElem::PhoneAssign)
        } else if *name == V3PortElem::MainAssign.name() {
            Some(V3PortElem::MainAssign)
        } else if *name == V3PortElem::ReturnAssign.name() {
            Some(V3PortElem::ReturnAssign)
        } else if *name == V3PortElem::WordOutMode.name() {
            Some(V3PortElem::WordOutMode)
        } else if *name == V3PortElem::OptIfaceInMode.name() {
            Some(V3PortElem::OptIfaceInMode)
        } else if *name == V3PortElem::OptIfaceOutMode.name() {
            Some(V3PortElem::OptIfaceOutMode)
        } else {
            proof {
                assert forall|e: V3PortElem| name@ != e.spec_name() by {
                    match e {
                        V3PortElem::PhoneAssign => {},
                        V3PortElem::MainAssign => {},
                        V3PortElem::ReturnAssign => {},
                        V3PortElem::WordOutMode => {},
                        V3PortElem::OptIfaceInMode => {},
                        V3PortElem::OptIfaceOutMode => {},
                    }
                }
            }
            None
        }
    }
}

impl V3PortCtl {
    /// Port controls for a model with the given target table and optional
    /// elements.
    pub fn new(
        assign_labels: Vec<String>,
        assign_vals: Vec<u8>,
        has_main_assign: bool,
        has_return_assign: bool,
        has_opt_ifaces: bool,
        has_word_bnc: bool,
    ) -> (r: V3PortCtl)
        ensures
            r == (V3PortCtl {
                assign_labels,
                assign_vals,
                has_main_assign,
                has_return_assign,
                has_opt_ifaces,
                has_word_bnc,
            }),
    {
        V3PortCtl {
            assign_labels,
            assign_vals,
            has_main_assign,
            has_return_assign,
            has_opt_ifaces,
            has_word_bnc,
        }
    }

    /// Whether the model exposes an element: the headphone routing always,
    /// each other element only where the model has the hardware.
    pub open spec fn spec_has_elem(self, elem: V3PortElem) -> bool {
        match elem {
            V3PortElem::PhoneAssign => true,
            V3PortElem::MainAssign => self.has_main_assign,
            V3PortElem::ReturnAssign => self.has_return_assign,
            V3PortElem::WordOutMode => self.has_word_bnc,
            V3PortElem::OptIfaceInMode => self.has_opt_ifaces,
            V3PortElem::OptIfaceOutMode => self.has_opt_ifaces,
        }
    }

    /// Whether the model exposes an element.
    pub fn has_elem(&self, elem: V3PortElem) -> (r: bool)
        ensures
            r == self.spec_has_elem(elem),
    {
        match elem {
            V3PortElem::PhoneAssign => true,
            V3PortElem::MainAssign => self.has_main_assign,
            V3PortElem::ReturnAssign => self.has_return_assign,
            V3PortElem::WordOutMode => self.has_word_bnc,
            V3PortElem::OptIfaceInMode => self.has_opt_ifaces,
            V3PortElem::OptIfaceOutMode => self.has_opt_ifaces,
        }
    }

    /// The elements this model's surface carries, in fixed order: exactly
    /// those the model has the hardware for.
    pub fn available_elems(&self) -> (r: Vec<V3PortElem>)
        ensures
            forall|e: V3PortElem| r@.contains(e) <==> self.spec_has_elem(e),
            forall|j1: int, j2: int|
                0 <= j1 < j2 < r@.len() ==> r@[j1].spec_surface_index()
                    < r@[j2].spec_surface_index(),
    {
        let mut all: Vec<V3PortElem> = Vec::new();
        all.push(V3PortElem::PhoneAssign);
        all.push(V3PortElem::MainAssign);
        all.push(V3PortElem::ReturnAssign);
        all.push(V3PortElem::WordOutMode);
        all.push(V3PortElem::OptIfaceInMode);
        all.push(V3PortElem::OptIfaceOutMode);
        proof {
            assert(all@ =~= seq![
                V3PortElem::PhoneAssign,
                V3PortElem::MainAssign,
                V3PortElem::ReturnAssign,
                V3PortElem::WordOutMode,
                V3PortElem::OptIfaceInMode,
                V3PortElem::OptIfaceOutMode,
            ]);
        }
        let count: usize = all.len();
        let mut out: Vec<V3PortElem> = Vec::new();
        let mut k: usize = 0;
        while k < count
            invariant
                count == 6,
                all@ =~= seq![
                    V3PortElem::PhoneAssign,
                    V3PortElem::MainAssign,
                    V3PortElem::ReturnAssign,
                    V3PortElem::WordOutMode,
                    V3PortElem::OptIfaceInMode,
                    V3PortElem::OptIfaceOutMode,
                ],
                0 <= k <= count,
                forall|j: int|
                    0 <= j < out@.len() ==> self.spec_has_elem(out@[j])
                        && out@[j].spec_surface_index() < k,
                forall|i: int|
                    0 <= i < k && self.spec_has_elem(all@[i]) ==> out@.contains(all@[i]),
                forall|j1: int, j2: int|
                    0 <= j1 < j2 < out@.len() ==> out@[j1].spec_surface_index()
                        < out@[j2].spec_surface_index(),
            decreases count - k,
        {
            let ghost prev = out@;
            let e = all[k];
            if self.has_elem(e) {
                out.push(e);
                proof {
                    assert(e.spec_surface_index() == k as int);
                    assert forall|i: int|
                        0 <= i < k + 1 && self.spec_has_elem(all@[i]) implies out@.contains(
                        all@[i],
                    ) by {
                        if i < k {
                            let w = choose|w: int| 0 <= w < prev.len() && prev[w] == all@[i];
                            assert(out@[w] == all@[i]);
                        } else {
                            assert(out@[out@.len() - 1] == e);
                        }
                    }
                }
            }
            k = k + 1;
        }
        proof {
            assert forall|e: V3PortElem| out@.contains(e) <==> self.spec_has_elem(e) by {
                match e {
                    V3PortElem::PhoneAssign => assert(all@[0] == e),
                    V3PortElem::MainAssign => assert(all@[1] == e),
                    V3PortElem::ReturnAssign => assert(all@[2] == e),
                    V3PortElem::WordOutMode => assert(all@[3] == e),
                    V3PortElem::OptIfaceInMode => assert(all@[4] == e),
                    V3PortElem::OptIfaceOutMode => assert(all@[5] == e),
                }
            }
        }
        out
    }

    /// The device value of the routable target a control index selects;
    /// an index outside the model's table is an invalid argument.
    pub fn assign_val_of_index(&self, idx: usize) -> (r: Result<u8, ProtocolError>)
        ensures
            idx < self.assign_vals@.len() ==> r == Ok::<u8, ProtocolError>(
                self.assign_vals@[idx as int],
            ),
            idx >= self.assign_vals@.len() ==> r == Err::<u8, ProtocolError>(
                ProtocolError::InvalidArgument,
            ),
    {
        if idx < self.assign_vals.len() {
            Ok(self.assign_vals[idx])
        } else {
            Err(ProtocolError::InvalidArgument)
        }
    }
}

/// The device values of the word clock output modes, by mode index.
pub fn word_out_mode_vals() -> (r: Vec<u8>)
    ensures
        r@ == seq![0x00u8, 0x01u8],
{
    let mut v: Vec<u8> = Vec::new();
    v.push(0x00);
    v.push(0x01);
    proof {
        assert(v@ =~= seq![0x00u8, 0x01u8]);
    }
    v
}

/// The port controls of a second-generation model: which optional
/// elements the model has, and its table of headphone targets.
#[derive(Clone, Debug, PartialEq, Eq)]
pub struct V2PortCtl {
    /// The label shown for each headphone target.
    pub phone_assign_labels: Vec<String>,
    /// The device value of each headphone target, by the same index.
    pub phone_assign_vals: Vec<u8>,
    /// Whether the model routes its main volume knob.
    pub has_main_vol: bool,
    /// Whether the model has a word clock output on BNC.
    pub has_word_bnc: bool,
    /// Whether the model has optical interfaces.
    pub has_opt_ifaces: bool,
    /// Whether the optical interfaces can carry S/PDIF.
    pub has_spdif_opt: bool,
}

/// One element of the port control surface of a second-generation model.
#[derive(Clone, Copy, Debug, PartialEq, Eq, Structural)]
pub enum V2PortElem {
    PhoneAssign,
    MainVolTarget,
    WordOutMode,
    OptIfaceInMode,
    OptIfaceOutMode,
}

impl V2PortElem {
    /// The position of this element in the fixed surface order.
    pub open spec fn spec_surface_index(self) -> int {
        match self {
            V2PortElem::PhoneAssign => 0,
            V2PortElem::MainVolTarget => 1,
            V2PortElem::WordOutMode => 2,
            V2PortElem::OptIfaceInMode => 3,
            V2PortElem::OptIfaceOutMode => 4,
        }
    }
}

impl V2PortCtl {
    /// Port controls for a model with the given target table and optional
    /// elements.
    pub fn new(
        phone_assign_labels: Vec<String>,
        phone_assign_vals: Vec<u8>,
        has_main_vol: bool,
        has_word_bnc: bool,
        has_opt_ifaces: bool,
        has_spdif_opt: bool,
    ) -> (r: V2PortCtl)
        ensures
            r == (V2PortCtl {
                phone_assign_labels,
                phone_assign_vals,
                has_main_vol,
                has_word_bnc,
                has_opt_ifaces,
                has_spdif_opt,
            }),
    {
        V2PortCtl {
            phone_assign_labels,
            phone_assign_vals,
            has_main_vol,
            has_word_bnc,
            has_opt_ifaces,
            has_spdif_opt,
        }
    }

    /// Whether the model exposes an element: the headphone routing always,
    /// each other element only where the model has the hardware.
    pub open spec fn spec_has_elem(self, elem: V2PortElem) -> bool {
        match elem {
            V2PortElem::PhoneAssign => true,
            V2PortElem::MainVolTarget => self.has_main_vol,
            V2PortElem::WordOutMode => self.has_word_bnc,
            V2PortElem::OptIfaceInMode => self.has_opt_ifaces,
            V2PortElem::OptIfaceOutMode => self.has_opt_ifaces,
        }
    }

    /// Whether the model exposes an element.
    pub fn has_elem(&self, elem: V2PortElem) -> (r: bool)
        ensures
            r == self.spec_has_elem(elem),
    {
        match elem {
            V2PortElem::PhoneAssign => true,
            V2PortElem::MainVolTarget => self.has_main_vol,
            V2PortElem::WordOutMode => self.has_word_bnc,
            V2PortElem::OptIfaceInMode => self.has_opt_ifaces,
            V2PortElem::OptIfaceOutMode => self.has_opt_ifaces,
        }
    }

    /// The elements this model's surface carries, in fixed order: exactly
    /// those the model has the hardware for.
    pub fn available_elems(&self) -> (r: Vec<V2PortElem>)
        ensures
            forall|e: V2PortElem| r@.contains(e) <==> self.spec_has_elem(e),
            forall|j1: int, j2: int|
                0 <= j1 < j2 < r@.len() ==> r@[j1].spec_surface_index()
                    < r@[j2].spec_surface_index(),
    {
        let mut all: Vec<V2PortElem> = Vec::new();
        all.push(V2PortElem::PhoneAssign);
        all.push(V2PortElem::MainVolTarget);
        all.push(V2PortElem::WordOutMode);
        all.push(V2PortElem::OptIfaceInMode);
        all.push(V2PortElem::OptIfaceOutMode);
        proof {
            assert(all@ =~= seq![
                V2PortElem::PhoneAssign,
                V2PortElem::MainVolTarget,
                V2PortElem::WordOutMode,
                V2PortElem::OptIfaceInMode,
                V2PortElem::OptIfaceOutMode,
            ]);
        }
        let count: usize = all.len();
        let mut out: Vec<V2PortElem> = Vec::new();
        let mut k: usize = 0;
        while k < count
            invariant
                count == 5,
                all@ =~= seq![
                    V2PortElem::PhoneAssign,
                    V2PortElem::MainVolTarget,
                    V2PortElem::WordOutMode,
                    V2PortElem::OptIfaceInMode,
                    V2PortElem::OptIfaceOutMode,
                ],
                0 <= k <= count,
                forall|j: int|
                    0 <= j < out@.len() ==> self.spec_has_elem(out@[j])
                        && out@[j].spec_surface_index() < k,
                forall|i: int|
                    0 <= i < k && self.spec_has_elem(all@[i]) ==> out@.contains(all@[i]),
                forall|j1: int, j2: int|
                    0 <= j1 < j2 < out@.len() ==> out@[j1].spec_surface_index()
                        < out@[j2].spec_surface_index(),
            decreases count - k,
        {
            let ghost prev = out@;
            let e = all[k];
            if self.has_elem(e) {
                out.push(e);
                proof {
                    assert(e.spec_surface_index() == k as int);
                    assert forall|i: int|
                        0 <= i < k + 1 && self.spec_has_elem(all@[i]) implies out@.contains(
                        all@[i],
                    ) by {
                        if i < k {
                            let w = choose|w: int| 0 <= w < prev.len() && prev[w] == all@[i];
                            assert(out@[w] == all@[i]);
                        } else {
                            assert(out@[out@.len() - 1] == e);
                        }
                    }
                }
            }
            k = k + 1;
        }
        proof {
            assert forall|e: V2PortElem| out@.contains(e) <==> self.spec_has_elem(e) by {
                match e {
                    V2PortElem::PhoneAssign => assert(all@[0] == e),
                    V2PortElem::MainVolTarget => assert(all@[1] == e),
                    V2PortElem::WordOutMode => assert(all@[2] == e),
                    V2PortElem::OptIfaceInMode => assert(all@[3] == e),
                    V2PortElem::OptIfaceOutMode => assert(all@[4] == e),
                }
            }
        }
        out
    }

    /// The device value of the headphone target a control index selects;
    /// an index outside the model's table is an invalid argument.
    pub fn phone_assign_val_of_index(&self, idx: usize) -> (r: Result<u8, ProtocolError>)
        ensures
            idx < self.phone_assign_vals@.len() ==> r == Ok::<u8, ProtocolError>(
                self.phone_assign_vals@[idx as int],
            ),
            idx >= self.phone_assign_vals@.len() ==> r == Err::<u8, ProtocolError>(
                ProtocolError::InvalidArgument,
            ),
    {
        if idx < self.phone_assign_vals.len() {
            Ok(self.phone_assign_vals[idx])
        } else {
            Err(ProtocolError::InvalidArgument)
        }
    }

    /// How many optical interface modes the model offers: the S/PDIF mode
    /// only where the interfaces can carry it.
    pub fn opt_iface_mode_count(&self) -> (r: usize)
        ensures
            self.has_spdif_opt ==> r == 3,
            !self.has_spdif_opt ==> r == 2,
    {
        if self.has_spdif_opt {
            3
        } else {
            2
        }
    }
}

/// The device values of the main volume targets, by target index.
pub fn main_vol_target_vals() -> (r: Vec<u8>)
    ensures
        r@ == seq![0x00u8, 0x01u8, 0x02u8, 0x03u8],
{
    let mut v: Vec<u8> = Vec::new();
    v.push(0x00);
    v.push(0x01);
    v.push(0x02);
    v.push(0x03);
    proof {
        assert(v@ =~= seq![0x00u8, 0x01u8, 0x02u8, 0x03u8]);
    }
    v
}

/// The device values of the optical interface modes, by mode index.
pub fn opt_iface_mode_vals() -> (r: Vec<u8>)
    ensures
        r@ == seq![0x00u8, 0x01u8, 0x02u8],
{
    let mut v: Vec<u8> = Vec::new();
    v.push(0x00);
    v.push(0x01);
    v.push(0x02);
    proof {
        assert(v@ =~= seq![0x00u8, 0x01u8, 0x02u8]);
    }
    v
}

/// The 828mk3 model: port controls with the full third-generation element
/// set and its fifteen routable targets.
#[derive(Clone, Debug, PartialEq, Eq)]
pub struct F828mk3 {
    pub port_ctls: V3PortCtl,
}

/// The device values of the sampling clock rates of the 828mk3, by rate
/// index.
pub fn f828mk3_clk_rate_vals() -> (r: Vec<u8>)
    ensures
        r@ == seq![0x00u8, 0x01u8, 0x02u8, 0x03u8, 0x04u8, 0x05u8],
{
    let mut v: Vec<u8> = Vec::new();
    v.push(0x00);
    v.push(0x01);
    v.push(0x02);
    v.push(0x03);
    v.push(0x04);
    v.push(0x05);
    proof {
        assert(v@ =~= seq![0x00u8, 0x01u8, 0x02u8, 0x03u8, 0x04u8, 0x05u8]);
    }
    v
}

/// The device values of the sampling clock sources of the 828mk3, by
/// source index.
pub fn f828mk3_clk_src_vals() -> (r: Vec<u8>)
    ensures
        r@ == seq![0x00u8, 0x01u8, 0x10u8, 0x18u8, 0x19u8],
{
    let mut v: Vec<u8> = Vec::new();
    v.push(0x00);
    v.push(0x01);
    v.push(0x10);
    v.push(0x18);
    v.push(0x19);
    proof {
        assert(v@ =~= seq![0x00u8, 0x01u8, 0x10u8, 0x18u8, 0x19u8]);
    }
    v
}

/// The device values of the routable targets of the 828mk3, by target
/// index.
pub fn f828mk3_port_assign_vals() -> (r: Vec<u8>)
    ensures
        r@.len() == 15,
        forall|k: int| 0 <= k < 15 ==> r@[k] == k as u8,
{
    let mut v: Vec<u8> = Vec::new();
    let mut k: usize = 0;
    while k < 15
        invariant
            0 <= k <= 15,
            v@.len() == k,
            forall|j: int| 0 <= j < k ==> v@[j] == j as u8,
        decreases 15 - k,
    {
        v.push(k as u8);
        k = k + 1;
    }
    v
}

impl F828mk3 {
    /// The 828mk3: every optional port element present, fifteen routable
    /// targets.
    pub fn new(assign_labels: Vec<String>) -> (r: F828mk3)
        ensures
            r.port_ctls.assign_labels == assign_labels,
            r.port_ctls.assign_vals@.len() == 15,
            forall|k: int| 0 <= k < 15 ==> r.port_ctls.assign_vals@[k] == k as u8,
            r.port_ctls.has_main_assign,
            r.port_ctls.has_return_assign,
            r.port_ctls.has_opt_ifaces,
            r.port_ctls.has_word_bnc,
    {
        F828mk3 {
            port_ctls: V3PortCtl::new(
                assign_labels,
                f828mk3_port_assign_vals(),
                true,
                true,
                true,
                true,
            ),
        }
    }
}

} // verus!
