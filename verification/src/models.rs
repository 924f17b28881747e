//! Device model selection.
//!
//! A daemon serves one device; at startup it decides, from identifiers the
//! bus reports, which model-specific control object to run.  The set of
//! supported models is closed and known at build time, so the decision is
//! a total function from identifiers to a model or a documented error.

use vstd::prelude::*;
use crate::ProtocolError;

verus! {

/// The control model run for one BeBoB device.
#[derive(Clone, Copy, Debug, PartialEq, Eq, Structural)]
pub enum BebobCtlModel {
    ApogeeEnsemble,
}

/// The control object of one BeBoB device, chosen by vendor and model ID.
#[derive(Clone, Copy, Debug, PartialEq, Eq, Structural)]
pub struct BebobModel {
    pub ctl_model: BebobCtlModel,
}

impl BebobModel {
    /// Choose the control model for a device: the Apogee Ensemble is the
    /// one supported pair of identifiers, every other pair is reported as
    /// unsupported.
    pub fn new(vendor_id: u32, model_id: u32) -> (r: Result<BebobModel, ProtocolError>)
        ensures
            r is Ok <==> (vendor_id == 0x0003db && model_id == 0x01eeee),
            r matches Ok(m) ==> m.ctl_model == BebobCtlModel::ApogeeEnsemble,
            r is Err ==> r == Err::<BebobModel, ProtocolError>(ProtocolError::NotSupported),
    {
        if vendor_id == 0x0003db && model_id == 0x01eeee {
            Ok(BebobModel { ctl_model: BebobCtlModel::ApogeeEnsemble })
        } else {
            Err(ProtocolError::NotSupported)
        }
    }
}

/// The control model of a device this crate attaches no controls to.
#[derive(Clone, Copy, Debug, PartialEq, Eq, Structural)]
pub struct FirepowerModel {
    /// The model exposes no control elements of its own.
    pub loaded: bool,
}

impl FirepowerModel {
    /// A fresh model object, nothing loaded yet.
    pub fn new() -> (r: FirepowerModel)
        ensures
            !r.loaded,
    {
        FirepowerModel { loaded: false }
    }
}

/// The kind of unit a TASCAM device is driven as.
#[derive(Clone, Copy, Debug, PartialEq, Eq, Structural)]
pub enum TascamUnit {
    /// A console model on the sound subsystem, with isochronous packets.
    IsocConsole,
    /// A rack model on the sound subsystem, with isochronous packets.
    IsocRack,
    /// A model on the raw FireWire subsystem, asynchronous only.
    Asynch,
}

/// The unit kind the subsystem name and the detected model name select, or
/// the documented error: an unsupported model name, or a subsystem that is
/// neither the sound nor the FireWire one.
pub open spec fn spec_tascam_unit_kind(subsystem: Seq<char>, name: Seq<char>) -> Result<
    TascamUnit,
    ProtocolError,
> {
    if subsystem == "snd"@ {
        if name == "FW-1884"@ || name == "FW-1082"@ {
            Ok(TascamUnit::IsocConsole)
        } else if name == "FW-1804"@ {
            Ok(TascamUnit::IsocRack)
        } else {
            Err(ProtocolError::NotSupported)
        }
    } else if subsystem == "fw"@ {
        if name == "FE-8"@ {
            Ok(TascamUnit::Asynch)
        } else {
            Err(ProtocolError::NotSupported)
        }
    } else {
        Err(ProtocolError::InvalidArgument)
    }
}

/// Choose the unit kind for a TASCAM device from the subsystem that
/// announced it and the model name read from its configuration ROM.
pub fn detect_tascam_unit_kind(subsystem: &String, name: &String) -> (r: Result<
    TascamUnit,
    ProtocolError,
>)
    ensures
        r == spec_tascam_unit_kind(subsystem@, name@),
{
    let snd: String = "snd".to_owned();
    let fw: String = "fw".to_owned();
    if *subsystem == snd {
        let fw1884: String = "FW-1884".to_owned();
        let fw1082: String = "FW-1082".to_owned();
        let fw1804: String = "FW-1804".to_owned();
        if *name == fw1884 || *name == fw1082 {
            Ok(TascamUnit::IsocConsole)
        } else if *name == fw1804 {
            Ok(TascamUnit::IsocRack)
        } else {
            Err(ProtocolError::NotSupported)
        }
    } else if *subsystem == fw {
        let fe8: String = "FE-8".to_owned();
        if *name == fe8 {
            Ok(TascamUnit::Asynch)
        } else {
            Err(ProtocolError::NotSupported)
        }
    } else {
        Err(ProtocolError::InvalidArgument)
    }
}

} // verus!
