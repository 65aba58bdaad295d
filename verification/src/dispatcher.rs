//! Command dispatcher: turn a validated command request into an ordered
//! sequence of hardware operations with visual feedback.

use vstd::prelude::*;
use crate::hw::{Delay, FmTuneOutcome, Indicator, Tuner};
use crate::payload::CommandRequest;
use crate::station::{resolve_in, StationDirectory, StationKind, StationKindModel, StationModel};
use crate::store::HardwareStateStore;

verus! {

/// Terminal outcome of dispatching one command request.
pub enum DispatchOutcome {
    /// The tuner holds the resolved frequency; `indicator_ok` reports
    /// whether the advisory indicator writes around it succeeded.
    FmTuned { freq_dmhz: u16, indicator_ok: bool },
    /// The request asked for a webradio and the directory holds its URL.
    /// Informational in the current scope: no hardware is touched.
    WebResolved { url: String },
    /// The name is not in the directory; no hardware is touched.
    NotFound { station_name: String },
    /// The request's webradio flag contradicts the resolved station's kind.
    KindMismatch,
    /// The tuner driver failed; the previous frequency is retained.
    HardwareError,
}

/// How a request resolves against a directory, before hardware is involved.
pub enum Resolution {
    NotFound,
    Fm { freq_dmhz: u16 },
    Web { url: Seq<char> },
    Mismatch,
}

/// Resolve a request: look the name up, then hold the webradio flag against
/// the station's kind.
pub open spec fn resolution(dir: Seq<StationModel>, name: Seq<char>, is_web: bool) -> Resolution {
    match resolve_in(dir, name) {
        Option::None => Resolution::NotFound,
        Option::Some(st) => match st.kind {
            StationKindModel::Fm { freq_dmhz } => if !is_web {
                Resolution::Fm { freq_dmhz }
            } else {
                Resolution::Mismatch
            },
            StationKindModel::Web { url } => if is_web {
                Resolution::Web { url }
            } else {
                Resolution::Mismatch
            },
        },
    }
}

/// Dispatch one validated request: resolve the name, and for an FM station
/// run the busy-tune-ready sequence inside one exclusive-access scope of the
/// store. Resolution failures touch no hardware; tuner failures are
/// reported, never swallowed.
pub fn dispatch<T: Tuner, I: Indicator, D: Delay>(
    req: &CommandRequest,
    store: &HardwareStateStore<T, I, D>,
    directory: &StationDirectory,
) -> (r: DispatchOutcome)
    requires
        store.wf(),
    ensures
        ({
            let res = resolution(directory@, req.station_name@, req.is_web);
            match res {
                Resolution::NotFound => r matches DispatchOutcome::NotFound { station_name }
                    && station_name@ == req.station_name@,
                Resolution::Web { url } => r matches DispatchOutcome::WebResolved { url: u } && u@
                    == url,
                Resolution::Mismatch => r is KindMismatch,
                Resolution::Fm { freq_dmhz } => (r matches DispatchOutcome::FmTuned {
                    freq_dmhz: f,
                    indicator_ok: _,
                } && f == freq_dmhz) || r is HardwareError,
            }
        }),
{
    match directory.resolve(req.station_name.as_str()) {
        None => DispatchOutcome::NotFound { station_name: req.station_name.clone() },
        Some(station) => match &station.kind {
            StationKind::Web { url } => {
                if req.is_web {
                    DispatchOutcome::WebResolved { url: url.clone() }
                } else {
                    DispatchOutcome::KindMismatch
                }
            },
            StationKind::Fm { freq_dmhz } => {
                if req.is_web {
                    DispatchOutcome::KindMismatch
                } else {
                    match store.tune_fm_exclusive(*freq_dmhz) {
                        FmTuneOutcome::Tuned { indicator_ok } => DispatchOutcome::FmTuned {
                            freq_dmhz: *freq_dmhz,
                            indicator_ok,
                        },
                        FmTuneOutcome::TunerFailed { indicator_ok: _ } => DispatchOutcome::HardwareError,
                    }
                }
            },
        },
    }
}

} // verus!
