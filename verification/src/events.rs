//! Discovery events emitted by CPDB backends, and the printer snapshots
//! they carry.

use vstd::prelude::*;
use crate::proxy::RawPrinter;
use crate::types::{law_owned_and_borrowed_parse_agree, name_of_state, state_of_name, PrinterState, StateValue};
use crate::text::concat3;

verus! {

/// An event emitted during printer discovery or state monitoring.
#[derive(Debug, Clone, PartialEq, Eq, Hash)]
#[non_exhaustive]
pub enum DiscoveryEvent {
    /// A printer was discovered or re-announced.
    PrinterAdded(PrinterSnapshot),
    /// A printer was removed from the backend.
    PrinterRemoved {
        /// The printer's unique ID.
        id: String,
        /// The backend that reported the removal.
        backend: String,
    },
    /// A printer's state or accepting-jobs status changed.
    PrinterStateChanged {
        /// The printer's unique ID.
        id: String,
        /// The backend that reported the change.
        backend: String,
        /// The new state.
        state: PrinterState,
        /// Whether the printer is accepting new jobs.
        accepting_jobs: bool,
    },
}

/// Snapshot of a printer's identity and status at a point in time.
#[derive(Debug, Clone, PartialEq, Eq, Hash)]
pub struct PrinterSnapshot {
    /// The backend-assigned unique printer ID.
    pub id: String,
    /// The human-readable display name.
    pub name: String,
    /// A free-form description of the printer.
    pub info: String,
    /// Physical location string as reported by the backend.
    pub location: String,
    /// Make and model string (e.g. `"HP LaserJet Pro"`).
    pub make_model: String,
    /// Current state (e.g. idle, processing, stopped).
    pub state: PrinterState,
    /// Whether the printer is currently accepting new jobs.
    pub accepting_jobs: bool,
    /// The backend that owns this printer (e.g. `"CUPS"`).
    pub backend: String,
}

/// The one-line description of a snapshot: `name [id] (state)`.
pub open spec fn snapshot_text(s: PrinterSnapshot) -> Seq<char> {
    s.name@ + " ["@ + s.id@ + "] ("@ + name_of_state(s.state@) + ")"@
}

/// `s` carries the data of a raw `GetAllPrinters` record: id, name, info,
/// location, make and model, accepting flag, parsed state and backend.
pub open spec fn snapshot_from_raw(s: PrinterSnapshot, r: RawPrinter) -> bool {
    &&& s.id == r.0
    &&& s.name == r.1
    &&& s.info == r.2
    &&& s.location == r.3
    &&& s.make_model == r.4
    &&& s.accepting_jobs == r.5
    &&& s.state == PrinterState::spec_from_owned_name(r.6)
    &&& s.backend == r.7
}

impl PrinterSnapshot {
    /// Returns `true` when the printer is idle and accepting jobs.
    pub fn is_ready(&self) -> (r: bool)
        ensures
            r == (self.state@ == StateValue::Idle && self.accepting_jobs),
    {
        self.state.is_idle() && self.accepting_jobs
    }

    /// The one-line description `name [id] (state)`.
    pub fn display_string(&self) -> (r: String)
        ensures
            r@ == snapshot_text(*self),
    {
        let mut s = concat3(self.name.as_str(), " [", self.id.as_str());
        s.append("] (");
        s.append(self.state.as_str());
        s.append(")");
        s
    }

    /// Builds the snapshot that a raw `GetAllPrinters` record describes.
    pub fn from_raw(raw: RawPrinter) -> (s: PrinterSnapshot)
        ensures
            snapshot_from_raw(s, raw),
    {
        let ghost r = raw;
        let (id, name, info, location, make_model, accepting_jobs, state, backend) = raw;
        PrinterSnapshot {
            id,
            name,
            info,
            location,
            make_model,
            state: PrinterState::from_owned_name(state),
            accepting_jobs,
            backend,
        }
    }
}

impl DiscoveryEvent {
    /// The event for a `PrinterAdded` signal.
    pub fn printer_added(raw: RawPrinter) -> (e: DiscoveryEvent)
        ensures
            e matches DiscoveryEvent::PrinterAdded(s) && snapshot_from_raw(s, raw),
    {
        DiscoveryEvent::PrinterAdded(PrinterSnapshot::from_raw(raw))
    }

    /// The event for a `PrinterRemoved` signal.
    pub fn printer_removed(id: String, backend: String) -> (e: DiscoveryEvent)
        ensures
            e == (DiscoveryEvent::PrinterRemoved { id, backend }),
    {
        DiscoveryEvent::PrinterRemoved { id, backend }
    }

    /// The event for a `PrinterStateChanged` signal.
    pub fn printer_state_changed(id: String, backend: String, state: String, accepting_jobs: bool) -> (e: DiscoveryEvent)
        ensures
            e == (DiscoveryEvent::PrinterStateChanged {
                id,
                backend,
                state: PrinterState::spec_from_owned_name(state),
                accepting_jobs,
            }),
    {
        DiscoveryEvent::PrinterStateChanged {
            id,
            backend,
            state: PrinterState::from_owned_name(state),
            accepting_jobs,
        }
    }
}

/// A snapshot built from a `GetAllPrinters` record `(id, name, info,
/// location, make and model, accepting, state, backend)` has each field
/// from its own position of the record, and the state parsed from the
/// record's state string.
pub proof fn law_snapshot_fields_follow_the_record(s: PrinterSnapshot, r: RawPrinter)
    requires
        snapshot_from_raw(s, r),
    ensures
        s.id == r.0,
        s.name == r.1,
        s.info == r.2,
        s.location == r.3,
        s.make_model == r.4,
        s.accepting_jobs == r.5,
        s.state@ == state_of_name(r.6@),
        s.backend == r.7,
{
    law_owned_and_borrowed_parse_agree(r.6);
}

} // verus!
