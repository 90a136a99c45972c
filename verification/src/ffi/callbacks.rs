//! The change reported by a cpdb-libs printer callback.

use vstd::prelude::*;

verus! {

/// The change reported by a printer callback.
#[derive(Debug, Clone, Copy, PartialEq, Eq)]
pub enum PrinterUpdate {
    /// A new printer was discovered.
    Added,
    /// A previously known printer was removed.
    Removed,
    /// An existing printer's state field changed.
    StateChanged,
}

impl PrinterUpdate {
    /// Maps the raw `cpdb_printer_update_t` value to the enum; values other
    /// than 0, 1 and 2 are not updates the library knows.
    pub fn from_raw(update: u32) -> (r: Option<PrinterUpdate>)
        ensures
            update == 0 ==> r == Some(PrinterUpdate::Added),
            update == 1 ==> r == Some(PrinterUpdate::Removed),
            update == 2 ==> r == Some(PrinterUpdate::StateChanged),
            update > 2 ==> r is None,
    {
        match update {
            0 => Some(PrinterUpdate::Added),
            1 => Some(PrinterUpdate::Removed),
            2 => Some(PrinterUpdate::StateChanged),
            _ => None,
        }
    }
}

} // verus!
