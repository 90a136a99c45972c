//! The error type shared by every fallible operation of the library.

use vstd::prelude::*;
use crate::text::{concat2, i32_to_decimal, int_decimal};

verus! {

/// Errors reported by the library.
#[derive(Debug)]
#[non_exhaustive]
pub enum CpdbError {
    /// A handle that must not be null was null.
    NullPointer,
    /// A printer object is invalid or has been released.
    InvalidPrinter,
    /// A lookup (printer, option, media, translation, ...) found nothing.
    NotFound(String),
    /// A printer-side operation failed.
    PrinterError(String),
    /// A print job submission failed.
    JobFailed(String),
    /// A backend-side operation failed.
    BackendError(String),
    /// A frontend-side operation failed.
    FrontendError(String),
    /// A printer option could not be parsed or applied.
    OptionError(String),
    /// A string was not valid UTF-8 (the description of the fault).
    Utf8Error(String),
    /// A string held an interior NUL byte (the description of the fault).
    NulError(String),
    /// An I/O operation failed (the description of the fault).
    IoError(String),
    /// An unexpected status code was returned.
    InvalidStatus(i32),
    /// The requested operation is not supported.
    Unsupported,
    /// A D-Bus call or connection failed (the description of the fault).
    DbusError(String),
}

impl CpdbError {
    /// The human-readable message of this error.
    pub open spec fn spec_message(self) -> Seq<char> {
        match self {
            CpdbError::NullPointer => "Null pointer encountered"@,
            CpdbError::InvalidPrinter => "Invalid printer object"@,
            CpdbError::NotFound(s) => "Not found: "@ + s@,
            CpdbError::PrinterError(s) => "Printer error: "@ + s@,
            CpdbError::JobFailed(s) => "Print job failed: "@ + s@,
            CpdbError::BackendError(s) => "Backend error: "@ + s@,
            CpdbError::FrontendError(s) => "Frontend error: "@ + s@,
            CpdbError::OptionError(s) => "Option error: "@ + s@,
            CpdbError::Utf8Error(s) => "Invalid UTF-8 string: "@ + s@,
            CpdbError::NulError(s) => "Nul byte in string: "@ + s@,
            CpdbError::IoError(s) => "IO error: "@ + s@,
            CpdbError::InvalidStatus(code) => "Invalid status code: "@ + int_decimal(code as int),
            CpdbError::Unsupported => "Unsupported operation"@,
            CpdbError::DbusError(s) => "D-Bus error: "@ + s@,
        }
    }

    /// Renders the human-readable message of this error.
    pub fn message(&self) -> (r: String)
        ensures
            r@ == self.spec_message(),
    {
        match self {
            CpdbError::NullPointer => String::from_str("Null pointer encountered"),
            CpdbError::InvalidPrinter => String::from_str("Invalid printer object"),
            CpdbError::NotFound(s) => concat2("Not found: ", s.as_str()),
            CpdbError::PrinterError(s) => concat2("Printer error: ", s.as_str()),
            CpdbError::JobFailed(s) => concat2("Print job failed: ", s.as_str()),
            CpdbError::BackendError(s) => concat2("Backend error: ", s.as_str()),
            CpdbError::FrontendError(s) => concat2("Frontend error: ", s.as_str()),
            CpdbError::OptionError(s) => concat2("Option error: ", s.as_str()),
            CpdbError::Utf8Error(s) => concat2("Invalid UTF-8 string: ", s.as_str()),
            CpdbError::NulError(s) => concat2("Nul byte in string: ", s.as_str()),
            CpdbError::IoError(s) => concat2("IO error: ", s.as_str()),
            CpdbError::InvalidStatus(code) => {
                let digits = i32_to_decimal(*code);
                concat2("Invalid status code: ", digits.as_str())
            },
            CpdbError::Unsupported => String::from_str("Unsupported operation"),
            CpdbError::DbusError(s) => concat2("D-Bus error: ", s.as_str()),
        }
    }
}

} // verus!
