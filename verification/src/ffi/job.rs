//! Print job objects, which the cpdb-libs API does not have: every
//! operation reports that it is not supported.

use vstd::prelude::*;
use crate::error::CpdbError;

verus! {

/// A stand-in for a print job object; cpdb-libs offers none.
#[derive(Debug)]
pub struct PrintJob {
    id: i32,
}

impl PrintJob {
    /// Always fails: jobs are submitted through printers.
    pub fn new(printer_name: &str, options: &[(&str, &str)], job_name: &str) -> (r: Result<PrintJob, CpdbError>)
        ensures
            r matches Err(CpdbError::JobFailed(m))
                && m@ == "Print job objects not supported in cpdb-libs API - use Printer::print_single_file instead"@,
    {
        Err(CpdbError::JobFailed(String::from_str(
            "Print job objects not supported in cpdb-libs API - use Printer::print_single_file instead",
        )))
    }

    /// Always fails: jobs are submitted through printers.
    pub fn submit_with_file(&mut self, file_path: &str) -> (r: Result<(), CpdbError>)
        ensures
            r matches Err(CpdbError::JobFailed(m))
                && m@ == "Print job submission not supported - use Printer::print_single_file instead"@,
            *final(self) == *old(self),
    {
        Err(CpdbError::JobFailed(String::from_str(
            "Print job submission not supported - use Printer::print_single_file instead",
        )))
    }

    /// No job ID is ever available.
    pub fn id(&self) -> (r: Option<i32>)
        ensures
            r is None,
    {
        None
    }

    /// Always fails: cpdb-libs cannot cancel jobs.
    pub fn cancel(&mut self) -> (r: Result<(), CpdbError>)
        ensures
            r matches Err(CpdbError::JobFailed(m))
                && m@ == "Print job cancellation not supported in cpdb-libs API"@,
            *final(self) == *old(self),
    {
        Err(CpdbError::JobFailed(String::from_str("Print job cancellation not supported in cpdb-libs API")))
    }
}

} // verus!
