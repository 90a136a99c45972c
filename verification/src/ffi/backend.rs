//! Backend objects, which the cpdb-libs API does not have: every
//! operation reports that it is not supported.

use vstd::prelude::*;
use crate::error::CpdbError;

verus! {

/// A stand-in for a backend object; cpdb-libs offers none.
#[derive(Debug)]
pub struct Backend {}

impl Backend {
    /// Always fails: backend objects are not part of the cpdb-libs API.
    pub fn new(backend_name: &str) -> (r: Result<Backend, CpdbError>)
        ensures
            r matches Err(CpdbError::BackendError(m))
                && m@ == "Backend objects not supported in cpdb-libs API - use Frontend and Printer instead"@,
    {
        Err(CpdbError::BackendError(String::from_str(
            "Backend objects not supported in cpdb-libs API - use Frontend and Printer instead",
        )))
    }

    /// Always fails: jobs are submitted through printers.
    pub fn submit_job(
        &self,
        printer_name: &str,
        file_path: &str,
        options: &[(&str, &str)],
        job_name: &str,
    ) -> (r: Result<(), CpdbError>)
        ensures
            r matches Err(CpdbError::BackendError(m))
                && m@ == "Backend job submission not supported - use Printer::print_single_file instead"@,
    {
        Err(CpdbError::BackendError(String::from_str(
            "Backend job submission not supported - use Printer::print_single_file instead",
        )))
    }
}

} // verus!
