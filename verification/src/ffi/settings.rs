//! Stand-alone media descriptor handles.

use vstd::prelude::*;
use crate::error::CpdbError;

verus! {

/// A handle on a stand-alone cpdb-libs media descriptor, by its address.
#[derive(Debug)]
pub struct Media {
    raw: usize,
}

impl Media {
    /// The address of the media descriptor.
    pub closed spec fn address(self) -> usize {
        self.raw
    }

    #[verifier::type_invariant]
    closed spec fn not_null(self) -> bool {
        self.raw != 0
    }

    /// Wraps a media descriptor; a null address is refused.
    pub fn from_raw(raw: usize) -> (r: Result<Media, CpdbError>)
        ensures
            raw == 0 ==> r matches Err(CpdbError::NullPointer),
            raw != 0 ==> (r matches Ok(m) && m.address() == raw),
    {
        if raw == 0 {
            Err(CpdbError::NullPointer)
        } else {
            Ok(Media { raw })
        }
    }

    /// The address of the media descriptor.
    pub fn as_raw(&self) -> (r: usize)
        ensures
            r == self.address(),
            r != 0,
    {
        proof {
            use_type_invariant(self);
        }
        self.raw
    }
}

} // verus!
