//! The one error of this crate: the platform refused to create a window.

use vstd::prelude::*;

verus! {

/// Failure reported by the platform layer while it was creating a window.
///
/// The code is whatever the platform chose; this crate never inspects it and
/// only hands it on to the caller.
#[derive(Clone, Copy, Debug, PartialEq, Eq, Structural)]
pub struct OSError {
    code: i32,
}

impl OSError {
    /// The platform's code, as given to [`OSError::new`].
    pub closed spec fn spec_code(&self) -> i32 {
        self.code
    }

    /// Wraps a platform error code.
    pub fn new(code: i32) -> (r: OSError)
        ensures
            r.spec_code() == code,
    {
        OSError { code }
    }

    /// The platform's code.
    #[verifier::when_used_as_spec(spec_code)]
    pub fn code(&self) -> (r: i32)
        ensures
            r == self.spec_code(),
    {
        self.code
    }
}

} // verus!
