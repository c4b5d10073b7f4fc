//! The answer of the lockout service to a request, and its status code on the wire.

use vstd::prelude::*;

verus! {

/// Status code of a request that was accepted.
pub const STATUS_OK: u16 = 200;

/// Status code of a request from an address that is locked out.
pub const STATUS_FORBIDDEN: u16 = 403;

/// What the service answers to a ban query or a notification request.
#[derive(Clone, Copy, Debug, PartialEq, Eq, Structural)]
pub enum Verdict {
    /// The address is not locked out.
    Clear,
    /// The address has an active lockout.
    Forbidden,
}

impl Verdict {
    /// The status code that carries this verdict.
    pub open spec fn spec_status_code(self) -> u16 {
        match self {
            Verdict::Clear => STATUS_OK,
            Verdict::Forbidden => STATUS_FORBIDDEN,
        }
    }

    /// The status code that carries this verdict.
    #[verifier::when_used_as_spec(spec_status_code)]
    pub fn status_code(self) -> (code: u16)
        ensures
            code == self.spec_status_code(),
    {
        match self {
            Verdict::Clear => STATUS_OK,
            Verdict::Forbidden => STATUS_FORBIDDEN,
        }
    }
}

} // verus!
