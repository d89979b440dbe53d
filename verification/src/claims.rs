//! Identity claims derived from a verified client-certificate subject.

use vstd::prelude::*;

verus! {

/// Structured identity derived per request from the certificate subject that
/// the reverse proxy verified and forwarded. Claims are immutable and never
/// persisted.
pub struct Claims {
    /// The user identifier taken from the certificate.
    pub uid: String,
    /// The full name of the certificate holder.
    pub name: String,
    /// The email address of the certificate holder.
    pub email: String,
}

impl Claims {
    /// Two claims are the same identity when all three fields agree.
    pub open spec fn same_identity(self, other: Claims) -> bool {
        &&& self.uid@ == other.uid@
        &&& self.name@ == other.name@
        &&& self.email@ == other.email@
    }
}

} // verus!
