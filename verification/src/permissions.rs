//! The permission guard: an optional allow-list of user identifiers, loaded
//! once at startup. When no allow-list is configured the gateway runs in
//! open-access mode; when one is configured, only claims whose uid is a
//! member may proceed to any downstream strategy.

use vstd::prelude::*;

use crate::claims::Claims;
use crate::response::AuthError;

verus! {

/// The startup-loaded allow-list. Shared read-only across all requests.
pub struct Permissions {
    /// The user identifiers that are allowed to proceed.
    pub allowed_uids: Vec<String>,
}

/// Whether `uid` is a member of the allow-list.
pub open spec fn uid_allowed(p: Permissions, uid: Seq<char>) -> bool {
    exists|i: int| 0 <= i < p.allowed_uids@.len() && p.allowed_uids@[i]@ == uid
}

/// Whether claims with this `uid` may proceed: unconditionally when no
/// allow-list is configured, otherwise exactly when the uid is listed.
pub open spec fn allows(p: Option<Permissions>, uid: Seq<char>) -> bool {
    match p {
        Option::None => true,
        Option::Some(perms) => uid_allowed(perms, uid),
    }
}

/// The permission guard. Succeeds if and only if the uid of the claims is a
/// member of the allow-list; otherwise the identity is denied. No side
/// effects, so an unauthorized identity never reaches a downstream strategy.
pub fn is_allowed_by_uid(claims: &Claims, permissions: &Permissions) -> (r: Result<(), AuthError>)
    ensures
        r is Ok <==> uid_allowed(*permissions, claims.uid@),
        r matches Err(e) ==> e is PermissionDenied,
{
    let n = permissions.allowed_uids.len();
    let mut i: usize = 0;
    while i < n
        invariant
            n == permissions.allowed_uids@.len(),
            i <= n,
            forall|j: int| 0 <= j < i ==> permissions.allowed_uids@[j]@ != claims.uid@,
        decreases n - i,
    {
        if permissions.allowed_uids[i].eq(&claims.uid) {
            assert(uid_allowed(*permissions, claims.uid@)) by {
                assert(permissions.allowed_uids@[i as int]@ == claims.uid@);
            }
            return Ok(());
        }
        i = i + 1;
    }
    Err(AuthError::PermissionDenied)
}

} // verus!
