//! The response model and error taxonomy: every per-request outcome, success
//! or failure, is mapped to a plain status, header list and body that the
//! surrounding HTTP layer sends verbatim.

use vstd::prelude::*;

use crate::claims::Claims;

verus! {

/// The per-request and startup failure taxonomy.
#[derive(Clone, Copy, Debug, PartialEq, Eq, Structural)]
pub enum AuthError {
    /// The identity header was missing or malformed.
    ClaimsExtraction,
    /// The uid of the claims is not on the configured allow-list.
    PermissionDenied,
    /// The remote inventory service answered with a non-success status or an
    /// undecodable body.
    RemoteService,
    /// Encoding the signed token failed. The symmetric signer the library
    /// uses cannot fail, so no request path produces this kind; it completes
    /// the failure taxonomy and maps to 500 like the others.
    Signing,
    /// A secret required by the active variant was missing at startup. This
    /// failure is fatal before any traffic is served; it never occurs per
    /// request.
    Configuration,
}

/// A plain model of an HTTP response: status code, headers in order, body.
pub struct HttpResponse {
    /// The HTTP status code.
    pub status: u16,
    /// The response headers, as name and value pairs, in order.
    pub headers: Vec<(String, String)>,
    /// The response body.
    pub body: String,
}

/// The fixed response for a denied identity: 403 with the generic body and no
/// headers.
pub open spec fn is_permission_denied_response(r: HttpResponse) -> bool {
    &&& r.status == 403
    &&& r.headers@.len() == 0
    &&& r.body@ == "error: Permission denied"@
}

/// The fixed response for every failure other than a denied identity: 500
/// with the generic body and no headers. Nothing of the underlying failure is
/// disclosed.
pub open spec fn is_internal_error_response(r: HttpResponse) -> bool {
    &&& r.status == 500
    &&& r.headers@.len() == 0
    &&& r.body@ == "error: Internal Server Error"@
}

/// The passthrough success response: 200 with the three identity headers set
/// verbatim from the claims.
pub open spec fn is_passthrough_response(r: HttpResponse, c: Claims) -> bool {
    &&& r.status == 200
    &&& r.headers@.len() == 3
    &&& r.headers@[0].0@ == "X-Remote-User"@
    &&& r.headers@[0].1@ == c.uid@
    &&& r.headers@[1].0@ == "X-Remote-Name"@
    &&& r.headers@[1].1@ == c.name@
    &&& r.headers@[2].0@ == "X-Remote-Email"@
    &&& r.headers@[2].1@ == c.email@
    &&& r.body@ == "success"@
}

/// The remote-provisioning success response: 200 with only the uid header
/// set. The name and email headers are intentionally omitted for this
/// variant.
pub open spec fn is_provisioned_response(r: HttpResponse, c: Claims) -> bool {
    &&& r.status == 200
    &&& r.headers@.len() == 1
    &&& r.headers@[0].0@ == "X-Remote-User"@
    &&& r.headers@[0].1@ == c.uid@
    &&& r.body@ == "success"@
}

/// Maps a failure to its response: `PermissionDenied` to 403, every other
/// failure kind to 500, each with its fixed generic body and no internal
/// detail.
pub fn error_response(e: &AuthError) -> (r: HttpResponse)
    ensures
        e is PermissionDenied ==> is_permission_denied_response(r),
        !(e is PermissionDenied) ==> is_internal_error_response(r),
{
    match e {
        AuthError::PermissionDenied => HttpResponse {
            status: 403,
            headers: Vec::new(),
            body: String::from_str("error: Permission denied"),
        },
        _ => HttpResponse {
            status: 500,
            headers: Vec::new(),
            body: String::from_str("error: Internal Server Error"),
        },
    }
}

/// Builds the passthrough success response for the claims.
pub fn passthrough_response(c: &Claims) -> (r: HttpResponse)
    ensures
        is_passthrough_response(r, *c),
{
    let mut headers: Vec<(String, String)> = Vec::new();
    headers.push((String::from_str("X-Remote-User"), c.uid.clone()));
    headers.push((String::from_str("X-Remote-Name"), c.name.clone()));
    headers.push((String::from_str("X-Remote-Email"), c.email.clone()));
    HttpResponse { status: 200, headers, body: String::from_str("success") }
}

/// Builds the remote-provisioning success response for the claims: only the
/// uid header is set.
pub fn provisioned_response(c: &Claims) -> (r: HttpResponse)
    ensures
        is_provisioned_response(r, *c),
{
    let mut headers: Vec<(String, String)> = Vec::new();
    headers.push((String::from_str("X-Remote-User"), c.uid.clone()));
    HttpResponse { status: 200, headers, body: String::from_str("success") }
}

} // verus!
