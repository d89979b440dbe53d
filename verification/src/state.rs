//! The variant dispatcher: the immutable per-process configuration, the
//! startup validation of variant-conditional secrets, and the per-request
//! decision protocol. A request is driven as a small state machine: the
//! caller extracts the claims, asks `begin` for the first step, performs the
//! outbound call a step asks for, and hands the outcome back until a step
//! carries the response to send.

use vstd::prelude::*;

use crate::claims::Claims;
use crate::permissions::{allows, is_allowed_by_uid, Permissions};
use crate::remote::{
    build_remote_user, contains_user, generate_credential, is_fresh_remote_user, RemoteUser,
    SnipeItClient,
};
use crate::response::{
    error_response, is_internal_error_response, is_passthrough_response,
    is_permission_denied_response, is_provisioned_response, passthrough_response,
    provisioned_response, AuthError, HttpResponse,
};
use crate::token::{is_redirect_response, redirect_response};

verus! {

/// The identity-propagation strategy, selected once at startup and fixed for
/// the process lifetime.
#[derive(Clone, Copy, Debug, PartialEq, Eq, Structural)]
pub enum Variant {
    /// Passthrough: answer with the identity headers set verbatim.
    Default,
    /// Redirect to a federated login callback with a freshly signed token.
    FederatedRedirect,
    /// Reconcile the identity against the remote inventory service first.
    RemoteProvisioning,
}

/// What the request needs next. `Respond` ends the request; the other steps
/// name the one outbound call to perform, whose outcome is handed back to the
/// matching continuation.
pub enum Step {
    /// Send this response; the request is done.
    Respond(HttpResponse),
    /// Fetch the full remote user list, then hand the outcome to
    /// `State::on_users_response`.
    FetchUsers,
    /// Create this record at the remote service, then hand the outcome to
    /// `State::on_create_response`.
    CreateUser(RemoteUser),
}

/// The immutable configuration shared read-only by every request: the
/// optional allow-list, the selected variant, and the variant-conditional
/// secrets.
pub struct State {
    /// The optional startup-loaded allow-list.
    pub permissions: Option<Permissions>,
    /// The selected strategy.
    pub variant: Variant,
    /// The pre-shared signing secret; present whenever the federated-redirect
    /// variant is active.
    pub jwt_secret: Option<String>,
    /// The remote inventory client configuration; complete whenever the
    /// remote-provisioning variant is active.
    pub snipe_it_client: SnipeItClient,
}

impl State {
    /// Each variant-conditional secret is present when its variant is active.
    pub open spec fn wf(self) -> bool {
        &&& self.variant is FederatedRedirect ==> self.jwt_secret is Some
        &&& self.variant is RemoteProvisioning ==> {
            &&& self.snipe_it_client.api_url is Some
            &&& self.snipe_it_client.api_token is Some
        }
    }

    /// Builds the process configuration, failing fast with `Configuration`
    /// when a secret that the selected variant needs is absent, so that the
    /// process never serves traffic without it.
    pub fn new(
        permissions: Option<Permissions>,
        variant: Variant,
        jwt_secret: Option<String>,
        api_url: Option<String>,
        api_token: Option<String>,
    ) -> (r: Result<State, AuthError>)
        ensures
            r is Ok <==> {
                &&& variant is FederatedRedirect ==> jwt_secret is Some
                &&& variant is RemoteProvisioning ==> api_url is Some && api_token is Some
            },
            r matches Ok(s) ==> {
                &&& s.wf()
                &&& s.permissions == permissions
                &&& s.variant == variant
                &&& s.jwt_secret == jwt_secret
                &&& s.snipe_it_client.api_url == api_url
                &&& s.snipe_it_client.api_token == api_token
            },
            r matches Err(e) ==> e is Configuration,
    {
        match variant {
            Variant::FederatedRedirect => {
                if jwt_secret.is_none() {
                    return Err(AuthError::Configuration);
                }
            },
            Variant::RemoteProvisioning => {
                if api_url.is_none() || api_token.is_none() {
                    return Err(AuthError::Configuration);
                }
            },
            Variant::Default => {},
        }
        Ok(
            State {
                permissions,
                variant,
                jwt_secret,
                snipe_it_client: SnipeItClient::new(api_url, api_token),
            },
        )
    }

    /// Decides the first step of a request from the extracted claims (`None`
    /// when the identity header was missing or malformed, which is
    /// request-fatal). Claims extraction has already happened, the permission
    /// guard runs here before any strategy, and a denied identity answers 403
    /// whatever the variant — it never reaches a redirect or provisioning
    /// step.
    pub fn begin(&self, claims: Option<&Claims>) -> (r: Step)
        requires
            self.wf(),
        ensures
            claims is None ==> (r matches Step::Respond(resp) && is_internal_error_response(resp)),
            claims is Some && !allows(self.permissions, claims->0.uid@) ==> (r matches Step::Respond(resp)
                && is_permission_denied_response(resp)),
            claims is Some && allows(self.permissions, claims->0.uid@) && self.variant is Default
                ==> (r matches Step::Respond(resp) && is_passthrough_response(resp, *claims->0)),
            claims is Some && allows(self.permissions, claims->0.uid@)
                && self.variant is FederatedRedirect ==> (r matches Step::Respond(resp)
                && is_redirect_response(resp, self.jwt_secret->0@, *claims->0)),
            claims is Some && allows(self.permissions, claims->0.uid@)
                && self.variant is RemoteProvisioning ==> r is FetchUsers,
    {
        let c = match claims {
            None => {
                return Step::Respond(error_response(&AuthError::ClaimsExtraction));
            },
            Some(c) => c,
        };
        if let Some(permissions) = &self.permissions {
            if let Err(e) = is_allowed_by_uid(c, permissions) {
                return Step::Respond(error_response(&e));
            }
        }
        match self.variant {
            Variant::Default => Step::Respond(passthrough_response(c)),
            Variant::FederatedRedirect => {
                let secret = self.jwt_secret.as_ref().unwrap();
                match redirect_response(secret.as_str(), c) {
                    Ok(resp) => Step::Respond(resp),
                    Err(e) => Step::Respond(error_response(&e)),
                }
            },
            Variant::RemoteProvisioning => Step::FetchUsers,
        }
    }

    /// Continues a provisioning request once the remote user list arrived
    /// (`None` when the fetch answered a non-success status or an undecodable
    /// body, which answers 500 with no partial success). When the uid is
    /// already known the request is done — provisioning is idempotent, no
    /// duplicate is created; otherwise the step carries the record to create,
    /// with a fresh credential.
    ///
    /// The idempotency guarantee holds once an earlier creation is visible to
    /// the fetch. Two concurrent first-time requests for the same uid may
    /// each observe it absent and each ask to create — the check-then-create
    /// sequence is deliberately not serialized per uid, for parity with the
    /// established behaviour of this protocol.
    pub fn on_users_response(&self, claims: &Claims, users: Option<&Vec<RemoteUser>>) -> (r: Step)
        ensures
            users is None ==> (r matches Step::Respond(resp) && is_internal_error_response(resp)),
            users is Some && contains_user(users->0@, claims.uid@) ==> (r matches Step::Respond(
                resp,
            ) && is_provisioned_response(resp, *claims)),
            users is Some && !contains_user(users->0@, claims.uid@) ==> (r matches Step::CreateUser(
                u,
            ) && is_fresh_remote_user(u, *claims)),
    {
        match users {
            None => Step::Respond(error_response(&AuthError::RemoteService)),
            Some(users) => {
                if self.snipe_it_client.contains_username(claims.uid.as_str(), users) {
                    Step::Respond(provisioned_response(claims))
                } else {
                    let password = generate_credential();
                    Step::CreateUser(build_remote_user(claims, password))
                }
            },
        }
    }

    /// Ends a provisioning request once the creation call answered: success
    /// yields the uid-only 200 response, a non-success status or undecodable
    /// body answers 500.
    pub fn on_create_response(&self, claims: &Claims, created: bool) -> (r: Step)
        ensures
            created ==> (r matches Step::Respond(resp) && is_provisioned_response(resp, *claims)),
            !created ==> (r matches Step::Respond(resp) && is_internal_error_response(resp)),
    {
        if created {
            Step::Respond(provisioned_response(claims))
        } else {
            Step::Respond(error_response(&AuthError::RemoteService))
        }
    }
}

} // verus!
