//! A header-based authentication gateway that sits behind a reverse proxy
//! which terminates mutually-authenticated TLS. The proxy forwards the
//! verified client-certificate subject; this library holds the verified
//! per-request logic: permission enforcement, variant dispatch, the remote
//! provisioning protocol and response building.
//!
//! Anything the verifier cannot take — the HTTP listener, certificate header
//! parsing, environment and argument handling, and the outbound calls to the
//! remote inventory service — lives outside this library and hands it plain
//! values.

pub mod claims;
pub mod permissions;
pub mod remote;
pub mod response;
pub mod state;
pub mod token;
