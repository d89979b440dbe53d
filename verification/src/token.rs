//! The federated-redirect strategy's token path: claims are signed with a
//! pre-shared symmetric secret into a compact token, freshly computed per
//! request, and embedded in a redirect location. Signing and verification are
//! done by an outside library; the contracts here name its result and state
//! the round trip, and everything around the calls is verified.

use vstd::prelude::*;

use crate::claims::Claims;
use crate::response::{AuthError, HttpResponse};

verus! {

/// The token that signing the three claim fields with this secret yields.
/// Signing is deterministic (a symmetric signature over a fixed payload
/// layout), so the token is a function of the secret and the fields alone.
pub uninterp spec fn jwt_of(secret: Seq<char>, uid: Seq<char>, name: Seq<char>, email: Seq<char>) -> Seq<char>;

#[verifier::external_type_specification]
#[verifier::external_body]
pub struct ExJwtError(jsonwebtoken::errors::Error);

/// Relies on jsonwebtoken::encode with the default header (HS256) and a key
/// made of the secret's bytes. The payload holds exactly the claim fields
/// uid, name and email, so the token depends on the secret and those fields
/// alone. On this path encode cannot fail: the key family matches the
/// header's algorithm, serializing a payload of plain strings cannot error,
/// and the HMAC signer accepts a key of any length and signs infallibly.
#[verifier::external_body]
fn encode_claims(secret: &str, claims: &Claims) -> (r: Result<
    String,
    jsonwebtoken::errors::Error,
>)
    ensures
        r is Ok,
        r matches Ok(t) ==> t@ == jwt_of(secret@, claims.uid@, claims.name@, claims.email@),
{
    let mut m = serde_json::Map::new();
    m.insert("uid".to_string(), serde_json::Value::String(claims.uid.clone()));
    m.insert("name".to_string(), serde_json::Value::String(claims.name.clone()));
    m.insert("email".to_string(), serde_json::Value::String(claims.email.clone()));
    jsonwebtoken::encode(
        &jsonwebtoken::Header::default(),
        &serde_json::Value::Object(m),
        &jsonwebtoken::EncodingKey::from_secret(secret.as_bytes()),
    )
}

/// Relies on jsonwebtoken::decode with HS256 and a key made of the secret's
/// bytes, validating the signature only: a token that was encoded with the
/// same secret decodes back to the claim fields that were signed.
#[verifier::external_body]
fn decode_token(secret: &str, token: &str) -> (r: Option<Claims>)
    ensures
        forall|u: Seq<char>, n: Seq<char>, e: Seq<char>|
            token@ == jwt_of(secret@, u, n, e) ==> {
                &&& r is Some
                &&& r->0.uid@ == u
                &&& r->0.name@ == n
                &&& r->0.email@ == e
            },
{
    let mut v = jsonwebtoken::Validation::new(jsonwebtoken::Algorithm::HS256);
    v.required_spec_claims = std::collections::HashSet::new();
    v.validate_exp = false;
    v.validate_aud = false;
    let key = jsonwebtoken::DecodingKey::from_secret(secret.as_bytes());
    let data = jsonwebtoken::decode::<serde_json::Value>(token, &key, &v).ok()?;
    let uid = data.claims.get("uid")?.as_str()?.to_string();
    let name = data.claims.get("name")?.as_str()?.to_string();
    let email = data.claims.get("email")?.as_str()?.to_string();
    Some(Claims { uid, name, email })
}

/// The redirect response of the federated login flow: 307 with the freshly
/// signed token embedded in the location.
pub open spec fn is_redirect_response(r: HttpResponse, secret: Seq<char>, c: Claims) -> bool {
    &&& r.status == 307
    &&& r.headers@.len() == 1
    &&& r.headers@[0].0@ == "Location"@
    &&& r.headers@[0].1@ == "/users/auth/jwt/callback?jwt="@ + jwt_of(
        secret,
        c.uid@,
        c.name@,
        c.email@,
    )
    &&& r.body@ == "success"@
}

/// Builds the federated-redirect response: signs the claims with the secret
/// and answers 307 with the token embedded in the location header. The
/// signer cannot fail here, so the redirect is always built; the `Signing`
/// arm stays as the mapping a failure would take.
pub fn redirect_response(secret: &str, c: &Claims) -> (r: Result<HttpResponse, AuthError>)
    ensures
        r matches Ok(resp) && is_redirect_response(resp, secret@, *c),
{
    match encode_claims(secret, c) {
        Ok(token) => {
            let mut location = String::from_str("/users/auth/jwt/callback?jwt=");
            location.append(token.as_str());
            let mut headers: Vec<(String, String)> = Vec::new();
            headers.push((String::from_str("Location"), location));
            Ok(HttpResponse { status: 307, headers, body: String::from_str("success") })
        },
        Err(_) => Err(AuthError::Signing),
    }
}

/// Verifies a redirect location against the secret: whenever the location is
/// the callback path carrying a token that was signed with this same secret,
/// the claim fields that were signed come back out.
pub fn verify_location(secret: &str, location: &str) -> (r: Option<Claims>)
    ensures
        forall|u: Seq<char>, n: Seq<char>, e: Seq<char>|
            location@ == "/users/auth/jwt/callback?jwt="@ + jwt_of(secret@, u, n, e) ==> {
                &&& r is Some
                &&& r->0.uid@ == u
                &&& r->0.name@ == n
                &&& r->0.email@ == e
            },
{
    proof {
        reveal_strlit("/users/auth/jwt/callback?jwt=");
    }
    let len = location.unicode_len();
    if len < 29 {
        return None;
    }
    let head = String::from_str(location.substring_char(0, 29));
    let expected = String::from_str("/users/auth/jwt/callback?jwt=");
    if !head.eq(&expected) {
        proof {
            assert forall|u: Seq<char>, n: Seq<char>, e: Seq<char>|
                location@ != "/users/auth/jwt/callback?jwt="@ + jwt_of(secret@, u, n, e) by {
                if location@ == "/users/auth/jwt/callback?jwt="@ + jwt_of(secret@, u, n, e) {
                    assert(head@ =~= "/users/auth/jwt/callback?jwt="@);
                }
            }
        }
        return None;
    }
    let token = location.substring_char(29, len);
    let r = decode_token(secret, token);
    proof {
        assert forall|u: Seq<char>, n: Seq<char>, e: Seq<char>|
            location@ == "/users/auth/jwt/callback?jwt="@ + jwt_of(secret@, u, n, e) implies token@
            == jwt_of(secret@, u, n, e) by {
            assert(token@ =~= jwt_of(secret@, u, n, e));
        }
    }
    r
}

/// The round trip of the federated login flow: build the redirect response
/// for the claims, take its location header, and verify it with the same
/// secret. The claims always come back out, and they decode to exactly the
/// claims that went in.
pub fn federated_round_trip(secret: &str, claims: &Claims) -> (r: Option<Claims>)
    ensures
        r matches Some(c) && c.same_identity(*claims),
{
    match redirect_response(secret, claims) {
        Ok(resp) => {
            let location: &String = &resp.headers[0].1;
            verify_location(secret, location.as_str())
        },
        Err(_) => None,
    }
}

} // verus!
