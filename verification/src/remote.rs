//! The remote reconciliation side of the provisioning variant: the record
//! shape the remote inventory service exchanges, the scan for an existing
//! username, the name split and the fresh-credential record built for a
//! previously-unseen identity. The outbound HTTP round-trips themselves are
//! made outside this library; the logic here decides what they carry.

use vstd::prelude::*;

use rand::Rng;

use crate::claims::Claims;

verus! {

/// A user record as exchanged with the remote inventory service. It is only
/// ever constructed for creation, never reused across requests.
pub struct RemoteUser {
    /// The login name; equals the uid of the claims that provisioned it.
    pub username: String,
    /// The first token of the display name.
    pub first_name: String,
    /// The display name after its first whitespace boundary.
    pub last_name: String,
    /// The email address from the claims.
    pub email: String,
    /// Whether the account is active; always true for a created record.
    pub activated: bool,
    /// The freshly generated credential.
    pub password: String,
    /// Repeats the credential; always equals `password`.
    pub password_confirmation: String,
}

/// The configuration of the remote inventory client: base URL and bearer
/// token. The client is otherwise stateless; the HTTP connection it drives
/// lives outside this library.
pub struct SnipeItClient {
    /// Base URL of the remote REST API.
    pub api_url: Option<String>,
    /// Bearer token for the remote REST API.
    pub api_token: Option<String>,
}

/// The index of the first space in `s`, or `s.len()` when there is none.
pub open spec fn first_space(s: Seq<char>) -> int
    decreases s.len(),
{
    if s.len() == 0 {
        0
    } else if s[0] == ' ' {
        0
    } else {
        1 + first_space(s.subrange(1, s.len() as int))
    }
}

/// The first token of a display name: everything before the first space
/// (the whole name when it holds no space).
pub open spec fn first_name_of(s: Seq<char>) -> Seq<char> {
    s.subrange(0, first_space(s))
}

/// The remainder of a display name after the first space: empty when the
/// name holds no space, so a single-token name yields an empty last name.
pub open spec fn last_name_of(s: Seq<char>) -> Seq<char> {
    if first_space(s) == s.len() {
        Seq::empty()
    } else {
        s.subrange(first_space(s) + 1, s.len() as int)
    }
}

/// An index of the first space found by a left-to-right scan agrees with
/// `first_space`.
pub proof fn lemma_first_space_at(s: Seq<char>, i: int)
    requires
        0 <= i <= s.len(),
        forall|j: int| 0 <= j < i ==> s[j] != ' ',
        i < s.len() ==> s[i] == ' ',
    ensures
        first_space(s) == i,
    decreases s.len(),
{
    if s.len() != 0 && s[0] != ' ' {
        let t = s.subrange(1, s.len() as int);
        assert(forall|j: int| 0 <= j < i - 1 ==> t[j] == s[j + 1] && t[j] != ' ');
        lemma_first_space_at(t, i - 1);
    }
}

/// Splits a display name on its first whitespace boundary: the first token
/// becomes the first name, the remainder becomes the last name, and a
/// single-token name yields an empty last name.
pub fn split_name(name: &str) -> (r: (String, String))
    ensures
        r.0@ == first_name_of(name@),
        r.1@ == last_name_of(name@),
{
    let n = name.unicode_len();
    let mut i: usize = 0;
    while i < n && name.get_char(i) != ' '
        invariant
            n == name@.len(),
            i <= n,
            forall|j: int| 0 <= j < i ==> name@[j] != ' ',
        decreases n - i,
    {
        i = i + 1;
    }
    proof {
        lemma_first_space_at(name@, i as int);
    }
    let first = String::from_str(name.substring_char(0, i));
    let last = if i == n {
        String::new()
    } else {
        String::from_str(name.substring_char(i + 1, n))
    };
    (first, last)
}

/// Whether the list of remote records holds an entry whose username equals
/// `uid` exactly.
pub open spec fn contains_user(users: Seq<RemoteUser>, uid: Seq<char>) -> bool {
    exists|i: int| 0 <= i < users.len() && users[i].username@ == uid
}

/// The character is an ASCII letter or digit.
pub open spec fn is_alphanumeric_char(c: char) -> bool {
    ||| 'a' <= c && c <= 'z'
    ||| 'A' <= c && c <= 'Z'
    ||| '0' <= c && c <= '9'
}

/// A freshly generated credential: the required length, every character an
/// ASCII letter or digit.
pub open spec fn is_fresh_credential(p: Seq<char>) -> bool {
    &&& p.len() == 64
    &&& forall|i: int| 0 <= i < p.len() ==> is_alphanumeric_char(#[trigger] p[i])
}

/// The record built for a previously-unseen identity: fields taken from the
/// claims, the name split on its first whitespace boundary, the account
/// activated, and one fresh credential in both password fields.
pub open spec fn is_fresh_remote_user(u: RemoteUser, c: Claims) -> bool {
    &&& u.username@ == c.uid@
    &&& u.first_name@ == first_name_of(c.name@)
    &&& u.last_name@ == last_name_of(c.name@)
    &&& u.email@ == c.email@
    &&& u.activated
    &&& u.password@ == u.password_confirmation@
    &&& is_fresh_credential(u.password@)
}

/// Relies on rand's thread-local generator with the `Alphanumeric`
/// distribution: every sampled character is an ASCII letter or digit. The
/// sample is random, so nothing beyond length and character class is stated.
#[verifier::external_body]
fn random_alphanumeric(len: usize) -> (r: String)
    ensures
        r@.len() == len as nat,
        forall|i: int| 0 <= i < r@.len() ==> is_alphanumeric_char(#[trigger] r@[i]),
{
    rand::thread_rng()
        .sample_iter(&rand::distributions::Alphanumeric)
        .take(len)
        .map(char::from)
        .collect()
}

/// Generates the credential for a record to be created: 64 random
/// alphanumeric characters, fresh per record, never reused.
pub fn generate_credential() -> (r: String)
    ensures
        is_fresh_credential(r@),
{
    random_alphanumeric(64)
}

/// Builds the record to create for claims whose uid the remote service does
/// not know yet, from the claims and a freshly generated credential.
pub fn build_remote_user(c: &Claims, password: String) -> (u: RemoteUser)
    requires
        is_fresh_credential(password@),
    ensures
        is_fresh_remote_user(u, *c),
{
    let (first_name, last_name) = split_name(c.name.as_str());
    let password_confirmation = password.clone();
    RemoteUser {
        username: c.uid.clone(),
        first_name,
        last_name,
        email: c.email.clone(),
        activated: true,
        password,
        password_confirmation,
    }
}

impl SnipeItClient {
    /// Holds the remote API configuration; both parts stay absent for the
    /// variants that never call the remote service.
    pub fn new(api_url: Option<String>, api_token: Option<String>) -> (r: SnipeItClient)
        ensures
            r.api_url == api_url,
            r.api_token == api_token,
    {
        SnipeItClient { api_url, api_token }
    }

    /// Whether the list of remote records holds an entry whose username
    /// equals `username` exactly.
    pub fn contains_username(&self, username: &str, users: &Vec<RemoteUser>) -> (r: bool)
        ensures
            r == contains_user(users@, username@),
    {
        let target = String::from_str(username);
        let n = users.len();
        let mut i: usize = 0;
        while i < n
            invariant
                target@ == username@,
                n == users@.len(),
                i <= n,
                forall|j: int| 0 <= j < i ==> users@[j].username@ != username@,
            decreases n - i,
        {
            if users[i].username.eq(&target) {
                assert(contains_user(users@, username@)) by {
                    assert(users@[i as int].username@ == username@);
                }
                return true;
            }
            i = i + 1;
        }
        false
    }

    /// The endpoint of the remote user collection: the base URL with
    /// "/users" appended.
    pub fn users_endpoint(&self) -> (r: String)
        requires
            self.api_url is Some,
        ensures
            r@ == self.api_url->0@ + "/users"@,
    {
        let mut endpoint = self.api_url.as_ref().unwrap().clone();
        endpoint.append("/users");
        endpoint
    }
}

/// The message of the fatal startup failure for a missing remote API URL.
pub fn err_api_url_unset() -> (r: String)
    ensures
        r@ == "SNIPE_IT_API_URL unset!"@,
{
    String::from_str("SNIPE_IT_API_URL unset!")
}

/// The message of the fatal startup failure for a missing remote API token.
pub fn err_api_token_unset() -> (r: String)
    ensures
        r@ == "SNIPE_IT_API_TOKEN unset!"@,
{
    String::from_str("SNIPE_IT_API_TOKEN unset!")
}

} // verus!
