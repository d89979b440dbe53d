use cert_auth::claims::Claims;
use cert_auth::remote::{
    err_api_token_unset, err_api_url_unset, generate_credential, split_name, RemoteUser,
    SnipeItClient,
};
use cert_auth::state::{State, Step, Variant};
use cert_auth::token::{federated_round_trip, verify_location};

fn claims(uid: &str, name: &str, email: &str) -> Claims {
    Claims { uid: uid.to_string(), name: name.to_string(), email: email.to_string() }
}

#[test]
fn round_trip_restores_the_claims() {
    let c = claims("alice", "Alice Doe", "a@x.com");
    let back = federated_round_trip("test-signing-secret", &c).expect("signing failed");
    assert_eq!(back.uid, "alice");
    assert_eq!(back.name, "Alice Doe");
    assert_eq!(back.email, "a@x.com");
}

#[test]
fn redirect_location_embeds_a_verifiable_token() {
    let secret = "test-signing-secret";
    let c = claims("alice", "Alice Doe", "a@x.com");
    let state =
        State::new(None, Variant::FederatedRedirect, Some(secret.to_string()), None, None).unwrap();
    let resp = match state.begin(Some(&c)) {
        Step::Respond(resp) => resp,
        _ => panic!("expected a response"),
    };
    assert_eq!(resp.status, 307);
    assert_eq!(resp.headers.len(), 1);
    assert_eq!(resp.headers[0].0, "Location");
    let location = &resp.headers[0].1;
    let prefix = "/users/auth/jwt/callback?jwt=";
    assert!(location.starts_with(prefix));
    assert_eq!(resp.body, "success");

    let back = verify_location(secret, location).expect("token did not verify");
    assert_eq!(back.uid, "alice");
    assert_eq!(back.name, "Alice Doe");
    assert_eq!(back.email, "a@x.com");
}

#[test]
fn token_with_wrong_secret_does_not_verify() {
    let c = claims("alice", "Alice Doe", "a@x.com");
    let state = State::new(
        None,
        Variant::FederatedRedirect,
        Some("test-signing-secret".to_string()),
        None,
        None,
    )
    .unwrap();
    let resp = match state.begin(Some(&c)) {
        Step::Respond(resp) => resp,
        _ => panic!("expected a response"),
    };
    assert!(verify_location("another-secret", &resp.headers[0].1).is_none());
}

#[test]
fn decode_accepts_an_independently_encoded_token() {
    let mut payload = serde_json::Map::new();
    payload.insert("uid".to_string(), serde_json::Value::String("alice".to_string()));
    payload.insert("name".to_string(), serde_json::Value::String("Alice Doe".to_string()));
    payload.insert("email".to_string(), serde_json::Value::String("a@x.com".to_string()));
    let token = jsonwebtoken::encode(
        &jsonwebtoken::Header::default(),
        &serde_json::Value::Object(payload),
        &jsonwebtoken::EncodingKey::from_secret("test-signing-secret".as_bytes()),
    )
    .unwrap();
    let location = format!("/users/auth/jwt/callback?jwt={}", token);
    let back = verify_location("test-signing-secret", &location).expect("token did not verify");
    assert_eq!(back.uid, "alice");
    assert_eq!(back.name, "Alice Doe");
    assert_eq!(back.email, "a@x.com");
}

#[test]
fn split_name_on_first_space() {
    assert_eq!(split_name("Jane Q Public"), ("Jane".to_string(), "Q Public".to_string()));
    assert_eq!(split_name("Madonna"), ("Madonna".to_string(), String::new()));
    assert_eq!(split_name(""), (String::new(), String::new()));
    assert_eq!(split_name("a  b"), ("a".to_string(), " b".to_string()));
    assert_eq!(split_name(" leading"), (String::new(), "leading".to_string()));
}

#[test]
fn credentials_are_long_random_and_alphanumeric() {
    let a = generate_credential();
    let b = generate_credential();
    assert_eq!(a.len(), 64);
    assert_eq!(b.len(), 64);
    assert!(a.chars().all(|ch| ch.is_ascii_alphanumeric()));
    assert_ne!(a, b);
}

#[test]
fn contains_username_matches_exactly() {
    let client = SnipeItClient::new(None, None);
    let users = vec![
        RemoteUser {
            username: "alice".to_string(),
            first_name: "Alice".to_string(),
            last_name: "Doe".to_string(),
            email: "a@x.com".to_string(),
            activated: true,
            password: String::new(),
            password_confirmation: String::new(),
        },
    ];
    assert!(client.contains_username("alice", &users));
    assert!(!client.contains_username("alic", &users));
    assert!(!client.contains_username("Alice", &users));
    assert!(!client.contains_username("alice", &vec![]));
}

#[test]
fn users_endpoint_appends_the_collection_path() {
    let client = SnipeItClient::new(
        Some("http://inventory.example/api/v1".to_string()),
        Some("test-api-token".to_string()),
    );
    assert_eq!(client.users_endpoint(), "http://inventory.example/api/v1/users");
}

#[test]
fn startup_messages_name_the_missing_setting() {
    assert_eq!(err_api_url_unset(), "SNIPE_IT_API_URL unset!");
    assert_eq!(err_api_token_unset(), "SNIPE_IT_API_TOKEN unset!");
}
