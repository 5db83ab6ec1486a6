use base64::engine::general_purpose::URL_SAFE_NO_PAD;
use base64::Engine;
use hmac::Mac;
use rpc_interceptor::encoding::extract_challenge_from_client_data_bytes;
use rpc_interceptor::passkeys::{AssertStartReq, PasskeyError, PasskeyState, RegisterStartReq, CHALLENGE_TTL_MS};
use webauthn_rs::prelude::{PublicKeyCredential, RegisterPublicKeyCredential};

fn state() -> PasskeyState {
    PasskeyState::new(
        "localhost".to_string(),
        "dev-secret".to_string(),
        vec!["not a url".to_string(), "http://localhost:3000".to_string(), "http://localhost:8080".to_string()],
    )
    .unwrap()
}

fn client_data(challenge: &str) -> String {
    let json = format!(
        r#"{{"type":"webauthn.create","challenge":"{}","origin":"http://localhost:3000"}}"#,
        challenge
    );
    URL_SAFE_NO_PAD.encode(json.as_bytes())
}

fn reg_credential(challenge: &str) -> RegisterPublicKeyCredential {
    let text = format!(
        r#"{{"id":"AAAA","rawId":"AAAA","type":"public-key","response":{{"attestationObject":"AAAA","clientDataJSON":"{}"}}}}"#,
        client_data(challenge)
    );
    serde_json::from_str(&text).unwrap()
}

fn auth_credential(challenge: &str) -> PublicKeyCredential {
    let text = format!(
        r#"{{"id":"AAAA","rawId":"AAAA","type":"public-key","response":{{"authenticatorData":"AAAA","clientDataJSON":"{}","signature":"AAAA","userHandle":null}}}}"#,
        client_data(challenge)
    );
    serde_json::from_str(&text).unwrap()
}

fn start(st: &mut PasskeyState, device: &str, now: u64) -> String {
    let req = RegisterStartReq { device_id: device.to_string(), display_name: "Phone".to_string() };
    let ccr = st.register_start(&req, now).unwrap();
    URL_SAFE_NO_PAD.encode(ccr.public_key.challenge.as_ref())
}

#[test]
fn new_state_is_empty() {
    let st = state();
    assert!(st.passkeys_by_device.is_empty());
    assert!(st.challenges.is_empty());
    assert_eq!(st.rp_id, "localhost");
    assert_eq!(st.hmac_secret, "dev-secret");
}

#[test]
fn default_origin_is_used_when_none_parses() {
    assert!(PasskeyState::new("localhost".to_string(), "s".to_string(), vec![]).is_ok());
    assert!(PasskeyState::new("localhost".to_string(), "s".to_string(), vec!["::".to_string()]).is_ok());
}

#[test]
fn mismatched_relying_party_is_refused() {
    let r = PasskeyState::new("example.com".to_string(), "s".to_string(), vec!["http://localhost:3000".to_string()]);
    assert!(matches!(r, Err(PasskeyError::InvalidConfig)));
}

#[test]
fn register_start_remembers_challenge() {
    let mut st = state();
    let chal = start(&mut st, "dev1", 1_000);
    let pend = st.challenges.get(&chal).unwrap();
    assert_eq!(pend.device_id, "dev1");
    assert_eq!(pend.created_at, 1_000);
    assert_eq!(pend.expires_at, 1_000 + CHALLENGE_TTL_MS);
    assert_eq!(pend.challenge, chal);
    assert!(pend.reg_state.is_some());
    assert!(pend.auth_state.is_none());
    assert!(!chal.contains('='));
}

#[test]
fn rejected_registration_consumes_challenge() {
    let mut st = state();
    let chal = start(&mut st, "dev1", 0);
    let cred = reg_credential(&chal);
    assert_eq!(st.register_finish("dev1", &cred, 10).unwrap_err(), PasskeyError::Rejected);
    assert!(st.challenges.get(&chal).is_none());
    assert_eq!(st.register_finish("dev1", &cred, 10).unwrap_err(), PasskeyError::ChallengeNotFound);
    assert!(st.passkeys_by_device.is_empty());
}

#[test]
fn registration_from_another_device_is_invalid() {
    let mut st = state();
    let chal = start(&mut st, "dev1", 0);
    let cred = reg_credential(&chal);
    assert_eq!(st.register_finish("dev2", &cred, 10).unwrap_err(), PasskeyError::ChallengeInvalidOrExpired);
    assert!(st.challenges.get(&chal).is_none());
}

#[test]
fn late_registration_is_invalid() {
    let mut st = state();
    let chal = start(&mut st, "dev1", 0);
    let cred = reg_credential(&chal);
    assert_eq!(
        st.register_finish("dev1", &cred, CHALLENGE_TTL_MS).unwrap_err(),
        PasskeyError::ChallengeInvalidOrExpired
    );
}

#[test]
fn registration_challenge_cannot_assert() {
    let mut st = state();
    let chal = start(&mut st, "dev1", 0);
    let cred = auth_credential(&chal);
    assert_eq!(st.assert_finish("dev1", &cred, 1, 1).unwrap_err(), PasskeyError::ChallengeInvalidOrExpired);
    assert!(st.challenges.get(&chal).is_none());
}

#[test]
fn unknown_challenge_is_not_found() {
    let mut st = state();
    assert_eq!(st.register_finish("dev1", &reg_credential("AAAA"), 0).unwrap_err(), PasskeyError::ChallengeNotFound);
    assert_eq!(st.assert_finish("dev1", &auth_credential("AAAA"), 0, 0).unwrap_err(), PasskeyError::ChallengeNotFound);
}

#[test]
fn assertion_needs_a_registered_passkey() {
    let mut st = state();
    let r = st.assert_start(&AssertStartReq { device_id: "dev1".to_string() }, 0);
    assert!(matches!(r, Err(PasskeyError::NoCredential)));
    assert!(st.challenges.is_empty());
}

#[test]
fn token_is_payload_and_signature() {
    let st = state();
    let token = st.assertion_token("dev\"1", "chal", 1_000);
    let (p, sig) = token.split_once('.').unwrap();
    let payload = String::from_utf8(URL_SAFE_NO_PAD.decode(p).unwrap()).unwrap();
    assert_eq!(payload, r#"{"challenge":"chal","device_id":"dev\"1","exp":1120,"iat":1000}"#);
    let mut mac = hmac::Hmac::<sha2::Sha256>::new_from_slice(b"dev-secret").unwrap();
    mac.update(payload.as_bytes());
    assert_eq!(URL_SAFE_NO_PAD.decode(sig).unwrap(), mac.finalize().into_bytes().to_vec());
}

#[test]
fn token_payload_matches_serde_json() {
    let st = state();
    let token = st.assertion_token("d", "c", 42);
    let (p, _) = token.split_once('.').unwrap();
    let payload = String::from_utf8(URL_SAFE_NO_PAD.decode(p).unwrap()).unwrap();
    let mut m = serde_json::Map::new();
    m.insert("device_id".to_string(), serde_json::Value::from("d"));
    m.insert("challenge".to_string(), serde_json::Value::from("c"));
    m.insert("iat".to_string(), serde_json::Value::from(42u64));
    m.insert("exp".to_string(), serde_json::Value::from(162u64));
    assert_eq!(payload, serde_json::Value::Object(m).to_string());
}

#[test]
fn challenge_is_read_and_normalised() {
    let j = |c: &str| format!(r#"{{"type":"webauthn.get","challenge":"{}"}}"#, c).into_bytes();
    assert_eq!(extract_challenge_from_client_data_bytes(&j("YWJj")).as_deref(), Some("YWJj"));
    assert_eq!(extract_challenge_from_client_data_bytes(&j("YWI=")).as_deref(), Some("YWI"));
    assert_eq!(extract_challenge_from_client_data_bytes(&j("YWI")).as_deref(), Some("YWI"));
    assert_eq!(extract_challenge_from_client_data_bytes(&j("-_8")).as_deref(), Some("-_8"));
    assert_eq!(extract_challenge_from_client_data_bytes(&j("!!")), None);
    assert_eq!(extract_challenge_from_client_data_bytes(br#"{"type":"x"}"#), None);
    assert_eq!(extract_challenge_from_client_data_bytes(br#"{"challenge":7}"#), None);
    assert_eq!(extract_challenge_from_client_data_bytes(b"not json"), None);
    assert_eq!(extract_challenge_from_client_data_bytes(&[0xff, 0xfe]), None);
}

#[test]
fn register_start_names_the_user() {
    let mut st = state();
    let req = RegisterStartReq { device_id: "dev1".to_string(), display_name: "Phone".to_string() };
    let ccr = st.register_start(&req, 0).unwrap();
    assert_eq!(ccr.public_key.user.name, "dev1");
    assert_eq!(ccr.public_key.user.display_name, "Phone");
}

#[test]
fn unreadable_answers_are_refused_and_change_nothing() {
    let mut st = state();
    let chal = start(&mut st, "dev1", 0);
    let bad = serde_json::Value::from(7);
    let r = st.register_finish_request("dev1", "AAAA", "AAAA", "public-key", &bad, 1);
    assert!(matches!(r, Err(PasskeyError::MalformedCredential)));
    let r = st.assert_finish_request("dev1", "AAAA", "AAAA", "public-key", &bad, 1, 1);
    assert!(matches!(r, Err(PasskeyError::MalformedCredential)));
    assert!(st.challenges.contains_key(&chal));
}

#[test]
fn readable_answers_reach_the_challenge_check() {
    let mut st = state();
    let mut response = serde_json::Map::new();
    response.insert("attestationObject".to_string(), serde_json::Value::from("AAAA"));
    response.insert("clientDataJSON".to_string(), serde_json::Value::from(client_data("bm9wZQ")));
    let r = st.register_finish_request(
        "dev1",
        "AAAA",
        "AAAA",
        "public-key",
        &serde_json::Value::Object(response),
        1,
    );
    assert!(matches!(r, Err(PasskeyError::ChallengeNotFound)));
}

#[test]
fn subdomain_origin_is_accepted() {
    let r = PasskeyState::new("example.com".to_string(), "s".to_string(), vec!["https://app.example.com".to_string()]);
    assert!(r.is_ok());
    let r = PasskeyState::new("example.com".to_string(), "s".to_string(), vec!["https://badexample.com".to_string()]);
    assert!(matches!(r, Err(PasskeyError::InvalidConfig)));
}

#[test]
fn hmac_tag_is_32_bytes() {
    let tag = rpc_interceptor::encoding::hmac_sha256(b"key", b"message");
    assert_eq!(tag.len(), 32);
    let mut mac = hmac::Hmac::<sha2::Sha256>::new_from_slice(b"key").unwrap();
    mac.update(b"message");
    assert_eq!(tag, mac.finalize().into_bytes().to_vec());
}
