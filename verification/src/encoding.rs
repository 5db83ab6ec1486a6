//! Encodings used by the passkey flow: UTF-8, JSON, base64url and
//! HMAC-SHA256 through their crates.
use vstd::prelude::*;
use vstd::utf8::{decode_utf8, valid_utf8};
use base64::Engine;
use hmac::Mac;

verus! {

/// The URL-safe base64 character of a six-bit value: `A-Z`, `a-z`, `0-9`,
/// then `-` and `_`.
pub open spec fn b64url_char(v: int) -> char {
    if v < 26 {
        (65 + v) as char
    } else if v < 52 {
        (97 + (v - 26)) as char
    } else if v < 62 {
        (48 + (v - 52)) as char
    } else if v == 62 {
        '-'
    } else {
        '_'
    }
}

/// The unpadded URL-safe base64 text of some bytes
/// (`base64::engine::general_purpose::URL_SAFE_NO_PAD.encode`): each group
/// of three bytes, read as 24 bits, gives four characters of six bits each;
/// a last group of two bytes gives three characters and one of one byte
/// gives two, the missing low bits being zero.
pub open spec fn base64url_nopad(b: Seq<u8>) -> Seq<char>
    decreases b.len(),
{
    if b.len() >= 3 {
        let n = b[0] * 65536 + b[1] * 256 + b[2];
        seq![
            b64url_char(n / 262144),
            b64url_char((n / 4096) % 64),
            b64url_char((n / 64) % 64),
            b64url_char(n % 64),
        ] + base64url_nopad(b.skip(3))
    } else if b.len() == 2 {
        let n = b[0] * 65536 + b[1] * 256;
        seq![b64url_char(n / 262144), b64url_char((n / 4096) % 64), b64url_char((n / 64) % 64)]
    } else if b.len() == 1 {
        let n = b[0] * 65536;
        seq![b64url_char(n / 262144), b64url_char((n / 4096) % 64)]
    } else {
        Seq::empty()
    }
}

/// What the padded URL-safe base64 decoder gives for a text
/// (`URL_SAFE.decode`), `None` on error.
pub uninterp spec fn base64url_padded_decoded(s: Seq<char>) -> Option<Seq<u8>>;

/// What the unpadded URL-safe base64 decoder gives for a text
/// (`URL_SAFE_NO_PAD.decode`), `None` on error.
pub uninterp spec fn base64url_nopad_decoded(s: Seq<char>) -> Option<Seq<u8>>;

/// The JSON value a text parses to (`serde_json::from_str`), `None` on error.
pub uninterp spec fn json_parsed(text: Seq<char>) -> Option<serde_json::Value>;

/// The string member `key` of a JSON value (`Value::get`, then the string
/// case of the member), `None` when absent or not a string.
pub uninterp spec fn json_str_field(v: serde_json::Value, key: Seq<char>) -> Option<Seq<char>>;


/// HMAC-SHA256 of a message under a key (the `hmac` and `sha2` crates).
pub uninterp spec fn hmac_sha256_of(key: Seq<u8>, msg: Seq<u8>) -> Seq<u8>;

/// A text with every `=` removed (what stripping base64 padding leaves).
pub open spec fn without_padding(s: Seq<char>) -> Seq<char> {
    s.filter(|c: char| c != '=')
}

/// The text holds no `=`.
pub open spec fn has_no_padding(s: Seq<char>) -> bool {
    forall|i: int| 0 <= i < s.len() ==> #[trigger] s[i] != '='
}

/// `String::from_utf8`: the text that UTF-8 bytes spell, `None` when they
/// are not valid UTF-8 (std documentation).
#[verifier::external_body]
pub fn utf8_text(bytes: &[u8]) -> (r: Option<String>)
    ensures
        r is Some <==> valid_utf8(bytes@),
        r matches Some(s) ==> s@ == decode_utf8(bytes@),
{
    String::from_utf8(bytes.to_vec()).ok()
}

/// `URL_SAFE_NO_PAD.encode`. Its output uses the URL-safe alphabet without
/// padding, so it holds no `=`.
#[verifier::external_body]
pub fn b64url_nopad_encode(bytes: &[u8]) -> (s: String)
    ensures
        s@ == base64url_nopad(bytes@),
        has_no_padding(s@),
{
    base64::engine::general_purpose::URL_SAFE_NO_PAD.encode(bytes)
}

/// `URL_SAFE.decode` (padding required and canonical, no stray trailing
/// bits): it accepts only the canonical padded encoding of the bytes it
/// returns, so those bytes encode without padding to the input with its
/// padding removed.
#[verifier::external_body]
pub fn b64url_padded_decode(s: &str) -> (r: Option<Vec<u8>>)
    ensures
        match r {
            Some(b) => base64url_padded_decoded(s@) == Some(b@) && base64url_nopad(b@) == without_padding(s@),
            None => base64url_padded_decoded(s@) is None,
        },
{
    base64::engine::general_purpose::URL_SAFE.decode(s).ok()
}

/// `URL_SAFE_NO_PAD.decode` (padding refused, no stray trailing bits): it
/// accepts only the canonical unpadded encoding of the bytes it returns.
#[verifier::external_body]
pub fn b64url_nopad_decode(s: &str) -> (r: Option<Vec<u8>>)
    ensures
        match r {
            Some(b) => base64url_nopad_decoded(s@) == Some(b@) && base64url_nopad(b@) == s@,
            None => base64url_nopad_decoded(s@) is None,
        },
{
    base64::engine::general_purpose::URL_SAFE_NO_PAD.decode(s).ok()
}

/// `serde_json::from_str` into a `serde_json::Value`, `None` on error.
#[verifier::external_body]
pub fn json_parse(text: &str) -> (r: Option<serde_json::Value>)
    ensures
        r == json_parsed(text@),
{
    serde_json::from_str::<serde_json::Value>(text).ok()
}

/// `Value::get(key)`, kept when the member is a JSON string.
#[verifier::external_body]
pub fn json_get_str(v: &serde_json::Value, key: &str) -> (r: Option<String>)
    ensures
        match r {
            Some(s) => json_str_field(*v, key@) == Some(s@),
            None => json_str_field(*v, key@) is None,
        },
{
    match v.get(key) {
        Some(serde_json::Value::String(s)) => Some(s.clone()),
        _ => None,
    }
}

/// The compact JSON text of the object `{"device_id", "challenge", "iat",
/// "exp"}` with the two strings and two numbers given, as
/// `serde_json::Value::to_string` writes it (keys in sorted order, since
/// serde_json keeps object keys sorted unless its `preserve_order` feature
/// is on, and it is not). It depends on the four values alone.
pub uninterp spec fn token_payload_json(device_id: Seq<char>, challenge: Seq<char>, iat: u64, exp: u64) -> Seq<char>;

/// `serde_json::Value::to_string` of the object `{"device_id", "challenge",
/// "iat", "exp"}`; writing a `Value` to a string cannot fail.
#[verifier::external_body]
pub fn token_payload_text(device_id: &str, challenge: &str, iat: u64, exp: u64) -> (s: String)
    ensures
        s@ == token_payload_json(device_id@, challenge@, iat, exp),
{
    let mut m = serde_json::Map::new();
    m.insert("device_id".to_string(), serde_json::Value::from(device_id));
    m.insert("challenge".to_string(), serde_json::Value::from(challenge));
    m.insert("iat".to_string(), serde_json::Value::from(iat));
    m.insert("exp".to_string(), serde_json::Value::from(exp));
    serde_json::Value::Object(m).to_string()
}

/// HMAC-SHA256 (`Hmac::<Sha256>::new_from_slice`, `update`, `finalize`).
/// HMAC takes keys of any length, so creating it does not fail; the tag is
/// the 32 bytes of a SHA-256 output.
#[verifier::external_body]
pub fn hmac_sha256(key: &[u8], msg: &[u8]) -> (tag: Vec<u8>)
    ensures
        tag@ == hmac_sha256_of(key@, msg@),
        tag@.len() == 32,
{
    let mut mac = hmac::Hmac::<sha2::Sha256>::new_from_slice(key).expect("hmac key");
    mac.update(msg);
    mac.finalize().into_bytes().to_vec()
}

/// The challenge carried by client data, re-encoded without padding: the
/// client data is UTF-8 JSON whose `challenge` member is URL-safe base64,
/// padded or not.
pub open spec fn challenge_key(client_data: Seq<u8>) -> Option<Seq<char>> {
    if !valid_utf8(client_data) {
        None
    } else {
        match json_parsed(decode_utf8(client_data)) {
            None => None,
            Some(v) => match json_str_field(v, "challenge"@) {
                None => None,
                Some(c) => match base64url_padded_decoded(c) {
                    Some(b) => Some(base64url_nopad(b)),
                    None => match base64url_nopad_decoded(c) {
                        Some(b) => Some(base64url_nopad(b)),
                        None => None,
                    },
                },
            },
        }
    }
}

/// The challenge member of client data, as sent.
pub open spec fn sent_challenge(client_data: Seq<u8>) -> Option<Seq<char>> {
    if !valid_utf8(client_data) {
        None
    } else {
        match json_parsed(decode_utf8(client_data)) {
            None => None,
            Some(v) => json_str_field(v, "challenge"@),
        }
    }
}

/// Reads the challenge out of client data (UTF-8 JSON) and normalises it to
/// unpadded URL-safe base64. A challenge sent without padding that decodes
/// comes back unchanged.
pub fn extract_challenge_from_client_data_bytes(client_data_bytes: &[u8]) -> (r: Option<String>)
    ensures
        opt_chars(r) == challenge_key(client_data_bytes@),
        r matches Some(k) ==> has_no_padding(k@),
        match sent_challenge(client_data_bytes@) {
            Some(c) => has_no_padding(c) && r is Some ==> opt_chars(r) == Some(c),
            None => r is None,
        },
{
    let txt = match utf8_text(client_data_bytes) {
        Some(t) => t,
        None => return None,
    };
    let v = match json_parse(txt.as_str()) {
        Some(v) => v,
        None => return None,
    };
    let chal = match json_get_str(&v, "challenge") {
        Some(c) => c,
        None => return None,
    };
    let bytes = match b64url_padded_decode(chal.as_str()) {
        Some(b) => b,
        None => match b64url_nopad_decode(chal.as_str()) {
            Some(b) => b,
            None => return None,
        },
    };
    proof {
        if has_no_padding(chal@) {
            assert(without_padding(chal@) =~= chal@) by {
                lemma_filter_all_kept(chal@);
            }
        }
    }
    Some(b64url_nopad_encode(bytes.as_slice()))
}

/// The characters of an optional string.
pub open spec fn opt_chars(o: Option<String>) -> Option<Seq<char>> {
    match o {
        Some(s) => Some(s@),
        None => None,
    }
}

/// Removing `=` from a text that holds none leaves it as it is.
pub proof fn lemma_filter_all_kept(s: Seq<char>)
    requires
        has_no_padding(s),
    ensures
        without_padding(s) == s,
    decreases s.len(),
{
    reveal_with_fuel(Seq::<_>::filter, 1);
    if s.len() > 0 {
        lemma_filter_all_kept(s.drop_last());
        assert(s.drop_last().push(s.last()) =~= s);
    }
}

} // verus!
