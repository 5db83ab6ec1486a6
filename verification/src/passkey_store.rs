//! The passkey state's collections (`dashmap::DashMap`) and the WebAuthn
//! ceremonies of `webauthn_rs`, reached through small trusted wrappers.
use vstd::prelude::*;
use dashmap::DashMap;
use url::Url;
use uuid::Uuid;
use webauthn_rs::prelude::{
    AuthenticationResult, CreationChallengeResponse, Passkey, PasskeyAuthentication, PasskeyRegistration,
    PublicKeyCredential, RegisterPublicKeyCredential, RequestChallengeResponse,
};
use webauthn_rs::{Webauthn, WebauthnBuilder};
use crate::passkeys::{no_challenges, no_entries, PendingChallenge, PendingChallengeView};

verus! {

#[verifier::external_type_specification]
#[verifier::external_body]
pub struct ExUrl(Url);

#[verifier::external_type_specification]
#[verifier::external_body]
pub struct ExUuid(Uuid);

#[verifier::external_type_specification]
#[verifier::external_body]
pub struct ExWebauthn(Webauthn);

#[verifier::external_type_specification]
#[verifier::external_body]
pub struct ExWebauthnBuilder<'a>(WebauthnBuilder<'a>);

#[verifier::external_type_specification]
#[verifier::external_body]
pub struct ExPasskey(Passkey);

#[verifier::external_type_specification]
#[verifier::external_body]
pub struct ExPasskeyRegistration(PasskeyRegistration);

#[verifier::external_type_specification]
#[verifier::external_body]
pub struct ExPasskeyAuthentication(PasskeyAuthentication);

#[verifier::external_type_specification]
#[verifier::external_body]
pub struct ExCreationChallengeResponse(CreationChallengeResponse);

#[verifier::external_type_specification]
#[verifier::external_body]
pub struct ExRequestChallengeResponse(RequestChallengeResponse);

#[verifier::external_type_specification]
#[verifier::external_body]
pub struct ExRegisterPublicKeyCredential(RegisterPublicKeyCredential);

#[verifier::external_type_specification]
#[verifier::external_body]
pub struct ExPublicKeyCredential(PublicKeyCredential);

#[verifier::external_type_specification]
#[verifier::external_body]
pub struct ExAuthenticationResult(AuthenticationResult);

/// The credential id of a passkey (`Passkey::cred_id`).
pub uninterp spec fn passkey_cred_id(p: Passkey) -> Seq<u8>;

/// The challenge bytes of a registration challenge
/// (`CreationChallengeResponse::public_key.challenge`).
pub uninterp spec fn creation_challenge(c: CreationChallengeResponse) -> Seq<u8>;

/// The challenge bytes of an authentication challenge
/// (`RequestChallengeResponse::public_key.challenge`).
pub uninterp spec fn request_challenge(c: RequestChallengeResponse) -> Seq<u8>;

/// The client data bytes of a registration answer
/// (`RegisterPublicKeyCredential::response.client_data_json`).
pub uninterp spec fn registration_client_data(c: RegisterPublicKeyCredential) -> Seq<u8>;

/// The client data bytes of an authentication answer
/// (`PublicKeyCredential::response.client_data_json`).
pub uninterp spec fn authentication_client_data(c: PublicKeyCredential) -> Seq<u8>;

/// What the passkey table holds: device id to its passkeys, in order.
pub uninterp spec fn passkey_table(m: DashMap<String, Vec<Passkey>>) -> Map<Seq<char>, Seq<Passkey>>;

/// What the challenge table holds: challenge to pending ceremony.
pub uninterp spec fn challenge_table(m: DashMap<String, PendingChallenge>) -> Map<Seq<char>, PendingChallengeView>;

/// The credential ids of a list of passkeys.
pub open spec fn ids_of(v: Seq<Passkey>) -> Seq<Seq<u8>> {
    v.map_values(|p: Passkey| passkey_cred_id(p))
}

/// The URL that a text parses to (`Url::parse`), `None` on error.
pub uninterp spec fn url_parsed(s: Seq<char>) -> Option<Url>;

/// `Url::parse`, `None` on error.
#[verifier::external_body]
pub fn url_parse(s: &str) -> (r: Option<Url>)
    ensures
        r == url_parsed(s@),
{
    Url::parse(s).ok()
}

/// `Uuid::new_v4`: a random user handle.
#[verifier::external_body]
pub fn new_user_id() -> (u: Uuid) {
    Uuid::new_v4()
}

/// Whether `WebauthnBuilder::new` accepts a relying party id for an origin:
/// the origin has a domain that is the id or ends with `.` and the id. It
/// depends on the two arguments alone.
pub uninterp spec fn rp_id_accepted(rp_id: Seq<char>, origin: Url) -> bool;

/// The relying-party settings that a builder holds or a `Webauthn` was
/// built with: the relying party id, its name, the allowed origins (the
/// primary one first) and whether any port of them is allowed.
pub struct RpSettings {
    pub rp_id: Seq<char>,
    pub rp_name: Option<Seq<char>>,
    pub origins: Seq<Url>,
    pub any_port: bool,
}

/// The relying-party settings a `WebauthnBuilder` holds (its `rp_id`,
/// `rp_name`, `allowed_origins` and `allow_any_port` fields).
pub uninterp spec fn builder_settings(b: WebauthnBuilder<'_>) -> RpSettings;

/// The relying-party settings a `Webauthn` was built with; its name is
/// always present.
pub uninterp spec fn webauthn_settings(w: Webauthn) -> RpSettings;

/// `WebauthnBuilder::new`: `None` exactly when the relying party id does not
/// fit the origin's domain (`rp_id_accepted`). The builder holds the id and
/// the origin, with no name and no port freedom.
#[verifier::external_body]
pub fn builder_new<'a>(rp_id: &'a str, origin: &'a Url) -> (r: Option<WebauthnBuilder<'a>>)
    ensures
        r is Some <==> rp_id_accepted(rp_id@, *origin),
        r matches Some(b) ==> builder_settings(b) == (RpSettings {
            rp_id: rp_id@,
            rp_name: None,
            origins: seq![*origin],
            any_port: false,
        }),
{
    WebauthnBuilder::new(rp_id, origin).ok()
}

/// `WebauthnBuilder::rp_name`: sets the relying party's name.
#[verifier::external_body]
pub fn builder_rp_name<'a>(b: WebauthnBuilder<'a>, name: &'a str) -> (r: WebauthnBuilder<'a>)
    ensures
        builder_settings(r) == (RpSettings { rp_name: Some(name@), ..builder_settings(b) }),
{
    b.rp_name(name)
}

/// `WebauthnBuilder::allow_any_port`: sets whether any port is allowed.
#[verifier::external_body]
pub fn builder_allow_any_port<'a>(b: WebauthnBuilder<'a>, allow: bool) -> (r: WebauthnBuilder<'a>)
    ensures
        builder_settings(r) == (RpSettings { any_port: allow, ..builder_settings(b) }),
{
    b.allow_any_port(allow)
}

/// `WebauthnBuilder::append_allowed_origin`: adds an allowed origin last.
#[verifier::external_body]
pub fn builder_append_origin<'a>(b: WebauthnBuilder<'a>, origin: &Url) -> (r: WebauthnBuilder<'a>)
    ensures
        builder_settings(r) == (RpSettings {
            origins: builder_settings(b).origins.push(*origin),
            ..builder_settings(b)
        }),
{
    b.append_allowed_origin(origin)
}

/// `WebauthnBuilder::build`, `None` on error; its source never returns an
/// error. The relying party is named by the builder's name, or by its id
/// when it has none; the other settings are the builder's.
#[verifier::external_body]
pub fn builder_build<'a>(b: WebauthnBuilder<'a>) -> (r: Option<Webauthn>)
    ensures
        r is Some,
        r matches Some(w) ==> webauthn_settings(w) == (RpSettings {
            rp_name: Some(
                match builder_settings(b).rp_name {
                    Some(n) => n,
                    None => builder_settings(b).rp_id,
                },
            ),
            ..builder_settings(b)
        }),
{
    b.build().ok()
}

/// The account name a registration challenge names its user by
/// (`CreationChallengeResponse::public_key.user.name`).
pub uninterp spec fn creation_user_name(c: CreationChallengeResponse) -> Seq<char>;

/// The display name of a registration challenge's user
/// (`CreationChallengeResponse::public_key.user.display_name`).
pub uninterp spec fn creation_display_name(c: CreationChallengeResponse) -> Seq<char>;

/// The credential ids an authentication challenge allows, in order
/// (`RequestChallengeResponse::public_key.allow_credentials`, each `id`).
pub uninterp spec fn allowed_ids(c: RequestChallengeResponse) -> Seq<Seq<u8>>;

/// `Webauthn::start_passkey_registration` with no excluded credentials,
/// `None` on error, which it gives exactly when the user name or the
/// display name is empty (a UUID's bytes never are). The response names
/// the user by the two names given. The challenge is random: nothing more
/// is said of it.
#[verifier::external_body]
pub fn start_registration(w: &Webauthn, user_id: Uuid, user_name: &str, display_name: &str) -> (r: Option<
    (CreationChallengeResponse, PasskeyRegistration),
>)
    ensures
        r is Some <==> (user_name@.len() > 0 && display_name@.len() > 0),
        r matches Some(pair) ==> creation_user_name(pair.0) == user_name@ && creation_display_name(pair.0)
            == display_name@,
{
    w.start_passkey_registration(user_id, user_name, display_name, None).ok()
}

/// The challenge bytes of a registration challenge.
#[verifier::external_body]
pub fn creation_challenge_bytes(c: &CreationChallengeResponse) -> (b: Vec<u8>)
    ensures
        b@ == creation_challenge(*c),
{
    c.public_key.challenge.as_ref().to_vec()
}

/// The outcome of `Webauthn::finish_passkey_registration`: the new passkey,
/// or `None` when the answer is rejected. It depends on the relying party,
/// the answer and the stored ceremony state alone.
pub uninterp spec fn registration_verdict(
    w: Webauthn,
    reg: RegisterPublicKeyCredential,
    state: PasskeyRegistration,
) -> Option<Passkey>;

/// `Webauthn::finish_passkey_registration`, `None` when the answer is
/// rejected.
#[verifier::external_body]
pub fn finish_registration(w: &Webauthn, reg: &RegisterPublicKeyCredential, state: &PasskeyRegistration) -> (r:
    Option<Passkey>)
    ensures
        r == registration_verdict(*w, *reg, *state),
{
    w.finish_passkey_registration(reg, state).ok()
}

/// `Webauthn::start_passkey_authentication`, `None` on error. It asks for
/// user verification itself, so its source never fails. The challenge
/// allows exactly the given passkeys' credential ids, in order. The
/// challenge is random: nothing more is said of it.
#[verifier::external_body]
pub fn start_authentication(w: &Webauthn, creds: &[Passkey]) -> (r: Option<
    (RequestChallengeResponse, PasskeyAuthentication),
>)
    ensures
        r is Some,
        r matches Some(pair) ==> allowed_ids(pair.0) == ids_of(creds@),
{
    w.start_passkey_authentication(creds).ok()
}

/// The challenge bytes of an authentication challenge.
#[verifier::external_body]
pub fn request_challenge_bytes(c: &RequestChallengeResponse) -> (b: Vec<u8>)
    ensures
        b@ == request_challenge(*c),
{
    c.public_key.challenge.as_ref().to_vec()
}

/// The outcome of `Webauthn::finish_passkey_authentication`: the
/// authentication result, or `None` when the answer is rejected. It depends
/// on the relying party, the answer and the stored ceremony state alone.
pub uninterp spec fn authentication_verdict(
    w: Webauthn,
    cred: PublicKeyCredential,
    state: PasskeyAuthentication,
) -> Option<AuthenticationResult>;

/// `Webauthn::finish_passkey_authentication`, `None` when the answer is
/// rejected.
#[verifier::external_body]
pub fn finish_authentication(w: &Webauthn, cred: &PublicKeyCredential, state: &PasskeyAuthentication) -> (r:
    Option<AuthenticationResult>)
    ensures
        r == authentication_verdict(*w, *cred, *state),
{
    w.finish_passkey_authentication(cred, state).ok()
}

/// The registration answer that the browser's fields make, read by
/// `serde_json::from_value` from the object `{"id", "rawId", "type",
/// "response"}`; `None` when it does not read. It depends on the four
/// fields alone.
pub uninterp spec fn registration_credential_of(
    id: Seq<char>,
    raw_id: Seq<char>,
    typ: Seq<char>,
    response: serde_json::Value,
) -> Option<RegisterPublicKeyCredential>;

/// The assertion answer that the browser's fields make, read the same way.
pub uninterp spec fn assertion_credential_of(
    id: Seq<char>,
    raw_id: Seq<char>,
    typ: Seq<char>,
    response: serde_json::Value,
) -> Option<PublicKeyCredential>;

/// `serde_json::from_value` of the object `{"id", "rawId", "type",
/// "response"}` into a registration answer, `None` on error.
#[verifier::external_body]
pub fn registration_credential(id: &str, raw_id: &str, typ: &str, response: &serde_json::Value) -> (r: Option<
    RegisterPublicKeyCredential,
>)
    ensures
        r == registration_credential_of(id@, raw_id@, typ@, *response),
{
    let mut m = serde_json::Map::new();
    m.insert("id".to_string(), serde_json::Value::from(id));
    m.insert("rawId".to_string(), serde_json::Value::from(raw_id));
    m.insert("type".to_string(), serde_json::Value::from(typ));
    m.insert("response".to_string(), response.clone());
    serde_json::from_value(serde_json::Value::Object(m)).ok()
}

/// `serde_json::from_value` of the object `{"id", "rawId", "type",
/// "response"}` into an assertion answer, `None` on error.
#[verifier::external_body]
pub fn assertion_credential(id: &str, raw_id: &str, typ: &str, response: &serde_json::Value) -> (r: Option<
    PublicKeyCredential,
>)
    ensures
        r == assertion_credential_of(id@, raw_id@, typ@, *response),
{
    let mut m = serde_json::Map::new();
    m.insert("id".to_string(), serde_json::Value::from(id));
    m.insert("rawId".to_string(), serde_json::Value::from(raw_id));
    m.insert("type".to_string(), serde_json::Value::from(typ));
    m.insert("response".to_string(), response.clone());
    serde_json::from_value(serde_json::Value::Object(m)).ok()
}

/// The client data bytes of a registration answer.
#[verifier::external_body]
pub fn registration_client_data_bytes(c: &RegisterPublicKeyCredential) -> (b: Vec<u8>)
    ensures
        b@ == registration_client_data(*c),
{
    c.response.client_data_json.as_ref().to_vec()
}

/// The client data bytes of an authentication answer.
#[verifier::external_body]
pub fn authentication_client_data_bytes(c: &PublicKeyCredential) -> (b: Vec<u8>)
    ensures
        b@ == authentication_client_data(*c),
{
    c.response.client_data_json.as_ref().to_vec()
}

/// `Passkey::cred_id`, as bytes.
#[verifier::external_body]
pub fn cred_id(p: &Passkey) -> (b: Vec<u8>)
    ensures
        b@ == passkey_cred_id(*p),
{
    p.cred_id().as_ref().to_vec()
}

/// The passkey that `Passkey::update_credential` leaves behind when given
/// an authentication result: it depends on the passkey and the result alone.
pub uninterp spec fn passkey_after_update(p: Passkey, res: AuthenticationResult) -> Passkey;

/// `Passkey::update_credential`: when the result is for this credential, it
/// takes over a higher counter and the backup flags of the result; the
/// passkey it leaves is named by `passkey_after_update`, and its credential
/// id is left as it was. Which fields change is not stated: Verus sees no
/// field of a `Passkey`.
#[verifier::external_body]
pub fn update_credential(p: &mut Passkey, res: &AuthenticationResult)
    ensures
        *final(p) == passkey_after_update(*old(p), *res),
        passkey_cred_id(*final(p)) == passkey_cred_id(*old(p)),
{
    let _ = p.update_credential(res);
}

/// `DashMap::new`: an empty passkey table.
#[verifier::external_body]
pub fn passkeys_new() -> (table: DashMap<String, Vec<Passkey>>)
    ensures
        passkey_table(table) == no_entries(),
{
    DashMap::new()
}

/// `DashMap::get`, then a clone of the list: the passkeys of a device.
#[verifier::external_body]
pub fn passkeys_get(m: &DashMap<String, Vec<Passkey>>, device_id: &str) -> (r: Option<Vec<Passkey>>)
    ensures
        match r {
            Some(v) => passkey_table(*m).contains_key(device_id@) && v@ == passkey_table(*m)[device_id@],
            None => !passkey_table(*m).contains_key(device_id@),
        },
{
    match m.get(device_id) {
        Some(entry) => Some(entry.value().clone()),
        None => None,
    }
}

/// `DashMap::insert`: stores the passkeys of a device.
#[verifier::external_body]
pub fn passkeys_insert(m: &mut DashMap<String, Vec<Passkey>>, device_id: String, v: Vec<Passkey>)
    ensures
        passkey_table(*final(m)) == passkey_table(*old(m)).insert(device_id@, v@),
{
    m.insert(device_id, v);
}

/// `DashMap::new`: an empty challenge table.
#[verifier::external_body]
pub fn challenges_new() -> (table: DashMap<String, PendingChallenge>)
    ensures
        challenge_table(table) == no_challenges(),
{
    DashMap::new()
}

/// `DashMap::insert`: stores a pending ceremony under its challenge.
#[verifier::external_body]
pub fn challenges_insert(m: &mut DashMap<String, PendingChallenge>, challenge: String, p: PendingChallenge)
    ensures
        challenge_table(*final(m)) == challenge_table(*old(m)).insert(challenge@, p@),
{
    m.insert(challenge, p);
}

/// `DashMap::remove`: takes the pending ceremony of a challenge out.
#[verifier::external_body]
pub fn challenges_remove(m: &mut DashMap<String, PendingChallenge>, challenge: &str) -> (r: Option<PendingChallenge>)
    ensures
        challenge_table(*final(m)) == challenge_table(*old(m)).remove(challenge@),
        match r {
            Some(p) => challenge_table(*old(m)).contains_key(challenge@) && p@ == challenge_table(*old(m))[challenge@],
            None => !challenge_table(*old(m)).contains_key(challenge@),
        },
{
    match m.remove(challenge) {
        Some((_, p)) => Some(p),
        None => None,
    }
}

} // verus!
