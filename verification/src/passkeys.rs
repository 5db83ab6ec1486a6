//! Passkey registration and assertion: challenges are issued, remembered
//! for a short while, and consumed by the answer; a verified assertion earns
//! a short-lived signed token.
use vstd::prelude::*;
use vstd::string::StringExecFns;
use vstd::utf8::encode_utf8;
use dashmap::DashMap;
use url::Url;
use webauthn_rs::prelude::{
    CreationChallengeResponse, Passkey, PasskeyAuthentication, PasskeyRegistration, PublicKeyCredential,
    RegisterPublicKeyCredential, RequestChallengeResponse, AuthenticationResult,
};
use webauthn_rs::Webauthn;
use crate::encoding::{
    b64url_nopad_encode, base64url_nopad, challenge_key, has_no_padding, sent_challenge, extract_challenge_from_client_data_bytes,
    hmac_sha256, hmac_sha256_of, token_payload_json, token_payload_text,
};
use crate::passkey_store::{
    authentication_client_data, authentication_client_data_bytes, builder_allow_any_port, builder_append_origin,
    builder_build, builder_new, builder_rp_name, challenge_table, challenges_insert, challenges_new,
    challenges_remove, creation_challenge, creation_challenge_bytes, cred_id, finish_authentication,
    finish_registration, ids_of, new_user_id, passkey_after_update, passkey_cred_id, passkey_table, passkeys_get, passkeys_insert,
    passkeys_new, registration_client_data, registration_client_data_bytes, request_challenge,
    request_challenge_bytes, start_authentication, start_registration, update_credential, url_parse, url_parsed,
    rp_id_accepted, builder_settings, webauthn_settings, RpSettings, registration_verdict, authentication_verdict, creation_user_name, creation_display_name,
    allowed_ids, registration_credential, registration_credential_of, assertion_credential, assertion_credential_of,
};

verus! {

/// How long a challenge stays valid, in milliseconds.
pub const CHALLENGE_TTL_MS: u64 = 120_000;

/// How long an assertion token is valid, in seconds.
pub const TOKEN_TTL_SECS: u64 = 120;

/// The ceremony a challenge belongs to.
#[derive(Debug, Clone, Copy, PartialEq, Eq, Structural)]
pub enum ChallengeKind {
    Register,
    Assert,
}

/// A challenge waiting for its answer; times are milliseconds of a
/// monotonic clock.
#[derive(Debug)]
pub struct PendingChallenge {
    pub device_id: String,
    pub created_at: u64,
    pub kind: ChallengeKind,
    pub expires_at: u64,
    pub challenge: String,
    pub reg_state: Option<PasskeyRegistration>,
    pub auth_state: Option<PasskeyAuthentication>,
}

/// The value of a [`PendingChallenge`]: its plain fields and the ceremony
/// state it carries.
pub struct PendingChallengeView {
    pub device_id: Seq<char>,
    pub created_at: u64,
    pub kind: ChallengeKind,
    pub expires_at: u64,
    pub challenge: Seq<char>,
    pub reg_state: Option<PasskeyRegistration>,
    pub auth_state: Option<PasskeyAuthentication>,
}

impl View for PendingChallenge {
    type V = PendingChallengeView;

    open spec fn view(&self) -> PendingChallengeView {
        PendingChallengeView {
            device_id: self.device_id@,
            created_at: self.created_at,
            kind: self.kind,
            expires_at: self.expires_at,
            challenge: self.challenge@,
            reg_state: self.reg_state,
            auth_state: self.auth_state,
        }
    }
}

/// Request to start registering a passkey.
#[derive(Debug, Clone)]
pub struct RegisterStartReq {
    pub device_id: String,
    pub display_name: String,
}

/// A bare success answer.
#[derive(Debug, Clone)]
pub struct SimpleOk {
    pub ok: bool,
}

/// Request to start an assertion.
#[derive(Debug, Clone)]
pub struct AssertStartReq {
    pub device_id: String,
}

/// Answer to a verified assertion.
#[derive(Debug, Clone)]
pub struct AssertFinishRes {
    pub ok: bool,
    pub assertion_token: String,
}

/// Why a passkey request failed.
#[derive(Debug, Clone, Copy, PartialEq, Eq, Structural)]
pub enum PasskeyError {
    /// No pending challenge matches the answer.
    ChallengeNotFound,
    /// The pending challenge is of the other ceremony, of another device, or
    /// has expired.
    ChallengeInvalidOrExpired,
    /// WebAuthn rejected the answer.
    Rejected,
    /// The device has no registered passkey.
    NoCredential,
    /// WebAuthn could not start the ceremony.
    CeremonyFailed,
    /// The relying party settings are not accepted by WebAuthn.
    InvalidConfig,
    /// The browser's answer does not read as a WebAuthn credential.
    MalformedCredential,
}

/// An empty passkey table.
pub open spec fn no_passkeys() -> Map<Seq<char>, Seq<Seq<u8>>> {
    Map::empty()
}

/// A passkey table with no device in it.
pub open spec fn no_entries() -> Map<Seq<char>, Seq<Passkey>> {
    Map::empty()
}

/// An empty challenge table.
pub open spec fn no_challenges() -> Map<Seq<char>, PendingChallengeView> {
    Map::empty()
}

/// A pending challenge carries the ceremony state of `kind`.
pub open spec fn has_state(p: PendingChallengeView, kind: ChallengeKind) -> bool {
    match kind {
        ChallengeKind::Register => p.reg_state is Some,
        ChallengeKind::Assert => p.auth_state is Some,
    }
}

/// `p` is the record of a challenge freshly issued to `device_id` at `now`
/// for `kind`: it carries that ceremony's state and no other.
pub open spec fn issued(
    p: PendingChallengeView,
    device_id: Seq<char>,
    now: u64,
    kind: ChallengeKind,
    challenge: Seq<char>,
) -> bool {
    &&& p.device_id == device_id
    &&& p.created_at == now
    &&& p.kind == kind
    &&& p.expires_at == now + CHALLENGE_TTL_MS
    &&& p.challenge == challenge
    &&& p.reg_state is Some <==> kind == ChallengeKind::Register
    &&& p.auth_state is Some <==> kind == ChallengeKind::Assert
}

/// A pending challenge may be answered by `device_id` for `kind` at `now`.
pub open spec fn accepts(p: PendingChallengeView, kind: ChallengeKind, device_id: Seq<char>, now: u64) -> bool {
    p.kind == kind && p.device_id == device_id && now < p.expires_at
}

/// What the challenge check decides before WebAuthn sees an answer: an
/// error, or `None` to go on. A challenge that lacks the state of its own
/// ceremony (no record these functions store does) is refused as invalid.
pub open spec fn finish_verdict(
    t: Map<Seq<char>, PendingChallengeView>,
    key: Seq<char>,
    kind: ChallengeKind,
    device_id: Seq<char>,
    now: u64,
) -> Option<PasskeyError> {
    if !t.contains_key(key) {
        Some(PasskeyError::ChallengeNotFound)
    } else if !accepts(t[key], kind, device_id, now) || !has_state(t[key], kind) {
        Some(PasskeyError::ChallengeInvalidOrExpired)
    } else {
        None
    }
}

/// An answer that echoes a challenge sent without padding, and that can be
/// read, refers to exactly that challenge.
pub open spec fn echoes(client_data: Seq<u8>) -> bool {
    match sent_challenge(client_data) {
        Some(c) => has_no_padding(c) && challenge_key(client_data) is Some ==> answer_key(client_data) == c,
        None => true,
    }
}

/// The table key an answer refers to: its normalised challenge, or the
/// empty text when none can be read.
pub open spec fn answer_key(client_data: Seq<u8>) -> Seq<char> {
    match challenge_key(client_data) {
        Some(k) => k,
        None => Seq::empty(),
    }
}

/// The credential ids of a device (none when it has no entry).
pub open spec fn device_ids(t: Map<Seq<char>, Seq<Seq<u8>>>, device_id: Seq<char>) -> Seq<Seq<u8>> {
    if t.contains_key(device_id) {
        t[device_id]
    } else {
        Seq::empty()
    }
}

/// A list of credential ids with `id` removed.
pub open spec fn without_id(s: Seq<Seq<u8>>, id: Seq<u8>) -> Seq<Seq<u8>>
    decreases s.len(),
{
    if s.len() == 0 {
        s
    } else if s.last() == id {
        without_id(s.drop_last(), id)
    } else {
        without_id(s.drop_last(), id).push(s.last())
    }
}

/// The passkeys of a device (none when it has no entry).
pub open spec fn device_entries(e: Map<Seq<char>, Seq<Passkey>>, device_id: Seq<char>) -> Seq<Passkey> {
    if e.contains_key(device_id) {
        e[device_id]
    } else {
        Seq::empty()
    }
}

/// A list of passkeys with those of credential id `id` removed.
pub open spec fn without_cred(s: Seq<Passkey>, id: Seq<u8>) -> Seq<Passkey>
    decreases s.len(),
{
    if s.len() == 0 {
        s
    } else if passkey_cred_id(s.last()) == id {
        without_cred(s.drop_last(), id)
    } else {
        without_cred(s.drop_last(), id).push(s.last())
    }
}

/// A list of passkeys after registering `p`: any earlier passkey with its
/// credential id is dropped and `p` goes last.
pub open spec fn upsert_passkey(s: Seq<Passkey>, p: Passkey) -> Seq<Passkey> {
    without_cred(s, passkey_cred_id(p)).push(p)
}

/// The passkey table after a successful authentication `res` of a device:
/// each of its passkeys takes over what `res` reports.
pub open spec fn after_authentication(
    e: Map<Seq<char>, Seq<Passkey>>,
    device_id: Seq<char>,
    res: AuthenticationResult,
) -> Map<Seq<char>, Seq<Passkey>> {
    if e.contains_key(device_id) {
        e.insert(device_id, e[device_id].map_values(|p: Passkey| passkey_after_update(p, res)))
    } else {
        e
    }
}

/// The passkey table seen as credential ids.
pub open spec fn ids_table(e: Map<Seq<char>, Seq<Passkey>>) -> Map<Seq<char>, Seq<Seq<u8>>> {
    e.map_values(|v: Seq<Passkey>| ids_of(v))
}

/// A list of credential ids after registering `id`: any earlier entry with
/// that id is dropped and `id` goes last.
pub open spec fn upsert_id(s: Seq<Seq<u8>>, id: Seq<u8>) -> Seq<Seq<u8>> {
    without_id(s, id).push(id)
}

/// The payload of an assertion token: serde_json's text of the object
/// holding the device id, the challenge, the issue time and the expiry two
/// minutes later.
pub open spec fn token_payload(challenge: Seq<char>, device_id: Seq<char>, iat: u64) -> Seq<char> {
    token_payload_json(device_id, challenge, iat, (iat + TOKEN_TTL_SECS) as u64)
}

/// A signed token: the payload and its HMAC-SHA256 under the secret, each
/// in unpadded URL-safe base64, joined by a dot.
pub open spec fn signed_token(secret: Seq<char>, payload: Seq<char>) -> Seq<char> {
    base64url_nopad(encode_utf8(payload)) + "."@ + base64url_nopad(
        hmac_sha256_of(encode_utf8(secret), encode_utf8(payload)),
    )
}

/// The texts of a list of strings.
pub open spec fn strings_view(v: Seq<String>) -> Seq<Seq<char>> {
    v.map_values(|s: String| s@)
}

/// The URLs that parse among `origins`, in order.
pub open spec fn parsed_urls(origins: Seq<Seq<char>>) -> Seq<Url>
    decreases origins.len(),
{
    if origins.len() == 0 {
        Seq::empty()
    } else {
        let rest = parsed_urls(origins.drop_last());
        match url_parsed(origins.last()) {
            Some(u) => rest.push(u),
            None => rest,
        }
    }
}

/// The primary origin of a relying party: the first of `origins` that
/// parses, else `http://localhost:3000` (if that parses).
pub open spec fn primary_origin(origins: Seq<Seq<char>>) -> Option<Url> {
    if parsed_urls(origins).len() > 0 {
        Some(parsed_urls(origins)[0])
    } else {
        url_parsed("http://localhost:3000"@)
    }
}

/// The origins a relying party allows: those of `origins` that parse, the
/// first being the primary one, or `http://localhost:3000` alone when none
/// does.
pub open spec fn rp_origins(origins: Seq<Seq<char>>) -> Seq<Url> {
    if parsed_urls(origins).len() > 0 {
        parsed_urls(origins)
    } else {
        match url_parsed("http://localhost:3000"@) {
            Some(u) => seq![u],
            None => Seq::empty(),
        }
    }
}

/// The name the relying party goes by.
pub open spec fn rp_name_text() -> Seq<char> {
    "Protec"@
}

/// Shared state of the passkey endpoints.
pub struct PasskeyState {
    /// Device id to its registered passkeys.
    pub passkeys_by_device: DashMap<String, Vec<Passkey>>,
    /// Challenge to the ceremony waiting for its answer.
    pub challenges: DashMap<String, PendingChallenge>,
    pub hmac_secret: String,
    pub rp_id: String,
    pub webauthn: Webauthn,
}

/// Applies a successful authentication to each passkey, in order; the
/// credential ids stay as they were.
fn apply_authentication(v: Vec<Passkey>, res: &AuthenticationResult) -> (r: Vec<Passkey>)
    ensures
        r@.len() == v@.len(),
        forall|i: int| 0 <= i < v@.len() ==> #[trigger] r@[i] == passkey_after_update(v@[i], *res),
        ids_of(r@) == ids_of(v@),
{
    let mut rest = v;
    let mut out: Vec<Passkey> = Vec::new();
    let ghost orig = ids_of(rest@);
    let ghost all = v@;
    while rest.len() > 0
        invariant
            orig == ids_of(out@) + ids_of(rest@),
            orig == ids_of(all),
            out@.len() + rest@.len() == all.len(),
            rest@ == all.subrange(out@.len() as int, all.len() as int),
            forall|i: int| 0 <= i < out@.len() ==> #[trigger] out@[i] == passkey_after_update(all[i], *res),
        decreases rest.len(),
    {
        let mut p = rest.remove(0);
        let ghost before = passkey_cred_id(p);
        update_credential(&mut p, res);
        out.push(p);
        proof {
            assert(ids_of(out@) == ids_of(out@.drop_last()).push(before));
        }
        assert(ids_of(out@) + ids_of(rest@) =~= orig);
    }
    assert(ids_of(rest@) =~= Seq::<Seq<u8>>::empty());
    assert(ids_of(out@) =~= orig);
    out
}

impl PasskeyState {
    /// Device id to its passkeys.
    pub open spec fn entries(&self) -> Map<Seq<char>, Seq<Passkey>> {
        passkey_table(self.passkeys_by_device)
    }

    /// Device id to the credential ids of its passkeys.
    pub open spec fn passkeys(&self) -> Map<Seq<char>, Seq<Seq<u8>>> {
        ids_table(self.entries())
    }

    pub open spec fn pending(&self) -> Map<Seq<char>, PendingChallengeView> {
        challenge_table(self.challenges)
    }

    /// Every pending challenge is stored under its own text and carries the
    /// ceremony state of its kind.
    pub open spec fn wf(&self) -> bool {
        forall|k: Seq<char>|
            #[trigger] self.pending().contains_key(k) ==> self.pending()[k].challenge == k && has_state(
                self.pending()[k],
                self.pending()[k].kind,
            )
    }

    /// A state for relying party `rp_id`. The first origin that parses as a
    /// URL is the primary one (`http://localhost:3000` when none does), the
    /// others that parse are also allowed, on any port. It fails exactly
    /// when WebAuthn does not accept `rp_id` for the primary origin.
    pub fn new(rp_id: String, hmac_secret: String, origins: Vec<String>) -> (r: Result<PasskeyState, PasskeyError>)
        ensures
            r is Ok <==> (primary_origin(strings_view(origins@)) matches Some(u) && rp_id_accepted(rp_id@, u)),
            match r {
                Ok(s) => s.entries() == no_entries() && s.passkeys() == no_passkeys()
                    && s.pending() == no_challenges() && s.hmac_secret == hmac_secret && s.rp_id == rp_id && s.wf()
                    && webauthn_settings(s.webauthn) == (RpSettings {
                    rp_id: rp_id@,
                    rp_name: Some(rp_name_text()),
                    origins: rp_origins(strings_view(origins@)),
                    any_port: true,
                }),
                Err(e) => e == PasskeyError::InvalidConfig,
            },
    {
        let ghost texts = strings_view(origins@);
        let mut urls: Vec<Url> = Vec::new();
        let mut i: usize = 0;
        while i < origins.len()
            invariant
                0 <= i <= origins.len(),
                texts == strings_view(origins@),
                urls@ == parsed_urls(texts.take(i as int)),
            decreases origins.len() - i,
        {
            assert(texts.take(i + 1).drop_last() =~= texts.take(i as int));
            assert(texts.take(i + 1).last() == origins[i as int]@);
            match url_parse(origins[i].as_str()) {
                Some(u) => urls.push(u),
                None => {},
            }
            i = i + 1;
        }
        assert(texts.take(i as int) =~= texts);
        let ghost parsed = urls@;
        let primary = if urls.len() > 0 {
            urls.remove(0)
        } else {
            match url_parse("http://localhost:3000") {
                Some(u) => u,
                None => return Err(PasskeyError::InvalidConfig),
            }
        };
        let webauthn = {
            let builder = match builder_new(rp_id.as_str(), &primary) {
                Some(b) => b,
                None => return Err(PasskeyError::InvalidConfig),
            };
            let name = "Protec";
            proof {
                assert(name@ == rp_name_text());
            }
            let mut builder = builder_allow_any_port(builder_rp_name(builder, name), true);
            let mut j: usize = 0;
            while j < urls.len()
                invariant
                    0 <= j <= urls.len(),
                    builder_settings(builder) == (RpSettings {
                        rp_id: rp_id@,
                        rp_name: Some(rp_name_text()),
                        origins: seq![primary] + urls@.take(j as int),
                        any_port: true,
                    }),
                decreases urls.len() - j,
            {
                assert(urls@.take(j + 1) =~= urls@.take(j as int).push(urls@[j as int]));
                builder = builder_append_origin(builder, &urls[j]);
                assert(seq![primary] + urls@.take(j + 1) =~= (seq![primary] + urls@.take(j as int)).push(urls@[j as int]));
                j = j + 1;
            }
            proof {
                assert(urls@.take(j as int) =~= urls@);
                assert(seq![primary] + urls@ =~= rp_origins(texts));
            }
            match builder_build(builder) {
                Some(w) => w,
                None => return Err(PasskeyError::InvalidConfig),
            }
        };
        let s = PasskeyState {
            passkeys_by_device: passkeys_new(),
            challenges: challenges_new(),
            hmac_secret,
            rp_id,
            webauthn,
        };
        assert(s.passkeys() =~= no_passkeys());
        Ok(s)
    }

    /// Starts registering a passkey for a device, named by its device id and
    /// shown by its display name (WebAuthn refuses empty names): the
    /// challenge is remembered for two minutes under its unpadded base64url
    /// text.
    pub fn register_start(&mut self, req: &RegisterStartReq, now_ms: u64) -> (r: Result<
        CreationChallengeResponse,
        PasskeyError,
    >)
        requires
            now_ms <= u64::MAX - CHALLENGE_TTL_MS,
            req.device_id@.len() > 0,
            req.display_name@.len() > 0,
        ensures
            final(self).entries() == old(self).entries(),
            final(self).hmac_secret == old(self).hmac_secret,
            final(self).webauthn == old(self).webauthn,
            r is Ok,
            match r {
                Ok(ccr) => {
                    let key = base64url_nopad(creation_challenge(ccr));
                    &&& creation_user_name(ccr) == req.device_id@
                    &&& creation_display_name(ccr) == req.display_name@
                    &&& has_no_padding(key)
                    &&& final(self).pending() == old(self).pending().insert(key, final(self).pending()[key])
                    &&& issued(final(self).pending()[key], req.device_id@, now_ms, ChallengeKind::Register, key)
                },
                Err(e) => e == PasskeyError::CeremonyFailed && final(self).pending() == old(self).pending(),
            },
            old(self).wf() ==> final(self).wf(),
    {
        let user_id = new_user_id();
        let (ccr, reg_state) = match start_registration(
            &self.webauthn,
            user_id,
            req.device_id.as_str(),
            req.display_name.as_str(),
        ) {
            Some(pair) => pair,
            None => return Err(PasskeyError::CeremonyFailed),
        };
        let bytes = creation_challenge_bytes(&ccr);
        let chal = b64url_nopad_encode(bytes.as_slice());
        let pending = PendingChallenge {
            device_id: req.device_id.clone(),
            created_at: now_ms,
            kind: ChallengeKind::Register,
            expires_at: now_ms + CHALLENGE_TTL_MS,
            challenge: chal.clone(),
            reg_state: Some(reg_state),
            auth_state: None,
        };
        challenges_insert(&mut self.challenges, chal, pending);
        Ok(ccr)
    }

    /// Finishes a registration: the challenge named by the answer is
    /// consumed whatever happens; it must be a registration challenge of
    /// this device that has not expired. WebAuthn then judges the answer
    /// against the stored ceremony state; an accepted passkey replaces any
    /// earlier one with the same credential id and goes last.
    pub fn register_finish(&mut self, device_id: &str, credential: &RegisterPublicKeyCredential, now_ms: u64) -> (r:
        Result<SimpleOk, PasskeyError>)
        ensures
            ({
                let key = answer_key(registration_client_data(*credential));
                let t = old(self).pending();
                let e = old(self).entries();
                &&& final(self).pending() == t.remove(key)
                &&& final(self).hmac_secret == old(self).hmac_secret
                &&& final(self).webauthn == old(self).webauthn
                &&& old(self).wf() ==> final(self).wf()
                &&& echoes(registration_client_data(*credential))
                &&& match finish_verdict(t, key, ChallengeKind::Register, device_id@, now_ms) {
                    Some(v) => r matches Err(x) && x == v && final(self).entries() == e,
                    None => match registration_verdict(old(self).webauthn, *credential, t[key].reg_state.unwrap()) {
                        None => r matches Err(x) && x == PasskeyError::Rejected && final(self).entries() == e,
                        Some(p) => {
                            &&& r matches Ok(ok) && ok.ok
                            &&& final(self).entries() == e.insert(
                                device_id@,
                                upsert_passkey(device_entries(e, device_id@), p),
                            )
                            &&& final(self).passkeys() == old(self).passkeys().insert(
                                device_id@,
                                upsert_id(device_ids(old(self).passkeys(), device_id@), passkey_cred_id(p)),
                            )
                        },
                    },
                }
            }),
    {
        let data = registration_client_data_bytes(credential);
        let chal = match extract_challenge_from_client_data_bytes(data.as_slice()) {
            Some(c) => c,
            None => String::new(),
        };
        let pend = match challenges_remove(&mut self.challenges, chal.as_str()) {
            Some(p) => p,
            None => return Err(PasskeyError::ChallengeNotFound),
        };
        let same_kind = match pend.kind {
            ChallengeKind::Register => true,
            ChallengeKind::Assert => false,
        };
        if !same_kind || pend.device_id != String::from_str(device_id) || now_ms >= pend.expires_at {
            return Err(PasskeyError::ChallengeInvalidOrExpired);
        }
        let reg_state = match pend.reg_state {
            Some(s) => s,
            None => return Err(PasskeyError::ChallengeInvalidOrExpired),
        };
        let passkey = match finish_registration(&self.webauthn, credential, &reg_state) {
            Some(p) => p,
            None => return Err(PasskeyError::Rejected),
        };
        let new_id = cred_id(&passkey);
        let existing = match passkeys_get(&self.passkeys_by_device, device_id) {
            Some(v) => v,
            None => Vec::new(),
        };
        let ghost e = old(self).entries();
        assert(existing@ =~= device_entries(e, device_id@));
        let mut kept = retain_other_ids(existing, &new_id);
        let ghost pk = passkey;
        kept.push(passkey);
        passkeys_insert(&mut self.passkeys_by_device, String::from_str(device_id), kept);
        proof {
            let d = device_id@;
            let pid = passkey_cred_id(pk);
            lemma_ids_without_cred(device_entries(e, d), pid);
            assert(ids_of(device_entries(e, d)) =~= device_ids(old(self).passkeys(), d));
            assert(ids_of(upsert_passkey(device_entries(e, d), pk)) =~= upsert_id(
                device_ids(old(self).passkeys(), d),
                pid,
            ));
            assert(self.passkeys() =~= old(self).passkeys().insert(
                d,
                upsert_id(device_ids(old(self).passkeys(), d), pid),
            ));
        }
        Ok(SimpleOk { ok: true })
    }

    /// Finishes a registration from the fields the browser sent: they are
    /// read as a WebAuthn answer first; one that does not read is refused
    /// and nothing changes.
    pub fn register_finish_request(
        &mut self,
        device_id: &str,
        id: &str,
        raw_id: &str,
        typ: &str,
        response: &serde_json::Value,
        now_ms: u64,
    ) -> (r: Result<SimpleOk, PasskeyError>)
        ensures
            match registration_credential_of(id@, raw_id@, typ@, *response) {
                None => r matches Err(e) && e == PasskeyError::MalformedCredential && *final(self) == *old(self),
                Some(c) => ({
                    let key = answer_key(registration_client_data(c));
                    let t = old(self).pending();
                    let e = old(self).entries();
                    &&& final(self).pending() == t.remove(key)
                    &&& final(self).hmac_secret == old(self).hmac_secret
                    &&& final(self).webauthn == old(self).webauthn
                    &&& old(self).wf() ==> final(self).wf()
                    &&& match finish_verdict(t, key, ChallengeKind::Register, device_id@, now_ms) {
                        Some(v) => r matches Err(x) && x == v && final(self).entries() == e,
                        None => match registration_verdict(old(self).webauthn, c, t[key].reg_state.unwrap()) {
                            None => r matches Err(x) && x == PasskeyError::Rejected && final(self).entries() == e,
                            Some(p) => r matches Ok(ok) && ok.ok && final(self).entries() == e.insert(
                                device_id@,
                                upsert_passkey(device_entries(e, device_id@), p),
                            ),
                        },
                    }
                }),
            },
    {
        match registration_credential(id, raw_id, typ, response) {
            Some(c) => self.register_finish(device_id, &c, now_ms),
            None => Err(PasskeyError::MalformedCredential),
        }
    }

    /// Finishes an assertion from the fields the browser sent: they are read
    /// as a WebAuthn answer first; one that does not read is refused and
    /// nothing changes.
    pub fn assert_finish_request(
        &mut self,
        device_id: &str,
        id: &str,
        raw_id: &str,
        typ: &str,
        response: &serde_json::Value,
        now_ms: u64,
        now_unix: u64,
    ) -> (r: Result<AssertFinishRes, PasskeyError>)
        requires
            now_unix <= u64::MAX - TOKEN_TTL_SECS,
        ensures
            match assertion_credential_of(id@, raw_id@, typ@, *response) {
                None => r matches Err(e) && e == PasskeyError::MalformedCredential && *final(self) == *old(self),
                Some(c) => ({
                    let key = answer_key(authentication_client_data(c));
                    let t = old(self).pending();
                    let e = old(self).entries();
                    &&& final(self).pending() == t.remove(key)
                    &&& final(self).hmac_secret == old(self).hmac_secret
                    &&& final(self).webauthn == old(self).webauthn
                    &&& old(self).wf() ==> final(self).wf()
                    &&& match finish_verdict(t, key, ChallengeKind::Assert, device_id@, now_ms) {
                        Some(v) => r matches Err(x) && x == v && final(self).entries() == e,
                        None => match authentication_verdict(old(self).webauthn, c, t[key].auth_state.unwrap()) {
                            None => r matches Err(x) && x == PasskeyError::Rejected && final(self).entries() == e,
                            Some(res) => {
                                &&& r matches Ok(ok) && ok.ok && ok.assertion_token@ == signed_token(
                                    old(self).hmac_secret@,
                                    token_payload(key, device_id@, now_unix),
                                )
                                &&& final(self).entries() == after_authentication(e, device_id@, res)
                            },
                        },
                    }
                }),
            },
    {
        match assertion_credential(id, raw_id, typ, response) {
            Some(c) => self.assert_finish(device_id, &c, now_ms, now_unix),
            None => Err(PasskeyError::MalformedCredential),
        }
    }

    /// Starts an assertion for a device that has passkeys: the challenge is
    /// remembered for two minutes under its unpadded base64url text.
    pub fn assert_start(&mut self, req: &AssertStartReq, now_ms: u64) -> (r: Result<RequestChallengeResponse, PasskeyError>)
        requires
            now_ms <= u64::MAX - CHALLENGE_TTL_MS,
        ensures
            final(self).entries() == old(self).entries(),
            final(self).hmac_secret == old(self).hmac_secret,
            final(self).webauthn == old(self).webauthn,
            r is Ok <==> old(self).entries().contains_key(req.device_id@),
            match r {
                Ok(car) => {
                    let key = base64url_nopad(request_challenge(car));
                    &&& allowed_ids(car) == device_ids(old(self).passkeys(), req.device_id@)
                    &&& has_no_padding(key)
                    &&& final(self).pending() == old(self).pending().insert(key, final(self).pending()[key])
                    &&& issued(final(self).pending()[key], req.device_id@, now_ms, ChallengeKind::Assert, key)
                },
                Err(e) => e == PasskeyError::NoCredential && final(self).pending() == old(self).pending(),
            },
            old(self).wf() ==> final(self).wf(),
    {
        let passkeys = match passkeys_get(&self.passkeys_by_device, req.device_id.as_str()) {
            Some(v) => v,
            None => return Err(PasskeyError::NoCredential),
        };
        let (car, auth_state) = match start_authentication(&self.webauthn, passkeys.as_slice()) {
            Some(pair) => pair,
            None => return Err(PasskeyError::CeremonyFailed),
        };
        let bytes = request_challenge_bytes(&car);
        let chal = b64url_nopad_encode(bytes.as_slice());
        let pending = PendingChallenge {
            device_id: req.device_id.clone(),
            created_at: now_ms,
            kind: ChallengeKind::Assert,
            expires_at: now_ms + CHALLENGE_TTL_MS,
            challenge: chal.clone(),
            reg_state: None,
            auth_state: Some(auth_state),
        };
        challenges_insert(&mut self.challenges, chal, pending);
        Ok(car)
    }

    /// Finishes an assertion: the challenge named by the answer is consumed
    /// whatever happens; it must be an assertion challenge of this device
    /// that has not expired. WebAuthn then judges the answer against the
    /// stored ceremony state; on success the device's passkeys take over what
    /// the authenticator reports, and a token valid for two minutes from
    /// `now_unix` (seconds) is signed with the state's secret.
    pub fn assert_finish(
        &mut self,
        device_id: &str,
        credential: &PublicKeyCredential,
        now_ms: u64,
        now_unix: u64,
    ) -> (r: Result<AssertFinishRes, PasskeyError>)
        requires
            now_unix <= u64::MAX - TOKEN_TTL_SECS,
        ensures
            ({
                let key = answer_key(authentication_client_data(*credential));
                let t = old(self).pending();
                let e = old(self).entries();
                &&& final(self).pending() == t.remove(key)
                &&& final(self).passkeys() == old(self).passkeys()
                &&& final(self).hmac_secret == old(self).hmac_secret
                &&& final(self).webauthn == old(self).webauthn
                &&& old(self).wf() ==> final(self).wf()
                &&& echoes(authentication_client_data(*credential))
                &&& match finish_verdict(t, key, ChallengeKind::Assert, device_id@, now_ms) {
                    Some(v) => r matches Err(x) && x == v && final(self).entries() == e,
                    None => match authentication_verdict(old(self).webauthn, *credential, t[key].auth_state.unwrap()) {
                        None => r matches Err(x) && x == PasskeyError::Rejected && final(self).entries() == e,
                        Some(res) => {
                            &&& r matches Ok(ok) && ok.ok && ok.assertion_token@ == signed_token(
                                old(self).hmac_secret@,
                                token_payload(key, device_id@, now_unix),
                            )
                            &&& final(self).entries() == after_authentication(e, device_id@, res)
                        },
                    },
                }
            }),
    {
        let data = authentication_client_data_bytes(credential);
        let chal = match extract_challenge_from_client_data_bytes(data.as_slice()) {
            Some(c) => c,
            None => String::new(),
        };
        let pend = match challenges_remove(&mut self.challenges, chal.as_str()) {
            Some(p) => p,
            None => return Err(PasskeyError::ChallengeNotFound),
        };
        let same_kind = match pend.kind {
            ChallengeKind::Assert => true,
            ChallengeKind::Register => false,
        };
        if !same_kind || pend.device_id != String::from_str(device_id) || now_ms >= pend.expires_at {
            return Err(PasskeyError::ChallengeInvalidOrExpired);
        }
        let auth_state = match pend.auth_state {
            Some(s) => s,
            None => return Err(PasskeyError::ChallengeInvalidOrExpired),
        };
        let result = match finish_authentication(&self.webauthn, credential, &auth_state) {
            Some(res) => res,
            None => return Err(PasskeyError::Rejected),
        };
        match passkeys_get(&self.passkeys_by_device, device_id) {
            Some(v) => {
                let ghost before = v@;
                let updated = apply_authentication(v, &result);
                assert(updated@ =~= before.map_values(|p: Passkey| passkey_after_update(p, result)));
                passkeys_insert(&mut self.passkeys_by_device, String::from_str(device_id), updated);
                proof {
                    assert(self.entries() =~= after_authentication(old(self).entries(), device_id@, result));
                    assert(self.passkeys() =~= old(self).passkeys());
                }
            },
            None => {},
        }
        let token = self.assertion_token(device_id, chal.as_str(), now_unix);
        Ok(AssertFinishRes { ok: true, assertion_token: token })
    }

    /// The signed token for a verified assertion of `device_id` answering
    /// `challenge`, issued at `iat` (seconds).
    pub fn assertion_token(&self, device_id: &str, challenge: &str, iat: u64) -> (t: String)
        requires
            iat <= u64::MAX - TOKEN_TTL_SECS,
        ensures
            t@ == signed_token(self.hmac_secret@, token_payload(challenge@, device_id@, iat)),
    {
        let exp = iat + TOKEN_TTL_SECS;
        let payload = token_payload_text(device_id, challenge, iat, exp);
        let payload_bytes = payload.as_str().as_bytes();
        let sig = hmac_sha256(self.hmac_secret.as_str().as_bytes(), payload_bytes);
        let mut token = b64url_nopad_encode(payload_bytes);
        token.append(".");
        token.append(b64url_nopad_encode(sig.as_slice()).as_str());
        token
    }
}

/// The credential ids left after removing a credential id are those of the
/// passkeys left after removing the passkeys of that id.
proof fn lemma_ids_without_cred(s: Seq<Passkey>, id: Seq<u8>)
    ensures
        ids_of(without_cred(s, id)) == without_id(ids_of(s), id),
    decreases s.len(),
{
    if s.len() > 0 {
        lemma_ids_without_cred(s.drop_last(), id);
        assert(ids_of(s).drop_last() =~= ids_of(s.drop_last()));
        assert(ids_of(s).last() == passkey_cred_id(s.last()));
        if passkey_cred_id(s.last()) != id {
            assert(ids_of(without_cred(s.drop_last(), id).push(s.last())) =~= ids_of(
                without_cred(s.drop_last(), id),
            ).push(passkey_cred_id(s.last())));
        }
    }
}

/// The passkeys whose credential id differs from `id`, in their order.
fn retain_other_ids(v: Vec<Passkey>, id: &Vec<u8>) -> (r: Vec<Passkey>)
    ensures
        r@ == without_cred(v@, id@),
{
    let mut rest = v;
    let mut kept: Vec<Passkey> = Vec::new();
    let ghost all = rest@;
    let n: usize = rest.len();
    assert(all.len() == n);
    let mut taken: usize = 0;
    while rest.len() > 0
        invariant
            taken <= all.len(),
            all.len() <= usize::MAX,
            taken + rest.len() == all.len(),
            rest@ == all.subrange(taken as int, all.len() as int),
            kept@ == without_cred(all.take(taken as int), id@),
        decreases rest.len(),
    {
        let p = rest.remove(0);
        let pid = cred_id(&p);
        assert(all.take(taken + 1).drop_last() =~= all.take(taken as int));
        assert(all.take(taken + 1).last() == p);
        if !bytes_equal(&pid, id) {
            kept.push(p);
        }
        assert(rest@ =~= all.subrange(taken + 1, all.len() as int));
        taken = taken + 1;
    }
    assert(all.take(taken as int) =~= all);
    kept
}

/// Byte-wise equality of two byte strings.
fn bytes_equal(a: &Vec<u8>, b: &Vec<u8>) -> (r: bool)
    ensures
        r == (a@ == b@),
{
    if a.len() != b.len() {
        return false;
    }
    let mut i: usize = 0;
    while i < a.len()
        invariant
            0 <= i <= a.len(),
            a.len() == b.len(),
            forall|j: int| 0 <= j < i ==> a@[j] == b@[j],
        decreases a.len() - i,
    {
        if a[i] != b[i] {
            return false;
        }
        i = i + 1;
    }
    assert(a@ =~= b@);
    true
}

} // verus!
