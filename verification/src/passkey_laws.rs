//! Properties of the passkey flow that span several operations.
use vstd::prelude::*;
use webauthn_rs::prelude::{AuthenticationResult, Passkey};
use crate::passkey_store::{passkey_after_update, passkey_cred_id, url_parsed};
use crate::passkeys::{
    after_authentication, upsert_passkey, without_cred, parsed_urls, rp_origins, accepts, finish_verdict, has_state, issued, upsert_id, without_id, ChallengeKind, PasskeyError, PendingChallengeView,
    CHALLENGE_TTL_MS,
};

verus! {

/// Appending an element: the result contains exactly what the list
/// contained, and the new element.
pub proof fn lemma_push_contains(s: Seq<Seq<u8>>, a: Seq<u8>, x: Seq<u8>)
    ensures
        s.push(a).contains(x) <==> (s.contains(x) || a == x),
{
    if s.push(a).contains(x) {
        let i = choose|i: int| 0 <= i < s.push(a).len() && s.push(a)[i] == x;
        if i < s.len() {
            assert(s[i] == x);
        }
    }
    if s.contains(x) {
        let i = choose|i: int| 0 <= i < s.len() && s[i] == x;
        assert(s.push(a)[i] == x);
    }
    if a == x {
        assert(s.push(a)[s.len() as int] == x);
    }
}

/// Dropping an id keeps every other id and leaves none equal to it.
pub proof fn lemma_without_id(s: Seq<Seq<u8>>, id: Seq<u8>)
    ensures
        !without_id(s, id).contains(id),
        forall|x: Seq<u8>| x != id ==> (#[trigger] without_id(s, id).contains(x) <==> s.contains(x)),
        without_id(s, id).len() <= s.len(),
    decreases s.len(),
{
    if s.len() > 0 {
        let rest = s.drop_last();
        let w = without_id(rest, id);
        lemma_without_id(rest, id);
        assert(s == rest.push(s.last()));
        assert forall|x: Seq<u8>| x != id implies (#[trigger] without_id(s, id).contains(x) <==> s.contains(x)) by {
            lemma_push_contains(rest, s.last(), x);
            lemma_push_contains(w, s.last(), x);
        }
        lemma_push_contains(w, s.last(), id);
    }
}

/// After registering a credential id, a device holds it exactly once, as its
/// last entry, and keeps every other id it had.
pub proof fn lemma_upsert_id(s: Seq<Seq<u8>>, id: Seq<u8>)
    ensures
        upsert_id(s, id).last() == id,
        forall|i: int| 0 <= i < upsert_id(s, id).len() - 1 ==> #[trigger] upsert_id(s, id)[i] != id,
        forall|x: Seq<u8>| x != id ==> (#[trigger] upsert_id(s, id).contains(x) <==> s.contains(x)),
{
    lemma_without_id(s, id);
    let w = without_id(s, id);
    assert forall|i: int| 0 <= i < upsert_id(s, id).len() - 1 implies #[trigger] upsert_id(s, id)[i] != id by {
        assert(upsert_id(s, id)[i] == w[i]);
        if w[i] == id {
            assert(w.contains(id));
        }
    }
    assert forall|x: Seq<u8>| x != id implies (#[trigger] upsert_id(s, id).contains(x) <==> s.contains(x)) by {
        if w.push(id).contains(x) {
            let i = choose|i: int| 0 <= i < w.push(id).len() && w.push(id)[i] == x;
            assert(i < w.len());
            assert(w[i] == x);
        }
        if w.contains(x) {
            let i = choose|i: int| 0 <= i < w.len() && w[i] == x;
            assert(w.push(id)[i] == x);
        }
    }
}

/// Dropping an id that is not there changes nothing.
pub proof fn lemma_without_absent(s: Seq<Seq<u8>>, id: Seq<u8>)
    requires
        !s.contains(id),
    ensures
        without_id(s, id) == s,
    decreases s.len(),
{
    if s.len() > 0 {
        let rest = s.drop_last();
        if rest.contains(id) {
            let i = choose|i: int| 0 <= i < rest.len() && rest[i] == id;
            assert(s[i] == id);
        }
        lemma_without_absent(rest, id);
        assert(s.last() != id) by {
            assert(s[s.len() - 1] == s.last());
        }
        assert(rest.push(s.last()) =~= s);
    }
}

/// Registering the same credential id twice is registering it once.
pub proof fn lemma_upsert_idempotent(s: Seq<Seq<u8>>, id: Seq<u8>)
    ensures
        upsert_id(upsert_id(s, id), id) == upsert_id(s, id),
{
    lemma_without_id(s, id);
    let w = without_id(s, id);
    assert(w.push(id).drop_last() =~= w);
    lemma_without_absent(w, id);
}

/// A freshly issued challenge is accepted for its own ceremony and device
/// exactly until its two minutes have run out, and never for the other
/// ceremony or another device.
pub proof fn lemma_issued_acceptance(
    p: PendingChallengeView,
    device_id: Seq<char>,
    now: u64,
    kind: ChallengeKind,
    challenge: Seq<char>,
    t: u64,
    other_kind: ChallengeKind,
    other_device: Seq<char>,
)
    requires
        issued(p, device_id, now, kind, challenge),
    ensures
        accepts(p, kind, device_id, t) <==> t < now + CHALLENGE_TTL_MS,
        has_state(p, kind),
        other_kind != kind ==> !accepts(p, other_kind, device_id, t),
        other_device != device_id ==> !accepts(p, kind, other_device, t),
{
}

/// A challenge answers at most one request: once an answer has been
/// processed, the same answer finds no challenge.
pub proof fn lemma_challenge_single_use(
    t: Map<Seq<char>, PendingChallengeView>,
    key: Seq<char>,
    kind: ChallengeKind,
    device_id: Seq<char>,
    now: u64,
)
    ensures
        finish_verdict(t.remove(key), key, kind, device_id, now) == Some(PasskeyError::ChallengeNotFound),
{
}

/// An answer to a just-issued challenge, from the same device for the same
/// ceremony and in time, passes the challenge check.
pub proof fn lemma_issued_then_answered(
    t: Map<Seq<char>, PendingChallengeView>,
    key: Seq<char>,
    p: PendingChallengeView,
    device_id: Seq<char>,
    kind: ChallengeKind,
    now: u64,
    later: u64,
)
    requires
        issued(p, device_id, now, kind, key),
        later < now + CHALLENGE_TTL_MS,
    ensures
        finish_verdict(t.insert(key, p), key, kind, device_id, later) is None,
{
}

/// An answer that comes when its challenge's time has run out is refused as
/// invalid or expired, for either ceremony, whoever sends it.
pub proof fn lemma_expired_challenge_refused(
    t: Map<Seq<char>, PendingChallengeView>,
    key: Seq<char>,
    kind: ChallengeKind,
    device_id: Seq<char>,
    now: u64,
)
    requires
        t.contains_key(key),
        now >= t[key].expires_at,
    ensures
        finish_verdict(t, key, kind, device_id, now) == Some(PasskeyError::ChallengeInvalidOrExpired),
{
}

/// An answer gets past the challenge check only if its challenge is
/// pending, is of the same ceremony, was issued to the same device, has not
/// expired and carries the ceremony's state; a pending challenge of the
/// other ceremony or of another device is refused as invalid.
pub proof fn lemma_verdict_passes_only_when_fit(
    t: Map<Seq<char>, PendingChallengeView>,
    key: Seq<char>,
    kind: ChallengeKind,
    device_id: Seq<char>,
    now: u64,
)
    ensures
        finish_verdict(t, key, kind, device_id, now) is None ==> {
            &&& t.contains_key(key)
            &&& t[key].kind == kind
            &&& t[key].device_id == device_id
            &&& now < t[key].expires_at
            &&& has_state(t[key], kind)
        },
        !t.contains_key(key) ==> finish_verdict(t, key, kind, device_id, now) == Some(
            PasskeyError::ChallengeNotFound,
        ),
        t.contains_key(key) && (t[key].kind != kind || t[key].device_id != device_id) ==> finish_verdict(
            t,
            key,
            kind,
            device_id,
            now,
        ) == Some(PasskeyError::ChallengeInvalidOrExpired),
{
}

/// Every origin text that parses ends up among the parsed origins.
proof fn lemma_parsed_urls_contain(origins: Seq<Seq<char>>, i: int)
    requires
        0 <= i < origins.len(),
        url_parsed(origins[i]) is Some,
    ensures
        parsed_urls(origins).contains(url_parsed(origins[i]).unwrap()),
    decreases origins.len(),
{
    let rest = origins.drop_last();
    if i < origins.len() - 1 {
        assert(rest[i] == origins[i]);
        lemma_parsed_urls_contain(rest, i);
        let j = choose|j: int| 0 <= j < parsed_urls(rest).len() && parsed_urls(rest)[j] == url_parsed(origins[i]).unwrap();
        match url_parsed(origins.last()) {
            Some(u) => assert(parsed_urls(rest).push(u)[j] == url_parsed(origins[i]).unwrap()),
            None => {},
        }
    } else {
        let u = url_parsed(origins.last()).unwrap();
        assert(parsed_urls(origins) == parsed_urls(rest).push(u));
        assert(parsed_urls(origins)[parsed_urls(rest).len() as int] == u);
    }
}

/// Every parsed origin is the parse of one of the origin texts.
proof fn lemma_parsed_urls_sound(origins: Seq<Seq<char>>, j: int)
    requires
        0 <= j < parsed_urls(origins).len(),
    ensures
        exists|i: int| 0 <= i < origins.len() && #[trigger] url_parsed(origins[i]) == Some(parsed_urls(origins)[j]),
    decreases origins.len(),
{
    let rest = origins.drop_last();
    if j < parsed_urls(rest).len() {
        lemma_parsed_urls_sound(rest, j);
        let i = choose|i: int| 0 <= i < rest.len() && #[trigger] url_parsed(rest[i]) == Some(parsed_urls(rest)[j]);
        match url_parsed(origins.last()) {
            Some(u) => assert(parsed_urls(origins)[j] == parsed_urls(rest)[j]),
            None => {},
        }
        assert(origins[i] == rest[i]);
    } else {
        assert(url_parsed(origins[origins.len() - 1]) == Some(parsed_urls(origins)[j]));
    }
}

/// The relying party allows every configured origin that parses, and only
/// those; when none parses it allows the local default alone.
pub proof fn lemma_rp_origins(origins: Seq<Seq<char>>, i: int, j: int)
    ensures
        0 <= i < origins.len() && url_parsed(origins[i]) is Some ==> rp_origins(origins).contains(
            url_parsed(origins[i]).unwrap(),
        ),
        0 <= j < rp_origins(origins).len() ==> (exists|k: int|
            0 <= k < origins.len() && #[trigger] url_parsed(origins[k]) == Some(rp_origins(origins)[j])) || url_parsed(
            "http://localhost:3000"@,
        ) == Some(rp_origins(origins)[j]),
{
    if 0 <= i < origins.len() && url_parsed(origins[i]) is Some {
        lemma_parsed_urls_contain(origins, i);
    }
    if 0 <= j < rp_origins(origins).len() && parsed_urls(origins).len() > 0 {
        lemma_parsed_urls_sound(origins, j);
    }
}

/// A verified assertion updates the passkeys of the asserting device only,
/// each in place: the list keeps its length and order, each passkey becomes
/// its own update, and its credential id stays.
pub proof fn lemma_authentication_updates_in_place(
    e: Map<Seq<char>, Seq<Passkey>>,
    device_id: Seq<char>,
    other: Seq<char>,
    res: AuthenticationResult,
    i: int,
)
    ensures
        after_authentication(e, device_id, res).dom() == e.dom(),
        other != device_id && e.contains_key(other) ==> after_authentication(e, device_id, res)[other] == e[other],
        e.contains_key(device_id) ==> after_authentication(e, device_id, res)[device_id].len() == e[device_id].len(),
        e.contains_key(device_id) && 0 <= i < e[device_id].len() ==> after_authentication(e, device_id, res)[device_id][i]
            == passkey_after_update(e[device_id][i], res),
{
    if e.contains_key(device_id) {
        assert(after_authentication(e, device_id, res).dom() =~= e.dom());
    }
}

/// The passkeys that removing a credential id keeps are passkeys of the
/// list, none with that id, and every passkey of the list with another id
/// is kept.
pub proof fn lemma_without_cred(s: Seq<Passkey>, id: Seq<u8>, q: Passkey)
    ensures
        without_cred(s, id).contains(q) <==> (s.contains(q) && passkey_cred_id(q) != id),
    decreases s.len(),
{
    if s.len() > 0 {
        lemma_without_cred(s.drop_last(), id, q);
        let r = without_cred(s.drop_last(), id);
        assert(s =~= s.drop_last().push(s.last()));
        if s.contains(q) && !s.drop_last().contains(q) {
            assert(q == s.last()) by {
                let k = choose|k: int| 0 <= k < s.len() && s[k] == q;
                if k < s.len() - 1 {
                    assert(s.drop_last()[k] == q);
                }
            }
        }
        if passkey_cred_id(s.last()) != id {
            assert(r.push(s.last())[r.len() as int] == s.last());
            if r.push(s.last()).contains(q) && q != s.last() {
                let k = choose|k: int| 0 <= k < r.push(s.last()).len() && r.push(s.last())[k] == q;
                assert(r[k] == q);
            }
            if r.contains(q) {
                let k = choose|k: int| 0 <= k < r.len() && r[k] == q;
                assert(r.push(s.last())[k] == q);
            }
        }
        if s.drop_last().contains(q) {
            let k = choose|k: int| 0 <= k < s.drop_last().len() && s.drop_last()[k] == q;
            assert(s[k] == q);
        }
    }
}

/// Registering a passkey puts it last and keeps exactly the earlier
/// passkeys with another credential id.
pub proof fn lemma_upsert_passkey(s: Seq<Passkey>, p: Passkey, q: Passkey)
    ensures
        upsert_passkey(s, p).last() == p,
        upsert_passkey(s, p).contains(q) <==> (q == p || (s.contains(q) && passkey_cred_id(q) != passkey_cred_id(p))),
{
    lemma_without_cred(s, passkey_cred_id(p), q);
    let w = without_cred(s, passkey_cred_id(p));
    assert(w.push(p)[w.len() as int] == p);
    if w.push(p).contains(q) && q != p {
        let k = choose|k: int| 0 <= k < w.push(p).len() && w.push(p)[k] == q;
        assert(w[k] == q);
    }
    if w.contains(q) {
        let k = choose|k: int| 0 <= k < w.len() && w[k] == q;
        assert(w.push(p)[k] == q);
    }
}

} // verus!
