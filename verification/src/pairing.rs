//! Device pairing: a browser asks for a short code, a phone completes the
//! pairing with it, and both sides learn the session's RPC endpoint.
use vstd::prelude::*;
use vstd::string::StringExecFns;
use dashmap::DashMap;
use tokio::sync::broadcast::Sender;
use crate::codes::{short_code, is_base36_char, CODE_LEN};
use crate::pairing_store::{
    broadcast_sender, channel_table, channel_get, channel_insert, channels_new, pending_contents, pending_get,
    pending_insert, pending_new, pending_remove, pending_values, publish, sender_capacity, sender_clone,
};

verus! {

/// How long a pairing code stays valid, in milliseconds.
pub const PAIRING_TTL_MS: u64 = 120_000;

/// How many events a pairing channel buffers.
pub const CHANNEL_CAPACITY: usize = 16;

/// The state of one pairing.
#[derive(Debug, Clone, Copy, PartialEq, Eq, Structural)]
pub enum PairingStatusKind {
    Pending,
    Paired,
    Expired,
}

/// A pairing request as stored; times are milliseconds of a monotonic clock.
#[derive(Debug, Clone)]
pub struct PairingRequest {
    pub pairing_code: String,
    pub session_id: String,
    pub created_at: u64,
    pub expires_at: u64,
    pub status: PairingStatusKind,
}

/// The mathematical value of a [`PairingRequest`].
pub struct PairingRequestView {
    pub pairing_code: Seq<char>,
    pub session_id: Seq<char>,
    pub created_at: u64,
    pub expires_at: u64,
    pub status: PairingStatusKind,
}

impl View for PairingRequest {
    type V = PairingRequestView;

    open spec fn view(&self) -> PairingRequestView {
        PairingRequestView {
            pairing_code: self.pairing_code@,
            session_id: self.session_id@,
            created_at: self.created_at,
            expires_at: self.expires_at,
            status: self.status,
        }
    }
}

/// What the waiting browser is told about a pairing.
#[derive(Debug, Clone)]
pub enum PairingEvent {
    Pending,
    Paired { session_id: String, rpc_endpoint: String },
    Expired,
}

/// The mathematical value of a [`PairingEvent`].
pub enum PairingEventView {
    Pending,
    Paired { session_id: Seq<char>, rpc_endpoint: Seq<char> },
    Expired,
}

impl View for PairingEvent {
    type V = PairingEventView;

    open spec fn view(&self) -> PairingEventView {
        match self {
            PairingEvent::Pending => PairingEventView::Pending,
            PairingEvent::Paired { session_id, rpc_endpoint } => PairingEventView::Paired {
                session_id: session_id@,
                rpc_endpoint: rpc_endpoint@,
            },
            PairingEvent::Expired => PairingEventView::Expired,
        }
    }
}

/// Answer to a request for a new pairing.
#[derive(Debug, Clone)]
pub struct StartPairingResponse {
    pub pairing_code: String,
    pub qr_data: String,
    pub session_id: String,
}

/// Answer to a status query.
#[derive(Debug, Clone)]
pub struct PairingStatusResponse {
    pub status: PairingStatusKind,
    pub session_id: Option<String>,
    pub rpc_endpoint: Option<String>,
}

/// The mathematical value of a [`PairingStatusResponse`].
pub struct PairingStatusView {
    pub status: PairingStatusKind,
    pub session_id: Option<Seq<char>>,
    pub rpc_endpoint: Option<Seq<char>>,
}

pub open spec fn opt_view(o: Option<String>) -> Option<Seq<char>> {
    match o {
        Some(s) => Some(s@),
        None => None,
    }
}

impl View for PairingStatusResponse {
    type V = PairingStatusView;

    open spec fn view(&self) -> PairingStatusView {
        PairingStatusView {
            status: self.status,
            session_id: opt_view(self.session_id),
            rpc_endpoint: opt_view(self.rpc_endpoint),
        }
    }
}

/// A phone's request to complete a pairing.
#[derive(Debug, Clone)]
pub struct CompletePairRequest {
    pub pairing_code: String,
    pub device_id: String,
}

/// Answer to a completed pairing.
#[derive(Debug, Clone)]
pub struct CompletePairResponse {
    pub ok: bool,
    pub session_id: String,
    pub rpc_endpoint: String,
}

/// Why a pairing could not be completed.
#[derive(Debug, Clone, Copy, PartialEq, Eq, Structural)]
pub enum PairingError {
    /// The code was known but its time had run out; it is now forgotten.
    Expired,
    /// No pairing is pending under that code.
    NotFound,
}

impl PairingError {
    /// The error word sent to the client.
    pub fn error_code(&self) -> (s: &'static str)
        ensures
            *self == PairingError::Expired ==> s@ == "pairing_expired"@,
            *self == PairingError::NotFound ==> s@ == "pairing_not_found"@,
    {
        match self {
            PairingError::Expired => "pairing_expired",
            PairingError::NotFound => "pairing_not_found",
        }
    }
}

/// How a status query found its code (for the server's log).
#[derive(Debug, Clone, Copy, PartialEq, Eq, Structural)]
pub enum LookupOutcome {
    /// The pairing is known and still within its time.
    Live,
    /// The pairing was known but had expired; it has been forgotten.
    Expired,
    /// No pairing is known under the code.
    NotFound,
}

/// The RPC endpoint of a session.
pub open spec fn rpc_endpoint_of(session_id: Seq<char>) -> Seq<char> {
    "http://localhost:3000/rpc/"@ + session_id
}

/// The QR payload of a pairing code.
pub open spec fn qr_data_of(code: Seq<char>) -> Seq<char> {
    "PAIR:"@ + code
}

/// The event that describes a stored request.
pub open spec fn event_of(r: PairingRequestView) -> PairingEventView {
    match r.status {
        PairingStatusKind::Pending => PairingEventView::Pending,
        PairingStatusKind::Paired => PairingEventView::Paired {
            session_id: r.session_id,
            rpc_endpoint: rpc_endpoint_of(r.session_id),
        },
        PairingStatusKind::Expired => PairingEventView::Expired,
    }
}

/// The request that a new pairing stores.
pub open spec fn fresh_request(code: Seq<char>, session_id: Seq<char>, now: u64) -> PairingRequestView {
    PairingRequestView {
        pairing_code: code,
        session_id,
        created_at: now,
        expires_at: (now + PAIRING_TTL_MS) as u64,
        status: PairingStatusKind::Pending,
    }
}

/// A stored pairing has run out of time at `now`.
pub open spec fn is_expired(r: PairingRequestView, now: u64) -> bool {
    now >= r.expires_at
}

/// The pending table after a status query.
pub open spec fn status_table(m: Map<Seq<char>, PairingRequestView>, code: Seq<char>, now: u64) -> Map<
    Seq<char>,
    PairingRequestView,
> {
    if m.contains_key(code) && is_expired(m[code], now) {
        m.remove(code)
    } else {
        m
    }
}

/// The answer to a status query.
pub open spec fn status_answer(m: Map<Seq<char>, PairingRequestView>, code: Seq<char>, now: u64) -> PairingStatusView {
    let expired = PairingStatusView { status: PairingStatusKind::Expired, session_id: None, rpc_endpoint: None };
    if !m.contains_key(code) || is_expired(m[code], now) {
        expired
    } else {
        let r = m[code];
        match r.status {
            PairingStatusKind::Pending => PairingStatusView {
                status: PairingStatusKind::Pending,
                session_id: None,
                rpc_endpoint: None,
            },
            PairingStatusKind::Paired => PairingStatusView {
                status: PairingStatusKind::Paired,
                session_id: Some(r.session_id),
                rpc_endpoint: Some(rpc_endpoint_of(r.session_id)),
            },
            PairingStatusKind::Expired => expired,
        }
    }
}

/// How a status query finds its code.
pub open spec fn status_outcome(m: Map<Seq<char>, PairingRequestView>, code: Seq<char>, now: u64) -> LookupOutcome {
    if !m.contains_key(code) {
        LookupOutcome::NotFound
    } else if is_expired(m[code], now) {
        LookupOutcome::Expired
    } else {
        LookupOutcome::Live
    }
}

/// The pending table after an attempt to complete a pairing.
pub open spec fn complete_table(m: Map<Seq<char>, PairingRequestView>, code: Seq<char>, now: u64) -> Map<
    Seq<char>,
    PairingRequestView,
> {
    if !m.contains_key(code) {
        m
    } else if is_expired(m[code], now) {
        m.remove(code)
    } else {
        m.insert(code, PairingRequestView { status: PairingStatusKind::Paired, ..m[code] })
    }
}

/// The outcome of an attempt to complete a pairing: the session id on success.
pub open spec fn complete_answer(m: Map<Seq<char>, PairingRequestView>, code: Seq<char>, now: u64) -> Result<
    Seq<char>,
    PairingError,
> {
    if !m.contains_key(code) {
        Err(PairingError::NotFound)
    } else if is_expired(m[code], now) {
        Err(PairingError::Expired)
    } else {
        Ok(m[code].session_id)
    }
}

/// Some completed pairing carries this session id.
pub open spec fn session_known(m: Map<Seq<char>, PairingRequestView>, session_id: Seq<char>) -> bool {
    exists|k: Seq<char>|
        #[trigger] m.contains_key(k) && m[k].session_id == session_id && m[k].status
            == PairingStatusKind::Paired
}

/// `v` is stored in the table under some code.
pub open spec fn stored_in(m: Map<Seq<char>, PairingRequestView>, v: PairingRequestView) -> bool {
    exists|k: Seq<char>| #[trigger] m.contains_key(k) && m[k] == v
}

/// The values of a list of requests.
pub open spec fn request_views(r: Seq<PairingRequest>) -> Seq<PairingRequestView> {
    r.map_values(|q: PairingRequest| q@)
}

/// A table with no pairing in it.
pub open spec fn empty_table() -> Map<Seq<char>, PairingRequestView> {
    Map::empty()
}

/// Every pending request is stored under its own code.
pub open spec fn table_wf(m: Map<Seq<char>, PairingRequestView>) -> bool {
    forall|k: Seq<char>| #[trigger] m.contains_key(k) ==> m[k].pairing_code == k
}

/// A table with no channel in it.
pub open spec fn no_channels() -> Map<Seq<char>, Sender<PairingEvent>> {
    Map::empty()
}

/// The value of an optional event.
pub open spec fn event_view(ev: Option<PairingEvent>) -> Option<PairingEventView> {
    match ev {
        Some(e) => Some(e@),
        None => None,
    }
}

/// The event a status query publishes: `Expired` for a pairing that has run
/// out of time, none otherwise.
pub open spec fn status_event(m: Map<Seq<char>, PairingRequestView>, code: Seq<char>, now: u64) -> Option<
    PairingEventView,
> {
    if m.contains_key(code) && is_expired(m[code], now) {
        Some(PairingEventView::Expired)
    } else {
        None
    }
}

/// The event an attempt to complete a pairing publishes: none for an
/// unknown code, `Expired` for one that has run out of time, else `Paired`
/// with the session and its endpoint.
pub open spec fn complete_event(m: Map<Seq<char>, PairingRequestView>, code: Seq<char>, now: u64) -> Option<
    PairingEventView,
> {
    if !m.contains_key(code) {
        None
    } else if is_expired(m[code], now) {
        Some(PairingEventView::Expired)
    } else {
        Some(
            PairingEventView::Paired {
                session_id: m[code].session_id,
                rpc_endpoint: rpc_endpoint_of(m[code].session_id),
            },
        )
    }
}

/// The channel table `after` is `before` with the channel of `code`
/// created if it was missing; every existing channel is kept.
pub open spec fn opens_channel(
    before: Map<Seq<char>, Sender<PairingEvent>>,
    after: Map<Seq<char>, Sender<PairingEvent>>,
    code: Seq<char>,
) -> bool {
    &&& after.dom() == before.dom().insert(code)
    &&& forall|k: Seq<char>| #[trigger] before.contains_key(k) ==> after[k] == before[k]
}

/// How long a pairing socket waits for the next event, in seconds.
pub const WS_IDLE_TIMEOUT_SECS: u64 = 180;

/// What a pairing socket's forwarding loop has just observed.
#[derive(Debug, Clone)]
pub enum WsInput {
    /// An event arrived on the pairing's channel.
    Event(PairingEvent),
    /// The listener fell behind and events were lost.
    Lagged,
    /// The channel was closed.
    Closed,
    /// No event came within the idle timeout.
    IdleTimeout,
    /// Sending to the socket failed.
    SendFailed,
}

/// What the forwarding loop does next.
#[derive(Debug, Clone)]
pub enum WsAction {
    /// Send this event to the socket, then wait for the next input.
    Send(PairingEvent),
    /// Close the socket.
    Stop,
}

/// One step of a pairing socket: an arrived event is forwarded, anything
/// else ends the connection.
pub fn ws_step(input: WsInput) -> (a: WsAction)
    ensures
        match input {
            WsInput::Event(e) => a matches WsAction::Send(e2) && e2@ == e@,
            _ => a is Stop,
        },
{
    match input {
        WsInput::Event(e) => WsAction::Send(e),
        _ => WsAction::Stop,
    }
}

/// Shared state of the pairing endpoints.
pub struct PairingState {
    /// Pairing code to request.
    pub pending: DashMap<String, PairingRequest>,
    /// Pairing code to the channel that its listeners subscribe to.
    pub channels: DashMap<String, Sender<PairingEvent>>,
}

/// The RPC endpoint of a session.
pub fn rpc_endpoint(session_id: &str) -> (s: String)
    ensures
        s@ == rpc_endpoint_of(session_id@),
{
    let mut s = String::from_str("http://localhost:3000/rpc/");
    s.append(session_id);
    s
}

/// The event that describes a stored request.
pub fn to_event(req: &PairingRequest) -> (ev: PairingEvent)
    ensures
        ev@ == event_of(req@),
{
    match req.status {
        PairingStatusKind::Pending => PairingEvent::Pending,
        PairingStatusKind::Paired => PairingEvent::Paired {
            session_id: req.session_id.clone(),
            rpc_endpoint: rpc_endpoint(req.session_id.as_str()),
        },
        PairingStatusKind::Expired => PairingEvent::Expired,
    }
}

/// A lower-case hexadecimal digit.
pub open spec fn is_lower_hex(c: char) -> bool {
    ('0' <= c <= '9') || ('a' <= c <= 'f')
}

/// The hyphenated lower-case text of a version-4 UUID: groups of 8, 4, 4,
/// 4 and 12 hex digits joined by `-`, the version digit `4` first in the
/// third group and the variant digit (`8`, `9`, `a` or `b`) first in the
/// fourth.
pub open spec fn is_uuid_v4_text(s: Seq<char>) -> bool {
    &&& s.len() == 36
    &&& forall|i: int|
        0 <= i < 36 ==> if i == 8 || i == 13 || i == 18 || i == 23 {
            s[i] == '-'
        } else {
            is_lower_hex(#[trigger] s[i])
        }
    &&& s[14] == '4'
    &&& (s[19] == '8' || s[19] == '9' || s[19] == 'a' || s[19] == 'b')
}

/// A fresh session id: `uuid::Uuid::new_v4()` in its text form, which
/// `Display` writes hyphenated in lower case; `new_v4` sets the version and
/// variant bits. The other digits are random.
#[verifier::external_body]
fn new_session_id() -> (s: String)
    ensures
        is_uuid_v4_text(s@),
{
    uuid::Uuid::new_v4().to_string()
}

impl PairingState {
    pub open spec fn table(&self) -> Map<Seq<char>, PairingRequestView> {
        pending_contents(self.pending)
    }

    pub open spec fn wf(&self) -> bool {
        table_wf(self.table())
    }

    /// Pairing code to the sending handle of its channel.
    pub open spec fn channels_of(&self) -> Map<Seq<char>, Sender<PairingEvent>> {
        channel_table(self.channels)
    }

    /// An empty state.
    pub fn new() -> (s: Self)
        ensures
            s.table() == empty_table(),
            s.channels_of() == no_channels(),
            s.wf(),
    {
        PairingState { pending: pending_new(), channels: channels_new() }
    }

    /// The channel of `code`, created on first use: the sender returned is
    /// the one stored for `code`.
    pub fn channel_for(&mut self, code: &str) -> (tx: Sender<PairingEvent>)
        ensures
            final(self).channels_of() == old(self).channels_of().insert(code@, tx),
            old(self).channels_of().contains_key(code@) ==> tx == old(self).channels_of()[code@],
            opens_channel(old(self).channels_of(), final(self).channels_of(), code@),
            final(self).pending == old(self).pending,
            !old(self).channels_of().contains_key(code@) ==> sender_capacity(tx) == CHANNEL_CAPACITY,
    {
        match channel_get(&self.channels, code) {
            Some(tx) => {
                proof {
                    assert(self.channels_of().insert(code@, tx) =~= self.channels_of());
                }
                tx
            },
            None => {
                let tx = broadcast_sender(CHANNEL_CAPACITY);
                let kept = sender_clone(&tx);
                channel_insert(&mut self.channels, String::from_str(code), kept);
                tx
            },
        }
    }

    /// Stores a new pending pairing under `pairing_code`; the event to
    /// announce on its channel is `Pending`.
    pub fn start_pairing_with(&mut self, pairing_code: String, session_id: String, now_ms: u64) -> (r: (
        StartPairingResponse,
        PairingEvent,
    ))
        requires
            now_ms <= u64::MAX - PAIRING_TTL_MS,
        ensures
            final(self).table() == old(self).table().insert(
                pairing_code@,
                fresh_request(pairing_code@, session_id@, now_ms),
            ),
            final(self).channels_of() == old(self).channels_of(),
            r.0.pairing_code@ == pairing_code@,
            r.0.session_id@ == session_id@,
            r.0.qr_data@ == qr_data_of(pairing_code@),
            r.1@ == PairingEventView::Pending,
            old(self).wf() ==> final(self).wf(),
    {
        let req = PairingRequest {
            pairing_code: pairing_code.clone(),
            session_id: session_id.clone(),
            created_at: now_ms,
            expires_at: now_ms + PAIRING_TTL_MS,
            status: PairingStatusKind::Pending,
        };
        pending_insert(&mut self.pending, pairing_code.clone(), req);
        let mut qr_data = String::from_str("PAIR:");
        qr_data.append(pairing_code.as_str());
        (StartPairingResponse { pairing_code, qr_data, session_id }, PairingEvent::Pending)
    }

    /// Starts a pairing under a fresh random code and session id; the event
    /// to announce on its channel is `Pending`.
    pub fn begin_pairing(&mut self, now_ms: u64) -> (r: (StartPairingResponse, PairingEvent))
        requires
            now_ms <= u64::MAX - PAIRING_TTL_MS,
        ensures
            r.0.pairing_code@.len() == CODE_LEN,
            forall|i: int| 0 <= i < r.0.pairing_code@.len() ==> is_base36_char(#[trigger] r.0.pairing_code@[i]),
            is_uuid_v4_text(r.0.session_id@),
            final(self).table() == old(self).table().insert(
                r.0.pairing_code@,
                fresh_request(r.0.pairing_code@, r.0.session_id@, now_ms),
            ),
            r.0.qr_data@ == qr_data_of(r.0.pairing_code@),
            final(self).channels_of() == old(self).channels_of(),
            r.1@ == PairingEventView::Pending,
            old(self).wf() ==> final(self).wf(),
    {
        let code = short_code();
        let session_id = new_session_id();
        self.start_pairing_with(code, session_id, now_ms)
    }

    /// Answers a status query at time `now_ms`; an expired pairing is
    /// forgotten, and the event to announce on its channel is `Expired`
    /// (no event otherwise).
    pub fn status_of(&mut self, code: &str, now_ms: u64) -> (r: (
        PairingStatusResponse,
        LookupOutcome,
        Option<PairingEvent>,
    ))
        ensures
            final(self).table() == status_table(old(self).table(), code@, now_ms),
            r.0@ == status_answer(old(self).table(), code@, now_ms),
            r.1 == status_outcome(old(self).table(), code@, now_ms),
            event_view(r.2) == status_event(old(self).table(), code@, now_ms),
            final(self).channels_of() == old(self).channels_of(),
            old(self).wf() ==> final(self).wf(),
    {
        let expired = PairingStatusResponse {
            status: PairingStatusKind::Expired,
            session_id: None,
            rpc_endpoint: None,
        };
        match pending_get(&self.pending, code) {
            None => (expired, LookupOutcome::NotFound, None),
            Some(req) => {
                if now_ms >= req.expires_at {
                    pending_remove(&mut self.pending, code);
                    (expired, LookupOutcome::Expired, Some(PairingEvent::Expired))
                } else {
                    let resp = match req.status {
                        PairingStatusKind::Pending => PairingStatusResponse {
                            status: PairingStatusKind::Pending,
                            session_id: None,
                            rpc_endpoint: None,
                        },
                        PairingStatusKind::Paired => PairingStatusResponse {
                            status: PairingStatusKind::Paired,
                            session_id: Some(req.session_id.clone()),
                            rpc_endpoint: Some(rpc_endpoint(req.session_id.as_str())),
                        },
                        PairingStatusKind::Expired => expired,
                    };
                    (resp, LookupOutcome::Live, None)
                }
            },
        }
    }

    /// Completes the pairing under `code` at time `now_ms`. The event to
    /// announce on the code's channel is `Paired` with the session and its
    /// endpoint on success, `Expired` for an expired pairing, and none for
    /// an unknown code.
    pub fn complete_pairing(&mut self, code: &str, now_ms: u64) -> (r: (
        Result<CompletePairResponse, PairingError>,
        Option<PairingEvent>,
    ))
        ensures
            final(self).table() == complete_table(old(self).table(), code@, now_ms),
            match complete_answer(old(self).table(), code@, now_ms) {
                Ok(sid) => r.0 matches Ok(resp) && resp.ok && resp.session_id@ == sid && resp.rpc_endpoint@
                    == rpc_endpoint_of(sid),
                Err(e) => r.0 matches Err(e2) && e2 == e,
            },
            event_view(r.1) == complete_event(old(self).table(), code@, now_ms),
            final(self).channels_of() == old(self).channels_of(),
            old(self).wf() ==> final(self).wf(),
    {
        match pending_get(&self.pending, code) {
            None => (Err(PairingError::NotFound), None),
            Some(req) => {
                if now_ms >= req.expires_at {
                    pending_remove(&mut self.pending, code);
                    (Err(PairingError::Expired), Some(PairingEvent::Expired))
                } else {
                    let session_id = req.session_id.clone();
                    let updated = PairingRequest { status: PairingStatusKind::Paired, ..req };
                    pending_insert(&mut self.pending, String::from_str(code), updated);
                    let rpc_endpoint = rpc_endpoint(session_id.as_str());
                    let ev = PairingEvent::Paired { session_id: session_id.clone(), rpc_endpoint: rpc_endpoint.clone() };
                    (Ok(CompletePairResponse { ok: true, session_id, rpc_endpoint }), Some(ev))
                }
            },
        }
    }

    /// Sends `ev`, if any, on the channel of `code`, creating the channel on
    /// first use.
    pub fn announce(&mut self, code: &str, ev: Option<PairingEvent>)
        ensures
            final(self).pending == old(self).pending,
            match ev {
                Some(_) => opens_channel(old(self).channels_of(), final(self).channels_of(), code@),
                None => final(self).channels_of() == old(self).channels_of(),
            },
    {
        match ev {
            Some(e) => {
                let tx = self.channel_for(code);
                publish(&tx, e);
            },
            None => {},
        }
    }

    /// The first event a listener of `code` is sent: the request's own event,
    /// or `Expired` when no pairing is known under the code.
    pub fn initial_event(&self, code: &str) -> (ev: PairingEvent)
        ensures
            ev@ == (if self.table().contains_key(code@) {
                event_of(self.table()[code@])
            } else {
                PairingEventView::Expired
            }),
    {
        match pending_get(&self.pending, code) {
            Some(req) => to_event(&req),
            None => PairingEvent::Expired,
        }
    }

    /// Whether some completed pairing carries `session_id`.
    pub fn has_session(&self, session_id: &str) -> (b: bool)
        ensures
            b == session_known(self.table(), session_id@),
    {
        let all = pending_values(&self.pending);
        let sid = String::from_str(session_id);
        let mut i: usize = 0;
        while i < all.len()
            invariant
                0 <= i <= all.len(),
                sid@ == session_id@,
                forall|j: int|
                    0 <= j < i ==> !(#[trigger] all[j]@.session_id == session_id@ && all[j]@.status
                        == PairingStatusKind::Paired),
                forall|j: int| 0 <= j < all.len() ==> stored_in(self.table(), #[trigger] all[j]@),
            decreases all.len() - i,
        {
            let req = &all[i];
            let paired = match req.status {
                PairingStatusKind::Paired => true,
                _ => false,
            };
            if paired && req.session_id == sid {
                proof {
                    assert(stored_in(self.table(), all[i as int]@));
                    let k = choose|k: Seq<char>| #[trigger] self.table().contains_key(k) && self.table()[k] == all[i as int]@;
                    assert(self.table().contains_key(k));
                }
                return true;
            }
            i = i + 1;
        }
        proof {
            if session_known(self.table(), session_id@) {
                let k = choose|k: Seq<char>|
                    #[trigger] self.table().contains_key(k) && self.table()[k].session_id == session_id@
                        && self.table()[k].status == PairingStatusKind::Paired;
                assert(request_views(all@).contains(self.table()[k]));
                let j = choose|j: int| 0 <= j < request_views(all@).len() && request_views(all@)[j] == self.table()[k];
                assert(all[j]@ == request_views(all@)[j]);
                assert(all[j]@.session_id == session_id@);
            }
        }
        false
    }
}

} // verus!
