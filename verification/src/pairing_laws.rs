//! Properties of the pairing flow that span several operations.
use vstd::prelude::*;
use crate::pairing::{
    complete_answer, complete_event, complete_table, event_of, status_event, fresh_request, rpc_endpoint_of, session_known, status_answer,
    status_outcome, status_table, table_wf, LookupOutcome, PairingError, PairingEventView, PairingRequestView,
    PairingStatusKind, PairingStatusView, PAIRING_TTL_MS,
};

verus! {

/// A fresh pairing, asked about before its time runs out, is reported
/// pending, and the query changes nothing.
pub proof fn lemma_status_after_start(
    m: Map<Seq<char>, PairingRequestView>,
    code: Seq<char>,
    session_id: Seq<char>,
    now: u64,
    t: u64,
)
    requires
        now <= u64::MAX - PAIRING_TTL_MS,
        t < now + PAIRING_TTL_MS,
    ensures
        ({
            let m2 = m.insert(code, fresh_request(code, session_id, now));
            &&& status_answer(m2, code, t) == PairingStatusView {
                status: PairingStatusKind::Pending,
                session_id: None,
                rpc_endpoint: None,
            }
            &&& status_outcome(m2, code, t) == LookupOutcome::Live
            &&& status_table(m2, code, t) == m2
            &&& status_event(m2, code, t) is None
        }),
{
}

/// A fresh pairing completed before its time runs out succeeds and hands
/// out the session id it was started with.
pub proof fn lemma_complete_after_start(
    m: Map<Seq<char>, PairingRequestView>,
    code: Seq<char>,
    session_id: Seq<char>,
    now: u64,
    t: u64,
)
    requires
        now <= u64::MAX - PAIRING_TTL_MS,
        t < now + PAIRING_TTL_MS,
    ensures
        ({
            let m2 = m.insert(code, fresh_request(code, session_id, now));
            &&& complete_answer(m2, code, t) == Ok::<Seq<char>, PairingError>(session_id)
            &&& complete_table(m2, code, t)[code].status == PairingStatusKind::Paired
            &&& complete_table(m2, code, t)[code].session_id == session_id
            &&& complete_event(m2, code, t) == Some(
                PairingEventView::Paired { session_id, rpc_endpoint: rpc_endpoint_of(session_id) },
            )
        }),
{
}

/// Once completed, a pairing is reported paired, with its session id and
/// RPC endpoint, until its time runs out.
pub proof fn lemma_status_after_complete(m: Map<Seq<char>, PairingRequestView>, code: Seq<char>, t1: u64, t2: u64)
    requires
        m.contains_key(code),
        t1 < m[code].expires_at,
        t2 < m[code].expires_at,
    ensures
        status_answer(complete_table(m, code, t1), code, t2) == (PairingStatusView {
            status: PairingStatusKind::Paired,
            session_id: Some(m[code].session_id),
            rpc_endpoint: Some(rpc_endpoint_of(m[code].session_id)),
        }),
{
}

/// A completed pairing makes its session known to the RPC gate.
pub proof fn lemma_session_after_complete(m: Map<Seq<char>, PairingRequestView>, code: Seq<char>, t: u64)
    requires
        m.contains_key(code),
        t < m[code].expires_at,
    ensures
        session_known(complete_table(m, code, t), m[code].session_id),
{
    let m2 = complete_table(m, code, t);
    assert(m2.contains_key(code));
}

/// Completing an already completed pairing again, in time, gives the same
/// session id, leaves the table as it was, and announces the same `Paired`
/// event once more.
pub proof fn lemma_complete_twice(m: Map<Seq<char>, PairingRequestView>, code: Seq<char>, t1: u64, t2: u64)
    requires
        m.contains_key(code),
        t1 < m[code].expires_at,
        t2 < m[code].expires_at,
    ensures
        complete_answer(complete_table(m, code, t1), code, t2) == complete_answer(m, code, t1),
        complete_table(complete_table(m, code, t1), code, t2) == complete_table(m, code, t1),
        complete_event(complete_table(m, code, t1), code, t2) == complete_event(m, code, t1),
{
}

/// An expired pairing is reported expired and forgotten: afterwards the code
/// is unknown, so completing it reports that no pairing is pending.
pub proof fn lemma_expired_forgotten(m: Map<Seq<char>, PairingRequestView>, code: Seq<char>, t: u64, t2: u64)
    requires
        m.contains_key(code),
        t >= m[code].expires_at,
    ensures
        status_answer(m, code, t).status == PairingStatusKind::Expired,
        status_outcome(m, code, t) == LookupOutcome::Expired,
        !status_table(m, code, t).contains_key(code),
        complete_answer(status_table(m, code, t), code, t2) == Err::<Seq<char>, PairingError>(
            PairingError::NotFound,
        ),
        complete_answer(m, code, t) == Err::<Seq<char>, PairingError>(PairingError::Expired),
        !complete_table(m, code, t).contains_key(code),
        status_event(m, code, t) == Some(PairingEventView::Expired),
        complete_event(m, code, t) == Some(PairingEventView::Expired),
        complete_event(status_table(m, code, t), code, t2) is None,
{
}

/// Asking about a code twice at the same moment gives the same answer.
pub proof fn lemma_status_repeatable(m: Map<Seq<char>, PairingRequestView>, code: Seq<char>, t: u64)
    ensures
        status_answer(status_table(m, code, t), code, t) == status_answer(m, code, t),
        status_table(status_table(m, code, t), code, t) == status_table(m, code, t),
{
}

/// A status query leaves every other code's pairing as it was.
pub proof fn lemma_status_local(m: Map<Seq<char>, PairingRequestView>, code: Seq<char>, other: Seq<char>, t: u64)
    requires
        other != code,
    ensures
        status_table(m, code, t).contains_key(other) == m.contains_key(other),
        m.contains_key(other) ==> status_table(m, code, t)[other] == m[other],
{
}

/// The first event a live listener gets agrees with the status endpoint.
pub proof fn lemma_event_matches_status(m: Map<Seq<char>, PairingRequestView>, code: Seq<char>, t: u64)
    requires
        m.contains_key(code),
        t < m[code].expires_at,
    ensures
        ({
            let st = status_answer(m, code, t);
            match event_of(m[code]) {
                PairingEventView::Pending => st.status == PairingStatusKind::Pending,
                PairingEventView::Paired { session_id, rpc_endpoint } => st.status
                    == PairingStatusKind::Paired && st.session_id == Some(session_id) && st.rpc_endpoint
                    == Some(rpc_endpoint),
                PairingEventView::Expired => st.status == PairingStatusKind::Expired,
            }
        }),
{
}

/// Every operation keeps each pending request stored under its own code.
pub proof fn lemma_operations_keep_wf(
    m: Map<Seq<char>, PairingRequestView>,
    code: Seq<char>,
    session_id: Seq<char>,
    now: u64,
    t: u64,
)
    requires
        table_wf(m),
    ensures
        table_wf(m.insert(code, fresh_request(code, session_id, now))),
        table_wf(status_table(m, code, t)),
        table_wf(complete_table(m, code, t)),
{
}

/// Completing a pairing touches no other code: every other pairing is kept
/// exactly, is still answered as before, and can still be completed as
/// before.
pub proof fn lemma_complete_local(
    m: Map<Seq<char>, PairingRequestView>,
    code: Seq<char>,
    other: Seq<char>,
    t: u64,
    t2: u64,
)
    requires
        other != code,
    ensures
        complete_table(m, code, t).contains_key(other) == m.contains_key(other),
        m.contains_key(other) ==> complete_table(m, code, t)[other] == m[other],
        status_answer(complete_table(m, code, t), other, t2) == status_answer(m, other, t2),
        complete_answer(complete_table(m, code, t), other, t2) == complete_answer(m, other, t2),
        m.contains_key(other) && m[other].status == PairingStatusKind::Paired ==> session_known(
            complete_table(m, code, t),
            m[other].session_id,
        ),
{
    if m.contains_key(other) && m[other].status == PairingStatusKind::Paired {
        assert(complete_table(m, code, t).contains_key(other));
    }
}

/// Completing a live pairing marks it paired and changes nothing else of
/// it: its code, session, creation time and expiry stay as they were.
pub proof fn lemma_complete_marks_paired(m: Map<Seq<char>, PairingRequestView>, code: Seq<char>, t: u64)
    requires
        m.contains_key(code),
        t < m[code].expires_at,
    ensures
        complete_table(m, code, t).contains_key(code),
        complete_table(m, code, t)[code].status == PairingStatusKind::Paired,
        complete_table(m, code, t)[code].pairing_code == m[code].pairing_code,
        complete_table(m, code, t)[code].session_id == m[code].session_id,
        complete_table(m, code, t)[code].created_at == m[code].created_at,
        complete_table(m, code, t)[code].expires_at == m[code].expires_at,
{
}

/// A status query only reads: a stored pairing is never altered, and the
/// queried one is forgotten exactly when its time has run out.
pub proof fn lemma_status_only_reads(
    m: Map<Seq<char>, PairingRequestView>,
    code: Seq<char>,
    k: Seq<char>,
    t: u64,
)
    ensures
        k != code ==> status_table(m, code, t).contains_key(k) == m.contains_key(k),
        status_table(m, code, t).contains_key(code) == (m.contains_key(code) && t < m[code].expires_at),
        status_table(m, code, t).contains_key(k) ==> m.contains_key(k) && status_table(m, code, t)[k] == m[k],
        m.contains_key(code) && t < m[code].expires_at ==> status_table(m, code, t) == m,
{
    if m.contains_key(code) && t < m[code].expires_at {
        assert(status_table(m, code, t) =~= m);
    }
}

/// Polling: a status query at `t1` does not change what a later query at
/// `t2` answers, nor what completing the pairing at `t2` gives.
pub proof fn lemma_status_polling(m: Map<Seq<char>, PairingRequestView>, code: Seq<char>, t1: u64, t2: u64)
    requires
        t1 <= t2,
    ensures
        status_answer(status_table(m, code, t1), code, t2) == status_answer(m, code, t2),
        status_outcome(m, code, t2) == LookupOutcome::Live ==> status_outcome(status_table(m, code, t1), code, t2)
            == LookupOutcome::Live,
        complete_answer(m, code, t2) is Ok ==> complete_answer(status_table(m, code, t1), code, t2) == complete_answer(
            m,
            code,
            t2,
        ),
{
}

/// Completing succeeds exactly for a known pairing whose time has not run
/// out, and then hands out that pairing's session; an unknown code is not
/// found and a late one has expired.
pub proof fn lemma_complete_outcome(m: Map<Seq<char>, PairingRequestView>, code: Seq<char>, t: u64)
    ensures
        complete_answer(m, code, t) is Ok <==> (m.contains_key(code) && t < m[code].expires_at),
        complete_answer(m, code, t) is Ok ==> complete_answer(m, code, t) == Ok::<Seq<char>, PairingError>(
            m[code].session_id,
        ),
        !m.contains_key(code) ==> complete_answer(m, code, t) == Err::<Seq<char>, PairingError>(
            PairingError::NotFound,
        ) && complete_table(m, code, t) == m,
        m.contains_key(code) && t >= m[code].expires_at ==> complete_answer(m, code, t) == Err::<
            Seq<char>,
            PairingError,
        >(PairingError::Expired),
{
}

} // verus!
