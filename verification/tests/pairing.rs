use rpc_interceptor::pairing::{
    ws_step, WsAction, WsInput, WS_IDLE_TIMEOUT_SECS,
    rpc_endpoint, to_event, LookupOutcome, PairingError, PairingEvent, PairingRequest, PairingState,
    PairingStatusKind, PAIRING_TTL_MS,
};

fn started(code: &str, sid: &str, now: u64) -> PairingState {
    let mut st = PairingState::new();
    let (r, _) = st.start_pairing_with(code.to_string(), sid.to_string(), now);
    assert_eq!(r.pairing_code, code);
    assert_eq!(r.session_id, sid);
    assert_eq!(r.qr_data, format!("PAIR:{}", code));
    st
}

#[test]
fn fresh_pairing_is_pending() {
    let mut st = started("abc123", "sess-1", 1_000);
    let (resp, outcome, _) = st.status_of("abc123", 1_000 + PAIRING_TTL_MS - 1);
    assert_eq!(resp.status, PairingStatusKind::Pending);
    assert!(resp.session_id.is_none());
    assert!(resp.rpc_endpoint.is_none());
    assert_eq!(outcome, LookupOutcome::Live);
    // the query did not forget it
    assert_eq!(st.status_of("abc123", 1_000).1, LookupOutcome::Live);
}

#[test]
fn completing_pairs_and_reports_endpoint() {
    let mut st = started("abc123", "sess-1", 1_000);
    let done = st.complete_pairing("abc123", 2_000).0.unwrap();
    assert!(done.ok);
    assert_eq!(done.session_id, "sess-1");
    assert_eq!(done.rpc_endpoint, "http://localhost:3000/rpc/sess-1");
    let (resp, outcome, _) = st.status_of("abc123", 3_000);
    assert_eq!(resp.status, PairingStatusKind::Paired);
    assert_eq!(resp.session_id.as_deref(), Some("sess-1"));
    assert_eq!(resp.rpc_endpoint.as_deref(), Some("http://localhost:3000/rpc/sess-1"));
    assert_eq!(outcome, LookupOutcome::Live);
    assert!(st.has_session("sess-1"));
    assert!(!st.has_session("sess-2"));
}

#[test]
fn completing_twice_gives_same_session() {
    let mut st = started("abc123", "sess-1", 0);
    let a = st.complete_pairing("abc123", 10).0.unwrap();
    let b = st.complete_pairing("abc123", 20).0.unwrap();
    assert_eq!(a.session_id, b.session_id);
}

#[test]
fn pending_session_is_not_yet_known() {
    let st = started("abc123", "sess-1", 0);
    assert!(!st.has_session("sess-1"));
}

#[test]
fn expired_pairing_is_reported_and_forgotten() {
    let mut st = started("abc123", "sess-1", 1_000);
    let (resp, outcome, _) = st.status_of("abc123", 1_000 + PAIRING_TTL_MS);
    assert_eq!(resp.status, PairingStatusKind::Expired);
    assert_eq!(outcome, LookupOutcome::Expired);
    let (resp2, outcome2, _) = st.status_of("abc123", 1_000 + PAIRING_TTL_MS);
    assert_eq!(resp2.status, PairingStatusKind::Expired);
    assert_eq!(outcome2, LookupOutcome::NotFound);
    let err = st.complete_pairing("abc123", 1_000).0.unwrap_err();
    assert_eq!(err, PairingError::NotFound);
}

#[test]
fn completing_an_expired_pairing_fails() {
    let mut st = started("abc123", "sess-1", 0);
    let err = st.complete_pairing("abc123", PAIRING_TTL_MS).0.unwrap_err();
    assert_eq!(err, PairingError::Expired);
    assert_eq!(err.error_code(), "pairing_expired");
    assert_eq!(st.complete_pairing("abc123", 0).0.unwrap_err(), PairingError::NotFound);
    assert_eq!(PairingError::NotFound.error_code(), "pairing_not_found");
}

#[test]
fn unknown_code_is_expired_and_not_found() {
    let mut st = PairingState::new();
    let (resp, outcome, _) = st.status_of("nope", 0);
    assert_eq!(resp.status, PairingStatusKind::Expired);
    assert_eq!(outcome, LookupOutcome::NotFound);
    assert_eq!(st.complete_pairing("nope", 0).0.unwrap_err(), PairingError::NotFound);
}

#[test]
fn paired_pairing_expires_too() {
    let mut st = started("abc123", "sess-1", 0);
    st.complete_pairing("abc123", 1).0.unwrap();
    let (resp, outcome, _) = st.status_of("abc123", PAIRING_TTL_MS);
    assert_eq!(resp.status, PairingStatusKind::Expired);
    assert_eq!(outcome, LookupOutcome::Expired);
    assert!(!st.has_session("sess-1"));
}

#[test]
fn other_codes_are_untouched() {
    let mut st = started("aaaaaa", "s1", 0);
    st.start_pairing_with("bbbbbb".to_string(), "s2".to_string(), 500_000);
    st.status_of("aaaaaa", 500_000);
    assert_eq!(st.status_of("bbbbbb", 500_001).0.status, PairingStatusKind::Pending);
}

#[test]
fn initial_event_follows_the_request() {
    let mut st = started("abc123", "sess-1", 0);
    assert!(matches!(st.initial_event("abc123"), PairingEvent::Pending));
    assert!(matches!(st.initial_event("zzz"), PairingEvent::Expired));
    st.complete_pairing("abc123", 1).0.unwrap();
    match st.initial_event("abc123") {
        PairingEvent::Paired { session_id, rpc_endpoint } => {
            assert_eq!(session_id, "sess-1");
            assert_eq!(rpc_endpoint, "http://localhost:3000/rpc/sess-1");
        }
        _ => panic!("expected paired"),
    }
}

#[test]
fn to_event_maps_each_status() {
    let mut req = PairingRequest {
        pairing_code: "c".to_string(),
        session_id: "s".to_string(),
        created_at: 0,
        expires_at: 1,
        status: PairingStatusKind::Pending,
    };
    assert!(matches!(to_event(&req), PairingEvent::Pending));
    req.status = PairingStatusKind::Expired;
    assert!(matches!(to_event(&req), PairingEvent::Expired));
    req.status = PairingStatusKind::Paired;
    match to_event(&req) {
        PairingEvent::Paired { session_id, rpc_endpoint } => {
            assert_eq!(session_id, "s");
            assert_eq!(rpc_endpoint, "http://localhost:3000/rpc/s");
        }
        _ => panic!("expected paired"),
    }
}

#[test]
fn rpc_endpoint_appends_session() {
    assert_eq!(rpc_endpoint("x-y"), "http://localhost:3000/rpc/x-y");
    assert_eq!(rpc_endpoint(""), "http://localhost:3000/rpc/");
}

#[test]
fn begin_pairing_issues_code_and_session() {
    let mut st = PairingState::new();
    let (r, _) = st.begin_pairing(5);
    assert_eq!(r.pairing_code.chars().count(), 6);
    assert_eq!(r.session_id.len(), 36);
    assert_eq!(r.qr_data, format!("PAIR:{}", r.pairing_code));
    let (resp, _, _) = st.status_of(&r.pairing_code, 6);
    assert_eq!(resp.status, PairingStatusKind::Pending);
    let done = st.complete_pairing(&r.pairing_code, 7).0.unwrap();
    assert_eq!(done.session_id, r.session_id);
}

#[test]
fn channel_is_shared_per_code() {
    let mut st = PairingState::new();
    let tx = st.channel_for("abc");
    let mut rx = tx.subscribe();
    let (_, ev) = st.start_pairing_with("abc".to_string(), "s".to_string(), 0);
    assert!(matches!(ev, PairingEvent::Pending));
    st.announce("abc", Some(ev));
    assert!(matches!(rx.try_recv().unwrap(), PairingEvent::Pending));
    let (r, ev) = st.complete_pairing("abc", 1);
    r.unwrap();
    st.announce("abc", ev);
    match rx.try_recv().unwrap() {
        PairingEvent::Paired { session_id, .. } => assert_eq!(session_id, "s"),
        _ => panic!("expected paired event"),
    }
}

#[test]
fn completing_announces_paired_on_the_code_channel() {
    let mut st = started("abc123", "s1", 1_000);
    let mut rx = st.channel_for("abc123").subscribe();
    let (r, ev) = st.complete_pairing("abc123", 2_000);
    assert_eq!(r.unwrap().rpc_endpoint, "http://localhost:3000/rpc/s1");
    st.announce("abc123", ev);
    match rx.try_recv().unwrap() {
        PairingEvent::Paired { session_id, rpc_endpoint } => {
            assert_eq!(session_id, "s1");
            assert_eq!(rpc_endpoint, "http://localhost:3000/rpc/s1");
        },
        other => panic!("unexpected event {:?}", other),
    }
    assert!(rx.try_recv().is_err());
}

#[test]
fn expiry_is_announced_and_live_queries_are_silent() {
    let mut st = started("abc123", "s1", 1_000);
    let mut rx = st.channel_for("abc123").subscribe();
    let (_, _, ev) = st.status_of("abc123", 2_000);
    assert!(ev.is_none());
    let (_, _, ev) = st.status_of("abc123", 1_000 + PAIRING_TTL_MS);
    st.announce("abc123", ev);
    assert!(matches!(rx.try_recv().unwrap(), PairingEvent::Expired));
    let (r, ev) = st.complete_pairing("abc123", 1_000 + PAIRING_TTL_MS);
    assert!(matches!(r, Err(PairingError::NotFound)));
    assert!(ev.is_none());
    st.announce("abc123", ev);
    assert!(rx.try_recv().is_err());
}

#[test]
fn expired_completion_announces_expired() {
    let mut st = started("abc123", "s1", 0);
    let (r, ev) = st.complete_pairing("abc123", PAIRING_TTL_MS);
    assert!(matches!(r, Err(PairingError::Expired)));
    assert!(matches!(ev, Some(PairingEvent::Expired)));
}

#[test]
fn session_id_is_hyphenated_v4_text() {
    let mut st = PairingState::new();
    let (r, _) = st.begin_pairing(0);
    let sid: Vec<char> = r.session_id.chars().collect();
    assert_eq!(sid.len(), 36);
    for (i, c) in sid.iter().enumerate() {
        if i == 8 || i == 13 || i == 18 || i == 23 {
            assert_eq!(*c, '-');
        } else {
            assert!(c.is_ascii_digit() || ('a'..='f').contains(c));
        }
    }
    assert_eq!(sid[14], '4');
    assert!(matches!(sid[19], '8' | '9' | 'a' | 'b'));
}

#[test]
fn socket_forwards_events_and_stops_otherwise() {
    assert!(matches!(ws_step(WsInput::Event(PairingEvent::Expired)), WsAction::Send(PairingEvent::Expired)));
    assert!(matches!(ws_step(WsInput::Lagged), WsAction::Stop));
    assert!(matches!(ws_step(WsInput::Closed), WsAction::Stop));
    assert!(matches!(ws_step(WsInput::IdleTimeout), WsAction::Stop));
    assert!(matches!(ws_step(WsInput::SendFailed), WsAction::Stop));
    assert_eq!(WS_IDLE_TIMEOUT_SECS, 180);
}
