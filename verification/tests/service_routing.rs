use soksak_sidecar_terminal_wezterm::checkpoint::{CKPT_CAP, CKPT_IDLE};
use soksak_sidecar_terminal_wezterm::frame::SessionInfo;
use soksak_sidecar_terminal_wezterm::service::{
    cold_paint_reply, ensure_reply, find_session, hello_accepted, judge_hello, next_backoff,
    parse_error_reply, peer_retry_exhausted, plan_read_request, plan_request, rehydrate_reply, resize_reply,
    status_reply, CheckpointStep, ClientHello, ColdPaintSnapshot, EnsureOutcome,
    RehydrateSnapshot, Reply, ReplyData, RequestPlan, ServiceRequest, SessionLedger,
    SessionStatus, TeeEvent,
};

fn hello(version: Option<u64>, token: Option<&str>) -> ClientHello {
    ClientHello { version, token: token.map(String::from) }
}

fn req(op: Option<&str>, window: Option<&str>, pane: Option<&str>) -> ServiceRequest {
    ServiceRequest {
        op: op.map(String::from),
        window: window.map(String::from),
        pane: pane.map(String::from),
        cols: None,
        rows: None,
    }
}

fn refusal(r: &Reply) -> Option<(&str, &str)> {
    match r {
        Reply::Refused { code, message } => Some((code.as_str(), message.as_str())),
        Reply::Accepted(_) => None,
    }
}

fn plan_refusal(p: &RequestPlan) -> Option<(&str, &str)> {
    match p {
        RequestPlan::Refuse { code, message } => Some((code.as_str(), message.as_str())),
        _ => None,
    }
}

#[test]
fn hello_rejects_bad_token_and_version_loudly() {
    assert!(judge_hello(&hello(Some(1), Some("good")), "good").is_ok());
    assert!(judge_hello(&hello(Some(1), Some("bad")), "good").is_err());
    assert!(judge_hello(&hello(Some(999), Some("good")), "good").is_err());
    assert!(judge_hello(&hello(None, Some("good")), "good").is_err());
}

#[test]
fn hello_refusals_name_their_reason() {
    let skew = judge_hello(&hello(Some(999), Some("good")), "good").unwrap_err();
    assert_eq!(
        refusal(&skew),
        Some(("VERSION_SKEW", "service speaks protocol 1, client sent Some(999)"))
    );
    let missing = judge_hello(&hello(None, Some("good")), "good").unwrap_err();
    assert_eq!(
        refusal(&missing),
        Some(("VERSION_SKEW", "service speaks protocol 1, client sent None"))
    );
    let bad = judge_hello(&hello(Some(1), None), "good").unwrap_err();
    assert_eq!(refusal(&bad), Some(("UNAUTHORIZED", "bad token")));
    match hello_accepted() {
        Reply::Accepted(ReplyData::Hello { version }) => assert_eq!(version, 1),
        _ => panic!("hello must be accepted with the protocol version"),
    }
}

#[test]
fn rehydrate_and_cold_paint_on_a_missing_pane_are_not_found() {
    // An empty registry finds no pane, whichever window namespaces it.
    let r = match plan_request(&req(Some("rehydrate"), None, Some("v2"))) {
        RequestPlan::Rehydrate { key } => {
            assert_eq!(key, (None, "v2".to_string()));
            rehydrate_reply(&key.1, None)
        }
        _ => panic!("rehydrate must be routed to the pane"),
    };
    assert_eq!(refusal(&r).map(|x| x.0), Some("NOT_FOUND"));
    let c = match plan_request(&req(Some("coldPaint"), Some("w-1"), Some("v2"))) {
        RequestPlan::ColdPaint { key } => {
            assert_eq!(key, (Some("w-1".to_string()), "v2".to_string()));
            cold_paint_reply(&key.1, None)
        }
        _ => panic!("coldPaint must be routed to the pane"),
    };
    assert_eq!(refusal(&c), Some(("NOT_FOUND", "no live mirror for pane v2")));
}

#[test]
fn status_over_an_empty_registry_reports_zeroed_totals() {
    match status_reply(Vec::new()) {
        Reply::Accepted(ReplyData::Status(data)) => {
            assert_eq!(data.tee_gaps, 0);
            assert_eq!(data.suppressed_replies, 0);
            assert_eq!(data.sessions.len(), 0);
            assert!(data.checkpoint_ages.is_empty());
        }
        _ => panic!("status must be accepted"),
    }
}

fn status(session: u64, suppressed: u64, gaps: u64, age: Option<u64>) -> SessionStatus {
    SessionStatus {
        session,
        window: None,
        pane: format!("v{session}"),
        alt_active: false,
        suppressed_replies: suppressed,
        tee_gaps: gaps,
        consumed_seq: 0,
        checkpoint_age_ms: age,
    }
}

#[test]
fn status_totals_sum_every_session_and_list_present_ages() {
    let sessions = vec![status(1, 2, 1, Some(40)), status(2, 3, 0, None), status(3, 0, 5, Some(7))];
    match status_reply(sessions) {
        Reply::Accepted(ReplyData::Status(data)) => {
            assert_eq!(data.sessions.len(), 3);
            assert_eq!(data.suppressed_replies, 5);
            assert_eq!(data.tee_gaps, 6);
            assert_eq!(data.checkpoint_ages, vec![40, 7]);
        }
        _ => panic!("status must be accepted"),
    }
}

#[test]
fn requests_without_a_pane_or_with_an_unknown_op_are_refused() {
    for op in ["rehydrate", "coldPaint", "resize", "ensureSession"] {
        let p = plan_request(&req(Some(op), Some("w-1"), None));
        let expected = format!("{op} requires window and pane");
        assert_eq!(plan_refusal(&p), Some(("INVALID_PARAMS", expected.as_str())));
    }
    let p = plan_request(&req(Some("frobnicate"), None, Some("v2")));
    assert_eq!(plan_refusal(&p), Some(("UNKNOWN_OP", "unknown op frobnicate")));
    let p = plan_request(&req(None, None, Some("v2")));
    assert_eq!(plan_refusal(&p), Some(("UNKNOWN_OP", "unknown op ")));
    assert!(matches!(plan_request(&req(Some("status"), None, None)), RequestPlan::Status));
}

#[test]
fn resize_needs_positive_cols_and_rows() {
    let mut r = req(Some("resize"), None, Some("v2"));
    r.cols = Some(100);
    r.rows = Some(0);
    assert_eq!(
        plan_refusal(&plan_request(&r)),
        Some(("INVALID_PARAMS", "resize requires positive cols and rows"))
    );
    r.rows = Some(30);
    match plan_request(&r) {
        RequestPlan::Resize { key, cols, rows } => {
            assert_eq!(key.1, "v2");
            assert_eq!((cols, rows), (100, 30));
        }
        _ => panic!("resize must be planned"),
    }
    match resize_reply("v2", true, 100, 30) {
        Reply::Accepted(ReplyData::Resized { cols, rows }) => assert_eq!((cols, rows), (100, 30)),
        _ => panic!("resize must be accepted"),
    }
    assert_eq!(refusal(&resize_reply("v2", false, 100, 30)).map(|x| x.0), Some("NOT_FOUND"));
}

#[test]
fn ensure_session_defaults_to_an_80_by_24_grid_of_at_least_one_cell() {
    match plan_request(&req(Some("ensureSession"), Some("w-1"), Some("v2"))) {
        RequestPlan::EnsureSession { key, cols, rows } => {
            assert_eq!(key, (Some("w-1".to_string()), "v2".to_string()));
            assert_eq!((cols, rows), (80, 24));
        }
        _ => panic!("ensureSession must be planned"),
    }
    let mut r = req(Some("ensureSession"), None, Some("v2"));
    r.cols = Some(0);
    r.rows = Some(65_536 + 40);
    match plan_request(&r) {
        RequestPlan::EnsureSession { cols, rows, .. } => assert_eq!((cols, rows), (1, 40)),
        _ => panic!("ensureSession must be planned"),
    }
}

#[test]
fn rehydrate_reply_carries_paint_sequence_and_screen() {
    let snap = RehydrateSnapshot { paint: b"HELLO-STATUS\r\n".to_vec(), upto_seq: 14, alt_active: true };
    match rehydrate_reply("v2", Some(snap)) {
        Reply::Accepted(ReplyData::Rehydrate { paint, upto_seq, alt_active }) => {
            assert_eq!(paint, "SEVMTE8tU1RBVFVTDQo=");
            assert_eq!(upto_seq, 14);
            assert!(alt_active);
        }
        _ => panic!("rehydrate must be accepted"),
    }
    let cold = ColdPaintSnapshot { paint: b"hello".to_vec(), alt_active: false };
    match cold_paint_reply("v2", Some(cold)) {
        Reply::Accepted(ReplyData::ColdPaint { paint, alt_active }) => {
            assert_eq!(paint, "aGVsbG8=");
            assert!(!alt_active);
        }
        _ => panic!("cold paint must be accepted"),
    }
}

#[test]
fn ensure_replies_cover_each_outcome() {
    assert_eq!(
        refusal(&ensure_reply("v2", EnsureOutcome::ListFailed("down".into()))),
        Some(("DAEMON", "listSessions failed: down"))
    );
    assert_eq!(
        refusal(&ensure_reply("v2", EnsureOutcome::NotFound)),
        Some(("NOT_FOUND", "no live daemon session for pane v2"))
    );
    assert_eq!(
        refusal(&ensure_reply("v2", EnsureOutcome::SubscribeFailed("refused".into()))),
        Some(("SUBSCRIBE_FAILED", "refused"))
    );
    match ensure_reply("v2", EnsureOutcome::Mirrored(true)) {
        Reply::Accepted(ReplyData::Ensured { pane, subscribed }) => {
            assert_eq!(pane, "v2");
            assert!(subscribed);
        }
        _ => panic!("ensureSession must be accepted"),
    }
    assert_eq!(
        refusal(&parse_error_reply("EOF while parsing")),
        Some(("INVALID_PARAMS", "request parse: EOF while parsing"))
    );
}

#[test]
fn find_session_matches_window_and_pane() {
    let list = vec![
        SessionInfo { session: 1, pane_id: "v2".into(), window_label: Some("w-9".into()) },
        SessionInfo { session: 2, pane_id: "v2".into(), window_label: None },
        SessionInfo { session: 3, pane_id: "v2".into(), window_label: Some("w-1".into()) },
    ];
    assert_eq!(find_session(&list, &(Some("w-1".into()), "v2".into())), Some(2));
    assert_eq!(find_session(&list, &(None, "v2".into())), Some(1));
    assert_eq!(find_session(&list, &(None, "v3".into())), None);
}

#[test]
fn ledger_counts_bytes_and_gaps() {
    let mut l = SessionLedger::new(4, Some("w-1".into()), "v2".into());
    l.anchor(100);
    l.on_event(TeeEvent::Data { len: 14, now: 1_000 });
    l.on_event(TeeEvent::Data { len: 6, now: 2_000 });
    assert_eq!(l.consumed_seq(), 120);
    assert_eq!(l.tee_gaps(), 0);
    l.on_event(TeeEvent::Gap { to_seq: 500 });
    assert_eq!(l.consumed_seq(), 500);
    assert_eq!(l.tee_gaps(), 1);
    let s = l.status(true, 3, 5_000_000_000);
    assert_eq!((s.session, s.consumed_seq, s.tee_gaps, s.suppressed_replies), (4, 500, 1, 3));
    assert_eq!(s.checkpoint_age_ms, None);
}

#[test]
fn checkpoint_loop_waits_then_pushes_then_stops() {
    let mut l = SessionLedger::new(1, None, "v1".into());
    assert_eq!(l.checkpoint_step(0), CheckpointStep::WaitForOutput);
    l.on_event(TeeEvent::Data { len: 1, now: 1_000 });
    assert_eq!(l.checkpoint_step(1_000), CheckpointStep::WaitFor(CKPT_IDLE));
    assert_eq!(l.checkpoint_step(1_000 + CKPT_IDLE), CheckpointStep::Push);
    assert_eq!(l.checkpoint_step(1_000 + CKPT_IDLE), CheckpointStep::WaitForOutput);
    l.checkpoint_pushed(1_000 + CKPT_IDLE);
    let s = l.status(false, 0, 1_000 + CKPT_IDLE + 2_500_000);
    assert_eq!(s.checkpoint_age_ms, Some(2));
    // A burst is bounded by the cap.
    for k in 0..100u64 {
        l.on_event(TeeEvent::Data { len: 1, now: 10_000 + k * 100_000_000 });
    }
    assert_eq!(l.checkpoint_step(10_000 + CKPT_CAP), CheckpointStep::Push);
    l.close();
    assert_eq!(l.checkpoint_step(u64::MAX / 2), CheckpointStep::Stop);
}

#[test]
fn startup_backoff_doubles_up_to_one_second_within_eight_seconds() {
    let mut d = 100;
    let mut seen = Vec::new();
    for _ in 0..6 {
        seen.push(d);
        d = next_backoff(d);
    }
    assert_eq!(seen, vec![100, 200, 400, 800, 1000, 1000]);
    assert!(!peer_retry_exhausted(1_000, 8_999));
    assert!(peer_retry_exhausted(1_000, 9_000));
}

#[test]
fn the_read_router_does_not_subscribe() {
    let req = ServiceRequest {
        op: Some("ensureSession".to_string()),
        window: None,
        pane: Some("p".to_string()),
        cols: None,
        rows: None,
    };
    match plan_read_request(&req) {
        RequestPlan::Refuse { code, message } => {
            assert_eq!(code, "UNKNOWN_OP");
            assert_eq!(message, "unknown op ensureSession");
        }
        _ => panic!("ensureSession is not a read request"),
    }
    assert!(matches!(plan_request(&req), RequestPlan::EnsureSession { cols: 80, rows: 24, .. }));
    let status = ServiceRequest { op: Some("status".to_string()), window: None, pane: None, cols: None, rows: None };
    assert!(matches!(plan_read_request(&status), RequestPlan::Status));
}
