//! The service face: hello judgement, request routing, reply construction, and the
//! per-session ledger that the tee consumer and the checkpoint loop keep.
//!
//! Requests and replies are plain values here; the socket plumbing reads a request line
//! into a [`ServiceRequest`], asks [`plan_request`] what to do, performs the registry and
//! mirror work the plan names, and sends the [`Reply`] built by the functions below.
use vstd::prelude::*;
use crate::checkpoint::{CheckpointPolicy, PolicyState};
use crate::frame::{encode_standard, base64_standard, SessionInfo};
use crate::proto::PTYD_PROTOCOL_VERSION;
use crate::text::{decimal, join2, owned, opt_is, push_decimal};

verus! {

/// The abstract value of an optional string.
pub open spec fn opt_view(o: Option<String>) -> Option<Seq<char>> {
    match o {
        Some(s) => Some(s@),
        None => None,
    }
}

fn clone_opt(o: &Option<String>) -> (r: Option<String>)
    ensures
        opt_view(r) == opt_view(*o),
{
    match o {
        Some(s) => Some(s.clone()),
        None => None,
    }
}

/// A request line as the router reads it: `op`, `window` and `pane` as strings, `cols`
/// and `rows` as unsigned integers (absent or of another type: none).
pub struct ServiceRequest {
    pub op: Option<String>,
    pub window: Option<String>,
    pub pane: Option<String>,
    pub cols: Option<u64>,
    pub rows: Option<u64>,
}

/// A client hello as the judge reads it: `version` as an unsigned integer and `token` as a
/// string.
pub struct ClientHello {
    pub version: Option<u64>,
    pub token: Option<String>,
}

/// One session line of a status reply.
pub struct SessionStatus {
    pub session: u64,
    pub window: Option<String>,
    pub pane: String,
    pub alt_active: bool,
    pub suppressed_replies: u64,
    pub tee_gaps: u64,
    pub consumed_seq: u64,
    pub checkpoint_age_ms: Option<u64>,
}

/// The data of a status reply: each session, the checkpoint ages that exist, and the
/// totals of suppressed replies and tee gaps.
pub struct StatusData {
    pub sessions: Vec<SessionStatus>,
    pub checkpoint_ages: Vec<u64>,
    pub suppressed_replies: u64,
    pub tee_gaps: u64,
}

/// The data of an accepted request.
pub enum ReplyData {
    Hello { version: u32 },
    Rehydrate { paint: String, upto_seq: u64, alt_active: bool },
    ColdPaint { paint: String, alt_active: bool },
    Resized { cols: u16, rows: u16 },
    Ensured { pane: String, subscribed: bool },
    Status(StatusData),
}

/// A reply: `{ok: true, code: "OK", data}` or `{ok: false, code, message}`.
pub enum Reply {
    Accepted(ReplyData),
    Refused { code: String, message: String },
}

/// The refusal with `code` and `message`, as abstract values.
pub open spec fn is_refusal(r: Reply, code: Seq<char>, message: Seq<char>) -> bool {
    r matches Reply::Refused { code: c, message: m } && c@ == code && m@ == message
}

fn refuse(code: &str, message: String) -> (r: Reply)
    ensures
        is_refusal(r, code@, message@),
{
    Reply::Refused { code: owned(code), message }
}

/// `Some(<n>)` or `None`, as `{:?}` renders an optional integer.
pub open spec fn debug_opt_u64(v: Option<u64>) -> Seq<char> {
    match v {
        Some(n) => "Some("@ + decimal(n as nat) + ")"@,
        None => "None"@,
    }
}

fn push_debug_opt(s: &mut String, v: Option<u64>)
    ensures
        final(s)@ == old(s)@ + debug_opt_u64(v),
{
    match v {
        Some(n) => {
            s.append("Some(");
            push_decimal(s, n);
            s.append(")");
        },
        None => s.append("None"),
    }
}

pub open spec fn version_skew_message(v: Option<u64>) -> Seq<char> {
    "service speaks protocol "@ + decimal(PTYD_PROTOCOL_VERSION as nat) + ", client sent "@
        + debug_opt_u64(v)
}

/// Judges a client hello: the protocol revision must match, then the token.
pub fn judge_hello(hello: &ClientHello, token: &str) -> (r: Result<(), Reply>)
    ensures
        hello.version != Some(PTYD_PROTOCOL_VERSION as u64) ==> (r matches Err(e) && is_refusal(
            e,
            "VERSION_SKEW"@,
            version_skew_message(hello.version),
        )),
        hello.version == Some(PTYD_PROTOCOL_VERSION as u64) && !(hello.token matches Some(t)
            && t@ == token@) ==> (r matches Err(e) && is_refusal(e, "UNAUTHORIZED"@, "bad token"@)),
        hello.version == Some(PTYD_PROTOCOL_VERSION as u64) && (hello.token matches Some(t)
            && t@ == token@) ==> r is Ok,
{
    let accepted = match hello.version {
        Some(v) => v == PTYD_PROTOCOL_VERSION as u64,
        None => false,
    };
    if !accepted {
        let mut m = owned("service speaks protocol ");
        push_decimal(&mut m, PTYD_PROTOCOL_VERSION as u64);
        m.append(", client sent ");
        push_debug_opt(&mut m, hello.version);
        return Err(refuse("VERSION_SKEW", m));
    }
    if !opt_is(&hello.token, token) {
        return Err(refuse("UNAUTHORIZED", owned("bad token")));
    }
    Ok(())
}

/// The reply that accepts a hello.
pub fn hello_accepted() -> (r: Reply)
    ensures
        r matches Reply::Accepted(ReplyData::Hello { version }) && version == PTYD_PROTOCOL_VERSION,
{
    Reply::Accepted(ReplyData::Hello { version: PTYD_PROTOCOL_VERSION })
}

/// A registry key: the window label namespaces the pane id.
pub type PaneKey = (Option<String>, String);

pub open spec fn key_view(k: PaneKey) -> (Option<Seq<char>>, Seq<char>) {
    (opt_view(k.0), k.1@)
}

/// The pane a request names: its pane id is required, its window label is optional.
pub open spec fn wp_spec(req: ServiceRequest) -> Option<(Option<Seq<char>>, Seq<char>)> {
    match req.pane {
        Some(p) => Some((opt_view(req.window), p@)),
        None => None,
    }
}

/// The pane a request names.
pub fn wp(req: &ServiceRequest) -> (k: Option<PaneKey>)
    ensures
        match k {
            Some(key) => wp_spec(*req) == Some(key_view(key)),
            None => wp_spec(*req) is None,
        },
{
    match &req.pane {
        Some(p) => Some((clone_opt(&req.window), p.clone())),
        None => None,
    }
}

/// What the service does with a request.
pub enum RequestPlan {
    /// Answer with this refusal.
    Refuse { code: String, message: String },
    /// Subscribe to the pane's daemon session unless it is mirrored already, with this grid.
    EnsureSession { key: PaneKey, cols: u16, rows: u16 },
    /// Serialize the pane's mirror as a warm rehydrate paint.
    Rehydrate { key: PaneKey },
    /// Serialize the pane's mirror as a cold paint.
    ColdPaint { key: PaneKey },
    /// Resize the pane's mirror.
    Resize { key: PaneKey, cols: u16, rows: u16 },
    /// Report every mirrored session.
    Status,
}

/// The abstract value of a [`RequestPlan`].
pub enum PlanView {
    Refuse { code: Seq<char>, message: Seq<char> },
    EnsureSession { key: (Option<Seq<char>>, Seq<char>), cols: u16, rows: u16 },
    Rehydrate { key: (Option<Seq<char>>, Seq<char>) },
    ColdPaint { key: (Option<Seq<char>>, Seq<char>) },
    Resize { key: (Option<Seq<char>>, Seq<char>), cols: u16, rows: u16 },
    Status,
}

impl View for RequestPlan {
    type V = PlanView;

    open spec fn view(&self) -> PlanView {
        match self {
            RequestPlan::Refuse { code, message } => PlanView::Refuse { code: code@, message: message@ },
            RequestPlan::EnsureSession { key, cols, rows } => PlanView::EnsureSession {
                key: key_view(*key),
                cols: *cols,
                rows: *rows,
            },
            RequestPlan::Rehydrate { key } => PlanView::Rehydrate { key: key_view(*key) },
            RequestPlan::ColdPaint { key } => PlanView::ColdPaint { key: key_view(*key) },
            RequestPlan::Resize { key, cols, rows } => PlanView::Resize {
                key: key_view(*key),
                cols: *cols,
                rows: *rows,
            },
            RequestPlan::Status => PlanView::Status,
        }
    }
}

/// The grid an `ensureSession` asks for: the given size (or the default) raised to at least
/// one, truncated to 16 bits.
pub open spec fn ensure_extent(given: Option<u64>, default: u64) -> u16 {
    let v = match given {
        Some(v) => v,
        None => default,
    };
    (if v < 1 { 1 } else { v }) as u16
}

pub open spec fn op_of(req: ServiceRequest) -> Seq<char> {
    match req.op {
        Some(op) => op@,
        None => ""@,
    }
}

pub open spec fn pane_plan(
    req: ServiceRequest,
    op: Seq<char>,
    make: spec_fn((Option<Seq<char>>, Seq<char>)) -> PlanView,
) -> PlanView {
    match wp_spec(req) {
        Some(key) => make(key),
        None => PlanView::Refuse { code: "INVALID_PARAMS"@, message: op + " requires window and pane"@ },
    }
}

/// The routing rule of the read requests: `rehydrate` and `coldPaint` name a pane;
/// `resize` also needs positive `cols` and `rows`; `status` needs nothing; any other op,
/// `ensureSession` included, is unknown here.
pub open spec fn read_plan_spec(req: ServiceRequest) -> PlanView {
    let op = op_of(req);
    if op == "rehydrate"@ {
        pane_plan(req, op, |key| PlanView::Rehydrate { key })
    } else if op == "coldPaint"@ {
        pane_plan(req, op, |key| PlanView::ColdPaint { key })
    } else if op == "resize"@ {
        match wp_spec(req) {
            None => PlanView::Refuse { code: "INVALID_PARAMS"@, message: "resize"@ + " requires window and pane"@ },
            Some(key) => match (req.cols, req.rows) {
                (Some(c), Some(r)) if c > 0 && r > 0 => PlanView::Resize {
                    key,
                    cols: c as u16,
                    rows: r as u16,
                },
                _ => PlanView::Refuse {
                    code: "INVALID_PARAMS"@,
                    message: "resize requires positive cols and rows"@,
                },
            },
        }
    } else if op == "status"@ {
        PlanView::Status
    } else {
        PlanView::Refuse { code: "UNKNOWN_OP"@, message: "unknown op "@ + op }
    }
}

/// The routing rule of the service: `ensureSession` names a pane and takes the grid it
/// asks for (default 80 x 24); every other op is routed as a read request.
pub open spec fn plan_spec(req: ServiceRequest) -> PlanView {
    let op = op_of(req);
    if op == "ensureSession"@ {
        pane_plan(
            req,
            op,
            |key| PlanView::EnsureSession {
                key,
                cols: ensure_extent(req.cols, 80),
                rows: ensure_extent(req.rows, 24),
            },
        )
    } else {
        read_plan_spec(req)
    }
}

/// The op names the router tells apart are distinct.
proof fn lemma_op_names_distinct()
    ensures
        "rehydrate"@ != "ensureSession"@,
        "coldPaint"@ != "ensureSession"@,
        "coldPaint"@ != "rehydrate"@,
        "resize"@ != "rehydrate"@,
        "resize"@ != "coldPaint"@,
        "status"@ != "rehydrate"@,
        "status"@ != "coldPaint"@,
        "resize"@ != "ensureSession"@,
        "status"@ != "ensureSession"@,
{
    reveal_strlit("ensureSession");
    reveal_strlit("rehydrate");
    reveal_strlit("coldPaint");
    reveal_strlit("resize");
    reveal_strlit("status");
    assert("rehydrate"@.len() != "ensureSession"@.len());
    assert("coldPaint"@.len() != "ensureSession"@.len());
    assert("coldPaint"@[0] != "rehydrate"@[0]);
    assert("resize"@.len() != "rehydrate"@.len());
    assert("resize"@.len() != "coldPaint"@.len());
    assert("status"@.len() != "rehydrate"@.len());
    assert("status"@.len() != "coldPaint"@.len());
    assert("resize"@.len() != "ensureSession"@.len());
    assert("status"@.len() != "ensureSession"@.len());
}

/// A plan that names a pane names exactly the request's pane within the request's window
/// (the window label is part of the key, never dropped or replaced); a request without a
/// pane never gets such a plan. Only `ensureSession` subscribes, and the read routing
/// refuses it.
pub proof fn lemma_plan_keys(req: ServiceRequest)
    ensures
        ({
            let p = plan_spec(req);
            match p {
                PlanView::Rehydrate { key } | PlanView::ColdPaint { key } | PlanView::Resize {
                    key,
                    ..
                } | PlanView::EnsureSession { key, .. } => req.pane matches Some(pn) && key.1 == pn@
                    && key.0 == opt_view(req.window),
                _ => true,
            }
        }),
        ({
            let p = read_plan_spec(req);
            match p {
                PlanView::Rehydrate { key } | PlanView::ColdPaint { key } | PlanView::Resize {
                    key,
                    ..
                } => req.pane matches Some(pn) && key.1 == pn@ && key.0 == opt_view(req.window),
                PlanView::EnsureSession { .. } => false,
                _ => true,
            }
        }),
        op_of(req) == "rehydrate"@ && req.pane is Some ==> plan_spec(req) is Rehydrate,
        op_of(req) == "coldPaint"@ && req.pane is Some ==> plan_spec(req) is ColdPaint,
        op_of(req) == "ensureSession"@ && req.pane is Some ==> plan_spec(req) is EnsureSession,
        op_of(req) == "ensureSession"@ ==> read_plan_spec(req) == (PlanView::Refuse {
            code: "UNKNOWN_OP"@,
            message: "unknown op "@ + "ensureSession"@,
        }),
        req.pane is None ==> !(plan_spec(req) is Rehydrate || plan_spec(req) is ColdPaint
            || plan_spec(req) is Resize || plan_spec(req) is EnsureSession),
        plan_spec(req) matches PlanView::EnsureSession { cols, rows, .. } ==> {
            &&& (req.cols is None ==> cols == 80)
            &&& (req.rows is None ==> rows == 24)
            &&& (req.cols == Some(0u64) ==> cols == 1)
            &&& (req.rows == Some(0u64) ==> rows == 1)
            &&& (forall|v: u64| 1 <= v <= u16::MAX && req.cols == Some(v) ==> cols == v)
            &&& (forall|v: u64| 1 <= v <= u16::MAX && req.rows == Some(v) ==> rows == v)
        },
        plan_spec(req) matches PlanView::Resize { cols, rows, .. } ==> (req.cols matches Some(c)
            && req.rows matches Some(r) && c > 0 && r > 0 && (c <= u16::MAX ==> cols == c) && (r
            <= u16::MAX ==> rows == r)),
        op_of(req) == "resize"@ && req.pane is Some && (req.cols matches Some(c) && c > 0)
            && (req.rows matches Some(r) && r > 0) ==> plan_spec(req) is Resize,
{
    reveal_strlit("ensureSession");
    reveal_strlit("rehydrate");
    reveal_strlit("coldPaint");
    reveal_strlit("resize");
    reveal_strlit("status");
    lemma_op_names_distinct();
}

fn op_text(req: &ServiceRequest) -> (s: String)
    ensures
        s@ == op_of(*req),
{
    match &req.op {
        Some(op) => op.clone(),
        None => owned(""),
    }
}

fn missing_pane(op: &str) -> (p: RequestPlan)
    ensures
        p@ == (PlanView::Refuse { code: "INVALID_PARAMS"@, message: op@ + " requires window and pane"@ }),
{
    RequestPlan::Refuse { code: owned("INVALID_PARAMS"), message: join2(op, " requires window and pane") }
}

fn extent_or(given: Option<u64>, default: u64) -> (e: u16)
    ensures
        e == ensure_extent(given, default),
{
    let v = match given {
        Some(v) => v,
        None => default,
    };
    (if v < 1 { 1 } else { v }) as u16
}

/// Decides what the service does with a request.
pub fn plan_request(req: &ServiceRequest) -> (p: RequestPlan)
    ensures
        p@ == plan_spec(*req),
        match p {
            RequestPlan::Rehydrate { key } | RequestPlan::ColdPaint { key } | RequestPlan::Resize {
                key,
                ..
            } | RequestPlan::EnsureSession { key, .. } => req.pane matches Some(pn) && key.1@ == pn@
                && opt_view(key.0) == opt_view(req.window),
            _ => true,
        },
        op_of(*req) == "ensureSession"@ && req.pane is Some ==> p is EnsureSession,
{
    let op = op_text(req);
    proof {
        reveal_strlit("ensureSession");
    }
    if op == owned("ensureSession") {
        match wp(req) {
            Some(key) => RequestPlan::EnsureSession {
                key,
                cols: extent_or(req.cols, 80),
                rows: extent_or(req.rows, 24),
            },
            None => missing_pane("ensureSession"),
        }
    } else {
        plan_read_request(req)
    }
}

/// Decides what the service does with a read request (one that subscribes nothing).
pub fn plan_read_request(req: &ServiceRequest) -> (p: RequestPlan)
    ensures
        p@ == read_plan_spec(*req),
        match p {
            RequestPlan::Rehydrate { key } | RequestPlan::ColdPaint { key } | RequestPlan::Resize {
                key,
                ..
            } | RequestPlan::EnsureSession { key, .. } => req.pane matches Some(pn) && key.1@ == pn@
                && opt_view(key.0) == opt_view(req.window),
            _ => true,
        },
        op_of(*req) == "rehydrate"@ && req.pane is Some ==> p is Rehydrate,
        op_of(*req) == "coldPaint"@ && req.pane is Some ==> p is ColdPaint,
        !(p is EnsureSession),
{
    let op = op_text(req);
    proof {
        reveal_strlit("rehydrate");
        reveal_strlit("coldPaint");
        reveal_strlit("resize");
        reveal_strlit("status");
        lemma_op_names_distinct();
    }
    if op == owned("rehydrate") {
        match wp(req) {
            Some(key) => RequestPlan::Rehydrate { key },
            None => missing_pane("rehydrate"),
        }
    } else if op == owned("coldPaint") {
        match wp(req) {
            Some(key) => RequestPlan::ColdPaint { key },
            None => missing_pane("coldPaint"),
        }
    } else if op == owned("resize") {
        resize_plan(req)
    } else if op == owned("status") {
        RequestPlan::Status
    } else {
        RequestPlan::Refuse { code: owned("UNKNOWN_OP"), message: join2("unknown op ", op.as_str()) }
    }
}

fn resize_plan(req: &ServiceRequest) -> (p: RequestPlan)
    ensures
        p@ == (match wp_spec(*req) {
            None => PlanView::Refuse { code: "INVALID_PARAMS"@, message: "resize"@ + " requires window and pane"@ },
            Some(key) => match (req.cols, req.rows) {
                (Some(c), Some(r)) if c > 0 && r > 0 => PlanView::Resize {
                    key,
                    cols: c as u16,
                    rows: r as u16,
                },
                _ => PlanView::Refuse {
                    code: "INVALID_PARAMS"@,
                    message: "resize requires positive cols and rows"@,
                },
            },
        }),
{
    proof {
        reveal_strlit("resize");
    }
    let key = match wp(req) {
        None => return missing_pane("resize"),
        Some(key) => key,
    };
    let (c, r) = match (req.cols, req.rows) {
        (Some(c), Some(r)) => (c, r),
        _ => return RequestPlan::Refuse {
            code: owned("INVALID_PARAMS"),
            message: owned("resize requires positive cols and rows"),
        },
    };
    if c > 0 && r > 0 {
        RequestPlan::Resize { key, cols: c as u16, rows: r as u16 }
    } else {
        RequestPlan::Refuse {
            code: owned("INVALID_PARAMS"),
            message: owned("resize requires positive cols and rows"),
        }
    }
}

/// The refusal a malformed request line gets.
pub fn parse_error_reply(detail: &str) -> (r: Reply)
    ensures
        is_refusal(r, "INVALID_PARAMS"@, "request parse: "@ + detail@),
{
    refuse("INVALID_PARAMS", join2("request parse: ", detail))
}

/// The refusal for a pane that has no live mirror.
pub open spec fn no_mirror_message(pane: Seq<char>) -> Seq<char> {
    "no live mirror for pane "@ + pane
}

/// What a warm rehydrate reads from a pane's session.
pub struct RehydrateSnapshot {
    pub paint: Vec<u8>,
    pub upto_seq: u64,
    pub alt_active: bool,
}

/// The rehydrate reply: the paint in standard base64 with the consumed sequence it covers,
/// or a refusal when the pane has no live mirror.
pub fn rehydrate_reply(pane: &str, found: Option<RehydrateSnapshot>) -> (r: Reply)
    requires
        found matches Some(s) ==> s.paint@.len() <= usize::MAX / 2,
    ensures
        found is None ==> is_refusal(r, "NOT_FOUND"@, no_mirror_message(pane@)),
        found matches Some(s) ==> (r matches Reply::Accepted(ReplyData::Rehydrate { paint, upto_seq, alt_active })
            && paint@ == base64_standard(s.paint@) && upto_seq == s.upto_seq && alt_active == s.alt_active),
{
    match found {
        None => refuse("NOT_FOUND", join2("no live mirror for pane ", pane)),
        Some(s) => Reply::Accepted(
            ReplyData::Rehydrate {
                paint: encode_standard(s.paint.as_slice()),
                upto_seq: s.upto_seq,
                alt_active: s.alt_active,
            },
        ),
    }
}

/// What a cold paint reads from a pane's session.
pub struct ColdPaintSnapshot {
    pub paint: Vec<u8>,
    pub alt_active: bool,
}

/// The cold paint reply, or a refusal when the pane has no live mirror.
pub fn cold_paint_reply(pane: &str, found: Option<ColdPaintSnapshot>) -> (r: Reply)
    requires
        found matches Some(s) ==> s.paint@.len() <= usize::MAX / 2,
    ensures
        found is None ==> is_refusal(r, "NOT_FOUND"@, no_mirror_message(pane@)),
        found matches Some(s) ==> (r matches Reply::Accepted(ReplyData::ColdPaint { paint, alt_active })
            && paint@ == base64_standard(s.paint@) && alt_active == s.alt_active),
{
    match found {
        None => refuse("NOT_FOUND", join2("no live mirror for pane ", pane)),
        Some(s) => Reply::Accepted(
            ReplyData::ColdPaint { paint: encode_standard(s.paint.as_slice()), alt_active: s.alt_active },
        ),
    }
}

/// The resize reply: the applied grid, or a refusal when the pane has no live mirror.
pub fn resize_reply(pane: &str, found: bool, cols: u16, rows: u16) -> (r: Reply)
    ensures
        !found ==> is_refusal(r, "NOT_FOUND"@, no_mirror_message(pane@)),
        found ==> (r matches Reply::Accepted(ReplyData::Resized { cols: c, rows: w }) && c == cols
            && w == rows),
{
    if found {
        Reply::Accepted(ReplyData::Resized { cols, rows })
    } else {
        refuse("NOT_FOUND", join2("no live mirror for pane ", pane))
    }
}

/// The sum of the suppressed replies of the sessions.
pub open spec fn total_suppressed(s: Seq<SessionStatus>) -> int
    decreases s.len(),
{
    if s.len() == 0 { 0 } else { total_suppressed(s.drop_last()) + s.last().suppressed_replies }
}

/// The sum of the tee gaps of the sessions.
pub open spec fn total_gaps(s: Seq<SessionStatus>) -> int
    decreases s.len(),
{
    if s.len() == 0 { 0 } else { total_gaps(s.drop_last()) + s.last().tee_gaps }
}

/// The checkpoint ages that exist, in session order.
pub open spec fn present_ages(s: Seq<SessionStatus>) -> Seq<u64>
    decreases s.len(),
{
    if s.len() == 0 {
        seq![]
    } else {
        match s.last().checkpoint_age_ms {
            Some(a) => present_ages(s.drop_last()).push(a),
            None => present_ages(s.drop_last()),
        }
    }
}

proof fn lemma_totals_monotone(s: Seq<SessionStatus>, i: int)
    requires
        0 <= i <= s.len(),
    ensures
        total_suppressed(s.subrange(0, i)) <= total_suppressed(s),
        total_gaps(s.subrange(0, i)) <= total_gaps(s),
    decreases s.len() - i,
{
    if i < s.len() {
        lemma_totals_monotone(s, i + 1);
        assert(s.subrange(0, i + 1).drop_last() =~= s.subrange(0, i));
    } else {
        assert(s.subrange(0, i) =~= s);
    }
}

/// The status reply over every mirrored session.
pub fn status_reply(sessions: Vec<SessionStatus>) -> (r: Reply)
    requires
        total_suppressed(sessions@) <= u64::MAX,
        total_gaps(sessions@) <= u64::MAX,
    ensures
        r matches Reply::Accepted(ReplyData::Status(data)) && data.sessions@ == sessions@
            && data.checkpoint_ages@ == present_ages(sessions@) && data.suppressed_replies
            == total_suppressed(sessions@) && data.tee_gaps == total_gaps(sessions@),
{
    let mut ages: Vec<u64> = Vec::new();
    let mut suppressed: u64 = 0;
    let mut gaps: u64 = 0;
    let mut i: usize = 0;
    while i < sessions.len()
        invariant
            i <= sessions@.len(),
            total_suppressed(sessions@) <= u64::MAX,
            total_gaps(sessions@) <= u64::MAX,
            ages@ == present_ages(sessions@.subrange(0, i as int)),
            suppressed == total_suppressed(sessions@.subrange(0, i as int)),
            gaps == total_gaps(sessions@.subrange(0, i as int)),
        decreases sessions@.len() - i,
    {
        let s = &sessions[i];
        proof {
            lemma_totals_monotone(sessions@, i + 1);
            assert(sessions@.subrange(0, i + 1).drop_last() =~= sessions@.subrange(0, i as int));
        }
        suppressed = suppressed + s.suppressed_replies;
        gaps = gaps + s.tee_gaps;
        match s.checkpoint_age_ms {
            Some(a) => ages.push(a),
            None => {},
        }
        i = i + 1;
    }
    assert(sessions@.subrange(0, sessions@.len() as int) =~= sessions@);
    Reply::Accepted(
        ReplyData::Status(StatusData { sessions, checkpoint_ages: ages, suppressed_replies: suppressed, tee_gaps: gaps }),
    )
}

/// Whether a listed session is the pane's: same window label and pane id.
pub open spec fn session_matches(s: SessionInfo, window: Option<Seq<char>>, pane: Seq<char>) -> bool {
    opt_view(s.window_label) == window && s.pane_id@ == pane
}

fn same_window(a: &Option<String>, b: &Option<String>) -> (r: bool)
    ensures
        r == (opt_view(*a) == opt_view(*b)),
{
    match (a, b) {
        (Some(x), Some(y)) => *x == *y,
        (None, None) => true,
        _ => false,
    }
}

/// The first listed session that is the pane's.
pub fn find_session(list: &Vec<SessionInfo>, key: &PaneKey) -> (i: Option<usize>)
    ensures
        match i {
            Some(i) => i < list@.len() && session_matches(list@[i as int], opt_view(key.0), key.1@)
                && forall|j: int| 0 <= j < i ==> !session_matches(list@[j], opt_view(key.0), key.1@),
            None => forall|j: int| 0 <= j < list@.len() ==> !session_matches(list@[j], opt_view(key.0), key.1@),
        },
{
    let mut i: usize = 0;
    while i < list.len()
        invariant
            i <= list@.len(),
            forall|j: int| 0 <= j < i ==> !session_matches(list@[j], opt_view(key.0), key.1@),
        decreases list@.len() - i,
    {
        if same_window(&list[i].window_label, &key.0) && list[i].pane_id == key.1 {
            return Some(i);
        }
        i = i + 1;
    }
    None
}

/// How an `ensureSession` went after its plan was carried out.
pub enum EnsureOutcome {
    /// The daemon's session list could not be read.
    ListFailed(String),
    /// No live daemon session belongs to the pane.
    NotFound,
    /// Subscribing to the pane's tee failed.
    SubscribeFailed(String),
    /// The pane is mirrored; `true` when this request subscribed it.
    Mirrored(bool),
}

/// The `ensureSession` reply for an outcome.
pub fn ensure_reply(pane: &str, outcome: EnsureOutcome) -> (r: Reply)
    ensures
        outcome matches EnsureOutcome::ListFailed(e) ==> is_refusal(r, "DAEMON"@, "listSessions failed: "@ + e@),
        outcome is NotFound ==> is_refusal(r, "NOT_FOUND"@, "no live daemon session for pane "@ + pane@),
        outcome matches EnsureOutcome::SubscribeFailed(e) ==> is_refusal(r, "SUBSCRIBE_FAILED"@, e@),
        outcome matches EnsureOutcome::Mirrored(fresh) ==> (r matches Reply::Accepted(ReplyData::Ensured { pane: p, subscribed })
            && p@ == pane@ && subscribed == fresh),
{
    match outcome {
        EnsureOutcome::ListFailed(e) => refuse("DAEMON", join2("listSessions failed: ", e.as_str())),
        EnsureOutcome::NotFound => refuse("NOT_FOUND", join2("no live daemon session for pane ", pane)),
        EnsureOutcome::SubscribeFailed(e) => refuse("SUBSCRIBE_FAILED", e),
        EnsureOutcome::Mirrored(fresh) => Reply::Accepted(ReplyData::Ensured { pane: owned(pane), subscribed: fresh }),
    }
}

/// The abstract value of a [`SessionLedger`].
pub struct LedgerView {
    pub session_id: u64,
    pub window: Option<Seq<char>>,
    pub pane: Seq<char>,
    pub policy: PolicyState,
    pub tee_gaps: u64,
    pub consumed_seq: u64,
    pub last_checkpoint: Option<u64>,
    pub closed: bool,
}

/// The sidecar's bookkeeping for one mirrored session: the checkpoint policy, the tee
/// loss count, the consumed daemon ring sequence, the last checkpoint push and whether
/// the tee has ended. (The session's mirror lives beside it.)
pub struct SessionLedger {
    session_id: u64,
    window: Option<String>,
    pane: String,
    policy: CheckpointPolicy,
    tee_gaps: u64,
    consumed_seq: u64,
    last_checkpoint: Option<u64>,
    closed: bool,
}

impl View for SessionLedger {
    type V = LedgerView;

    closed spec fn view(&self) -> LedgerView {
        LedgerView {
            session_id: self.session_id,
            window: opt_view(self.window),
            pane: self.pane@,
            policy: self.policy@,
            tee_gaps: self.tee_gaps,
            consumed_seq: self.consumed_seq,
            last_checkpoint: self.last_checkpoint,
            closed: self.closed,
        }
    }
}

/// What the checkpoint loop does next.
#[derive(Debug, Clone, Copy, PartialEq, Eq, Structural)]
pub enum CheckpointStep {
    /// The tee ended: stop.
    Stop,
    /// Clean: sleep until the next output or end event.
    WaitForOutput,
    /// Dirty but not due: sleep this many nanoseconds, or until the next event.
    WaitFor(u64),
    /// Due: push the cold paint now (the policy is already back to clean).
    Push,
}

/// A tee event as the consumer sees it.
pub enum TeeEvent {
    /// A data frame of this many bytes at this instant.
    Data { len: u64, now: u64 },
    /// A loss marker ending at this ring sequence.
    Gap { to_seq: u64 },
}

impl LedgerView {
    pub open spec fn wf(self) -> bool {
        self.policy.wf()
    }

    /// The ledger after a tee event: data advances the consumed sequence by its length and
    /// marks the policy dirty; a gap counts one loss and jumps to its end.
    pub open spec fn after_event(self, ev: TeeEvent) -> LedgerView {
        match ev {
            TeeEvent::Data { len, now } => LedgerView {
                consumed_seq: (self.consumed_seq + len) as u64,
                policy: self.policy.on_output(now as int),
                ..self
            },
            TeeEvent::Gap { to_seq } => LedgerView {
                tee_gaps: (self.tee_gaps + 1) as u64,
                consumed_seq: to_seq,
                ..self
            },
        }
    }

    /// The ledger after tee events in order.
    pub open spec fn after_events(self, evs: Seq<TeeEvent>) -> LedgerView
        decreases evs.len(),
    {
        if evs.len() == 0 {
            self
        } else {
            self.after_events(evs.drop_last()).after_event(evs.last())
        }
    }

    /// The step the checkpoint loop takes at `now`.
    pub open spec fn step(self, now: int) -> CheckpointStep {
        if self.closed {
            CheckpointStep::Stop
        } else if !self.policy.is_dirty() {
            CheckpointStep::WaitForOutput
        } else if now < self.policy.deadline().unwrap() {
            CheckpointStep::WaitFor((self.policy.deadline().unwrap() - now) as u64)
        } else {
            CheckpointStep::Push
        }
    }
}

/// The total length of the data events.
pub open spec fn data_total(evs: Seq<TeeEvent>) -> int
    decreases evs.len(),
{
    if evs.len() == 0 {
        0
    } else {
        data_total(evs.drop_last()) + match evs.last() {
            TeeEvent::Data { len, now } => len as int,
            TeeEvent::Gap { to_seq } => 0,
        }
    }
}

/// The number of gap events.
pub open spec fn gap_count(evs: Seq<TeeEvent>) -> int
    decreases evs.len(),
{
    if evs.len() == 0 {
        0
    } else {
        gap_count(evs.drop_last()) + if evs.last() is Gap { 1int } else { 0int }
    }
}

impl SessionLedger {
    pub open spec fn well_formed(&self) -> bool {
        self@.wf()
    }

    /// A fresh session: nothing consumed, no gaps, clean policy, tee open.
    pub fn new(session_id: u64, window: Option<String>, pane: String) -> (l: SessionLedger)
        ensures
            l.well_formed(),
            l@.session_id == session_id,
            l@.window == opt_view(window),
            l@.pane == pane@,
            l@.policy == PolicyState::clean(crate::checkpoint::CKPT_IDLE as int, crate::checkpoint::CKPT_CAP as int),
            l@.tee_gaps == 0,
            l@.consumed_seq == 0,
            l@.last_checkpoint is None,
            !l@.closed,
    {
        SessionLedger {
            session_id,
            window,
            pane,
            policy: CheckpointPolicy::default(),
            tee_gaps: 0,
            consumed_seq: 0,
            last_checkpoint: None,
            closed: false,
        }
    }

    /// Anchors the consumed sequence at the daemon ring head the subscription started from,
    /// so a mid-session subscription stays aligned with the ring.
    pub fn anchor(&mut self, start_seq: u64)
        ensures
            final(self)@ == (LedgerView { consumed_seq: start_seq, ..old(self)@ }),
            final(self).well_formed() == old(self).well_formed(),
    {
        self.consumed_seq = start_seq;
    }

    /// Records a tee event.
    pub fn on_event(&mut self, ev: TeeEvent)
        requires
            old(self).well_formed(),
            ev matches TeeEvent::Data { len, now } ==> old(self)@.consumed_seq + len <= u64::MAX,
            ev is Gap ==> old(self)@.tee_gaps < u64::MAX,
        ensures
            final(self).well_formed(),
            final(self)@ == old(self)@.after_event(ev),
    {
        match ev {
            TeeEvent::Data { len, now } => {
                self.consumed_seq = self.consumed_seq + len;
                self.policy.on_output(now);
            },
            TeeEvent::Gap { to_seq } => {
                self.tee_gaps = self.tee_gaps + 1;
                self.consumed_seq = to_seq;
            },
        }
    }

    /// The tee ended.
    pub fn close(&mut self)
        ensures
            final(self)@ == (LedgerView { closed: true, ..old(self)@ }),
            final(self).well_formed() == old(self).well_formed(),
    {
        self.closed = true;
    }

    pub fn session_id(&self) -> (n: u64)
        ensures
            n == self@.session_id,
    {
        self.session_id
    }

    pub fn window(&self) -> (w: &Option<String>)
        ensures
            opt_view(*w) == self@.window,
    {
        &self.window
    }

    pub fn pane(&self) -> (p: &String)
        ensures
            p@ == self@.pane,
    {
        &self.pane
    }

    pub fn is_closed(&self) -> (b: bool)
        ensures
            b == self@.closed,
    {
        self.closed
    }

    pub fn consumed_seq(&self) -> (n: u64)
        ensures
            n == self@.consumed_seq,
    {
        self.consumed_seq
    }

    pub fn tee_gaps(&self) -> (n: u64)
        ensures
            n == self@.tee_gaps,
    {
        self.tee_gaps
    }

    /// Whether the policy's deadline can be taken on the clock (see
    /// [`SessionLedger::checkpoint_step`]).
    pub fn deadline_in_range(&self) -> (b: bool)
        ensures
            b == self@.policy.deadline_fits(),
    {
        self.policy.deadline_in_range()
    }

    /// Decides the checkpoint loop's next step at `now`; a due push resets the policy.
    pub fn checkpoint_step(&mut self, now: u64) -> (step: CheckpointStep)
        requires
            old(self).well_formed(),
            old(self)@.policy.deadline_fits(),
        ensures
            step == old(self)@.step(now as int),
            final(self).well_formed(),
            step is Push ==> final(self)@ == (LedgerView { policy: old(self)@.policy.reset(), ..old(self)@ }),
            !(step is Push) ==> final(self)@ == old(self)@,
    {
        if self.closed {
            return CheckpointStep::Stop;
        }
        if !self.policy.is_dirty() {
            return CheckpointStep::WaitForOutput;
        }
        match self.policy.deadline() {
            Some(deadline) => {
                if now < deadline {
                    return CheckpointStep::WaitFor(deadline - now);
                }
            },
            None => {},
        }
        self.policy.reset();
        CheckpointStep::Push
    }

    /// A checkpoint push succeeded at `now`.
    pub fn checkpoint_pushed(&mut self, now: u64)
        ensures
            final(self)@ == (LedgerView { last_checkpoint: Some(now), ..old(self)@ }),
            final(self).well_formed() == old(self).well_formed(),
    {
        self.last_checkpoint = Some(now);
    }

    /// The session's status line at `now`: the checkpoint age is the whole milliseconds
    /// since the last push (zero if the clock reads earlier).
    pub fn status(&self, alt_active: bool, suppressed_replies: u64, now: u64) -> (s: SessionStatus)
        ensures
            s.session == self@.session_id,
            opt_view(s.window) == self@.window,
            s.pane@ == self@.pane,
            s.alt_active == alt_active,
            s.suppressed_replies == suppressed_replies,
            s.tee_gaps == self@.tee_gaps,
            s.consumed_seq == self@.consumed_seq,
            s.checkpoint_age_ms == match self@.last_checkpoint {
                Some(t) => Some((if now >= t { (now - t) / 1_000_000 } else { 0 }) as u64),
                None => None,
            },
    {
        let age = match self.last_checkpoint {
            Some(t) => Some(if now >= t { (now - t) / 1_000_000 } else { 0 }),
            None => None,
        };
        SessionStatus {
            session: self.session_id,
            window: clone_opt(&self.window),
            pane: self.pane.clone(),
            alt_active,
            suppressed_replies,
            tee_gaps: self.tee_gaps,
            consumed_seq: self.consumed_seq,
            checkpoint_age_ms: age,
        }
    }
}

/// Anchored at the subscription's ring head and fed only data frames, the consumed
/// sequence is the head plus every byte consumed, and the loss count never moves.
pub proof fn lemma_consumed_tracks_data(l: LedgerView, evs: Seq<TeeEvent>)
    requires
        forall|i: int| 0 <= i < evs.len() ==> evs[i] is Data,
        l.consumed_seq + data_total(evs) <= u64::MAX,
    ensures
        l.after_events(evs).consumed_seq == l.consumed_seq + data_total(evs),
        l.after_events(evs).tee_gaps == l.tee_gaps,
    decreases evs.len(),
{
    if evs.len() > 0 {
        let prefix = evs.drop_last();
        assert forall|i: int| 0 <= i < prefix.len() implies prefix[i] is Data by {
            assert(prefix[i] == evs[i]);
        }
        lemma_data_total_nonneg(evs.drop_last());
        lemma_consumed_tracks_data(l, prefix);
    }
}

proof fn lemma_data_total_nonneg(evs: Seq<TeeEvent>)
    ensures
        data_total(evs) >= 0,
    decreases evs.len(),
{
    if evs.len() > 0 {
        lemma_data_total_nonneg(evs.drop_last());
    }
}

/// Every gap the tee reports is counted once: the loss count grows by exactly the number of
/// gap frames, so a loss is never silent.
pub proof fn lemma_gaps_are_counted(l: LedgerView, evs: Seq<TeeEvent>)
    requires
        l.tee_gaps + evs.len() <= u64::MAX,
    ensures
        l.after_events(evs).tee_gaps == l.tee_gaps + gap_count(evs),
        0 <= gap_count(evs) <= evs.len(),
    decreases evs.len(),
{
    if evs.len() > 0 {
        lemma_gaps_are_counted(l, evs.drop_last());
    }
}

/// A push is decided only for an open, dirty and due session, and it leaves the policy
/// clean; an open clean session only waits for output.
pub proof fn lemma_push_only_when_due(l: LedgerView, now: int)
    requires
        l.wf(),
    ensures
        l.step(now) is Push <==> (!l.closed && l.policy.is_due(now)),
        l.step(now) is Push ==> !l.policy.reset().is_dirty(),
        l.step(now) is WaitFor ==> !l.policy.is_due(now),
{
}

/// The first delay between attempts to peer with the daemon at start-up (ms).
pub const PEER_RETRY_FIRST_DELAY_MS: u64 = 100;

/// The longest delay between attempts (ms).
pub const PEER_RETRY_MAX_DELAY_MS: u64 = 1000;

/// How long start-up keeps retrying before it gives up (ms).
pub const PEER_RETRY_WINDOW_MS: u64 = 8000;

/// The default grid of a session mirror until a plugin supplies its real size.
pub const DEFAULT_COLS: u16 = 80;

/// The default grid height of a session mirror.
pub const DEFAULT_ROWS: u16 = 24;

/// The next delay of the start-up retry: doubled, at most one second.
pub fn next_backoff(delay_ms: u64) -> (d: u64)
    ensures
        d == if 2 * delay_ms <= PEER_RETRY_MAX_DELAY_MS { 2 * delay_ms } else { PEER_RETRY_MAX_DELAY_MS as int },
{
    if delay_ms <= PEER_RETRY_MAX_DELAY_MS / 2 {
        delay_ms * 2
    } else {
        PEER_RETRY_MAX_DELAY_MS
    }
}

/// Whether start-up should give up peering: the retry window since the first attempt has
/// passed.
pub fn peer_retry_exhausted(started_ms: u64, now_ms: u64) -> (b: bool)
    ensures
        b == (now_ms >= started_ms + PEER_RETRY_WINDOW_MS),
{
    now_ms >= started_ms && now_ms - started_ms >= PEER_RETRY_WINDOW_MS
}

} // verus!
