//! The daemon wire contract as this sidecar consumes it: protocol constants, the
//! identity-home paths of the daemon's sockets and token, the contract-keyed service
//! socket and log, the sealed checkpoint location, the hello message and the reply
//! envelope check.
//!
//! Paths are returned as a [`HomePath`]: the identity home followed by the relative
//! components below it, joined by the caller with the platform's path rules.
use vstd::prelude::*;
use crate::text::{decimal, join3, owned, push_decimal};

verus! {

/// The daemon wire protocol revision.
pub const PTYD_PROTOCOL_VERSION: u32 = 1;

/// Tee frame kind: a raw copy of PTY output.
pub const TEE_FRAME_DATA: u8 = 0;

/// Tee frame kind: a backpressure loss marker.
pub const TEE_FRAME_GAP: u8 = 1;

/// The client id this sidecar unit announces in its daemon hello (an observability label).
pub open spec fn client_id_spec() -> Seq<char> {
    "soksak-sidecar-terminal-wezterm"@
}

/// The client id this sidecar unit announces in its daemon hello.
pub fn client_id() -> (s: String)
    ensures
        s@ == client_id_spec(),
{
    owned("soksak-sidecar-terminal-wezterm")
}

/// A path below an identity home: `home` joined with each of `parts` in order.
pub struct HomePath {
    pub home: String,
    pub parts: Vec<String>,
}

/// The abstract value of a [`HomePath`]: the home text and the component texts.
pub struct HomePathView {
    pub home: Seq<char>,
    pub parts: Seq<Seq<char>>,
}

impl View for HomePath {
    type V = HomePathView;

    open spec fn view(&self) -> HomePathView {
        HomePathView { home: self.home@, parts: self.parts@.map_values(|p: String| p@) }
    }
}

pub open spec fn version_text() -> Seq<char> {
    decimal(PTYD_PROTOCOL_VERSION as nat)
}

pub open spec fn control_socket_name() -> Seq<char> {
    "ptyd-p"@ + version_text() + ".sock"@
}

pub open spec fn stream_socket_name() -> Seq<char> {
    "ptyd-p"@ + version_text() + "-stream.sock"@
}

pub open spec fn token_name() -> Seq<char> {
    "ptyd-p"@ + version_text() + ".token"@
}

pub open spec fn service_socket_name() -> Seq<char> {
    "soksak-sidecar-terminal-p"@ + version_text() + ".sock"@
}

pub open spec fn service_log_name() -> Seq<char> {
    "soksak-sidecar-terminal-p"@ + version_text() + ".log"@
}

/// What base64 (URL-safe alphabet, no padding) produces for the UTF-8 bytes of `text`.
pub uninterp spec fn base64_url_nopad(text: Seq<char>) -> Seq<char>;

/// The URL-safe base64 alphabet: `A-Z a-z 0-9 - _`.
pub open spec fn is_url_safe_char(c: char) -> bool {
    ||| 'A' <= c <= 'Z'
    ||| 'a' <= c <= 'z'
    ||| '0' <= c <= '9'
    ||| c == '-'
    ||| c == '_'
}

/// Calls `base64::engine::general_purpose::URL_SAFE_NO_PAD.encode`. The result is named by
/// [`base64_url_nopad`]; the crate's documentation fixes its alphabet to `A-Z a-z 0-9 - _`.
/// The encoding is reversible (the same engine's `decode` gives the UTF-8 bytes back, and
/// UTF-8 determines the text), so no other text encodes to the same result.
/// The requirement keeps the crate's internal output-length computation from overflowing.
#[verifier::external_body]
fn encode_url_safe_no_pad(text: &str) -> (r: String)
    requires
        text@.len() <= usize::MAX / 8,
    ensures
        r@ == base64_url_nopad(text@),
        forall|i: int| 0 <= i < r@.len() ==> is_url_safe_char(#[trigger] r@[i]),
        forall|t: Seq<char>| #[trigger] base64_url_nopad(t) == r@ ==> t == text@,
{
    base64::Engine::encode(&base64::engine::general_purpose::URL_SAFE_NO_PAD, text)
}

/// A checkpoint stem component: the text encoded as unpadded URL-safe base64.
pub fn ckpt_component(s: &str) -> (r: String)
    requires
        s@.len() <= usize::MAX / 8,
    ensures
        r@ == base64_url_nopad(s@),
        forall|i: int| 0 <= i < r@.len() ==> is_url_safe_char(#[trigger] r@[i]),
        forall|t: Seq<char>| #[trigger] base64_url_nopad(t) == r@ ==> t == s@,
{
    encode_url_safe_no_pad(s)
}

fn name_with_version(prefix: &str, suffix: &str) -> (r: String)
    ensures
        r@ == prefix@ + version_text() + suffix@,
{
    let mut r = owned(prefix);
    push_decimal(&mut r, PTYD_PROTOCOL_VERSION as u64);
    r.append(suffix);
    r
}

fn under_home(home: &str, parts: Vec<String>) -> (p: HomePath)
    ensures
        p@.home == home@,
        p@.parts == parts@.map_values(|s: String| s@),
{
    HomePath { home: owned(home), parts }
}

/// `<home>/run`.
pub fn run_dir(home: &str) -> (p: HomePath)
    ensures
        p@ == (HomePathView { home: home@, parts: seq!["run"@] }),
{
    let parts = vec![owned("run")];
    let p = under_home(home, parts);
    assert(p@.parts =~= seq!["run"@]);
    p
}

fn run_file(home: &str, name: String) -> (p: HomePath)
    ensures
        p@ == (HomePathView { home: home@, parts: seq!["run"@, name@] }),
{
    let parts = vec![owned("run"), name];
    let p = under_home(home, parts);
    assert(p@.parts =~= seq!["run"@, name@]);
    p
}

/// The daemon control socket: `<home>/run/ptyd-p<N>.sock`.
pub fn control_socket_path(home: &str) -> (p: HomePath)
    ensures
        p@ == (HomePathView { home: home@, parts: seq!["run"@, control_socket_name()] }),
{
    proof {
        reveal_strlit("ptyd-p");
        reveal_strlit(".sock");
    }
    run_file(home, name_with_version("ptyd-p", ".sock"))
}

/// The daemon stream (tee) socket: `<home>/run/ptyd-p<N>-stream.sock`.
pub fn stream_socket_path(home: &str) -> (p: HomePath)
    ensures
        p@ == (HomePathView { home: home@, parts: seq!["run"@, stream_socket_name()] }),
{
    run_file(home, name_with_version("ptyd-p", "-stream.sock"))
}

/// The daemon token: `<home>/run/ptyd-p<N>.token`.
pub fn token_path(home: &str) -> (p: HomePath)
    ensures
        p@ == (HomePathView { home: home@, parts: seq!["run"@, token_name()] }),
{
    run_file(home, name_with_version("ptyd-p", ".token"))
}

/// The contract-keyed service socket: `<home>/run/soksak-sidecar-terminal-p<N>.sock`.
/// It names no engine, so every engine unit probes the same path (one per contract).
pub fn service_socket_path(home: &str) -> (p: HomePath)
    ensures
        p@ == (HomePathView { home: home@, parts: seq!["run"@, service_socket_name()] }),
{
    run_file(home, name_with_version("soksak-sidecar-terminal-p", ".sock"))
}

/// The service log: `<home>/run/soksak-sidecar-terminal-p<N>.log`.
pub fn service_log_path(home: &str) -> (p: HomePath)
    ensures
        p@ == (HomePathView { home: home@, parts: seq!["run"@, service_log_name()] }),
{
    run_file(home, name_with_version("soksak-sidecar-terminal-p", ".log"))
}

/// `<home>/pty/checkpoints`.
pub fn checkpoint_dir(home: &str) -> (p: HomePath)
    ensures
        p@ == (HomePathView { home: home@, parts: seq!["pty"@, "checkpoints"@] }),
{
    let parts = vec![owned("pty"), owned("checkpoints")];
    let p = under_home(home, parts);
    assert(p@.parts =~= seq!["pty"@, "checkpoints"@]);
    p
}

/// The sealed checkpoint file name for already encoded window and pane components.
pub open spec fn checkpoint_name(window_part: Seq<char>, pane_part: Seq<char>) -> Seq<char> {
    "ckpt-"@ + window_part + "."@ + pane_part + ".json"@
}

/// The sealed checkpoint file the daemon's StoreBlob writes for a pane:
/// `<home>/pty/checkpoints/ckpt-<b64url(window)>.<b64url(pane)>.json`.
pub fn checkpoint_path(home: &str, window_label: &str, pane_id: &str) -> (p: HomePath)
    requires
        window_label@.len() <= usize::MAX / 8,
        pane_id@.len() <= usize::MAX / 8,
    ensures
        p@ == (HomePathView {
            home: home@,
            parts: seq![
                "pty"@,
                "checkpoints"@,
                checkpoint_name(base64_url_nopad(window_label@), base64_url_nopad(pane_id@)),
            ],
        }),
        forall|w: Seq<char>, pn: Seq<char>|
            #[trigger] checkpoint_name(base64_url_nopad(w), base64_url_nopad(pn)) == p@.parts[2]
                ==> w == window_label@ && pn == pane_id@,
        forall|i: int| 0 <= i < p@.parts[2].len() ==> (#[trigger] p@.parts[2][i]) != '/'
            && p@.parts[2][i] != '\\',
{
    let w = ckpt_component(window_label);
    let pn = ckpt_component(pane_id);
    let mut name = owned("ckpt-");
    name.append(w.as_str());
    name.append(".");
    name.append(pn.as_str());
    name.append(".json");
    let parts = vec![owned("pty"), owned("checkpoints"), name];
    let p = under_home(home, parts);
    assert(p@.parts =~= seq![
        "pty"@,
        "checkpoints"@,
        checkpoint_name(base64_url_nopad(window_label@), base64_url_nopad(pane_id@)),
    ]);
    proof {
        let wv = base64_url_nopad(window_label@);
        let pv = base64_url_nopad(pane_id@);
        assert forall|i: int| 0 <= i < wv.len() implies wv[i] != '.' by {
            assert(is_url_safe_char(w@[i]));
        }
        assert forall|i: int| 0 <= i < pv.len() implies pv[i] != '.' by {
            assert(is_url_safe_char(pn@[i]));
        }
        assert forall|x: Seq<char>, y: Seq<char>|
            #[trigger] checkpoint_name(base64_url_nopad(x), base64_url_nopad(y)) == p@.parts[2]
            implies x == window_label@ && y == pane_id@ by {
            lemma_checkpoint_name_injective(wv, pv, base64_url_nopad(x), base64_url_nopad(y));
        }
        lemma_checkpoint_name_no_separator(wv, pv);
    }
    p
}

/// A checkpoint file name built from URL-safe components holds no path separator, so it
/// names a file directly inside the checkpoint directory.
proof fn lemma_checkpoint_name_no_separator(wv: Seq<char>, pv: Seq<char>)
    requires
        forall|i: int| 0 <= i < wv.len() ==> is_url_safe_char(#[trigger] wv[i]),
        forall|i: int| 0 <= i < pv.len() ==> is_url_safe_char(#[trigger] pv[i]),
    ensures
        forall|i: int| 0 <= i < checkpoint_name(wv, pv).len() ==> (#[trigger] checkpoint_name(wv, pv)[i])
            != '/' && checkpoint_name(wv, pv)[i] != '\\',
{
    reveal_strlit("ckpt-");
    reveal_strlit(".");
    reveal_strlit(".json");
    let n = checkpoint_name(wv, pv);
    assert forall|i: int| 0 <= i < n.len() implies n[i] != '/' && n[i] != '\\' by {
        if 5 <= i < 5 + wv.len() {
            assert(n[i] == wv[i - 5]);
        } else if 5 + wv.len() + 1 <= i < 5 + wv.len() + 1 + pv.len() {
            assert(n[i] == pv[i - 5 - wv.len() - 1]);
        }
    }
}

/// The checkpoint stem is unambiguous: when one name's components hold no `.` (as
/// base64url output never does), any name spelled the same has the same components.
pub proof fn lemma_checkpoint_name_injective(w1: Seq<char>, p1: Seq<char>, w2: Seq<char>, p2: Seq<char>)
    requires
        forall|i: int| 0 <= i < w1.len() ==> w1[i] != '.',
        forall|i: int| 0 <= i < p1.len() ==> p1[i] != '.',
        checkpoint_name(w1, p1) == checkpoint_name(w2, p2),
    ensures
        w1 == w2,
        p1 == p2,
{
    reveal_strlit("ckpt-");
    reveal_strlit(".");
    reveal_strlit(".json");
    let n1 = checkpoint_name(w1, p1);
    let n2 = checkpoint_name(w2, p2);
    assert(n1.len() == 5 + w1.len() + 1 + p1.len() + 5);
    // The first `.` after the prefix ends the window component.
    assert(n2.len() == 5 + w2.len() + 1 + p2.len() + 5);
    if w1.len() < w2.len() {
        // The separator of the second name falls inside the first name's pane component.
        let k = w2.len() - w1.len() - 1;
        assert(n2[5 + w2.len() as int] == '.');
        assert(n1[5 + w1.len() + 1 + k] == p1[k]);
        assert(false);
    }
    if w2.len() < w1.len() {
        assert(n2[5 + w2.len() as int] == '.');
        assert(n1[5 + w2.len() as int] == w1[w2.len() as int]);
        assert(false);
    }
    assert(w1.len() == w2.len());
    assert forall|i: int| 0 <= i < w1.len() implies w1[i] == w2[i] by {
        assert(n1[5 + i] == w1[i]);
        assert(n2[5 + i] == w2[i]);
    }
    assert(w1 =~= w2);
    assert(p1.len() == p2.len());
    assert forall|i: int| 0 <= i < p1.len() implies p1[i] == p2[i] by {
        assert(n1[5 + w1.len() + 1 + i] == p1[i]);
        assert(n2[5 + w2.len() + 1 + i] == p2[i]);
    }
    assert(p1 =~= p2);
}

/// The hello a client sends to the daemon's control or stream socket. The session and the
/// subscribe flag go on the wire only when set.
pub struct DaemonHello {
    pub version: u32,
    pub token: String,
    pub client_id: String,
    pub session: Option<u64>,
    pub subscribe: bool,
}

/// Builds the daemon hello.
pub fn hello(token: &str, session: Option<u64>, subscribe: bool) -> (h: DaemonHello)
    ensures
        h.version == PTYD_PROTOCOL_VERSION,
        h.token@ == token@,
        h.client_id@ == client_id_spec(),
        h.session == session,
        h.subscribe == subscribe,
{
    DaemonHello { version: PTYD_PROTOCOL_VERSION, token: owned(token), client_id: client_id(), session, subscribe }
}

/// The fields of a reply envelope that the envelope check reads: `ok` as a boolean,
/// `code` and `message` as strings (absent or of another type: none).
pub struct Envelope {
    pub ok: Option<bool>,
    pub code: Option<String>,
    pub message: Option<String>,
}

pub open spec fn opt_text_or(o: Option<String>, fallback: Seq<char>) -> Seq<char> {
    match o {
        Some(s) => s@,
        None => fallback,
    }
}

/// The error text of a refused envelope: `<code>: <message>`.
pub open spec fn refusal_text(env: Envelope) -> Seq<char> {
    opt_text_or(env.code, "ERR"@) + ": "@ + opt_text_or(env.message, "(no message)"@)
}

fn text_or(o: &Option<String>, fallback: &str) -> (r: String)
    ensures
        r@ == opt_text_or(*o, fallback@),
{
    match o {
        Some(s) => s.clone(),
        None => owned(fallback),
    }
}

/// The envelope check: accepted only when `ok` is `true`; otherwise the code and message
/// folded into one error text.
pub fn require_ok(reply: &Envelope) -> (r: Result<(), String>)
    ensures
        r is Ok <==> reply.ok == Some(true),
        r matches Err(e) ==> e@ == refusal_text(*reply),
{
    if let Some(true) = reply.ok {
        return Ok(());
    }
    let code = text_or(&reply.code, "ERR");
    let msg = text_or(&reply.message, "(no message)");
    Err(join3(code.as_str(), ": ", msg.as_str()))
}

} // verus!
