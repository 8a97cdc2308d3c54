//! The daemon peering surface as plain values: tee frames and their length-prefixed
//! encoding, the readers of the daemon's control replies (session list, subscribe
//! acknowledgement), the sealed blob push request and the token file contents.
use vstd::prelude::*;
use crate::proto::{require_ok, refusal_text, Envelope, TEE_FRAME_DATA, TEE_FRAME_GAP};
use crate::text::{decimal, join2, push_decimal, owned, trim, trimmed};

verus! {

/// A tee frame: a raw copy of PTY output, or a backpressure loss marker over
/// `[from_seq, to_seq)`.
#[derive(Debug, Clone, PartialEq, Eq)]
pub enum TeeFrame {
    Data(Vec<u8>),
    Gap { from_seq: u64, to_seq: u64 },
}

/// The abstract value of a [`TeeFrame`].
pub enum TeeFrameView {
    Data(Seq<u8>),
    Gap { from_seq: u64, to_seq: u64 },
}

impl View for TeeFrame {
    type V = TeeFrameView;

    open spec fn view(&self) -> TeeFrameView {
        match self {
            TeeFrame::Data(bytes) => TeeFrameView::Data(bytes@),
            TeeFrame::Gap { from_seq, to_seq } => TeeFrameView::Gap {
                from_seq: *from_seq,
                to_seq: *to_seq,
            },
        }
    }
}

/// The big-endian bytes of `n`.
pub open spec fn be32(n: u32) -> Seq<u8> {
    seq![(n >> 24u32) as u8, (n >> 16u32) as u8, (n >> 8u32) as u8, n as u8]
}

/// The number whose big-endian bytes are `b`.
pub open spec fn from_be32(b: Seq<u8>) -> u32 {
    ((b[0] as u32) << 24u32) | ((b[1] as u32) << 16u32) | ((b[2] as u32) << 8u32) | (b[3] as u32)
}

/// One encoded frame: `[kind][len: u32 big-endian][payload]`. The length field holds the
/// payload length truncated to 32 bits.
pub open spec fn encoded_frame(kind: u8, payload: Seq<u8>) -> Seq<u8> {
    seq![kind] + be32(payload.len() as u32) + payload
}

/// Appends one encoded tee frame to `out`, in the daemon's framing.
pub fn encode_frame(kind: u8, payload: &[u8], out: &mut Vec<u8>)
    ensures
        final(out)@ == old(out)@ + encoded_frame(kind, payload@),
{
    let n = payload.len() as u32;
    out.push(kind);
    out.push((n >> 24u32) as u8);
    out.push((n >> 16u32) as u8);
    out.push((n >> 8u32) as u8);
    out.push(n as u8);
    let ghost before = out@;
    let mut i: usize = 0;
    while i < payload.len()
        invariant
            i <= payload@.len(),
            out@ == before + payload@.subrange(0, i as int),
        decreases payload@.len() - i,
    {
        out.push(payload[i]);
        i = i + 1;
        assert(out@ =~= before + payload@.subrange(0, i as int));
    }
    assert(payload@.subrange(0, payload@.len() as int) =~= payload@);
    assert(final(out)@ =~= old(out)@ + encoded_frame(kind, payload@));
}

/// The payload length announced by a frame header's four length bytes.
pub fn frame_length(len_be: [u8; 4]) -> (n: u32)
    ensures
        n == from_be32(len_be@),
{
    ((len_be[0] as u32) << 24u32) | ((len_be[1] as u32) << 16u32) | ((len_be[2] as u32) << 8u32)
        | (len_be[3] as u32)
}

/// The length field of an encoded frame reads back as the payload length, whenever that
/// length fits the 32-bit field; the body after the header is the payload, so an encoded
/// data frame decodes back to its bytes.
pub proof fn lemma_frame_length_round_trip(kind: u8, payload: Seq<u8>)
    requires
        payload.len() <= u32::MAX,
    ensures
        encoded_frame(kind, payload)[0] == kind,
        from_be32(encoded_frame(kind, payload).subrange(1, 5)) == payload.len(),
        encoded_frame(kind, payload).subrange(5, encoded_frame(kind, payload).len() as int)
            == payload,
        kind == TEE_FRAME_DATA ==> decoded_frame(
            encoded_frame(kind, payload)[0],
            encoded_frame(kind, payload).subrange(5, encoded_frame(kind, payload).len() as int),
        ) == Ok::<TeeFrameView, Seq<char>>(TeeFrameView::Data(payload)),
{
    let n = payload.len() as u32;
    let e = encoded_frame(kind, payload);
    let h = e.subrange(1, 5);
    assert(h =~= be32(n));
    assert(e.subrange(5, e.len() as int) =~= payload);
    let b0 = (n >> 24u32) as u8;
    let b1 = (n >> 16u32) as u8;
    let b2 = (n >> 8u32) as u8;
    let b3 = n as u8;
    assert((((b0 as u32) << 24u32) | ((b1 as u32) << 16u32) | ((b2 as u32) << 8u32) | (b3 as u32))
        == n) by (bit_vector)
        requires
            b0 == (n >> 24u32) as u8,
            b1 == (n >> 16u32) as u8,
            b2 == (n >> 8u32) as u8,
            b3 == n as u8,
    ;
}

/// What `serde_json` reads from a gap payload: the JSON document's `fromSeq` and `toSeq`
/// members as unsigned integers, or the parse error's text.
pub uninterp spec fn gap_payload_fields(payload: Seq<u8>) -> Result<(Option<u64>, Option<u64>), Seq<char>>;

/// Calls `serde_json::from_slice::<serde_json::Value>` on a gap payload and reads its
/// `fromSeq` / `toSeq` members with `Value::get` and `Value::as_u64`. The result is named
/// by [`gap_payload_fields`]; nothing more about the parser is claimed.
#[verifier::external_body]
fn read_gap_payload(payload: &[u8]) -> (r: Result<(Option<u64>, Option<u64>), String>)
    ensures
        match r {
            Ok(fields) => gap_payload_fields(payload@) == Ok::<(Option<u64>, Option<u64>), Seq<char>>(fields),
            Err(e) => gap_payload_fields(payload@) == Err::<(Option<u64>, Option<u64>), Seq<char>>(e@),
        },
{
    match serde_json::from_slice::<serde_json::Value>(payload) {
        Ok(v) => Ok((
            v.get("fromSeq").and_then(serde_json::Value::as_u64),
            v.get("toSeq").and_then(serde_json::Value::as_u64),
        )),
        Err(e) => Err(e.to_string()),
    }
}

/// The frame a gap payload decodes to, given what the JSON reader saw in it.
pub open spec fn gap_frame(fields: Result<(Option<u64>, Option<u64>), Seq<char>>) -> Result<TeeFrameView, Seq<char>> {
    match fields {
        Err(e) => Err("gap payload: "@ + e),
        Ok((None, _)) => Err("gap: no fromSeq"@),
        Ok((Some(_), None)) => Err("gap: no toSeq"@),
        Ok((Some(from_seq), Some(to_seq))) => Ok(TeeFrameView::Gap { from_seq, to_seq }),
    }
}

/// Decodes the result of the JSON reader on a gap payload.
pub fn gap_frame_of(fields: Result<(Option<u64>, Option<u64>), String>) -> (r: Result<TeeFrame, String>)
    ensures
        match (r, fields) {
            (Ok(f), Ok(x)) => gap_frame(Ok(x)) == Ok::<TeeFrameView, Seq<char>>(f@),
            (Err(e), Ok(x)) => gap_frame(Ok(x)) == Err::<TeeFrameView, Seq<char>>(e@),
            (Ok(f), Err(m)) => false,
            (Err(e), Err(m)) => gap_frame(Err(m@)) == Err::<TeeFrameView, Seq<char>>(e@),
        },
{
    match fields {
        Err(m) => Err(join2("gap payload: ", m.as_str())),
        Ok((None, _)) => Err(owned("gap: no fromSeq")),
        Ok((Some(_), None)) => Err(owned("gap: no toSeq")),
        Ok((Some(from_seq), Some(to_seq))) => Ok(TeeFrame::Gap { from_seq, to_seq }),
    }
}

/// The frame `kind` and `payload` decode to: data frames carry the payload, gap frames
/// carry the JSON reader's `fromSeq`/`toSeq`, any other kind is refused.
pub open spec fn decoded_frame(kind: u8, payload: Seq<u8>) -> Result<TeeFrameView, Seq<char>> {
    if kind == TEE_FRAME_DATA {
        Ok(TeeFrameView::Data(payload))
    } else if kind == TEE_FRAME_GAP {
        gap_frame(gap_payload_fields(payload))
    } else {
        Err("unknown tee frame kind "@ + decimal(kind as nat))
    }
}

/// Decodes a frame body (kind + payload).
pub fn decode_frame(kind: u8, payload: &[u8]) -> (r: Result<TeeFrame, String>)
    ensures
        match r {
            Ok(f) => decoded_frame(kind, payload@) == Ok::<TeeFrameView, Seq<char>>(f@),
            Err(e) => decoded_frame(kind, payload@) == Err::<TeeFrameView, Seq<char>>(e@),
        },
{
    if kind == TEE_FRAME_DATA {
        Ok(TeeFrame::Data(vstd::slice::slice_to_vec(payload)))
    } else if kind == TEE_FRAME_GAP {
        gap_frame_of(read_gap_payload(payload))
    } else {
        let mut m = owned("unknown tee frame kind ");
        push_decimal(&mut m, kind as u64);
        Err(m)
    }
}

/// The refusal of a tee stream that ends inside a frame.
pub open spec fn truncated_frame_message() -> Seq<char> {
    "tee stream ended inside a frame"@
}

/// What a tee stream reads as, given the bytes it still delivers before it ends (or at
/// least through its next whole frame): nothing at a clean end between frames; a refusal
/// when it ends inside a frame's header or payload; otherwise the next frame, decoded, and
/// the number of bytes it took.
pub open spec fn stream_frame(bytes: Seq<u8>) -> Result<Option<(TeeFrameView, int)>, Seq<char>> {
    if bytes.len() == 0 {
        Ok(None)
    } else if bytes.len() < 5 {
        Err(truncated_frame_message())
    } else {
        let n = from_be32(bytes.subrange(1, 5)) as int;
        if bytes.len() < 5 + n {
            Err(truncated_frame_message())
        } else {
            match decoded_frame(bytes[0], bytes.subrange(5, 5 + n)) {
                Ok(f) => Ok(Some((f, 5 + n))),
                Err(e) => Err(e),
            }
        }
    }
}

/// Reads the next frame off the bytes a tee stream delivers.
pub fn read_stream_frame(bytes: &[u8]) -> (r: Result<Option<(TeeFrame, usize)>, String>)
    ensures
        match r {
            Ok(None) => stream_frame(bytes@) == Ok::<Option<(TeeFrameView, int)>, Seq<char>>(None),
            Ok(Some((f, used))) => stream_frame(bytes@) == Ok::<Option<(TeeFrameView, int)>, Seq<char>>(
                Some((f@, used as int)),
            ),
            Err(e) => stream_frame(bytes@) == Err::<Option<(TeeFrameView, int)>, Seq<char>>(e@),
        },
{
    if bytes.len() == 0 {
        return Ok(None);
    }
    if bytes.len() < 5 {
        return Err(owned("tee stream ended inside a frame"));
    }
    let len_be: [u8; 4] = [bytes[1], bytes[2], bytes[3], bytes[4]];
    assert(len_be@ =~= bytes@.subrange(1, 5));
    let n = frame_length(len_be) as usize;
    if bytes.len() - 5 < n {
        return Err(owned("tee stream ended inside a frame"));
    }
    let payload = vstd::slice::slice_subrange(bytes, 5, 5 + n);
    match decode_frame(bytes[0], payload) {
        Ok(f) => Ok(Some((f, 5 + n))),
        Err(e) => Err(e),
    }
}

/// The stream's end rule: an end between frames is clean, an end anywhere inside an
/// encoded frame is refused, and a whole data frame at the front of the stream reads back
/// as its payload, whatever follows it.
pub proof fn lemma_stream_end_rule(kind: u8, payload: Seq<u8>, k: int, rest: Seq<u8>)
    requires
        payload.len() <= u32::MAX,
        0 < k < encoded_frame(kind, payload).len(),
    ensures
        stream_frame(seq![]) == Ok::<Option<(TeeFrameView, int)>, Seq<char>>(None),
        stream_frame(encoded_frame(kind, payload).subrange(0, k)) == Err::<
            Option<(TeeFrameView, int)>,
            Seq<char>,
        >(truncated_frame_message()),
        kind == TEE_FRAME_DATA ==> stream_frame(encoded_frame(kind, payload) + rest) == Ok::<
            Option<(TeeFrameView, int)>,
            Seq<char>,
        >(Some((TeeFrameView::Data(payload), encoded_frame(kind, payload).len() as int))),
{
    let e = encoded_frame(kind, payload);
    lemma_frame_length_round_trip(kind, payload);
    let pre = e.subrange(0, k);
    if k >= 5 {
        assert(pre.subrange(1, 5) =~= e.subrange(1, 5));
    }
    let whole = e + rest;
    assert(whole.subrange(1, 5) =~= e.subrange(1, 5));
    assert(whole.subrange(5, 5 + payload.len() as int) =~= e.subrange(5, e.len() as int));
    assert(whole[0] == e[0]);
}

/// A live daemon session: which tee to subscribe to.
#[derive(Debug, Clone)]
pub struct SessionInfo {
    pub session: u64,
    pub pane_id: String,
    pub window_label: Option<String>,
}

/// One entry of a session list as the reader sees it: `session` as an unsigned integer,
/// `paneId` and `windowLabel` as strings (absent or of another type: none).
pub struct RawSession {
    pub session: Option<u64>,
    pub pane_id: Option<String>,
    pub window_label: Option<String>,
}

/// A `listSessions` reply: its envelope, and the `data.sessions` array when it is one.
pub struct SessionsReply {
    pub envelope: Envelope,
    pub sessions: Option<Vec<RawSession>>,
}

/// The abstract value of a session: (session id, pane id, window label).
pub open spec fn session_view(s: SessionInfo) -> (u64, Seq<char>, Option<Seq<char>>) {
    (s.session, s.pane_id@, match s.window_label { Some(w) => Some(w@), None => None })
}

/// The entries that carry both a session id and a pane id, in order.
pub open spec fn listed_sessions(raw: Seq<RawSession>) -> Seq<(u64, Seq<char>, Option<Seq<char>>)>
    decreases raw.len(),
{
    if raw.len() == 0 {
        seq![]
    } else {
        let rest = listed_sessions(raw.drop_last());
        let s = raw.last();
        match (s.session, s.pane_id) {
            (Some(id), Some(pane)) => rest.push(
                (id, pane@, match s.window_label { Some(w) => Some(w@), None => None }),
            ),
            _ => rest,
        }
    }
}

/// Reads the live sessions out of a `listSessions` reply.
pub fn sessions_of_reply(reply: &SessionsReply) -> (r: Result<Vec<SessionInfo>, String>)
    ensures
        reply.envelope.ok != Some(true) ==> (r matches Err(e) && e@ == refusal_text(reply.envelope)),
        reply.envelope.ok == Some(true) && reply.sessions is None ==> (r matches Err(e) && e@
            == "listSessions: no sessions array"@),
        reply.envelope.ok == Some(true) && reply.sessions is Some ==> (r matches Ok(v) && v@.map_values(
            |s: SessionInfo| session_view(s),
        ) == listed_sessions(reply.sessions.unwrap()@)),
{
    if let Err(e) = require_ok(&reply.envelope) {
        return Err(e);
    }
    let raw = match &reply.sessions {
        Some(v) => v,
        None => return Err(owned("listSessions: no sessions array")),
    };
    let mut out: Vec<SessionInfo> = Vec::new();
    let mut i: usize = 0;
    while i < raw.len()
        invariant
            i <= raw@.len(),
            out@.map_values(|s: SessionInfo| session_view(s)) == listed_sessions(
                raw@.subrange(0, i as int),
            ),
        decreases raw@.len() - i,
    {
        let s = &raw[i];
        assert(raw@.subrange(0, i + 1).drop_last() =~= raw@.subrange(0, i as int));
        match (&s.session, &s.pane_id) {
            (Some(id), Some(pane)) => {
                let window_label = match &s.window_label {
                    Some(w) => Some(w.clone()),
                    None => None,
                };
                out.push(SessionInfo { session: *id, pane_id: pane.clone(), window_label });
            },
            _ => {},
        }
        i = i + 1;
        assert(out@.map_values(|s: SessionInfo| session_view(s)) =~= listed_sessions(
            raw@.subrange(0, i as int),
        ));
    }
    assert(raw@.subrange(0, raw@.len() as int) =~= raw@);
    Ok(out)
}

/// What base64 (standard alphabet, padded) produces for `data`.
pub uninterp spec fn base64_standard(data: Seq<u8>) -> Seq<char>;

/// What base64 (standard alphabet, padded) decodes `text` to, or none when the crate
/// rejects it.
pub uninterp spec fn base64_standard_decoded(text: Seq<char>) -> Option<Seq<u8>>;

/// Calls `base64::engine::general_purpose::STANDARD.encode`; the result is named by
/// [`base64_standard`]. The requirement keeps the crate's output-length computation from
/// overflowing.
#[verifier::external_body]
pub(crate) fn encode_standard(data: &[u8]) -> (r: String)
    requires
        data@.len() <= usize::MAX / 2,
    ensures
        r@ == base64_standard(data@),
{
    base64::Engine::encode(&base64::engine::general_purpose::STANDARD, data)
}

/// Calls `base64::engine::general_purpose::STANDARD.decode`, keeping the decoded bytes and
/// dropping the error; the result is named by [`base64_standard_decoded`].
#[verifier::external_body]
fn decode_standard(text: &str) -> (r: Option<Vec<u8>>)
    ensures
        match r {
            Some(v) => base64_standard_decoded(text@) == Some(v@),
            None => base64_standard_decoded(text@) is None,
        },
{
    base64::Engine::decode(&base64::engine::general_purpose::STANDARD, text).ok()
}

/// A subscribe acknowledgement as the reader sees it: its envelope, `data.startSeq` as
/// an unsigned integer and `data.seedB64` as a string.
pub struct SubscribeAck {
    pub envelope: Envelope,
    pub start_seq: Option<u64>,
    pub seed_b64: Option<String>,
}

/// The seed a subscribe acknowledgement carries: the decoded backlog, or nothing when
/// it is absent or does not decode.
pub open spec fn ack_seed(seed_b64: Option<String>) -> Seq<u8> {
    match seed_b64 {
        Some(s) => match base64_standard_decoded(s@) {
            Some(bytes) => bytes,
            None => seq![],
        },
        None => seq![],
    }
}

/// Reads a subscribe acknowledgement: the daemon ring head at subscription (`0` from a
/// daemon that does not send it) and the retained backlog seed (empty when absent).
pub fn subscribe_ack(ack: &SubscribeAck) -> (r: Result<(u64, Vec<u8>), String>)
    ensures
        ack.envelope.ok != Some(true) ==> (r matches Err(e) && e@ == refusal_text(ack.envelope)),
        ack.envelope.ok == Some(true) ==> (r matches Ok((start, seed)) && start == match ack.start_seq {
            Some(s) => s,
            None => 0,
        } && seed@ == ack_seed(ack.seed_b64)),
{
    if let Err(e) = require_ok(&ack.envelope) {
        return Err(e);
    }
    let start = match ack.start_seq {
        Some(s) => s,
        None => 0,
    };
    let seed = match &ack.seed_b64 {
        Some(s) => match decode_standard(s.as_str()) {
            Some(bytes) => bytes,
            None => Vec::new(),
        },
        None => Vec::new(),
    };
    Ok((start, seed))
}

/// A sealed blob push: the daemon seals and writes it atomically; the sidecar never
/// touches the key.
pub struct StoreBlobRequest {
    pub window_label: Option<String>,
    pub pane_id: String,
    pub bytes_b64: String,
}

/// Builds the `storeBlob` request for a pane's paint.
pub fn store_blob_request(window_label: Option<&str>, pane_id: &str, bytes: &[u8]) -> (r: StoreBlobRequest)
    requires
        bytes@.len() <= usize::MAX / 2,
    ensures
        match (r.window_label, window_label) {
            (Some(a), Some(b)) => a@ == b@,
            (None, None) => true,
            _ => false,
        },
        r.pane_id@ == pane_id@,
        r.bytes_b64@ == base64_standard(bytes@),
{
    let window_label = match window_label {
        Some(w) => Some(owned(w)),
        None => None,
    };
    StoreBlobRequest { window_label, pane_id: owned(pane_id), bytes_b64: encode_standard(bytes) }
}

/// The daemon token held by a token file: its contents without surrounding white space,
/// or none when nothing remains.
pub fn parse_token(contents: &str) -> (r: Option<String>)
    ensures
        match r {
            Some(t) => t@ == trim(contents@) && t@.len() > 0,
            None => trim(contents@).len() == 0,
        },
{
    let t = trimmed(contents);
    if t.as_str().unicode_len() == 0 {
        None
    } else {
        Some(t)
    }
}

} // verus!
