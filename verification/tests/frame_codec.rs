use soksak_sidecar_terminal_wezterm::frame::{
    decode_frame, encode_frame, frame_length, parse_token, read_stream_frame, sessions_of_reply, store_blob_request,
    subscribe_ack, RawSession, SessionsReply, SubscribeAck, TeeFrame,
};
use soksak_sidecar_terminal_wezterm::proto::{Envelope, TEE_FRAME_DATA, TEE_FRAME_GAP};

fn ok_envelope() -> Envelope {
    Envelope { ok: Some(true), code: Some("OK".to_string()), message: None }
}

// Frame decoding is the core of the consumer contract: data and gap frames round-trip.
#[test]
fn data_and_gap_frames_round_trip() {
    assert_eq!(
        decode_frame(TEE_FRAME_DATA, b"hello").unwrap(),
        TeeFrame::Data(b"hello".to_vec())
    );
    let gap = br#"{"fromSeq":10,"toSeq":25}"#;
    assert_eq!(
        decode_frame(TEE_FRAME_GAP, gap).unwrap(),
        TeeFrame::Gap { from_seq: 10, to_seq: 25 }
    );
}

#[test]
fn unknown_frame_kind_is_a_loud_error() {
    assert!(decode_frame(9, b"").is_err(), "unknown kind must not be silently dropped");
}

// What the daemon-format encoder writes, the length-prefixed reader reads back.
#[test]
fn length_prefix_framing_parses_encoder_output() {
    let mut buf = Vec::new();
    encode_frame(TEE_FRAME_DATA, b"ab", &mut buf);
    encode_frame(TEE_FRAME_DATA, b"", &mut buf);
    let gap = br#"{"fromSeq":1,"toSeq":4}"#;
    encode_frame(TEE_FRAME_GAP, gap, &mut buf);

    // The same reading loop as the socket reader, over memory.
    let mut pos = 0usize;
    let mut frames = Vec::new();
    while pos < buf.len() {
        let kind = buf[pos];
        let len_be = [buf[pos + 1], buf[pos + 2], buf[pos + 3], buf[pos + 4]];
        let len = frame_length(len_be) as usize;
        let payload = &buf[pos + 5..pos + 5 + len];
        frames.push(decode_frame(kind, payload).unwrap());
        pos += 5 + len;
    }
    assert_eq!(
        frames,
        vec![
            TeeFrame::Data(b"ab".to_vec()),
            TeeFrame::Data(vec![]),
            TeeFrame::Gap { from_seq: 1, to_seq: 4 },
        ]
    );
}

#[test]
fn encoded_frame_has_kind_big_endian_length_and_payload() {
    let mut buf = vec![0xAA];
    encode_frame(TEE_FRAME_GAP, &[7u8; 258], &mut buf);
    assert_eq!(&buf[..6], &[0xAA, 1, 0, 0, 1, 2]);
    assert_eq!(buf.len(), 1 + 5 + 258);
    assert_eq!(frame_length([0, 0, 1, 2]), 258);
    assert_eq!(frame_length([0x12, 0x34, 0x56, 0x78]), 0x1234_5678);
}

#[test]
fn malformed_gap_payloads_are_errors_with_their_reason() {
    let no_from = decode_frame(TEE_FRAME_GAP, br#"{"toSeq":4}"#).unwrap_err();
    assert_eq!(no_from, "gap: no fromSeq");
    let no_to = decode_frame(TEE_FRAME_GAP, br#"{"fromSeq":4}"#).unwrap_err();
    assert_eq!(no_to, "gap: no toSeq");
    let not_json = decode_frame(TEE_FRAME_GAP, b"nope").unwrap_err();
    assert!(not_json.starts_with("gap payload: "), "{not_json}");
    assert_eq!(decode_frame(9, b"").unwrap_err(), "unknown tee frame kind 9");
    assert_eq!(decode_frame(200, b"x").unwrap_err(), "unknown tee frame kind 200");
}

#[test]
fn session_list_keeps_entries_with_session_and_pane() {
    let reply = SessionsReply {
        envelope: ok_envelope(),
        sessions: Some(vec![
            RawSession { session: Some(3), pane_id: Some("v1".into()), window_label: Some("w-1".into()) },
            RawSession { session: None, pane_id: Some("v2".into()), window_label: None },
            RawSession { session: Some(5), pane_id: None, window_label: None },
            RawSession { session: Some(7), pane_id: Some("v3".into()), window_label: None },
        ]),
    };
    let list = sessions_of_reply(&reply).unwrap();
    assert_eq!(list.len(), 2);
    assert_eq!((list[0].session, list[0].pane_id.as_str()), (3, "v1"));
    assert_eq!(list[0].window_label.as_deref(), Some("w-1"));
    assert_eq!((list[1].session, list[1].pane_id.as_str()), (7, "v3"));
    assert_eq!(list[1].window_label, None);
}

#[test]
fn session_list_errors_are_loud() {
    let missing = SessionsReply { envelope: ok_envelope(), sessions: None };
    assert_eq!(sessions_of_reply(&missing).unwrap_err(), "listSessions: no sessions array");
    let refused = SessionsReply {
        envelope: Envelope { ok: Some(false), code: Some("UNAUTHORIZED".into()), message: Some("bad token".into()) },
        sessions: Some(vec![]),
    };
    assert_eq!(sessions_of_reply(&refused).unwrap_err(), "UNAUTHORIZED: bad token");
}

#[test]
fn subscribe_ack_reads_start_seq_and_seed() {
    let ack = SubscribeAck {
        envelope: ok_envelope(),
        start_seq: Some(42),
        seed_b64: Some("aGVsbG8=".into()),
    };
    let (start, seed) = subscribe_ack(&ack).unwrap();
    assert_eq!(start, 42);
    assert_eq!(seed, b"hello".to_vec());
}

#[test]
fn subscribe_ack_from_an_older_daemon_defaults_to_zero_and_no_seed() {
    let ack = SubscribeAck { envelope: ok_envelope(), start_seq: None, seed_b64: None };
    assert_eq!(subscribe_ack(&ack).unwrap(), (0, vec![]));
    let bad_seed = SubscribeAck { envelope: ok_envelope(), start_seq: Some(3), seed_b64: Some("%%%".into()) };
    assert_eq!(subscribe_ack(&bad_seed).unwrap(), (3, vec![]));
    let refused = SubscribeAck { envelope: Envelope { ok: None, code: None, message: None }, start_seq: None, seed_b64: None };
    assert_eq!(subscribe_ack(&refused).unwrap_err(), "ERR: (no message)");
}

#[test]
fn store_blob_request_carries_the_paint_in_standard_base64() {
    let r = store_blob_request(Some("w-1"), "v2", b"HELLO-STATUS\r\n");
    assert_eq!(r.window_label.as_deref(), Some("w-1"));
    assert_eq!(r.pane_id, "v2");
    assert_eq!(r.bytes_b64, "SEVMTE8tU1RBVFVTDQo=");
    let r = store_blob_request(None, "v2", b"");
    assert_eq!(r.window_label, None);
    assert_eq!(r.bytes_b64, "");
}

#[test]
fn token_file_contents_are_trimmed_and_must_not_be_empty() {
    assert_eq!(parse_token("  tok-123\n").as_deref(), Some("tok-123"));
    assert_eq!(parse_token("\u{3000}a b\t\r\n").as_deref(), Some("a b"));
    assert_eq!(parse_token(" \n\t "), None);
    assert_eq!(parse_token(""), None);
}

#[test]
fn a_stream_ending_between_frames_is_clean_and_inside_one_is_an_error() {
    assert_eq!(read_stream_frame(&[]), Ok(None));
    let mut wire = Vec::new();
    encode_frame(TEE_FRAME_DATA, b"abc", &mut wire);
    for k in 1..wire.len() {
        assert_eq!(
            read_stream_frame(&wire[..k]),
            Err("tee stream ended inside a frame".to_string()),
            "cut at {k}"
        );
    }
    encode_frame(TEE_FRAME_DATA, b"zz", &mut wire);
    assert_eq!(read_stream_frame(&wire), Ok(Some((TeeFrame::Data(b"abc".to_vec()), 8))));
    assert_eq!(read_stream_frame(&wire[8..]), Ok(Some((TeeFrame::Data(b"zz".to_vec()), 7))));
}

#[test]
fn a_stream_frame_of_another_kind_decodes_like_a_frame_body() {
    let mut wire = Vec::new();
    encode_frame(TEE_FRAME_GAP, br#"{"fromSeq":3,"toSeq":9}"#, &mut wire);
    let n = wire.len();
    assert_eq!(read_stream_frame(&wire), Ok(Some((TeeFrame::Gap { from_seq: 3, to_seq: 9 }, n))));
    let mut odd = Vec::new();
    encode_frame(7, b"", &mut odd);
    assert_eq!(read_stream_frame(&odd), Err("unknown tee frame kind 7".to_string()));
}
