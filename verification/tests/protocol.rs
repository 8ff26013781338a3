//! Frame parsing, signature checking, response envelopes and the session
//! lifecycle, exercised end to end on concrete wire bytes.

use std::io::Read;

use v1::codec::{binary_write_u16, binary_write_u32, binary_write_u64};
use v1::frame::{
    accept_frame, compute_signature, parse_frame, signature_valid, FrameError, ResponseContext,
};
use v1::session::{conclude_dispatch, reject_response, SessionState};
use v1::{MessageStateCode, RouterCode};

fn secret() -> Vec<u8> {
    b"F9B14CEC-60B6-810F-1FF7-8BAE688466AC".to_vec()
}

fn build_frame(code: u16, session_id: u64, timestamp: u64, body: &[u8], sign: u64) -> Vec<u8> {
    let mut req = Vec::new();
    binary_write_u16(&mut req, code);
    req.push(1u8);
    binary_write_u64(&mut req, session_id);
    binary_write_u64(&mut req, sign);
    binary_write_u64(&mut req, timestamp);
    binary_write_u32(&mut req, body.len() as u32);
    req.extend_from_slice(body);
    req
}

fn signed_frame(code: u16, session_id: u64, timestamp: u64, body: &[u8]) -> Vec<u8> {
    let sign = compute_signature(&secret(), timestamp, &body.to_vec());
    build_frame(code, session_id, timestamp, body, sign)
}

struct Envelope {
    code: u16,
    session_id: u64,
    state: u16,
    plain_len: u32,
    payload: Vec<u8>,
}

fn open_envelope(resp: &[u8]) -> Envelope {
    let code = u16::from_le_bytes([resp[0], resp[1]]);
    let session_id = u64::from_le_bytes(resp[2..10].try_into().unwrap());
    let state = u16::from_le_bytes([resp[10], resp[11]]);
    let plain_len = u32::from_le_bytes(resp[12..16].try_into().unwrap());
    let comp_len = u32::from_le_bytes(resp[16..20].try_into().unwrap()) as usize;
    assert_eq!(resp.len(), 20 + comp_len);
    let mut z = flate2::read::ZlibDecoder::new(&resp[20..]);
    let mut payload = Vec::new();
    z.read_to_end(&mut payload).unwrap();
    Envelope { code, session_id, state, plain_len, payload }
}

#[test]
fn well_formed_frame_is_accepted() {
    let body = vec![1u8, 2, 3, 4, 5, 6, 7, 8];
    let buf = signed_frame(2001, 782348283, 1599561154, &body);
    let msg = accept_frame(&buf, &secret()).unwrap();
    assert_eq!(msg.code, RouterCode::ConnectionState);
    assert_eq!(msg.version, 1);
    assert_eq!(msg.session_id, 782348283);
    assert_eq!(msg.body_len, 8);
    assert_eq!(msg.body, body);
}

#[test]
fn corrupted_signature_is_rejected() {
    let body = vec![9u8; 16];
    let sign = compute_signature(&secret(), 1599561154, &body);
    let buf = build_frame(2002, 55, 1599561154, &body, sign ^ 1);
    let reject = accept_frame(&buf, &secret()).unwrap_err();
    assert_eq!(reject.error, FrameError::SignatureMismatch);
    assert_eq!(reject.code, 2002);
    assert_eq!(reject.session_id, 55);
    assert_eq!(reject.error.message(), "invalid signature.");
}

#[test]
fn corrupted_body_fails_signature_check() {
    let body = vec![9u8; 16];
    let mut buf = signed_frame(2002, 55, 1599561154, &body);
    let last = buf.len() - 1;
    buf[last] ^= 0xff;
    let reject = accept_frame(&buf, &secret()).unwrap_err();
    assert_eq!(reject.error, FrameError::SignatureMismatch);
}

#[test]
fn truncated_headers_name_the_failing_field() {
    let full = signed_frame(2005, 7, 42, &[1, 2, 3]);
    let cases: Vec<(usize, FrameError)> = vec![
        (0, FrameError::Code),
        (1, FrameError::Code),
        (2, FrameError::Version),
        (3, FrameError::SessionId),
        (10, FrameError::SessionId),
        (11, FrameError::SignatureFormat),
        (19, FrameError::Timestamp),
        (27, FrameError::BodyLength),
        (31, FrameError::BodyTruncated),
        (33, FrameError::BodyTruncated),
    ];
    for (len, expected) in cases {
        let cut = full[..len].to_vec();
        let reject = parse_frame(&cut).unwrap_err();
        assert_eq!(reject.error, expected, "prefix of {} bytes", len);
    }
}

#[test]
fn signature_is_deterministic_and_input_sensitive() {
    let body = b"the quick brown fox".to_vec();
    let s1 = compute_signature(&secret(), 1599561154, &body);
    let s2 = compute_signature(&secret(), 1599561154, &body);
    assert_eq!(s1, s2);
    // changing the timestamp changes the signature
    assert_ne!(s1, compute_signature(&secret(), 1599561155, &body));
    // flipping any single byte of the body changes the signature
    for i in 0..body.len() {
        let mut mutated = body.clone();
        mutated[i] ^= 0x01;
        assert_ne!(s1, compute_signature(&secret(), 1599561154, &mutated), "byte {}", i);
    }
    assert!(signature_valid(s1, &secret(), 1599561154, &body));
    assert!(!signature_valid(s1 ^ 2, &secret(), 1599561154, &body));
}

#[test]
fn signature_matches_the_hash_of_the_signed_run() {
    // the signature is the high half of murmur3's 128-bit digest over
    // secret ++ timestamp ++ body
    let body = vec![5u8, 6, 7];
    let timestamp: u64 = 99;
    let mut data = secret();
    data.extend_from_slice(&timestamp.to_le_bytes());
    data.extend_from_slice(&body);
    let digest =
        murmur3::murmur3_x64_128(&mut std::io::Cursor::new(data.as_slice()), 0).unwrap();
    assert_eq!(compute_signature(&secret(), timestamp, &body), (digest >> 64) as u64);
}

#[test]
fn response_envelope_layout_and_compression() {
    let resp =
        ResponseContext::get_bincode(2001, 42, MessageStateCode::Success, "success", "").unwrap();
    let env = open_envelope(&resp);
    assert_eq!(env.code, 2001);
    assert_eq!(env.session_id, 42);
    assert_eq!(env.state, 200);
    assert_eq!(env.plain_len as usize, env.payload.len());
    // payload: message block then the empty body's block
    let mut expected = Vec::new();
    expected.extend_from_slice(&(7i16).to_le_bytes());
    expected.extend_from_slice(b"success");
    expected.extend_from_slice(&(0i16).to_le_bytes());
    assert_eq!(env.payload, expected);
}

#[test]
fn reject_response_closes_with_general_error() {
    let body = vec![1u8];
    let sign = compute_signature(&secret(), 10, &body);
    let buf = build_frame(2003, 9, 10, &body, sign ^ 7);
    let reject = accept_frame(&buf, &secret()).unwrap_err();
    let resp = reject_response(&reject).unwrap();
    let env = open_envelope(&resp);
    assert_eq!(env.code, 2003);
    assert_eq!(env.session_id, 9);
    assert_eq!(env.state, 503);
    let msg_len = i16::from_le_bytes([env.payload[0], env.payload[1]]) as usize;
    assert_eq!(&env.payload[2..2 + msg_len], b"invalid signature.");
}

#[test]
fn connection_survives_successful_rounds_and_closes_on_corruption() {
    let secret = secret();
    let mut state = SessionState::Open;
    let mut responses = 0;
    for i in 0..5u64 {
        assert_eq!(state, SessionState::Open);
        let body = vec![i as u8; 8];
        let buf = signed_frame(2001, i, 1000 + i, &body);
        let msg = accept_frame(&buf, &secret).unwrap();
        // the handler succeeded; its envelope goes out and the session stays open
        let handler_resp = ResponseContext::get_bincode(
            msg.code.value(),
            msg.session_id,
            MessageStateCode::Success,
            "success",
            "",
        )
        .unwrap();
        let (resp, next) = conclude_dispatch(msg.code.value(), msg.session_id, Ok(handler_resp));
        assert!(resp.is_some());
        responses += 1;
        state = next;
    }
    assert_eq!(responses, 5);
    assert_eq!(state, SessionState::Open);
    // one corrupted frame: exactly one general-error envelope, then closed
    let body = vec![1u8; 8];
    let sign = compute_signature(&secret, 2000, &body);
    let buf = build_frame(2001, 77, 2000, &body, sign ^ 1);
    let reject = accept_frame(&buf, &secret).unwrap_err();
    let resp = reject_response(&reject).unwrap();
    assert_eq!(open_envelope(&resp).state, 503);
    state = SessionState::Closed;
    assert_eq!(state, SessionState::Closed);
}

#[test]
fn handler_failure_answers_and_closes() {
    let (resp, state) = conclude_dispatch(2002, 5, Err("server error.".to_string()));
    assert_eq!(state, SessionState::Closed);
    let env = open_envelope(&resp.unwrap());
    assert_eq!(env.state, 503);
    let msg_len = i16::from_le_bytes([env.payload[0], env.payload[1]]) as usize;
    assert_eq!(&env.payload[2..2 + msg_len], b"server error.");
}

#[test]
fn handler_success_keeps_the_connection_open() {
    let (resp, state) = conclude_dispatch(2001, 5, Ok(vec![1, 2, 3]));
    assert_eq!(state, SessionState::Open);
    assert_eq!(resp.unwrap(), vec![1, 2, 3]);
}
