//! The wire frame around a request body, the signature that authenticates
//! it, and the compressed response envelope sent back.
//!
//! Request layout, all integers little-endian:
//! `code:u16 | version:u8 | session_id:u64 | signature:u64 | timestamp:u64 |
//! body_len:u32 | body:[body_len]bytes`.
//!
//! Response layout: `code:u16 | session_id:u64 | state:u16 | plain_len:u32 |
//! compressed_len:u32 | compressed bytes`, where the compressed bytes deflate
//! a payload of `message_len:i16 | message | encoded body`.

use vstd::prelude::*;
use vstd::utf8::encode_utf8;
use crate::codec::{
    BinaryEncode, CodecError, Cursor, binary_read_u16, binary_read_u32, binary_read_u64,
    binary_read_u8, binary_write_string, binary_write_u16, binary_write_u32, binary_write_u64,
    le16, le32, le64, spec_block, word16_at, word32_at, word64_at,
};
use crate::router::RouterCode;

verus! {

/// How a pushed notification is flagged to the client.
#[derive(Debug, Clone, Copy, PartialEq, Eq, Structural)]
pub enum MessageNotifyType {
    PushType,
    NotifyType,
}

impl MessageNotifyType {
    /// The numeric flag of this notify kind.
    pub open spec fn spec_value(self) -> u16 {
        match self {
            MessageNotifyType::PushType => 1,
            MessageNotifyType::NotifyType => 2,
        }
    }

    /// The numeric flag of this notify kind.
    pub fn value(self) -> (v: u16)
        ensures
            v == self.spec_value(),
    {
        match self {
            MessageNotifyType::PushType => 1,
            MessageNotifyType::NotifyType => 2,
        }
    }
}

/// The status a response envelope carries.
#[derive(Debug, Clone, Copy, PartialEq, Eq, Structural)]
pub enum MessageStateCode {
    Success,
    NotFound,
    NoContent,
    GeneralError,
}

impl MessageStateCode {
    /// The numeric status written on the wire.
    pub open spec fn spec_value(self) -> u16 {
        match self {
            MessageStateCode::Success => 200,
            MessageStateCode::NotFound => 403,
            MessageStateCode::NoContent => 204,
            MessageStateCode::GeneralError => 503,
        }
    }

    /// The numeric status written on the wire.
    pub fn value(self) -> (v: u16)
        ensures
            v == self.spec_value(),
    {
        match self {
            MessageStateCode::Success => 200,
            MessageStateCode::NotFound => 403,
            MessageStateCode::NoContent => 204,
            MessageStateCode::GeneralError => 503,
        }
    }
}

/// What a frame-level parse or authentication failure was, and which code
/// and session id the error response should echo — those parsed before the
/// failing field, zero for the rest.
#[derive(Debug, Clone, Copy, PartialEq, Eq, Structural)]
pub enum FrameError {
    Code,
    Version,
    SessionId,
    SignatureFormat,
    Timestamp,
    BodyLength,
    BodyTruncated,
    SignatureMismatch,
}

impl FrameError {
    /// The message the error response carries.
    pub open spec fn spec_message(&self) -> Seq<char> {
        match self {
            FrameError::Code => "invalid code."@,
            FrameError::Version => "invalid version."@,
            FrameError::SessionId => "invalid session id."@,
            FrameError::SignatureFormat => "invalid signature format."@,
            FrameError::Timestamp => "invalid timestamp."@,
            FrameError::BodyLength => "invalid body length."@,
            FrameError::BodyTruncated => "invalid body."@,
            FrameError::SignatureMismatch => "invalid signature."@,
        }
    }

    /// The message the error response carries.
    pub fn message(&self) -> (m: &'static str)
        ensures
            m@ == self.spec_message(),
    {
        match self {
            FrameError::Code => "invalid code.",
            FrameError::Version => "invalid version.",
            FrameError::SessionId => "invalid session id.",
            FrameError::SignatureFormat => "invalid signature format.",
            FrameError::Timestamp => "invalid timestamp.",
            FrameError::BodyLength => "invalid body length.",
            FrameError::BodyTruncated => "invalid body.",
            FrameError::SignatureMismatch => "invalid signature.",
        }
    }
}

/// A rejected frame: the failure and the header fields to echo back.
#[derive(Debug, Clone, Copy, PartialEq, Eq, Structural)]
pub struct FrameReject {
    pub error: FrameError,
    pub code: u16,
    pub session_id: u64,
}

/// One parsed inbound frame, before its signature has been checked.
#[derive(Debug, Clone, PartialEq)]
pub struct Frame {
    pub code: u16,
    pub version: u8,
    pub session_id: u64,
    pub signature: u64,
    pub timestamp: u64,
    pub body: Vec<u8>,
}

/// The mathematical value of a parsed frame.
pub struct FrameV {
    pub code: u16,
    pub version: u8,
    pub session_id: u64,
    pub signature: u64,
    pub timestamp: u64,
    pub body: Seq<u8>,
}

impl DeepView for Frame {
    type V = FrameV;

    open spec fn deep_view(&self) -> FrameV {
        FrameV {
            code: self.code,
            version: self.version,
            session_id: self.session_id,
            signature: self.signature,
            timestamp: self.timestamp,
            body: self.body@,
        }
    }
}

/// An accepted request, handed to exactly one handler.
#[derive(Debug, Clone, PartialEq)]
pub struct Message {
    pub code: RouterCode,
    pub version: u8,
    pub session_id: u64,
    pub body_len: u32,
    pub body: Vec<u8>,
}

/// The mathematical value of an accepted request.
pub struct MessageV {
    pub code: RouterCode,
    pub version: u8,
    pub session_id: u64,
    pub body_len: u32,
    pub body: Seq<u8>,
}

impl DeepView for Message {
    type V = MessageV;

    open spec fn deep_view(&self) -> MessageV {
        MessageV {
            code: self.code,
            version: self.version,
            session_id: self.session_id,
            body_len: self.body_len,
            body: self.body@,
        }
    }
}

impl Message {
    /// A message carries exactly as many body bytes as its length field
    /// declares.
    pub open spec fn wf(&self) -> bool {
        self.body@.len() == self.body_len
    }
}

/// What parsing a whole read buffer as one frame gives: the header fields
/// and the body, or the first field that fails with the fields to echo.
pub open spec fn spec_parse_frame(b: Seq<u8>) -> Result<FrameV, FrameReject> {
    if b.len() < 2 {
        Err(FrameReject { error: FrameError::Code, code: 0, session_id: 0 })
    } else {
        let code = word16_at(b, 0);
        if b.len() < 3 {
            Err(FrameReject { error: FrameError::Version, code, session_id: 0 })
        } else {
            let version = b[2];
            if b.len() < 11 {
                Err(FrameReject { error: FrameError::SessionId, code, session_id: 0 })
            } else {
                let session_id = word64_at(b, 3);
                if b.len() < 19 {
                    Err(FrameReject { error: FrameError::SignatureFormat, code, session_id })
                } else {
                    let signature = word64_at(b, 11);
                    if b.len() < 27 {
                        Err(FrameReject { error: FrameError::Timestamp, code, session_id })
                    } else {
                        let timestamp = word64_at(b, 19);
                        if b.len() < 31 {
                            Err(FrameReject { error: FrameError::BodyLength, code, session_id })
                        } else {
                            let body_len = word32_at(b, 27);
                            if 31 + body_len > b.len() {
                                Err(
                                    FrameReject {
                                        error: FrameError::BodyTruncated,
                                        code,
                                        session_id,
                                    },
                                )
                            } else {
                                Ok(
                                    FrameV {
                                        code,
                                        version,
                                        session_id,
                                        signature,
                                        timestamp,
                                        body: b.subrange(31, 31 + body_len),
                                    },
                                )
                            }
                        }
                    }
                }
            }
        }
    }
}

/// Parses one read buffer as one frame: the fixed header, then exactly
/// `body_len` body bytes. Each header field that cannot be read is its own
/// failure, echoing the fields parsed before it.
pub fn parse_frame(buf: &Vec<u8>) -> (r: Result<Frame, FrameReject>)
    ensures
        r matches Ok(f) ==> spec_parse_frame(buf@) == Ok::<FrameV, FrameReject>(f.deep_view()),
        r matches Err(e) ==> spec_parse_frame(buf@) == Err::<FrameV, FrameReject>(e),
{
    let mut cursor = Cursor::new();
    let code = match binary_read_u16(&mut cursor, buf) {
        Ok(v) => v,
        Err(_) => {
            return Err(FrameReject { error: FrameError::Code, code: 0, session_id: 0 });
        },
    };
    let version = match binary_read_u8(&mut cursor, buf) {
        Ok(v) => v,
        Err(_) => {
            return Err(FrameReject { error: FrameError::Version, code, session_id: 0 });
        },
    };
    let session_id = match binary_read_u64(&mut cursor, buf) {
        Ok(v) => v,
        Err(_) => {
            return Err(FrameReject { error: FrameError::SessionId, code, session_id: 0 });
        },
    };
    let signature = match binary_read_u64(&mut cursor, buf) {
        Ok(v) => v,
        Err(_) => {
            return Err(FrameReject { error: FrameError::SignatureFormat, code, session_id });
        },
    };
    let timestamp = match binary_read_u64(&mut cursor, buf) {
        Ok(v) => v,
        Err(_) => {
            return Err(FrameReject { error: FrameError::Timestamp, code, session_id });
        },
    };
    let body_len = match binary_read_u32(&mut cursor, buf) {
        Ok(v) => v,
        Err(_) => {
            return Err(FrameReject { error: FrameError::BodyLength, code, session_id });
        },
    };
    let len_us = body_len as usize;
    if len_us > buf.len() - cursor.pos {
        return Err(FrameReject { error: FrameError::BodyTruncated, code, session_id });
    }
    let body = vstd::slice::slice_to_vec(
        vstd::slice::slice_subrange(buf.as_slice(), cursor.pos, cursor.pos + len_us),
    );
    Ok(Frame { code, version, session_id, signature, timestamp, body })
}

/// The digest that murmur3's 64-bit-optimized 128-bit variant computes over
/// a byte run with a seed.
pub uninterp spec fn murmur128_of(data: Seq<u8>, seed: u32) -> u128;

/// Relies on murmur3::murmur3_x64_128: the digest depends on the bytes and
/// the seed alone. Reading from an in-memory cursor cannot fail.
#[verifier::external_body]
fn murmur3_digest(data: &Vec<u8>, seed: u32) -> (r: u128)
    ensures
        r == murmur128_of(data@, seed),
{
    murmur3::murmur3_x64_128(&mut std::io::Cursor::new(data.as_slice()), seed)
        .expect("reading from an in-memory cursor cannot fail")
}

/// The frame signature: the high 64 bits of the digest of
/// `secret ++ timestamp(little-endian) ++ body`.
pub open spec fn signature_of(secret: Seq<u8>, timestamp: u64, body: Seq<u8>) -> u64 {
    (murmur128_of(secret + le64(timestamp) + body, 0) >> 64) as u64
}

/// Computes the signature a well-formed frame must carry.
pub fn compute_signature(secret: &Vec<u8>, timestamp: u64, body: &Vec<u8>) -> (r: u64)
    ensures
        r == signature_of(secret@, timestamp, body@),
{
    let mut data: Vec<u8> = Vec::new();
    data.extend_from_slice(secret.as_slice());
    binary_write_u64(&mut data, timestamp);
    data.extend_from_slice(body.as_slice());
    assert(data@ =~= secret@ + le64(timestamp) + body@);
    let h = murmur3_digest(&data, 0);
    (h >> 64) as u64
}

/// Whether a transmitted signature matches the one the frame's timestamp and
/// body demand under the shared secret.
pub fn signature_valid(sign: u64, secret: &Vec<u8>, timestamp: u64, body: &Vec<u8>) -> (r: bool)
    ensures
        r == (sign == signature_of(secret@, timestamp, body@)),
{
    let expected = compute_signature(secret, timestamp, body);
    sign == expected
}

/// Signature determinism: the signature is a function of the secret, the
/// timestamp and the body alone, so identical inputs always yield identical
/// signatures — across calls, connections and processes.
pub proof fn lemma_signature_deterministic(
    secret1: Seq<u8>,
    timestamp1: u64,
    body1: Seq<u8>,
    secret2: Seq<u8>,
    timestamp2: u64,
    body2: Seq<u8>,
)
    requires
        secret1 == secret2,
        timestamp1 == timestamp2,
        body1 == body2,
    ensures
        signature_of(secret1, timestamp1, body1) == signature_of(secret2, timestamp2, body2),
{
}

/// What accepting a read buffer gives: the message handed to a handler, or
/// the rejection — a header failure, or a signature that does not match.
pub open spec fn spec_accept_frame(b: Seq<u8>, secret: Seq<u8>) -> Result<MessageV, FrameReject> {
    match spec_parse_frame(b) {
        Ok(fv) => {
            if fv.signature == signature_of(secret, fv.timestamp, fv.body) {
                Ok(
                    MessageV {
                        code: RouterCode::spec_from_u16(fv.code),
                        version: fv.version,
                        session_id: fv.session_id,
                        body_len: fv.body.len() as u32,
                        body: fv.body,
                    },
                )
            } else {
                Err(
                    FrameReject {
                        error: FrameError::SignatureMismatch,
                        code: fv.code,
                        session_id: fv.session_id,
                    },
                )
            }
        },
        Err(e) => Err(e),
    }
}

/// Parses a read buffer and checks its signature against the shared secret:
/// the one gate every request passes before it reaches a handler.
pub fn accept_frame(buf: &Vec<u8>, secret: &Vec<u8>) -> (r: Result<Message, FrameReject>)
    ensures
        r matches Ok(m) ==> spec_accept_frame(buf@, secret@) == Ok::<MessageV, FrameReject>(
            m.deep_view(),
        ) && m.wf(),
        r matches Err(e) ==> spec_accept_frame(buf@, secret@) == Err::<MessageV, FrameReject>(e),
{
    let frame = parse_frame(buf)?;
    if !signature_valid(frame.signature, secret, frame.timestamp, &frame.body) {
        return Err(
            FrameReject {
                error: FrameError::SignatureMismatch,
                code: frame.code,
                session_id: frame.session_id,
            },
        );
    }
    let body_len = frame.body.len() as u32;
    Ok(
        Message {
            code: RouterCode::from_u16(frame.code),
            version: frame.version,
            session_id: frame.session_id,
            body_len,
            body: frame.body,
        },
    )
}

/// The bytes flate2's zlib encoder produces at the default compression
/// level for a byte run.
pub uninterp spec fn zlib_of(data: Seq<u8>) -> Seq<u8>;

/// Relies on flate2's ZlibEncoder at the default level: the compressed
/// bytes depend on the input bytes alone. Writing into an in-memory buffer
/// cannot fail.
#[verifier::external_body]
fn zlib_compress(data: &Vec<u8>) -> (r: Vec<u8>)
    ensures
        r@ == zlib_of(data@),
{
    let mut gz = flate2::write::ZlibEncoder::new(Vec::new(), flate2::Compression::default());
    std::io::Write::write_all(&mut gz, data.as_slice())
        .expect("writing into an in-memory buffer cannot fail");
    gz.finish().expect("an in-memory zlib stream cannot fail")
}

/// The plain response payload: the message's length and bytes, then the
/// encoded body block.
pub open spec fn spec_response_payload(msg: Seq<char>, body_block: Seq<u8>) -> Seq<u8> {
    spec_block(encode_utf8(msg)) + body_block
}

/// The full response envelope around compressed payload bytes.
pub open spec fn spec_envelope(
    code: u16,
    session_id: u64,
    state: u16,
    plain_len: u32,
    comp: Seq<u8>,
) -> Seq<u8> {
    le16(code) + le64(session_id) + le16(state) + le32(plain_len) + le32(comp.len() as u32) + comp
}

/// The envelope the server answers `code`/`session_id` with, carrying the
/// given state, message and encodable body.
pub open spec fn spec_response<T: BinaryEncode>(
    code: u16,
    session_id: u64,
    state: u16,
    msg: Seq<char>,
    body: T::V,
) -> Seq<u8> {
    let payload = spec_response_payload(msg, spec_block(T::spec_fields(body)));
    spec_envelope(code, session_id, state, payload.len() as u32, zlib_of(payload))
}

/// The general-error envelope with an empty body: what every failure path
/// answers with.
pub open spec fn spec_error_envelope(code: u16, session_id: u64, msg: Seq<char>) -> Seq<u8> {
    spec_response::<&'static str>(code, session_id, 503, msg, Seq::empty())
}

/// A response under construction: its textual message and its body.
#[derive(Debug)]
pub struct ResponseContext<'a, T: BinaryEncode> {
    pub msg: &'a str,
    pub body: T,
}

impl<'a, T: BinaryEncode> ResponseContext<'a, T> {
    /// Builds one response envelope: the payload is the message block
    /// followed by the body's block, compressed with zlib and framed by the
    /// header fields. Fails only when the message or the body is too large
    /// for its length field.
    pub fn get_bincode(
        code: u16,
        session_id: u64,
        state: MessageStateCode,
        msg: &str,
        body: T,
    ) -> (r: Result<Vec<u8>, CodecError>)
        ensures
            r is Ok <==> {
                &&& T::spec_encodable(body.deep_view())
                &&& encode_utf8(msg@).len() <= 32767
                &&& zlib_of(
                    spec_response_payload(
                        msg@,
                        spec_block(T::spec_fields(body.deep_view())),
                    ),
                ).len() <= u32::MAX
            },
            r matches Ok(b) ==> b@ == spec_response::<T>(
                code,
                session_id,
                state.spec_value(),
                msg@,
                body.deep_view(),
            ),
    {
        let mut res_body: Vec<u8> = Vec::new();
        binary_write_string(&mut res_body, msg)?;
        let mut body_block = body.encode()?;
        res_body.append(&mut body_block);
        proof {
            T::lemma_encodable_fits(body.deep_view());
        }
        let comp = zlib_compress(&res_body);
        if comp.len() > u32::MAX as usize {
            return Err(CodecError::Oversize);
        }
        let mut resp: Vec<u8> = Vec::new();
        binary_write_u16(&mut resp, code);
        binary_write_u64(&mut resp, session_id);
        binary_write_u16(&mut resp, state.value());
        binary_write_u32(&mut resp, res_body.len() as u32);
        binary_write_u32(&mut resp, comp.len() as u32);
        resp.extend_from_slice(comp.as_slice());
        assert(resp@ =~= spec_response::<T>(
            code,
            session_id,
            state.spec_value(),
            msg@,
            body.deep_view(),
        ));
        Ok(resp)
    }
}

} // verus!
