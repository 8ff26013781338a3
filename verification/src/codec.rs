//! Little-endian binary codec primitives.
//!
//! Every value on the wire is written in little-endian byte order. Scalars are
//! written as fixed-width runs of bytes with no length prefix of their own;
//! strings are written as a two-byte length followed by the raw UTF-8 bytes; a
//! composite record is wrapped in a block: a two-byte length field followed by
//! exactly that many payload bytes.

use vstd::prelude::*;
use vstd::utf8::{decode_utf8, encode_utf8, valid_utf8};

verus! {

/// A codec-level failure while reading or writing a value.
#[derive(Debug, Clone, Copy, PartialEq, Eq, Structural)]
pub enum CodecError {
    /// The input ended before the value's bytes did.
    TruncatedInput,
    /// A string's bytes are not valid UTF-8.
    Encoding,
    /// A value is too large for its length field.
    Oversize,
}

/// A read position inside a byte buffer; the buffer itself is passed
/// alongside wherever the cursor is used.
pub struct Cursor {
    pub pos: usize,
}

impl Cursor {
    /// A cursor standing at the start of a buffer.
    pub fn new() -> (c: Cursor)
        ensures
            c.pos == 0,
    {
        Cursor { pos: 0 }
    }
}

/// The two little-endian bytes of a 16-bit value.
pub open spec fn le16(x: u16) -> Seq<u8> {
    seq![(x & 0xff) as u8, ((x >> 8) & 0xff) as u8]
}

/// The four little-endian bytes of a 32-bit value.
pub open spec fn le32(x: u32) -> Seq<u8> {
    seq![
        (x & 0xff) as u8,
        ((x >> 8) & 0xff) as u8,
        ((x >> 16) & 0xff) as u8,
        ((x >> 24) & 0xff) as u8,
    ]
}

/// The eight little-endian bytes of a 64-bit value.
pub open spec fn le64(x: u64) -> Seq<u8> {
    seq![
        (x & 0xff) as u8,
        ((x >> 8) & 0xff) as u8,
        ((x >> 16) & 0xff) as u8,
        ((x >> 24) & 0xff) as u8,
        ((x >> 32) & 0xff) as u8,
        ((x >> 40) & 0xff) as u8,
        ((x >> 48) & 0xff) as u8,
        ((x >> 56) & 0xff) as u8,
    ]
}

/// The 16-bit value read from two little-endian bytes.
pub open spec fn word16(b0: u8, b1: u8) -> u16 {
    (b0 as u16) | ((b1 as u16) << 8)
}

/// The 32-bit value read from four little-endian bytes.
pub open spec fn word32(b0: u8, b1: u8, b2: u8, b3: u8) -> u32 {
    (b0 as u32) | ((b1 as u32) << 8) | ((b2 as u32) << 16) | ((b3 as u32) << 24)
}

/// The 64-bit value read from eight little-endian bytes.
pub open spec fn word64(b0: u8, b1: u8, b2: u8, b3: u8, b4: u8, b5: u8, b6: u8, b7: u8) -> u64 {
    (b0 as u64) | ((b1 as u64) << 8) | ((b2 as u64) << 16) | ((b3 as u64) << 24)
        | ((b4 as u64) << 32) | ((b5 as u64) << 40) | ((b6 as u64) << 48) | ((b7 as u64) << 56)
}

/// Reassembling the little-endian bytes of a 16-bit value gives the value back.
pub proof fn lemma_word16_le16(x: u16)
    ensures
        word16(le16(x)[0], le16(x)[1]) == x,
{
    assert((((x & 0xff) as u8) as u16) | (((((x >> 8) & 0xff) as u8) as u16) << 8) == x)
        by (bit_vector);
}

/// Reassembling the little-endian bytes of a 32-bit value gives the value back.
pub proof fn lemma_word32_le32(x: u32)
    ensures
        word32(le32(x)[0], le32(x)[1], le32(x)[2], le32(x)[3]) == x,
{
    assert((((x & 0xff) as u8) as u32) | (((((x >> 8) & 0xff) as u8) as u32) << 8)
        | (((((x >> 16) & 0xff) as u8) as u32) << 16) | (((((x >> 24) & 0xff) as u8) as u32) << 24)
        == x) by (bit_vector);
}

/// Reassembling the little-endian bytes of a 64-bit value gives the value back.
pub proof fn lemma_word64_le64(x: u64)
    ensures
        word64(
            le64(x)[0],
            le64(x)[1],
            le64(x)[2],
            le64(x)[3],
            le64(x)[4],
            le64(x)[5],
            le64(x)[6],
            le64(x)[7],
        ) == x,
{
    assert((((x & 0xff) as u8) as u64) | (((((x >> 8) & 0xff) as u8) as u64) << 8)
        | (((((x >> 16) & 0xff) as u8) as u64) << 16) | (((((x >> 24) & 0xff) as u8) as u64) << 24)
        | (((((x >> 32) & 0xff) as u8) as u64) << 32) | (((((x >> 40) & 0xff) as u8) as u64) << 40)
        | (((((x >> 48) & 0xff) as u8) as u64) << 48) | (((((x >> 56) & 0xff) as u8) as u64) << 56)
        == x) by (bit_vector);
}

/// Round trip of a signed 16-bit value through its unsigned bit pattern.
pub proof fn lemma_i16_bits(x: i16)
    ensures
        ((x as u16) as i16) == x,
{
    assert(((x as u16) as i16) == x) by (bit_vector);
}

/// Round trip of a signed 32-bit value through its unsigned bit pattern.
pub proof fn lemma_i32_bits(x: i32)
    ensures
        ((x as u32) as i32) == x,
{
    assert(((x as u32) as i32) == x) by (bit_vector);
}

/// Round trip of a signed 64-bit value through its unsigned bit pattern.
pub proof fn lemma_i64_bits(x: i64)
    ensures
        ((x as u64) as i64) == x,
{
    assert(((x as u64) as i64) == x) by (bit_vector);
}

/// Appends the two little-endian bytes of `v`.
pub fn binary_write_u16(encoded: &mut Vec<u8>, v: u16)
    ensures
        final(encoded)@ == old(encoded)@ + le16(v),
{
    encoded.push((v & 0xff) as u8);
    encoded.push(((v >> 8) & 0xff) as u8);
    assert(encoded@ =~= old(encoded)@ + le16(v));
}

/// Appends the four little-endian bytes of `v`.
pub fn binary_write_u32(encoded: &mut Vec<u8>, v: u32)
    ensures
        final(encoded)@ == old(encoded)@ + le32(v),
{
    encoded.push((v & 0xff) as u8);
    encoded.push(((v >> 8) & 0xff) as u8);
    encoded.push(((v >> 16) & 0xff) as u8);
    encoded.push(((v >> 24) & 0xff) as u8);
    assert(encoded@ =~= old(encoded)@ + le32(v));
}

/// Appends the eight little-endian bytes of `v`.
pub fn binary_write_u64(encoded: &mut Vec<u8>, v: u64)
    ensures
        final(encoded)@ == old(encoded)@ + le64(v),
{
    encoded.push((v & 0xff) as u8);
    encoded.push(((v >> 8) & 0xff) as u8);
    encoded.push(((v >> 16) & 0xff) as u8);
    encoded.push(((v >> 24) & 0xff) as u8);
    encoded.push(((v >> 32) & 0xff) as u8);
    encoded.push(((v >> 40) & 0xff) as u8);
    encoded.push(((v >> 48) & 0xff) as u8);
    encoded.push(((v >> 56) & 0xff) as u8);
    assert(encoded@ =~= old(encoded)@ + le64(v));
}

/// Appends a signed 16-bit value as its little-endian bytes.
pub fn binary_write_i16(encoded: &mut Vec<u8>, v: i16)
    ensures
        final(encoded)@ == old(encoded)@ + le16(v as u16),
{
    binary_write_u16(encoded, v as u16);
}

/// Appends a signed 32-bit value as its little-endian bytes.
pub fn binary_write_i32(encoded: &mut Vec<u8>, v: i32)
    ensures
        final(encoded)@ == old(encoded)@ + le32(v as u32),
{
    binary_write_u32(encoded, v as u32);
}

/// Appends a signed 64-bit value as its little-endian bytes.
pub fn binary_write_i64(encoded: &mut Vec<u8>, v: i64)
    ensures
        final(encoded)@ == old(encoded)@ + le64(v as u64),
{
    binary_write_u64(encoded, v as u64);
}

/// Appends a signed 8-bit value as one byte.
pub fn binary_write_i8(encoded: &mut Vec<u8>, v: i8)
    ensures
        final(encoded)@ == old(encoded)@ + seq![v as u8],
{
    encoded.push(v as u8);
    assert(encoded@ =~= old(encoded)@ + seq![v as u8]);
}

/// Reads one byte.
pub fn binary_read_u8(cursor: &mut Cursor, bytes: &Vec<u8>) -> (r: Result<u8, CodecError>)
    ensures
        r matches Ok(v) ==> {
            &&& old(cursor).pos + 1 <= bytes@.len()
            &&& final(cursor).pos == old(cursor).pos + 1
            &&& v == bytes@[old(cursor).pos as int]
        },
        r is Err ==> r == Result::<u8, CodecError>::Err(CodecError::TruncatedInput)
            && old(cursor).pos + 1 > bytes@.len() && final(cursor).pos == old(cursor).pos,
{
    if cursor.pos < bytes.len() {
        let b = bytes[cursor.pos];
        cursor.pos = cursor.pos + 1;
        Ok(b)
    } else {
        Err(CodecError::TruncatedInput)
    }
}

/// Reads a 16-bit little-endian value.
pub fn binary_read_u16(cursor: &mut Cursor, bytes: &Vec<u8>) -> (r: Result<u16, CodecError>)
    ensures
        r matches Ok(v) ==> {
            &&& old(cursor).pos + 2 <= bytes@.len()
            &&& final(cursor).pos == old(cursor).pos + 2
            &&& v == word16(bytes@[old(cursor).pos as int], bytes@[old(cursor).pos + 1])
        },
        r is Err ==> r == Result::<u16, CodecError>::Err(CodecError::TruncatedInput)
            && old(cursor).pos + 2 > bytes@.len() && final(cursor).pos == old(cursor).pos,
{
    if bytes.len() >= 2 && cursor.pos <= bytes.len() - 2 {
        let b0 = bytes[cursor.pos];
        let b1 = bytes[cursor.pos + 1];
        cursor.pos = cursor.pos + 2;
        Ok((b0 as u16) | ((b1 as u16) << 8))
    } else {
        Err(CodecError::TruncatedInput)
    }
}

/// Reads a 32-bit little-endian value.
pub fn binary_read_u32(cursor: &mut Cursor, bytes: &Vec<u8>) -> (r: Result<u32, CodecError>)
    ensures
        r matches Ok(v) ==> {
            &&& old(cursor).pos + 4 <= bytes@.len()
            &&& final(cursor).pos == old(cursor).pos + 4
            &&& v == word32(
                bytes@[old(cursor).pos as int],
                bytes@[old(cursor).pos + 1],
                bytes@[old(cursor).pos + 2],
                bytes@[old(cursor).pos + 3],
            )
        },
        r is Err ==> r == Result::<u32, CodecError>::Err(CodecError::TruncatedInput)
            && old(cursor).pos + 4 > bytes@.len() && final(cursor).pos == old(cursor).pos,
{
    if bytes.len() >= 4 && cursor.pos <= bytes.len() - 4 {
        let b0 = bytes[cursor.pos];
        let b1 = bytes[cursor.pos + 1];
        let b2 = bytes[cursor.pos + 2];
        let b3 = bytes[cursor.pos + 3];
        cursor.pos = cursor.pos + 4;
        Ok((b0 as u32) | ((b1 as u32) << 8) | ((b2 as u32) << 16) | ((b3 as u32) << 24))
    } else {
        Err(CodecError::TruncatedInput)
    }
}

/// Reads a 64-bit little-endian value.
pub fn binary_read_u64(cursor: &mut Cursor, bytes: &Vec<u8>) -> (r: Result<u64, CodecError>)
    ensures
        r matches Ok(v) ==> {
            &&& old(cursor).pos + 8 <= bytes@.len()
            &&& final(cursor).pos == old(cursor).pos + 8
            &&& v == word64(
                bytes@[old(cursor).pos as int],
                bytes@[old(cursor).pos + 1],
                bytes@[old(cursor).pos + 2],
                bytes@[old(cursor).pos + 3],
                bytes@[old(cursor).pos + 4],
                bytes@[old(cursor).pos + 5],
                bytes@[old(cursor).pos + 6],
                bytes@[old(cursor).pos + 7],
            )
        },
        r is Err ==> r == Result::<u64, CodecError>::Err(CodecError::TruncatedInput)
            && old(cursor).pos + 8 > bytes@.len() && final(cursor).pos == old(cursor).pos,
{
    if bytes.len() >= 8 && cursor.pos <= bytes.len() - 8 {
        let b0 = bytes[cursor.pos];
        let b1 = bytes[cursor.pos + 1];
        let b2 = bytes[cursor.pos + 2];
        let b3 = bytes[cursor.pos + 3];
        let b4 = bytes[cursor.pos + 4];
        let b5 = bytes[cursor.pos + 5];
        let b6 = bytes[cursor.pos + 6];
        let b7 = bytes[cursor.pos + 7];
        cursor.pos = cursor.pos + 8;
        Ok((b0 as u64) | ((b1 as u64) << 8) | ((b2 as u64) << 16) | ((b3 as u64) << 24)
            | ((b4 as u64) << 32) | ((b5 as u64) << 40) | ((b6 as u64) << 48)
            | ((b7 as u64) << 56))
    } else {
        Err(CodecError::TruncatedInput)
    }
}

/// Reads a signed 8-bit value.
pub fn binary_read_i8(cursor: &mut Cursor, bytes: &Vec<u8>) -> (r: Result<i8, CodecError>)
    ensures
        r matches Ok(v) ==> {
            &&& old(cursor).pos + 1 <= bytes@.len()
            &&& final(cursor).pos == old(cursor).pos + 1
            &&& v == bytes@[old(cursor).pos as int] as i8
        },
        r is Err ==> r == Result::<i8, CodecError>::Err(CodecError::TruncatedInput)
            && old(cursor).pos + 1 > bytes@.len() && final(cursor).pos == old(cursor).pos,
{
    match binary_read_u8(cursor, bytes) {
        Ok(v) => Ok(v as i8),
        Err(e) => Err(e),
    }
}

/// Reads a signed 16-bit little-endian value.
pub fn binary_read_i16(cursor: &mut Cursor, bytes: &Vec<u8>) -> (r: Result<i16, CodecError>)
    ensures
        r matches Ok(v) ==> {
            &&& old(cursor).pos + 2 <= bytes@.len()
            &&& final(cursor).pos == old(cursor).pos + 2
            &&& v == word16(bytes@[old(cursor).pos as int], bytes@[old(cursor).pos + 1]) as i16
        },
        r is Err ==> r == Result::<i16, CodecError>::Err(CodecError::TruncatedInput)
            && old(cursor).pos + 2 > bytes@.len() && final(cursor).pos == old(cursor).pos,
{
    match binary_read_u16(cursor, bytes) {
        Ok(v) => Ok(v as i16),
        Err(e) => Err(e),
    }
}

/// Reads a signed 32-bit little-endian value.
pub fn binary_read_i32(cursor: &mut Cursor, bytes: &Vec<u8>) -> (r: Result<i32, CodecError>)
    ensures
        r matches Ok(v) ==> {
            &&& old(cursor).pos + 4 <= bytes@.len()
            &&& final(cursor).pos == old(cursor).pos + 4
            &&& v == word32(
                bytes@[old(cursor).pos as int],
                bytes@[old(cursor).pos + 1],
                bytes@[old(cursor).pos + 2],
                bytes@[old(cursor).pos + 3],
            ) as i32
        },
        r is Err ==> r == Result::<i32, CodecError>::Err(CodecError::TruncatedInput)
            && old(cursor).pos + 4 > bytes@.len() && final(cursor).pos == old(cursor).pos,
{
    match binary_read_u32(cursor, bytes) {
        Ok(v) => Ok(v as i32),
        Err(e) => Err(e),
    }
}

/// The 16-bit little-endian value standing at index `i`.
pub open spec fn word16_at(b: Seq<u8>, i: int) -> u16 {
    word16(b[i], b[i + 1])
}

/// The 32-bit little-endian value standing at index `i`.
pub open spec fn word32_at(b: Seq<u8>, i: int) -> u32 {
    word32(b[i], b[i + 1], b[i + 2], b[i + 3])
}

/// The 64-bit little-endian value standing at index `i`.
pub open spec fn word64_at(b: Seq<u8>, i: int) -> u64 {
    word64(b[i], b[i + 1], b[i + 2], b[i + 3], b[i + 4], b[i + 5], b[i + 6], b[i + 7])
}

/// The outcome of parsing one value from a byte sequence: the value and the
/// position just past its bytes, or the error the parse ends in.
pub enum Parsed<V> {
    Val(V, int),
    Fail(CodecError),
}

/// Parses a 16-bit little-endian value.
pub open spec fn parse_u16(bytes: Seq<u8>, pos: int) -> Parsed<u16> {
    if 0 <= pos && pos + 2 <= bytes.len() {
        Parsed::Val(word16(bytes[pos], bytes[pos + 1]), pos + 2)
    } else {
        Parsed::Fail(CodecError::TruncatedInput)
    }
}

/// Parses a signed 16-bit little-endian value.
pub open spec fn parse_i16(bytes: Seq<u8>, pos: int) -> Parsed<i16> {
    match parse_u16(bytes, pos) {
        Parsed::Val(v, p) => Parsed::Val(v as i16, p),
        Parsed::Fail(e) => Parsed::Fail(e),
    }
}

/// Parses a signed 32-bit little-endian value.
pub open spec fn parse_i32(bytes: Seq<u8>, pos: int) -> Parsed<i32> {
    if 0 <= pos && pos + 4 <= bytes.len() {
        Parsed::Val(
            word32(bytes[pos], bytes[pos + 1], bytes[pos + 2], bytes[pos + 3]) as i32,
            pos + 4,
        )
    } else {
        Parsed::Fail(CodecError::TruncatedInput)
    }
}

/// Parses a 64-bit little-endian value.
pub open spec fn parse_u64(bytes: Seq<u8>, pos: int) -> Parsed<u64> {
    if 0 <= pos && pos + 8 <= bytes.len() {
        Parsed::Val(
            word64(
                bytes[pos],
                bytes[pos + 1],
                bytes[pos + 2],
                bytes[pos + 3],
                bytes[pos + 4],
                bytes[pos + 5],
                bytes[pos + 6],
                bytes[pos + 7],
            ),
            pos + 8,
        )
    } else {
        Parsed::Fail(CodecError::TruncatedInput)
    }
}

/// Parses a signed 64-bit little-endian value.
pub open spec fn parse_i64(bytes: Seq<u8>, pos: int) -> Parsed<i64> {
    match parse_u64(bytes, pos) {
        Parsed::Val(v, p) => Parsed::Val(v as i64, p),
        Parsed::Fail(e) => Parsed::Fail(e),
    }
}

/// Parses a string: a signed 16-bit length followed by that many bytes of
/// UTF-8. A negative length or one past the end of the input is a
/// truncation; bytes that are not valid UTF-8 are an encoding failure.
pub open spec fn parse_str(bytes: Seq<u8>, pos: int) -> Parsed<Seq<char>> {
    match parse_i16(bytes, pos) {
        Parsed::Val(n, p) => {
            if n < 0 || p + n > bytes.len() {
                Parsed::Fail(CodecError::TruncatedInput)
            } else {
                let raw = bytes.subrange(p, p + n);
                if valid_utf8(raw) {
                    Parsed::Val(decode_utf8(raw), p + n)
                } else {
                    Parsed::Fail(CodecError::Encoding)
                }
            }
        },
        Parsed::Fail(e) => Parsed::Fail(e),
    }
}

/// Parses and discards one length-prefixed block, yielding the length read.
pub open spec fn parse_skip_block(bytes: Seq<u8>, pos: int) -> Parsed<i16> {
    match parse_i16(bytes, pos) {
        Parsed::Val(n, p) => {
            if n < 0 || p + n > bytes.len() {
                Parsed::Fail(CodecError::TruncatedInput)
            } else {
                Parsed::Val(n, p + n)
            }
        },
        Parsed::Fail(e) => Parsed::Fail(e),
    }
}

/// Reads a signed 64-bit little-endian value.
pub fn binary_read_i64(cursor: &mut Cursor, bytes: &Vec<u8>) -> (r: Result<i64, CodecError>)
    ensures
        r matches Ok(v) ==> {
            &&& old(cursor).pos + 8 <= bytes@.len()
            &&& final(cursor).pos == old(cursor).pos + 8
            &&& v == word64(
                bytes@[old(cursor).pos as int],
                bytes@[old(cursor).pos + 1],
                bytes@[old(cursor).pos + 2],
                bytes@[old(cursor).pos + 3],
                bytes@[old(cursor).pos + 4],
                bytes@[old(cursor).pos + 5],
                bytes@[old(cursor).pos + 6],
                bytes@[old(cursor).pos + 7],
            ) as i64
        },
        r is Err ==> r == Result::<i64, CodecError>::Err(CodecError::TruncatedInput)
            && old(cursor).pos + 8 > bytes@.len() && final(cursor).pos == old(cursor).pos,
{
    match binary_read_u64(cursor, bytes) {
        Ok(v) => Ok(v as i64),
        Err(e) => Err(e),
    }
}

/// A window into a buffer region known to hold `f` is the matching window
/// into `f` itself.
pub proof fn lemma_subrange_at(bytes: Seq<u8>, pos: int, f: Seq<u8>, a: int, b: int)
    requires
        0 <= pos,
        pos + f.len() <= bytes.len(),
        bytes.subrange(pos, pos + f.len() as int) == f,
        0 <= a <= b <= f.len(),
    ensures
        bytes.subrange(pos + a, pos + b) == f.subrange(a, b),
{
    assert forall|i: int|
        0 <= i < b - a implies #[trigger] bytes.subrange(pos + a, pos + b)[i] == f.subrange(
        a,
        b,
    )[i] by {
        assert(bytes.subrange(pos + a, pos + b)[i] == bytes[pos + a + i]);
        assert(bytes[pos + a + i] == bytes.subrange(pos, pos + f.len() as int)[a + i]);
    }
    assert(bytes.subrange(pos + a, pos + b) =~= f.subrange(a, b));
}

/// The two parts of a block: its length field and its payload.
pub proof fn lemma_block_parts(payload: Seq<u8>)
    ensures
        spec_block(payload).len() == 2 + payload.len(),
        spec_block(payload).subrange(0, 2) == le16(payload.len() as u16),
        spec_block(payload).subrange(2, 2 + payload.len() as int) == payload,
{
    assert(spec_block(payload).subrange(0, 2) =~= le16(payload.len() as u16));
    assert(spec_block(payload).subrange(2, 2 + payload.len() as int) =~= payload);
}

/// The three parts of a three-way concatenation.
pub proof fn lemma_concat3_parts(a: Seq<u8>, b: Seq<u8>, c: Seq<u8>)
    ensures
        (a + b + c).subrange(0, a.len() as int) == a,
        (a + b + c).subrange(a.len() as int, a.len() as int + b.len() as int) == b,
        (a + b + c).subrange(
            a.len() as int + b.len() as int,
            a.len() as int + b.len() as int + c.len() as int,
        ) == c,
{
    assert((a + b + c).subrange(0, a.len() as int) =~= a);
    assert((a + b + c).subrange(a.len() as int, a.len() as int + b.len() as int) =~= b);
    assert((a + b + c).subrange(
        a.len() as int + b.len() as int,
        a.len() as int + b.len() as int + c.len() as int,
    ) =~= c);
}

/// Parsing two bytes that hold a signed 16-bit value's little-endian form
/// yields the value back.
pub proof fn lemma_parse_i16_at(bytes: Seq<u8>, pos: int, x: i16)
    requires
        0 <= pos,
        pos + 2 <= bytes.len(),
        bytes.subrange(pos, pos + 2) == le16(x as u16),
    ensures
        parse_i16(bytes, pos) == Parsed::Val(x, pos + 2),
{
    assert(bytes[pos] == le16(x as u16)[0] && bytes[pos + 1] == le16(x as u16)[1]) by {
        assert(bytes.subrange(pos, pos + 2)[0] == bytes[pos]);
        assert(bytes.subrange(pos, pos + 2)[1] == bytes[pos + 1]);
    }
    lemma_word16_le16(x as u16);
    lemma_i16_bits(x);
}

/// Parsing four bytes that hold a signed 32-bit value's little-endian form
/// yields the value back.
pub proof fn lemma_parse_i32_at(bytes: Seq<u8>, pos: int, x: i32)
    requires
        0 <= pos,
        pos + 4 <= bytes.len(),
        bytes.subrange(pos, pos + 4) == le32(x as u32),
    ensures
        parse_i32(bytes, pos) == Parsed::Val(x, pos + 4),
{
    assert(bytes.subrange(pos, pos + 4)[0] == bytes[pos]);
    assert(bytes.subrange(pos, pos + 4)[1] == bytes[pos + 1]);
    assert(bytes.subrange(pos, pos + 4)[2] == bytes[pos + 2]);
    assert(bytes.subrange(pos, pos + 4)[3] == bytes[pos + 3]);
    lemma_word32_le32(x as u32);
    lemma_i32_bits(x);
}

/// Parsing eight bytes that hold a 64-bit value's little-endian form yields
/// the value back.
pub proof fn lemma_parse_u64_at(bytes: Seq<u8>, pos: int, x: u64)
    requires
        0 <= pos,
        pos + 8 <= bytes.len(),
        bytes.subrange(pos, pos + 8) == le64(x),
    ensures
        parse_u64(bytes, pos) == Parsed::Val(x, pos + 8),
{
    assert(bytes.subrange(pos, pos + 8)[0] == bytes[pos]);
    assert(bytes.subrange(pos, pos + 8)[1] == bytes[pos + 1]);
    assert(bytes.subrange(pos, pos + 8)[2] == bytes[pos + 2]);
    assert(bytes.subrange(pos, pos + 8)[3] == bytes[pos + 3]);
    assert(bytes.subrange(pos, pos + 8)[4] == bytes[pos + 4]);
    assert(bytes.subrange(pos, pos + 8)[5] == bytes[pos + 5]);
    assert(bytes.subrange(pos, pos + 8)[6] == bytes[pos + 6]);
    assert(bytes.subrange(pos, pos + 8)[7] == bytes[pos + 7]);
    lemma_word64_le64(x);
}

/// Parsing eight bytes that hold a signed 64-bit value's little-endian form
/// yields the value back.
pub proof fn lemma_parse_i64_at(bytes: Seq<u8>, pos: int, x: i64)
    requires
        0 <= pos,
        pos + 8 <= bytes.len(),
        bytes.subrange(pos, pos + 8) == le64(x as u64),
    ensures
        parse_i64(bytes, pos) == Parsed::Val(x, pos + 8),
{
    lemma_parse_u64_at(bytes, pos, x as u64);
    lemma_i64_bits(x);
}

/// Parsing a string block written for the character sequence `s` yields `s`
/// back and stops exactly past the block.
pub proof fn lemma_parse_str_at(bytes: Seq<u8>, pos: int, s: Seq<char>)
    requires
        0 <= pos,
        encode_utf8(s).len() <= 32767,
        pos + 2 + encode_utf8(s).len() <= bytes.len(),
        bytes.subrange(pos, pos + 2 + encode_utf8(s).len() as int) == spec_block(encode_utf8(s)),
    ensures
        parse_str(bytes, pos) == Parsed::Val(s, pos + 2 + encode_utf8(s).len()),
{
    let raw = encode_utf8(s);
    let n = raw.len() as u16;
    assert(bytes.subrange(pos, pos + 2) =~= le16(n));
    lemma_parse_i16_at(bytes, pos, n as i16);
    assert(n as i16 == raw.len() as i16);
    assert forall|i: int|
        0 <= i < raw.len() implies #[trigger] bytes.subrange(
        pos + 2,
        pos + 2 + raw.len() as int,
    )[i] == raw[i] by {
        assert(bytes.subrange(pos + 2, pos + 2 + raw.len() as int)[i] == bytes[pos + 2 + i]);
        assert(bytes[pos + 2 + i] == bytes.subrange(pos, pos + 2 + raw.len() as int)[2 + i]);
        assert(spec_block(raw)[2 + i] == raw[i]);
    }
    assert(bytes.subrange(pos + 2, pos + 2 + raw.len() as int) =~= raw);
    vstd::utf8::encode_utf8_valid_utf8(s);
    vstd::utf8::encode_utf8_decode_utf8(s);
}

/// A block: a two-byte little-endian length field followed by exactly that
/// many payload bytes. The length is written as a signed 16-bit value, so a
/// payload larger than `i16::MAX` bytes has no block.
pub open spec fn spec_block(payload: Seq<u8>) -> Seq<u8> {
    le16(payload.len() as u16) + payload
}

/// Wraps a payload in its block. Fails when the payload is too long for the
/// two-byte signed length field.
pub fn encode_block(payload: Vec<u8>) -> (r: Result<Vec<u8>, CodecError>)
    ensures
        r is Ok <==> payload@.len() <= 32767,
        r matches Ok(b) ==> b@ == spec_block(payload@),
        r matches Err(e) ==> e == CodecError::Oversize,
{
    if payload.len() > 32767 {
        return Err(CodecError::Oversize);
    }
    let mut out: Vec<u8> = Vec::new();
    binary_write_i16(&mut out, payload.len() as i16);
    let mut payload = payload;
    out.append(&mut payload);
    assert(out@ =~= spec_block(out@.skip(2)));
    Ok(out)
}

/// Relies on `String::from_utf8`: it succeeds exactly on input that is valid
/// UTF-8, and then returns the string those bytes encode.
#[verifier::external_body]
pub(crate) fn bytes_to_string(v: &Vec<u8>) -> (r: Option<String>)
    ensures
        r is Some <==> valid_utf8(v@),
        r matches Some(s) ==> s@ == decode_utf8(v@),
{
    match String::from_utf8(v.clone()) {
        Ok(s) => Some(s),
        Err(_) => None,
    }
}

/// Reads a string: a two-byte length followed by that many bytes of UTF-8.
pub fn binary_read_string(cursor: &mut Cursor, bytes: &Vec<u8>) -> (r: Result<
    String,
    CodecError,
>)
    ensures
        r matches Ok(s) ==> {
            &&& parse_str(bytes@, old(cursor).pos as int) == Parsed::Val(
                s@,
                final(cursor).pos as int,
            )
            &&& old(cursor).pos <= final(cursor).pos <= bytes@.len()
        },
        r matches Err(e) ==> parse_str(bytes@, old(cursor).pos as int) == Parsed::<
            Seq<char>,
        >::Fail(e),
{
    let n = match binary_read_i16(cursor, bytes) {
        Ok(v) => v,
        Err(e) => {
            return Err(e);
        },
    };
    if n < 0 {
        return Err(CodecError::TruncatedInput);
    }
    let n_us = n as usize;
    if n_us > bytes.len() - cursor.pos {
        return Err(CodecError::TruncatedInput);
    }
    let raw = vstd::slice::slice_to_vec(
        vstd::slice::slice_subrange(bytes.as_slice(), cursor.pos, cursor.pos + n_us),
    );
    cursor.pos = cursor.pos + n_us;
    match bytes_to_string(&raw) {
        Some(s) => Ok(s),
        None => Err(CodecError::Encoding),
    }
}

/// Reads and discards one length-prefixed block, as a reader skips the
/// textual message at the head of a response payload.
pub fn binary_read_msg(cursor: &mut Cursor, bytes: &Vec<u8>) -> (r: Result<(), CodecError>)
    ensures
        r is Ok ==> {
            &&& parse_skip_block(bytes@, old(cursor).pos as int) matches Parsed::Val(_, p)
                && p == final(cursor).pos
            &&& old(cursor).pos <= final(cursor).pos <= bytes@.len()
        },
        r matches Err(e) ==> parse_skip_block(bytes@, old(cursor).pos as int) == Parsed::<
            i16,
        >::Fail(e),
{
    let n = match binary_read_i16(cursor, bytes) {
        Ok(v) => v,
        Err(e) => {
            return Err(e);
        },
    };
    if n < 0 {
        return Err(CodecError::TruncatedInput);
    }
    let n_us = n as usize;
    if n_us > bytes.len() - cursor.pos {
        return Err(CodecError::TruncatedInput);
    }
    cursor.pos = cursor.pos + n_us;
    Ok(())
}

/// Writes a string as a two-byte length followed by its UTF-8 bytes. Fails
/// when the bytes do not fit the signed length field.
pub fn binary_write_string(encoded: &mut Vec<u8>, v: &str) -> (r: Result<(), CodecError>)
    ensures
        r is Ok <==> encode_utf8(v@).len() <= 32767,
        r is Ok ==> final(encoded)@ == old(encoded)@ + spec_block(encode_utf8(v@)),
        r matches Err(e) ==> e == CodecError::Oversize && final(encoded)@ == old(encoded)@,
{
    let bs = v.as_bytes();
    if bs.len() > 32767 {
        return Err(CodecError::Oversize);
    }
    binary_write_i16(encoded, bs.len() as i16);
    encoded.extend_from_slice(bs);
    assert(encoded@ =~= old(encoded)@ + spec_block(encode_utf8(v@)));
    Ok(())
}

/// A value that encodes itself into the payload of one block.
///
/// `spec_fields` is the byte run of the value's fields in their fixed wire
/// order; `encode` wraps those bytes in a block. `spec_encodable` says when
/// the value fits the format: every length field it needs is in range.
pub trait BinaryEncode: DeepView {
    spec fn spec_fields(v: Self::V) -> Seq<u8>;

    spec fn spec_encodable(v: Self::V) -> bool;

    /// The fields of an encodable value fit one block.
    proof fn lemma_encodable_fits(v: Self::V)
        requires
            Self::spec_encodable(v),
        ensures
            Self::spec_fields(v).len() <= 32767,
    ;

    fn encode(&self) -> (r: Result<Vec<u8>, CodecError>)
        ensures
            r is Ok <==> Self::spec_encodable(self.deep_view()),
            r matches Ok(b) ==> b@ == spec_block(Self::spec_fields(self.deep_view())),
    ;
}

/// A value that decodes itself from its fields' bytes.
///
/// `spec_dec` parses the fields alone: the block length in front of them, if
/// any, belongs to the enclosing reader, which uses it to skip values it does
/// not recognize.
pub trait BinaryDecode: DeepView + Sized {
    spec fn spec_dec(bytes: Seq<u8>, pos: int) -> Parsed<Self::V>;

    fn decode(cursor: &mut Cursor, bytes: &Vec<u8>) -> (r: Result<Self, CodecError>)
        ensures
            r matches Ok(v) ==> {
                &&& Self::spec_dec(bytes@, old(cursor).pos as int) == Parsed::Val(
                    v.deep_view(),
                    final(cursor).pos as int,
                )
                &&& old(cursor).pos <= final(cursor).pos <= bytes@.len()
            },
            r matches Err(e) ==> Self::spec_dec(bytes@, old(cursor).pos as int) == Parsed::<
                Self::V,
            >::Fail(e),
    ;
}

impl BinaryEncode for &str {
    open spec fn spec_fields(v: Seq<char>) -> Seq<u8> {
        encode_utf8(v)
    }

    open spec fn spec_encodable(v: Seq<char>) -> bool {
        encode_utf8(v).len() <= 32767
    }

    proof fn lemma_encodable_fits(v: Seq<char>) {
    }

    fn encode(&self) -> (r: Result<Vec<u8>, CodecError>) {
        let mut out: Vec<u8> = Vec::new();
        binary_write_string(&mut out, *self)?;
        Ok(out)
    }
}

/// A value whose decode reads back exactly what its encode wrote.
///
/// The obligation is stated over the fields inside the block, in an arbitrary
/// enclosing buffer, so that it composes: a sequence or an enclosing record
/// that finds this value's fields in its own payload reads exactly the value
/// whose encoding was put there.
pub trait LosslessCodec: BinaryEncode + BinaryDecode {
    /// A record's fields occupy at least one byte, so that a block with a
    /// zero length field is never a record — a reader may take it for an
    /// absent optional value.
    proof fn lemma_fields_nonempty(v: Self::V)
        requires
            Self::spec_encodable(v),
        ensures
            Self::spec_fields(v).len() > 0,
    ;

    /// Parsing from a buffer that holds the value's fields at `pos` yields
    /// the value back and stops exactly past its bytes.
    proof fn lemma_fields_round_trip(v: Self::V, bytes: Seq<u8>, pos: int)
        requires
            Self::spec_encodable(v),
            0 <= pos,
            pos + Self::spec_fields(v).len() <= bytes.len(),
            bytes.subrange(pos, pos + Self::spec_fields(v).len() as int) == Self::spec_fields(v),
        ensures
            Self::spec_dec(bytes, pos) == Parsed::Val(v, pos + Self::spec_fields(v).len()),
    ;
}

/// Codec round trip: the bytes a value's encode produced read back as
/// exactly that value. The fields parse from just past the block's length
/// field to exactly the block's end, whatever buffer the block stands in.
pub proof fn lemma_encode_decode_round_trip<T: LosslessCodec>(v: T::V, bytes: Seq<u8>)
    requires
        T::spec_encodable(v),
        bytes == spec_block(T::spec_fields(v)),
    ensures
        T::spec_dec(bytes, 2) == Parsed::Val(v, bytes.len() as int),
{
    T::lemma_encodable_fits(v);
    lemma_block_parts(T::spec_fields(v));
    T::lemma_fields_round_trip(v, bytes, 2);
}

/// Decodes one value's fields from the cursor's position.
pub fn deserialize_binary<T: BinaryDecode + BinaryEncode>(
    cursor: &mut Cursor,
    bytes: &Vec<u8>,
) -> (r: Result<T, CodecError>)
    ensures
        r matches Ok(v) ==> {
            &&& T::spec_dec(bytes@, old(cursor).pos as int) == Parsed::Val(
                v.deep_view(),
                final(cursor).pos as int,
            )
            &&& old(cursor).pos <= final(cursor).pos <= bytes@.len()
        },
        r matches Err(e) ==> T::spec_dec(bytes@, old(cursor).pos as int) == Parsed::<
            T::V,
        >::Fail(e),
{
    T::decode(cursor, bytes)
}

} // verus!
