//! Optional values and homogeneous sequences.
//!
//! An optional value reuses the block shape: an absent value is a block with
//! payload length zero, a present one is the block of the value itself — the
//! length field doubles as a presence flag.
//!
//! A sequence is the concatenation of its elements' blocks, wrapped in one
//! more block whose length field covers the whole concatenation. A reader
//! loops: it reads one element length, decodes the element's fields, and
//! accounts `2 + length` bytes, stopping once the accounted bytes reach the
//! outer length. The element length exists so that a reader that does not
//! know an element's shape could still skip it.

use vstd::prelude::*;
use crate::codec::{
    BinaryDecode, BinaryEncode, CodecError, Cursor, LosslessCodec, Parsed, binary_read_i16,
    encode_block, le16, lemma_parse_i16_at, lemma_subrange_at, parse_i16, spec_block,
};

verus! {

/// The concatenation of the element blocks of a sequence.
pub open spec fn seq_items_bytes<T: BinaryEncode>(v: Seq<T::V>) -> Seq<u8>
    decreases v.len(),
{
    if v.len() == 0 {
        Seq::empty()
    } else {
        spec_block(T::spec_fields(v[0])) + seq_items_bytes::<T>(v.skip(1))
    }
}

/// Every element of the sequence is encodable.
pub open spec fn all_items_encodable<T: BinaryEncode>(v: Seq<T::V>) -> bool {
    forall|i: int| 0 <= i < v.len() ==> T::spec_encodable(#[trigger] v[i])
}

/// Appending one element appends its block.
pub proof fn lemma_seq_items_bytes_push<T: BinaryEncode>(v: Seq<T::V>, x: T::V)
    ensures
        seq_items_bytes::<T>(v.push(x)) == seq_items_bytes::<T>(v) + spec_block(
            T::spec_fields(x),
        ),
    decreases v.len(),
{
    if v.len() == 0 {
        let s1 = v.push(x);
        assert(s1.len() == 1);
        assert(s1[0] == x);
        assert(s1.skip(1) =~= Seq::<T::V>::empty());
        assert(seq_items_bytes::<T>(s1) == spec_block(T::spec_fields(x)) + seq_items_bytes::<T>(
            s1.skip(1),
        ));
        assert(seq_items_bytes::<T>(Seq::<T::V>::empty()) == Seq::<u8>::empty());
        assert(seq_items_bytes::<T>(v) == Seq::<u8>::empty());
        assert(spec_block(T::spec_fields(x)) + Seq::<u8>::empty() =~= spec_block(
            T::spec_fields(x),
        ));
        assert(Seq::<u8>::empty() + spec_block(T::spec_fields(x)) =~= spec_block(
            T::spec_fields(x),
        ));
    } else {
        assert(v.push(x).skip(1) =~= v.skip(1).push(x));
        lemma_seq_items_bytes_push::<T>(v.skip(1), x);
        assert(v.push(x)[0] == v[0]);
        assert(spec_block(T::spec_fields(v[0])) + (seq_items_bytes::<T>(v.skip(1)) + spec_block(
            T::spec_fields(x),
        )) =~= (spec_block(T::spec_fields(v[0])) + seq_items_bytes::<T>(v.skip(1))) + spec_block(
            T::spec_fields(x),
        ));
    }
}

impl<T: BinaryEncode> BinaryEncode for Option<T> {
    open spec fn spec_fields(v: Option<T::V>) -> Seq<u8> {
        match v {
            Some(x) => T::spec_fields(x),
            None => Seq::empty(),
        }
    }

    open spec fn spec_encodable(v: Option<T::V>) -> bool {
        match v {
            Some(x) => T::spec_encodable(x),
            None => true,
        }
    }

    proof fn lemma_encodable_fits(v: Option<T::V>) {
        match v {
            Some(x) => T::lemma_encodable_fits(x),
            None => {},
        }
    }

    fn encode(&self) -> (r: Result<Vec<u8>, CodecError>) {
        match self {
            Some(x) => x.encode(),
            None => {
                let fields: Vec<u8> = Vec::new();
                encode_block(fields)
            },
        }
    }
}

impl<T: BinaryDecode> BinaryDecode for Option<T> {
    open spec fn spec_dec(bytes: Seq<u8>, pos: int) -> Parsed<Option<T::V>> {
        match parse_i16(bytes, pos) {
            Parsed::Val(n, p) => {
                if n > 0 {
                    match T::spec_dec(bytes, p) {
                        Parsed::Val(x, p2) => Parsed::Val(Some(x), p2),
                        Parsed::Fail(e) => Parsed::Fail(e),
                    }
                } else {
                    Parsed::Val(None, p)
                }
            },
            Parsed::Fail(e) => Parsed::Fail(e),
        }
    }

    fn decode(cursor: &mut Cursor, bytes: &Vec<u8>) -> (r: Result<Self, CodecError>) {
        let n = binary_read_i16(cursor, bytes)?;
        if n > 0 {
            let x = T::decode(cursor, bytes)?;
            Ok(Some(x))
        } else {
            Ok(None)
        }
    }
}

/// Reading an optional value's block back gives the value: the zero-length
/// block an absent value writes reads back as absent, and a present value's
/// block reads back as the value itself.
pub proof fn lemma_option_block_round_trip<T: LosslessCodec>(
    v: Option<T::V>,
    bytes: Seq<u8>,
    pos: int,
)
    requires
        <Option<T> as BinaryEncode>::spec_encodable(v),
        0 <= pos,
        pos + 2 + <Option<T> as BinaryEncode>::spec_fields(v).len() <= bytes.len(),
        bytes.subrange(
            pos,
            pos + 2 + <Option<T> as BinaryEncode>::spec_fields(v).len() as int,
        ) == spec_block(<Option<T> as BinaryEncode>::spec_fields(v)),
    ensures
        <Option<T> as BinaryDecode>::spec_dec(bytes, pos) == Parsed::Val(
            v,
            pos + 2 + <Option<T> as BinaryEncode>::spec_fields(v).len(),
        ),
{
    let f = <Option<T> as BinaryEncode>::spec_fields(v);
    match v {
        None => {
            assert(bytes.subrange(pos, pos + 2) =~= le16(0u16));
            lemma_parse_i16_at(bytes, pos, 0i16);
        },
        Some(x) => {
            T::lemma_encodable_fits(x);
            T::lemma_fields_nonempty(x);
            assert((f.len() as i16) as u16 == f.len() as u16);
            assert(bytes.subrange(pos, pos + 2) =~= le16(f.len() as u16));
            lemma_parse_i16_at(bytes, pos, f.len() as i16);
            lemma_subrange_at(bytes, pos, spec_block(f), 2, 2 + f.len() as int);
            assert(spec_block(f).subrange(2, 2 + f.len() as int) =~= f);
            T::lemma_fields_round_trip(x, bytes, pos + 2);
        },
    }
}

/// The bytes the sequence reader may still account before it stops.
pub open spec fn items_budget(l: int, consumed: int) -> int {
    if l - consumed >= 0 {
        l - consumed
    } else {
        0
    }
}

/// The sequence reader's loop: account two bytes for the element length
/// field; stop once the account reaches the outer length `l`; otherwise read
/// the element length, decode one element's fields, and account the length
/// read. A negative element length is a truncation failure.
pub open spec fn parse_items<T: BinaryDecode>(
    bytes: Seq<u8>,
    pos: int,
    l: int,
    consumed: int,
) -> Parsed<Seq<T::V>>
    decreases items_budget(l, consumed),
{
    if consumed + 2 >= l {
        Parsed::Val(Seq::empty(), pos)
    } else {
        match parse_i16(bytes, pos) {
            Parsed::Val(n, p1) => {
                if n < 0 {
                    Parsed::Fail(CodecError::TruncatedInput)
                } else {
                    match T::spec_dec(bytes, p1) {
                        Parsed::Val(x, p2) => match parse_items::<T>(
                            bytes,
                            p2,
                            l,
                            consumed + 2 + n,
                        ) {
                            Parsed::Val(rest, pe) => Parsed::Val(seq![x] + rest, pe),
                            Parsed::Fail(e) => Parsed::Fail(e),
                        },
                        Parsed::Fail(e) => Parsed::Fail(e),
                    }
                }
            },
            Parsed::Fail(e) => Parsed::Fail(e),
        }
    }
}

/// Items already read, put in front of the outcome of reading the rest.
pub open spec fn prepend_parsed<V>(front: Seq<V>, p: Parsed<Seq<V>>) -> Parsed<Seq<V>> {
    match p {
        Parsed::Val(rest, e) => Parsed::Val(front + rest, e),
        Parsed::Fail(err) => Parsed::Fail(err),
    }
}

impl<T: BinaryEncode> BinaryEncode for Vec<T> {
    open spec fn spec_fields(v: Seq<T::V>) -> Seq<u8> {
        seq_items_bytes::<T>(v)
    }

    open spec fn spec_encodable(v: Seq<T::V>) -> bool {
        all_items_encodable::<T>(v) && seq_items_bytes::<T>(v).len() <= 32767
    }

    proof fn lemma_encodable_fits(v: Seq<T::V>) {
    }

    fn encode(&self) -> (r: Result<Vec<u8>, CodecError>) {
        let mut fields: Vec<u8> = Vec::new();
        let mut i: usize = 0;
        while i < self.len()
            invariant
                i <= self@.len(),
                all_items_encodable::<T>(self.deep_view().take(i as int)),
                fields@ == seq_items_bytes::<T>(self.deep_view().take(i as int)),
            decreases self@.len() - i,
        {
            let b = match self[i].encode() {
                Ok(b) => b,
                Err(e) => {
                    assert(!T::spec_encodable(self.deep_view()[i as int]));
                    return Err(e);
                },
            };
            proof {
                lemma_seq_items_bytes_push::<T>(
                    self.deep_view().take(i as int),
                    self.deep_view()[i as int],
                );
                assert(self.deep_view().take(i as int).push(self.deep_view()[i as int])
                    =~= self.deep_view().take(i + 1));
            }
            let mut b = b;
            fields.append(&mut b);
            i = i + 1;
        }
        assert(self.deep_view().take(self@.len() as int) =~= self.deep_view());
        encode_block(fields)
    }
}

impl<T: BinaryDecode> BinaryDecode for Vec<T> {
    open spec fn spec_dec(bytes: Seq<u8>, pos: int) -> Parsed<Seq<T::V>> {
        match parse_i16(bytes, pos) {
            Parsed::Val(l, p) => {
                if l > 0 {
                    parse_items::<T>(bytes, p, l as int, 0)
                } else {
                    Parsed::Val(Seq::empty(), p)
                }
            },
            Parsed::Fail(e) => Parsed::Fail(e),
        }
    }

    #[verifier::loop_isolation(false)]
    fn decode(cursor: &mut Cursor, bytes: &Vec<u8>) -> (r: Result<Self, CodecError>) {
        let ghost p00 = cursor.pos as int;
        let l = binary_read_i16(cursor, bytes)?;
        let mut datas: Vec<T> = Vec::new();
        if l <= 0 {
            assert(datas.deep_view() =~= Seq::<T::V>::empty());
            return Ok(datas);
        }
        let ghost start = cursor.pos as int;
        let l32: i32 = l as i32;
        let mut consumed: i32 = 0;
        proof {
            assert(datas.deep_view() =~= Seq::<T::V>::empty());
            match parse_items::<T>(bytes@, start, l as int, 0) {
                Parsed::Val(rest, _pe) => {
                    assert(Seq::<T::V>::empty() + rest =~= rest);
                },
                Parsed::Fail(_e) => {},
            }
        }
        while consumed + 2 < l32
            invariant
                0 <= consumed <= 70000,
                start <= cursor.pos <= bytes@.len(),
                parse_items::<T>(bytes@, start, l as int, 0) == prepend_parsed(
                    datas.deep_view(),
                    parse_items::<T>(bytes@, cursor.pos as int, l as int, consumed as int),
                ),
            decreases items_budget(l32 as int, consumed as int),
        {
            let ghost pos_top = cursor.pos as int;
            let ghost dv_old = datas.deep_view();
            let n = match binary_read_i16(cursor, bytes) {
                Ok(v) => v,
                Err(e) => {
                    return Err(e);
                },
            };
            if n < 0 {
                return Err(CodecError::TruncatedInput);
            }
            let item = match T::decode(cursor, bytes) {
                Ok(x) => x,
                Err(e) => {
                    return Err(e);
                },
            };
            proof {
                let rest_p = parse_items::<T>(
                    bytes@,
                    cursor.pos as int,
                    l as int,
                    consumed as int + 2 + n as int,
                );
                match rest_p {
                    Parsed::Val(rest, _pe) => {
                        assert(dv_old + (seq![item.deep_view()] + rest) =~= dv_old.push(
                            item.deep_view(),
                        ) + rest);
                    },
                    Parsed::Fail(_e) => {},
                }
            }
            datas.push(item);
            proof {
                assert(datas.deep_view() =~= dv_old.push(item.deep_view()));
            }
            consumed = consumed + 2 + (n as i32);
        }
        proof {
            assert(parse_items::<T>(bytes@, cursor.pos as int, l as int, consumed as int)
                == Parsed::<Seq<T::V>>::Val(Seq::empty(), cursor.pos as int));
            assert(datas.deep_view() + Seq::<T::V>::empty() =~= datas.deep_view());
        }
        Ok(datas)
    }
}

/// Reading element blocks back, under the outer length's accounting, yields
/// exactly the items whose blocks were written.
pub proof fn lemma_items_round_trip<T: LosslessCodec>(
    v: Seq<T::V>,
    bytes: Seq<u8>,
    pos: int,
    l: int,
    consumed: int,
)
    requires
        all_items_encodable::<T>(v),
        0 <= pos,
        0 <= consumed,
        pos + seq_items_bytes::<T>(v).len() <= bytes.len(),
        bytes.subrange(pos, pos + seq_items_bytes::<T>(v).len() as int) == seq_items_bytes::<T>(
            v,
        ),
        l == consumed + seq_items_bytes::<T>(v).len(),
    ensures
        parse_items::<T>(bytes, pos, l, consumed) == Parsed::Val(
            v,
            pos + seq_items_bytes::<T>(v).len(),
        ),
    decreases v.len(),
{
    let items = seq_items_bytes::<T>(v);
    if v.len() == 0 {
        assert(items.len() == 0);
        assert(v =~= Seq::<T::V>::empty());
    } else {
        assert(T::spec_encodable(v[0]));
        let f0 = T::spec_fields(v[0]);
        T::lemma_encodable_fits(v[0]);
        T::lemma_fields_nonempty(v[0]);
        let rest_items = seq_items_bytes::<T>(v.skip(1));
        assert(items == spec_block(f0) + rest_items);
        assert(items.len() == 2 + f0.len() + rest_items.len());
        assert(0 < f0.len() <= 32767);
        assert((f0.len() as i16) as int == f0.len() as int);
        assert((f0.len() as i16) as u16 == f0.len() as u16);
        lemma_subrange_at(bytes, pos, items, 0, 2);
        assert(items.subrange(0, 2) =~= le16(f0.len() as u16));
        lemma_parse_i16_at(bytes, pos, f0.len() as i16);
        lemma_subrange_at(bytes, pos, items, 2, 2 + f0.len() as int);
        assert(items.subrange(2, 2 + f0.len() as int) =~= f0);
        T::lemma_fields_round_trip(v[0], bytes, pos + 2);
        assert(all_items_encodable::<T>(v.skip(1))) by {
            assert(forall|i: int|
                0 <= i < v.skip(1).len() ==> #[trigger] v.skip(1)[i] == v[i + 1]);
        }
        lemma_subrange_at(bytes, pos, items, 2 + f0.len() as int, items.len() as int);
        assert(items.subrange(2 + f0.len() as int, items.len() as int) =~= rest_items);
        lemma_items_round_trip::<T>(
            v.skip(1),
            bytes,
            pos + 2 + f0.len(),
            l,
            consumed + 2 + f0.len(),
        );
        assert(seq![v[0]] + v.skip(1) =~= v);
    }
}

/// Round trip of a whole sequence block, and the framing bound: whatever the
/// elements' sizes, decoding consumes exactly two bytes more than the outer
/// length field written at encode time, and yields exactly the items.
pub proof fn lemma_seq_block_round_trip<T: LosslessCodec>(v: Seq<T::V>, bytes: Seq<u8>, pos: int)
    requires
        <Vec<T> as BinaryEncode>::spec_encodable(v),
        0 <= pos,
        pos + 2 + seq_items_bytes::<T>(v).len() <= bytes.len(),
        bytes.subrange(pos, pos + 2 + seq_items_bytes::<T>(v).len() as int) == spec_block(
            seq_items_bytes::<T>(v),
        ),
    ensures
        <Vec<T> as BinaryDecode>::spec_dec(bytes, pos) == Parsed::Val(
            v,
            pos + 2 + seq_items_bytes::<T>(v).len(),
        ),
{
    let items = seq_items_bytes::<T>(v);
    assert(items.len() <= 32767);
    assert((items.len() as i16) as int == items.len() as int);
    assert((items.len() as i16) as u16 == items.len() as u16);
    assert(bytes.subrange(pos, pos + 2) =~= le16(items.len() as u16));
    lemma_parse_i16_at(bytes, pos, items.len() as i16);
    if v.len() == 0 {
        assert(items.len() == 0);
        assert(v =~= Seq::<T::V>::empty());
    } else {
        T::lemma_fields_nonempty(v[0]);
        assert(items.len() > 0);
        lemma_subrange_at(bytes, pos, spec_block(items), 2, 2 + items.len() as int);
        assert(spec_block(items).subrange(2, 2 + items.len() as int) =~= items);
        lemma_items_round_trip::<T>(v, bytes, pos + 2, items.len() as int, 0);
    }
}

} // verus!
