//! The chat-user record shown beside a message.

use vstd::prelude::*;
use vstd::utf8::encode_utf8;
use crate::codec::{
    BinaryDecode, BinaryEncode, CodecError, Cursor, LosslessCodec, Parsed, binary_read_i32,
    binary_read_i64, binary_read_string, binary_write_i32, binary_write_i64, binary_write_string,
    encode_block, le32, le64, lemma_parse_i32_at, lemma_parse_i64_at, lemma_parse_str_at,
    lemma_subrange_at, parse_i32, parse_i64, parse_str, spec_block,
};

verus! {

/// The user fields a client displays beside a chat message.
#[derive(Debug, Clone, PartialEq)]
pub struct FrontDisplayChatUser {
    pub uuid: i64,
    pub uid: i32,
    pub name: String,
    pub avatar: String,
    pub server_id: i32,
    pub action_points: i32,
}

/// The mathematical value of a chat-user record: its fields, with the
/// strings as character sequences.
pub struct ChatUserV {
    pub uuid: i64,
    pub uid: i32,
    pub name: Seq<char>,
    pub avatar: Seq<char>,
    pub server_id: i32,
    pub action_points: i32,
}

impl DeepView for FrontDisplayChatUser {
    type V = ChatUserV;

    open spec fn deep_view(&self) -> ChatUserV {
        ChatUserV {
            uuid: self.uuid,
            uid: self.uid,
            name: self.name@,
            avatar: self.avatar@,
            server_id: self.server_id,
            action_points: self.action_points,
        }
    }
}

impl BinaryEncode for FrontDisplayChatUser {
    open spec fn spec_fields(v: ChatUserV) -> Seq<u8> {
        le64(v.uuid as u64) + le32(v.uid as u32) + spec_block(encode_utf8(v.name)) + spec_block(
            encode_utf8(v.avatar),
        ) + le32(v.server_id as u32) + le32(v.action_points as u32)
    }

    open spec fn spec_encodable(v: ChatUserV) -> bool {
        &&& encode_utf8(v.name).len() <= 32767
        &&& encode_utf8(v.avatar).len() <= 32767
        &&& Self::spec_fields(v).len() <= 32767
    }

    proof fn lemma_encodable_fits(v: ChatUserV) {
    }

    fn encode(&self) -> (r: Result<Vec<u8>, CodecError>) {
        let mut fields: Vec<u8> = Vec::new();
        binary_write_i64(&mut fields, self.uuid);
        binary_write_i32(&mut fields, self.uid);
        binary_write_string(&mut fields, self.name.as_str())?;
        binary_write_string(&mut fields, self.avatar.as_str())?;
        binary_write_i32(&mut fields, self.server_id);
        binary_write_i32(&mut fields, self.action_points);
        assert(fields@ =~= Self::spec_fields(self.deep_view()));
        encode_block(fields)
    }
}

impl BinaryDecode for FrontDisplayChatUser {
    open spec fn spec_dec(bytes: Seq<u8>, pos: int) -> Parsed<ChatUserV> {
        match parse_i64(bytes, pos) {
            Parsed::Val(uuid, p1) => match parse_i32(bytes, p1) {
                Parsed::Val(uid, p2) => match parse_str(bytes, p2) {
                    Parsed::Val(name, p3) => match parse_str(bytes, p3) {
                        Parsed::Val(avatar, p4) => match parse_i32(bytes, p4) {
                            Parsed::Val(server_id, p5) => match parse_i32(bytes, p5) {
                                Parsed::Val(action_points, p6) => Parsed::Val(
                                    ChatUserV {
                                        uuid,
                                        uid,
                                        name,
                                        avatar,
                                        server_id,
                                        action_points,
                                    },
                                    p6,
                                ),
                                Parsed::Fail(e) => Parsed::Fail(e),
                            },
                            Parsed::Fail(e) => Parsed::Fail(e),
                        },
                        Parsed::Fail(e) => Parsed::Fail(e),
                    },
                    Parsed::Fail(e) => Parsed::Fail(e),
                },
                Parsed::Fail(e) => Parsed::Fail(e),
            },
            Parsed::Fail(e) => Parsed::Fail(e),
        }
    }

    fn decode(cursor: &mut Cursor, bytes: &Vec<u8>) -> (r: Result<Self, CodecError>) {
        let uuid = binary_read_i64(cursor, bytes)?;
        let uid = binary_read_i32(cursor, bytes)?;
        let name = binary_read_string(cursor, bytes)?;
        let avatar = binary_read_string(cursor, bytes)?;
        let server_id = binary_read_i32(cursor, bytes)?;
        let action_points = binary_read_i32(cursor, bytes)?;
        Ok(FrontDisplayChatUser { uuid, uid, name, avatar, server_id, action_points })
    }
}

impl LosslessCodec for FrontDisplayChatUser {
    proof fn lemma_fields_nonempty(v: ChatUserV) {
    }

    #[verifier::rlimit(60)]
    proof fn lemma_fields_round_trip(v: ChatUserV, bytes: Seq<u8>, pos: int) {
        let f = Self::spec_fields(v);
        let name_b = encode_utf8(v.name);
        let avatar_b = encode_utf8(v.avatar);
        let o1: int = 8;
        let o2: int = o1 + 4;
        let o3: int = o2 + 2 + name_b.len();
        let o4: int = o3 + 2 + avatar_b.len();
        let o5: int = o4 + 4;
        let o6: int = o5 + 4;
        lemma_subrange_at(bytes, pos, f, 0, o1);
        assert(f.subrange(0, o1) =~= le64(v.uuid as u64));
        lemma_parse_i64_at(bytes, pos, v.uuid);
        lemma_subrange_at(bytes, pos, f, o1, o2);
        assert(f.subrange(o1, o2) =~= le32(v.uid as u32));
        lemma_parse_i32_at(bytes, pos + o1, v.uid);
        lemma_subrange_at(bytes, pos, f, o2, o3);
        assert(f.subrange(o2, o3) =~= spec_block(name_b));
        lemma_parse_str_at(bytes, pos + o2, v.name);
        lemma_subrange_at(bytes, pos, f, o3, o4);
        assert(f.subrange(o3, o4) =~= spec_block(avatar_b));
        lemma_parse_str_at(bytes, pos + o3, v.avatar);
        lemma_subrange_at(bytes, pos, f, o4, o5);
        assert(f.subrange(o4, o5) =~= le32(v.server_id as u32));
        lemma_parse_i32_at(bytes, pos + o4, v.server_id);
        lemma_subrange_at(bytes, pos, f, o5, o6);
        assert(f.subrange(o5, o6) =~= le32(v.action_points as u32));
        lemma_parse_i32_at(bytes, pos + o5, v.action_points);
    }
}

} // verus!
