//! The chat-message records of the response payloads: one shape per channel
//! kind, each carrying the sending user where the client displays it.

use vstd::prelude::*;
use vstd::utf8::encode_utf8;
use crate::codec::{
    BinaryDecode, BinaryEncode, CodecError, Cursor, LosslessCodec, Parsed, binary_read_i16,
    binary_read_i64, binary_read_string, binary_write_i16, binary_write_i64, binary_write_string,
    deserialize_binary, encode_block, le16, le64, lemma_parse_i16_at, lemma_parse_i64_at,
    lemma_parse_str_at, lemma_subrange_at, parse_i16, parse_i64, parse_str, spec_block,
};
use crate::models::user::{ChatUserV, FrontDisplayChatUser};

verus! {

/// A plain chat message with sender and receiver given by id alone.
#[derive(Debug, Clone, PartialEq)]
pub struct FrontDisplayChatMessage {
    pub mid: i64,
    pub send_id: i64,
    pub to_id: i64,
    pub content: String,
    pub created_timestamp: i64,
    pub kind: i16,
    pub msg_type: i16,
}

/// The mathematical value of a plain chat message.
pub struct ChatMessageV {
    pub mid: i64,
    pub send_id: i64,
    pub to_id: i64,
    pub content: Seq<char>,
    pub created_timestamp: i64,
    pub kind: i16,
    pub msg_type: i16,
}

impl DeepView for FrontDisplayChatMessage {
    type V = ChatMessageV;

    open spec fn deep_view(&self) -> ChatMessageV {
        ChatMessageV {
            mid: self.mid,
            send_id: self.send_id,
            to_id: self.to_id,
            content: self.content@,
            created_timestamp: self.created_timestamp,
            kind: self.kind,
            msg_type: self.msg_type,
        }
    }
}

impl BinaryEncode for FrontDisplayChatMessage {
    open spec fn spec_fields(v: ChatMessageV) -> Seq<u8> {
        le64(v.mid as u64) + le64(v.send_id as u64) + le64(v.to_id as u64) + spec_block(
            encode_utf8(v.content),
        ) + le64(v.created_timestamp as u64) + le16(v.kind as u16) + le16(v.msg_type as u16)
    }

    open spec fn spec_encodable(v: ChatMessageV) -> bool {
        &&& encode_utf8(v.content).len() <= 32767
        &&& Self::spec_fields(v).len() <= 32767
    }

    proof fn lemma_encodable_fits(v: ChatMessageV) {
    }

    fn encode(&self) -> (r: Result<Vec<u8>, CodecError>) {
        let mut fields: Vec<u8> = Vec::new();
        binary_write_i64(&mut fields, self.mid);
        binary_write_i64(&mut fields, self.send_id);
        binary_write_i64(&mut fields, self.to_id);
        binary_write_string(&mut fields, self.content.as_str())?;
        binary_write_i64(&mut fields, self.created_timestamp);
        binary_write_i16(&mut fields, self.kind);
        binary_write_i16(&mut fields, self.msg_type);
        assert(fields@ =~= Self::spec_fields(self.deep_view()));
        encode_block(fields)
    }
}

impl BinaryDecode for FrontDisplayChatMessage {
    open spec fn spec_dec(bytes: Seq<u8>, pos: int) -> Parsed<ChatMessageV> {
        match parse_i64(bytes, pos) {
            Parsed::Val(mid, p1) => match parse_i64(bytes, p1) {
                Parsed::Val(send_id, p2) => match parse_i64(bytes, p2) {
                    Parsed::Val(to_id, p3) => match parse_str(bytes, p3) {
                        Parsed::Val(content, p4) => match parse_i64(bytes, p4) {
                            Parsed::Val(created_timestamp, p5) => match parse_i16(bytes, p5) {
                                Parsed::Val(kind, p6) => match parse_i16(bytes, p6) {
                                    Parsed::Val(msg_type, p7) => Parsed::Val(
                                        ChatMessageV {
                                            mid,
                                            send_id,
                                            to_id,
                                            content,
                                            created_timestamp,
                                            kind,
                                            msg_type,
                                        },
                                        p7,
                                    ),
                                    Parsed::Fail(e) => Parsed::Fail(e),
                                },
                                Parsed::Fail(e) => Parsed::Fail(e),
                            },
                            Parsed::Fail(e) => Parsed::Fail(e),
                        },
                        Parsed::Fail(e) => Parsed::Fail(e),
                    },
                    Parsed::Fail(e) => Parsed::Fail(e),
                },
                Parsed::Fail(e) => Parsed::Fail(e),
            },
            Parsed::Fail(e) => Parsed::Fail(e),
        }
    }

    fn decode(cursor: &mut Cursor, bytes: &Vec<u8>) -> (r: Result<Self, CodecError>) {
        let mid = binary_read_i64(cursor, bytes)?;
        let send_id = binary_read_i64(cursor, bytes)?;
        let to_id = binary_read_i64(cursor, bytes)?;
        let content = binary_read_string(cursor, bytes)?;
        let created_timestamp = binary_read_i64(cursor, bytes)?;
        let kind = binary_read_i16(cursor, bytes)?;
        let msg_type = binary_read_i16(cursor, bytes)?;
        Ok(FrontDisplayChatMessage { mid, send_id, to_id, content, created_timestamp, kind, msg_type })
    }
}

impl LosslessCodec for FrontDisplayChatMessage {
    proof fn lemma_fields_nonempty(v: ChatMessageV) {
    }

    #[verifier::rlimit(60)]
    proof fn lemma_fields_round_trip(v: ChatMessageV, bytes: Seq<u8>, pos: int) {
        let f = Self::spec_fields(v);
        let cb = encode_utf8(v.content);
        let o1: int = 8;
        let o2: int = 16;
        let o3: int = 24;
        let o4: int = o3 + 2 + cb.len();
        let o5: int = o4 + 8;
        let o6: int = o5 + 2;
        let o7: int = o6 + 2;
        lemma_subrange_at(bytes, pos, f, 0, o1);
        assert(f.subrange(0, o1) =~= le64(v.mid as u64));
        lemma_parse_i64_at(bytes, pos, v.mid);
        lemma_subrange_at(bytes, pos, f, o1, o2);
        assert(f.subrange(o1, o2) =~= le64(v.send_id as u64));
        lemma_parse_i64_at(bytes, pos + o1, v.send_id);
        lemma_subrange_at(bytes, pos, f, o2, o3);
        assert(f.subrange(o2, o3) =~= le64(v.to_id as u64));
        lemma_parse_i64_at(bytes, pos + o2, v.to_id);
        lemma_subrange_at(bytes, pos, f, o3, o4);
        assert(f.subrange(o3, o4) =~= spec_block(cb));
        lemma_parse_str_at(bytes, pos + o3, v.content);
        lemma_subrange_at(bytes, pos, f, o4, o5);
        assert(f.subrange(o4, o5) =~= le64(v.created_timestamp as u64));
        lemma_parse_i64_at(bytes, pos + o4, v.created_timestamp);
        lemma_subrange_at(bytes, pos, f, o5, o6);
        assert(f.subrange(o5, o6) =~= le16(v.kind as u16));
        lemma_parse_i16_at(bytes, pos + o5, v.kind);
        lemma_subrange_at(bytes, pos, f, o6, o7);
        assert(f.subrange(o6, o7) =~= le16(v.msg_type as u16));
        lemma_parse_i16_at(bytes, pos + o6, v.msg_type);
    }
}

/// A kingdom-channel message, carrying the sending user's record.
#[derive(Debug, Clone, PartialEq)]
pub struct FrontDisplayKingdomChatMessage {
    pub mid: i64,
    pub send_user: FrontDisplayChatUser,
    pub to_id: i64,
    pub content: String,
    pub created_timestamp: i64,
    pub kind: i16,
    pub msg_type: i16,
}

/// The mathematical value of a kingdom-channel message.
pub struct KingdomChatMessageV {
    pub mid: i64,
    pub send_user: ChatUserV,
    pub to_id: i64,
    pub content: Seq<char>,
    pub created_timestamp: i64,
    pub kind: i16,
    pub msg_type: i16,
}

impl DeepView for FrontDisplayKingdomChatMessage {
    type V = KingdomChatMessageV;

    open spec fn deep_view(&self) -> KingdomChatMessageV {
        KingdomChatMessageV {
            mid: self.mid,
            send_user: self.send_user.deep_view(),
            to_id: self.to_id,
            content: self.content@,
            created_timestamp: self.created_timestamp,
            kind: self.kind,
            msg_type: self.msg_type,
        }
    }
}

impl BinaryEncode for FrontDisplayKingdomChatMessage {
    open spec fn spec_fields(v: KingdomChatMessageV) -> Seq<u8> {
        le64(v.mid as u64) + spec_block(FrontDisplayChatUser::spec_fields(v.send_user)) + le64(
            v.to_id as u64,
        ) + spec_block(encode_utf8(v.content)) + le64(v.created_timestamp as u64) + le16(
            v.kind as u16,
        ) + le16(v.msg_type as u16)
    }

    open spec fn spec_encodable(v: KingdomChatMessageV) -> bool {
        &&& FrontDisplayChatUser::spec_encodable(v.send_user)
        &&& encode_utf8(v.content).len() <= 32767
        &&& Self::spec_fields(v).len() <= 32767
    }

    proof fn lemma_encodable_fits(v: KingdomChatMessageV) {
    }

    fn encode(&self) -> (r: Result<Vec<u8>, CodecError>) {
        let mut fields: Vec<u8> = Vec::new();
        binary_write_i64(&mut fields, self.mid);
        let mut user_block = self.send_user.encode()?;
        fields.append(&mut user_block);
        binary_write_i64(&mut fields, self.to_id);
        binary_write_string(&mut fields, self.content.as_str())?;
        binary_write_i64(&mut fields, self.created_timestamp);
        binary_write_i16(&mut fields, self.kind);
        binary_write_i16(&mut fields, self.msg_type);
        assert(fields@ =~= Self::spec_fields(self.deep_view()));
        encode_block(fields)
    }
}

impl BinaryDecode for FrontDisplayKingdomChatMessage {
    open spec fn spec_dec(bytes: Seq<u8>, pos: int) -> Parsed<KingdomChatMessageV> {
        match parse_i64(bytes, pos) {
            Parsed::Val(mid, p1) => match parse_i16(bytes, p1) {
                Parsed::Val(_user_len, p2) => match FrontDisplayChatUser::spec_dec(bytes, p2) {
                    Parsed::Val(send_user, p3) => match parse_i64(bytes, p3) {
                        Parsed::Val(to_id, p4) => match parse_str(bytes, p4) {
                            Parsed::Val(content, p5) => match parse_i64(bytes, p5) {
                                Parsed::Val(created_timestamp, p6) => match parse_i16(bytes, p6) {
                                    Parsed::Val(kind, p7) => match parse_i16(bytes, p7) {
                                        Parsed::Val(msg_type, p8) => Parsed::Val(
                                            KingdomChatMessageV {
                                                mid,
                                                send_user,
                                                to_id,
                                                content,
                                                created_timestamp,
                                                kind,
                                                msg_type,
                                            },
                                            p8,
                                        ),
                                        Parsed::Fail(e) => Parsed::Fail(e),
                                    },
                                    Parsed::Fail(e) => Parsed::Fail(e),
                                },
                                Parsed::Fail(e) => Parsed::Fail(e),
                            },
                            Parsed::Fail(e) => Parsed::Fail(e),
                        },
                        Parsed::Fail(e) => Parsed::Fail(e),
                    },
                    Parsed::Fail(e) => Parsed::Fail(e),
                },
                Parsed::Fail(e) => Parsed::Fail(e),
            },
            Parsed::Fail(e) => Parsed::Fail(e),
        }
    }

    fn decode(cursor: &mut Cursor, bytes: &Vec<u8>) -> (r: Result<Self, CodecError>) {
        let mid = binary_read_i64(cursor, bytes)?;
        let _user_item_length = binary_read_i16(cursor, bytes)?;
        let send_user: FrontDisplayChatUser = deserialize_binary(cursor, bytes)?;
        let to_id = binary_read_i64(cursor, bytes)?;
        let content = binary_read_string(cursor, bytes)?;
        let created_timestamp = binary_read_i64(cursor, bytes)?;
        let kind = binary_read_i16(cursor, bytes)?;
        let msg_type = binary_read_i16(cursor, bytes)?;
        Ok(
            FrontDisplayKingdomChatMessage {
                mid,
                send_user,
                to_id,
                content,
                created_timestamp,
                kind,
                msg_type,
            },
        )
    }
}

impl LosslessCodec for FrontDisplayKingdomChatMessage {
    proof fn lemma_fields_nonempty(v: KingdomChatMessageV) {
    }

    #[verifier::rlimit(60)]
    proof fn lemma_fields_round_trip(v: KingdomChatMessageV, bytes: Seq<u8>, pos: int) {
        let f = Self::spec_fields(v);
        let uf = FrontDisplayChatUser::spec_fields(v.send_user);
        let cb = encode_utf8(v.content);
        let o1: int = 8;
        let o2: int = o1 + 2 + uf.len();
        let o3: int = o2 + 8;
        let o4: int = o3 + 2 + cb.len();
        let o5: int = o4 + 8;
        let o6: int = o5 + 2;
        let o7: int = o6 + 2;
        lemma_subrange_at(bytes, pos, f, 0, o1);
        assert(f.subrange(0, o1) =~= le64(v.mid as u64));
        lemma_parse_i64_at(bytes, pos, v.mid);
        lemma_subrange_at(bytes, pos, f, o1, o2);
        assert(f.subrange(o1, o2) =~= spec_block(uf));
        lemma_subrange_at(bytes, pos + o1, spec_block(uf), 2, 2 + uf.len() as int);
        assert(spec_block(uf).subrange(2, 2 + uf.len() as int) =~= uf);
        FrontDisplayChatUser::lemma_fields_round_trip(v.send_user, bytes, pos + o1 + 2);
        lemma_subrange_at(bytes, pos, f, o2, o3);
        assert(f.subrange(o2, o3) =~= le64(v.to_id as u64));
        lemma_parse_i64_at(bytes, pos + o2, v.to_id);
        lemma_subrange_at(bytes, pos, f, o3, o4);
        assert(f.subrange(o3, o4) =~= spec_block(cb));
        lemma_parse_str_at(bytes, pos + o3, v.content);
        lemma_subrange_at(bytes, pos, f, o4, o5);
        assert(f.subrange(o4, o5) =~= le64(v.created_timestamp as u64));
        lemma_parse_i64_at(bytes, pos + o4, v.created_timestamp);
        lemma_subrange_at(bytes, pos, f, o5, o6);
        assert(f.subrange(o5, o6) =~= le16(v.kind as u16));
        lemma_parse_i16_at(bytes, pos + o5, v.kind);
        lemma_subrange_at(bytes, pos, f, o6, o7);
        assert(f.subrange(o6, o7) =~= le16(v.msg_type as u16));
        lemma_parse_i16_at(bytes, pos + o6, v.msg_type);
    }
}

/// A group-channel message, carrying the sending user and the group's
/// display fields.
#[derive(Debug, Clone, PartialEq)]
pub struct FrontDisplayGroupChatMessage {
    pub mid: i64,
    pub send_user: FrontDisplayChatUser,
    pub gid: i64,
    pub group_name: String,
    pub group_thumbnail: String,
    pub content: String,
    pub created_timestamp: i64,
    pub kind: i16,
    pub msg_type: i16,
}

/// The mathematical value of a group-channel message.
pub struct GroupChatMessageV {
    pub mid: i64,
    pub send_user: ChatUserV,
    pub gid: i64,
    pub group_name: Seq<char>,
    pub group_thumbnail: Seq<char>,
    pub content: Seq<char>,
    pub created_timestamp: i64,
    pub kind: i16,
    pub msg_type: i16,
}

impl DeepView for FrontDisplayGroupChatMessage {
    type V = GroupChatMessageV;

    open spec fn deep_view(&self) -> GroupChatMessageV {
        GroupChatMessageV {
            mid: self.mid,
            send_user: self.send_user.deep_view(),
            gid: self.gid,
            group_name: self.group_name@,
            group_thumbnail: self.group_thumbnail@,
            content: self.content@,
            created_timestamp: self.created_timestamp,
            kind: self.kind,
            msg_type: self.msg_type,
        }
    }
}

impl BinaryEncode for FrontDisplayGroupChatMessage {
    open spec fn spec_fields(v: GroupChatMessageV) -> Seq<u8> {
        le64(v.mid as u64) + spec_block(FrontDisplayChatUser::spec_fields(v.send_user)) + le64(
            v.gid as u64,
        ) + spec_block(encode_utf8(v.group_name)) + spec_block(encode_utf8(v.group_thumbnail))
            + spec_block(encode_utf8(v.content)) + le64(v.created_timestamp as u64) + le16(
            v.kind as u16,
        ) + le16(v.msg_type as u16)
    }

    open spec fn spec_encodable(v: GroupChatMessageV) -> bool {
        &&& FrontDisplayChatUser::spec_encodable(v.send_user)
        &&& encode_utf8(v.group_name).len() <= 32767
        &&& encode_utf8(v.group_thumbnail).len() <= 32767
        &&& encode_utf8(v.content).len() <= 32767
        &&& Self::spec_fields(v).len() <= 32767
    }

    proof fn lemma_encodable_fits(v: GroupChatMessageV) {
    }

    fn encode(&self) -> (r: Result<Vec<u8>, CodecError>) {
        let mut fields: Vec<u8> = Vec::new();
        binary_write_i64(&mut fields, self.mid);
        let mut user_block = self.send_user.encode()?;
        fields.append(&mut user_block);
        binary_write_i64(&mut fields, self.gid);
        binary_write_string(&mut fields, self.group_name.as_str())?;
        binary_write_string(&mut fields, self.group_thumbnail.as_str())?;
        binary_write_string(&mut fields, self.content.as_str())?;
        binary_write_i64(&mut fields, self.created_timestamp);
        binary_write_i16(&mut fields, self.kind);
        binary_write_i16(&mut fields, self.msg_type);
        assert(fields@ =~= Self::spec_fields(self.deep_view()));
        encode_block(fields)
    }
}

impl BinaryDecode for FrontDisplayGroupChatMessage {
    open spec fn spec_dec(bytes: Seq<u8>, pos: int) -> Parsed<GroupChatMessageV> {
        match parse_i64(bytes, pos) {
            Parsed::Val(mid, p1) => match parse_i16(bytes, p1) {
                Parsed::Val(_user_len, p2) => match FrontDisplayChatUser::spec_dec(bytes, p2) {
                    Parsed::Val(send_user, p3) => match parse_i64(bytes, p3) {
                        Parsed::Val(gid, p4) => match parse_str(bytes, p4) {
                            Parsed::Val(group_name, p5) => match parse_str(bytes, p5) {
                                Parsed::Val(group_thumbnail, p6) => match parse_str(bytes, p6) {
                                    Parsed::Val(content, p7) => match parse_i64(bytes, p7) {
                                        Parsed::Val(created_timestamp, p8) => match parse_i16(
                                            bytes,
                                            p8,
                                        ) {
                                            Parsed::Val(kind, p9) => match parse_i16(bytes, p9) {
                                                Parsed::Val(msg_type, p10) => Parsed::Val(
                                                    GroupChatMessageV {
                                                        mid,
                                                        send_user,
                                                        gid,
                                                        group_name,
                                                        group_thumbnail,
                                                        content,
                                                        created_timestamp,
                                                        kind,
                                                        msg_type,
                                                    },
                                                    p10,
                                                ),
                                                Parsed::Fail(e) => Parsed::Fail(e),
                                            },
                                            Parsed::Fail(e) => Parsed::Fail(e),
                                        },
                                        Parsed::Fail(e) => Parsed::Fail(e),
                                    },
                                    Parsed::Fail(e) => Parsed::Fail(e),
                                },
                                Parsed::Fail(e) => Parsed::Fail(e),
                            },
                            Parsed::Fail(e) => Parsed::Fail(e),
                        },
                        Parsed::Fail(e) => Parsed::Fail(e),
                    },
                    Parsed::Fail(e) => Parsed::Fail(e),
                },
                Parsed::Fail(e) => Parsed::Fail(e),
            },
            Parsed::Fail(e) => Parsed::Fail(e),
        }
    }

    fn decode(cursor: &mut Cursor, bytes: &Vec<u8>) -> (r: Result<Self, CodecError>) {
        let mid = binary_read_i64(cursor, bytes)?;
        let _user_item_length = binary_read_i16(cursor, bytes)?;
        let send_user: FrontDisplayChatUser = deserialize_binary(cursor, bytes)?;
        let gid = binary_read_i64(cursor, bytes)?;
        let group_name = binary_read_string(cursor, bytes)?;
        let group_thumbnail = binary_read_string(cursor, bytes)?;
        let content = binary_read_string(cursor, bytes)?;
        let created_timestamp = binary_read_i64(cursor, bytes)?;
        let kind = binary_read_i16(cursor, bytes)?;
        let msg_type = binary_read_i16(cursor, bytes)?;
        Ok(
            FrontDisplayGroupChatMessage {
                mid,
                send_user,
                gid,
                group_name,
                group_thumbnail,
                content,
                created_timestamp,
                kind,
                msg_type,
            },
        )
    }
}

impl LosslessCodec for FrontDisplayGroupChatMessage {
    proof fn lemma_fields_nonempty(v: GroupChatMessageV) {
    }

    #[verifier::rlimit(60)]
    proof fn lemma_fields_round_trip(v: GroupChatMessageV, bytes: Seq<u8>, pos: int) {
        let f = Self::spec_fields(v);
        let uf = FrontDisplayChatUser::spec_fields(v.send_user);
        let nb = encode_utf8(v.group_name);
        let tb = encode_utf8(v.group_thumbnail);
        let cb = encode_utf8(v.content);
        let o1: int = 8;
        let o2: int = o1 + 2 + uf.len();
        let o3: int = o2 + 8;
        let o4: int = o3 + 2 + nb.len();
        let o5: int = o4 + 2 + tb.len();
        let o6: int = o5 + 2 + cb.len();
        let o7: int = o6 + 8;
        let o8: int = o7 + 2;
        let o9: int = o8 + 2;
        lemma_subrange_at(bytes, pos, f, 0, o1);
        assert(f.subrange(0, o1) =~= le64(v.mid as u64));
        lemma_parse_i64_at(bytes, pos, v.mid);
        lemma_subrange_at(bytes, pos, f, o1, o2);
        assert(f.subrange(o1, o2) =~= spec_block(uf));
        lemma_subrange_at(bytes, pos + o1, spec_block(uf), 2, 2 + uf.len() as int);
        assert(spec_block(uf).subrange(2, 2 + uf.len() as int) =~= uf);
        FrontDisplayChatUser::lemma_fields_round_trip(v.send_user, bytes, pos + o1 + 2);
        lemma_subrange_at(bytes, pos, f, o2, o3);
        assert(f.subrange(o2, o3) =~= le64(v.gid as u64));
        lemma_parse_i64_at(bytes, pos + o2, v.gid);
        lemma_subrange_at(bytes, pos, f, o3, o4);
        assert(f.subrange(o3, o4) =~= spec_block(nb));
        lemma_parse_str_at(bytes, pos + o3, v.group_name);
        lemma_subrange_at(bytes, pos, f, o4, o5);
        assert(f.subrange(o4, o5) =~= spec_block(tb));
        lemma_parse_str_at(bytes, pos + o4, v.group_thumbnail);
        lemma_subrange_at(bytes, pos, f, o5, o6);
        assert(f.subrange(o5, o6) =~= spec_block(cb));
        lemma_parse_str_at(bytes, pos + o5, v.content);
        lemma_subrange_at(bytes, pos, f, o6, o7);
        assert(f.subrange(o6, o7) =~= le64(v.created_timestamp as u64));
        lemma_parse_i64_at(bytes, pos + o6, v.created_timestamp);
        lemma_subrange_at(bytes, pos, f, o7, o8);
        assert(f.subrange(o7, o8) =~= le16(v.kind as u16));
        lemma_parse_i16_at(bytes, pos + o7, v.kind);
        lemma_subrange_at(bytes, pos, f, o8, o9);
        assert(f.subrange(o8, o9) =~= le16(v.msg_type as u16));
        lemma_parse_i16_at(bytes, pos + o8, v.msg_type);
    }
}

/// A peer-to-peer message, carrying both the sending and receiving user.
#[derive(Debug, Clone, PartialEq)]
pub struct FrontDisplayP2pChatMessage {
    pub mid: i64,
    pub send_user: FrontDisplayChatUser,
    pub dst_user: FrontDisplayChatUser,
    pub content: String,
    pub created_timestamp: i64,
    pub kind: i16,
    pub msg_type: i16,
}

/// The mathematical value of a peer-to-peer message.
pub struct P2pChatMessageV {
    pub mid: i64,
    pub send_user: ChatUserV,
    pub dst_user: ChatUserV,
    pub content: Seq<char>,
    pub created_timestamp: i64,
    pub kind: i16,
    pub msg_type: i16,
}

impl DeepView for FrontDisplayP2pChatMessage {
    type V = P2pChatMessageV;

    open spec fn deep_view(&self) -> P2pChatMessageV {
        P2pChatMessageV {
            mid: self.mid,
            send_user: self.send_user.deep_view(),
            dst_user: self.dst_user.deep_view(),
            content: self.content@,
            created_timestamp: self.created_timestamp,
            kind: self.kind,
            msg_type: self.msg_type,
        }
    }
}

impl BinaryEncode for FrontDisplayP2pChatMessage {
    open spec fn spec_fields(v: P2pChatMessageV) -> Seq<u8> {
        le64(v.mid as u64) + spec_block(FrontDisplayChatUser::spec_fields(v.send_user))
            + spec_block(FrontDisplayChatUser::spec_fields(v.dst_user)) + spec_block(
            encode_utf8(v.content),
        ) + le64(v.created_timestamp as u64) + le16(v.kind as u16) + le16(v.msg_type as u16)
    }

    open spec fn spec_encodable(v: P2pChatMessageV) -> bool {
        &&& FrontDisplayChatUser::spec_encodable(v.send_user)
        &&& FrontDisplayChatUser::spec_encodable(v.dst_user)
        &&& encode_utf8(v.content).len() <= 32767
        &&& Self::spec_fields(v).len() <= 32767
    }

    proof fn lemma_encodable_fits(v: P2pChatMessageV) {
    }

    fn encode(&self) -> (r: Result<Vec<u8>, CodecError>) {
        let mut fields: Vec<u8> = Vec::new();
        binary_write_i64(&mut fields, self.mid);
        let mut send_block = self.send_user.encode()?;
        fields.append(&mut send_block);
        let mut dst_block = self.dst_user.encode()?;
        fields.append(&mut dst_block);
        binary_write_string(&mut fields, self.content.as_str())?;
        binary_write_i64(&mut fields, self.created_timestamp);
        binary_write_i16(&mut fields, self.kind);
        binary_write_i16(&mut fields, self.msg_type);
        assert(fields@ =~= Self::spec_fields(self.deep_view()));
        encode_block(fields)
    }
}

impl BinaryDecode for FrontDisplayP2pChatMessage {
    open spec fn spec_dec(bytes: Seq<u8>, pos: int) -> Parsed<P2pChatMessageV> {
        match parse_i64(bytes, pos) {
            Parsed::Val(mid, p1) => match parse_i16(bytes, p1) {
                Parsed::Val(_send_len, p2) => match FrontDisplayChatUser::spec_dec(bytes, p2) {
                    Parsed::Val(send_user, p3) => match parse_i16(bytes, p3) {
                        Parsed::Val(_dst_len, p4) => match FrontDisplayChatUser::spec_dec(
                            bytes,
                            p4,
                        ) {
                            Parsed::Val(dst_user, p5) => match parse_str(bytes, p5) {
                                Parsed::Val(content, p6) => match parse_i64(bytes, p6) {
                                    Parsed::Val(created_timestamp, p7) => match parse_i16(
                                        bytes,
                                        p7,
                                    ) {
                                        Parsed::Val(kind, p8) => match parse_i16(bytes, p8) {
                                            Parsed::Val(msg_type, p9) => Parsed::Val(
                                                P2pChatMessageV {
                                                    mid,
                                                    send_user,
                                                    dst_user,
                                                    content,
                                                    created_timestamp,
                                                    kind,
                                                    msg_type,
                                                },
                                                p9,
                                            ),
                                            Parsed::Fail(e) => Parsed::Fail(e),
                                        },
                                        Parsed::Fail(e) => Parsed::Fail(e),
                                    },
                                    Parsed::Fail(e) => Parsed::Fail(e),
                                },
                                Parsed::Fail(e) => Parsed::Fail(e),
                            },
                            Parsed::Fail(e) => Parsed::Fail(e),
                        },
                        Parsed::Fail(e) => Parsed::Fail(e),
                    },
                    Parsed::Fail(e) => Parsed::Fail(e),
                },
                Parsed::Fail(e) => Parsed::Fail(e),
            },
            Parsed::Fail(e) => Parsed::Fail(e),
        }
    }

    fn decode(cursor: &mut Cursor, bytes: &Vec<u8>) -> (r: Result<Self, CodecError>) {
        let mid = binary_read_i64(cursor, bytes)?;
        let _send_item_length = binary_read_i16(cursor, bytes)?;
        let send_user: FrontDisplayChatUser = deserialize_binary(cursor, bytes)?;
        let _dst_item_length = binary_read_i16(cursor, bytes)?;
        let dst_user: FrontDisplayChatUser = deserialize_binary(cursor, bytes)?;
        let content = binary_read_string(cursor, bytes)?;
        let created_timestamp = binary_read_i64(cursor, bytes)?;
        let kind = binary_read_i16(cursor, bytes)?;
        let msg_type = binary_read_i16(cursor, bytes)?;
        Ok(
            FrontDisplayP2pChatMessage {
                mid,
                send_user,
                dst_user,
                content,
                created_timestamp,
                kind,
                msg_type,
            },
        )
    }
}

impl LosslessCodec for FrontDisplayP2pChatMessage {
    proof fn lemma_fields_nonempty(v: P2pChatMessageV) {
    }

    #[verifier::rlimit(60)]
    proof fn lemma_fields_round_trip(v: P2pChatMessageV, bytes: Seq<u8>, pos: int) {
        let f = Self::spec_fields(v);
        let sf = FrontDisplayChatUser::spec_fields(v.send_user);
        let df = FrontDisplayChatUser::spec_fields(v.dst_user);
        let cb = encode_utf8(v.content);
        let o1: int = 8;
        let o2: int = o1 + 2 + sf.len();
        let o3: int = o2 + 2 + df.len();
        let o4: int = o3 + 2 + cb.len();
        let o5: int = o4 + 8;
        let o6: int = o5 + 2;
        let o7: int = o6 + 2;
        lemma_subrange_at(bytes, pos, f, 0, o1);
        assert(f.subrange(0, o1) =~= le64(v.mid as u64));
        lemma_parse_i64_at(bytes, pos, v.mid);
        lemma_subrange_at(bytes, pos, f, o1, o2);
        assert(f.subrange(o1, o2) =~= spec_block(sf));
        lemma_subrange_at(bytes, pos + o1, spec_block(sf), 2, 2 + sf.len() as int);
        assert(spec_block(sf).subrange(2, 2 + sf.len() as int) =~= sf);
        FrontDisplayChatUser::lemma_fields_round_trip(v.send_user, bytes, pos + o1 + 2);
        lemma_subrange_at(bytes, pos, f, o2, o3);
        assert(f.subrange(o2, o3) =~= spec_block(df));
        lemma_subrange_at(bytes, pos + o2, spec_block(df), 2, 2 + df.len() as int);
        assert(spec_block(df).subrange(2, 2 + df.len() as int) =~= df);
        FrontDisplayChatUser::lemma_fields_round_trip(v.dst_user, bytes, pos + o2 + 2);
        lemma_subrange_at(bytes, pos, f, o3, o4);
        assert(f.subrange(o3, o4) =~= spec_block(cb));
        lemma_parse_str_at(bytes, pos + o3, v.content);
        lemma_subrange_at(bytes, pos, f, o4, o5);
        assert(f.subrange(o4, o5) =~= le64(v.created_timestamp as u64));
        lemma_parse_i64_at(bytes, pos + o4, v.created_timestamp);
        lemma_subrange_at(bytes, pos, f, o5, o6);
        assert(f.subrange(o5, o6) =~= le16(v.kind as u16));
        lemma_parse_i16_at(bytes, pos + o5, v.kind);
        lemma_subrange_at(bytes, pos, f, o6, o7);
        assert(f.subrange(o6, o7) =~= le16(v.msg_type as u16));
        lemma_parse_i16_at(bytes, pos + o6, v.msg_type);
    }
}

/// The per-channel unread-count answer: a count and the channel kind.
#[derive(Debug, Clone, Copy, PartialEq, Eq, Structural)]
pub struct FrontDisplayChatMessageUnreadCount {
    pub unread_count: i16,
    pub kind: i16,
}

impl DeepView for FrontDisplayChatMessageUnreadCount {
    type V = FrontDisplayChatMessageUnreadCount;

    open spec fn deep_view(&self) -> FrontDisplayChatMessageUnreadCount {
        *self
    }
}

impl BinaryEncode for FrontDisplayChatMessageUnreadCount {
    open spec fn spec_fields(v: FrontDisplayChatMessageUnreadCount) -> Seq<u8> {
        le16(v.unread_count as u16) + le16(v.kind as u16)
    }

    open spec fn spec_encodable(v: FrontDisplayChatMessageUnreadCount) -> bool {
        true
    }

    proof fn lemma_encodable_fits(v: FrontDisplayChatMessageUnreadCount) {
    }

    fn encode(&self) -> (r: Result<Vec<u8>, CodecError>) {
        let mut fields: Vec<u8> = Vec::new();
        binary_write_i16(&mut fields, self.unread_count);
        binary_write_i16(&mut fields, self.kind);
        assert(fields@ =~= Self::spec_fields(self.deep_view()));
        encode_block(fields)
    }
}

impl BinaryDecode for FrontDisplayChatMessageUnreadCount {
    open spec fn spec_dec(bytes: Seq<u8>, pos: int) -> Parsed<FrontDisplayChatMessageUnreadCount> {
        match parse_i16(bytes, pos) {
            Parsed::Val(unread_count, p1) => match parse_i16(bytes, p1) {
                Parsed::Val(kind, p2) => Parsed::Val(
                    FrontDisplayChatMessageUnreadCount { unread_count, kind },
                    p2,
                ),
                Parsed::Fail(e) => Parsed::Fail(e),
            },
            Parsed::Fail(e) => Parsed::Fail(e),
        }
    }

    fn decode(cursor: &mut Cursor, bytes: &Vec<u8>) -> (r: Result<Self, CodecError>) {
        let unread_count = binary_read_i16(cursor, bytes)?;
        let kind = binary_read_i16(cursor, bytes)?;
        Ok(FrontDisplayChatMessageUnreadCount { unread_count, kind })
    }
}

impl LosslessCodec for FrontDisplayChatMessageUnreadCount {
    proof fn lemma_fields_nonempty(v: FrontDisplayChatMessageUnreadCount) {
    }

    proof fn lemma_fields_round_trip(
        v: FrontDisplayChatMessageUnreadCount,
        bytes: Seq<u8>,
        pos: int,
    ) {
        let f = Self::spec_fields(v);
        lemma_subrange_at(bytes, pos, f, 0, 2);
        assert(f.subrange(0, 2) =~= le16(v.unread_count as u16));
        lemma_parse_i16_at(bytes, pos, v.unread_count);
        lemma_subrange_at(bytes, pos, f, 2, 4);
        assert(f.subrange(2, 4) =~= le16(v.kind as u16));
        lemma_parse_i16_at(bytes, pos + 2, v.kind);
    }
}

/// The short message summary returned after a send, and used for the latest
/// peer-to-peer message in unread-count answers.
#[derive(Debug, Clone, PartialEq)]
pub struct FrontDisplayP2pChatMessageCount {
    pub mid: i64,
    pub content: String,
    pub created_timestamp: i64,
    pub kind: i16,
    pub msg_type: i16,
}

/// The mathematical value of a message summary.
pub struct P2pChatMessageCountV {
    pub mid: i64,
    pub content: Seq<char>,
    pub created_timestamp: i64,
    pub kind: i16,
    pub msg_type: i16,
}

impl DeepView for FrontDisplayP2pChatMessageCount {
    type V = P2pChatMessageCountV;

    open spec fn deep_view(&self) -> P2pChatMessageCountV {
        P2pChatMessageCountV {
            mid: self.mid,
            content: self.content@,
            created_timestamp: self.created_timestamp,
            kind: self.kind,
            msg_type: self.msg_type,
        }
    }
}

impl BinaryEncode for FrontDisplayP2pChatMessageCount {
    open spec fn spec_fields(v: P2pChatMessageCountV) -> Seq<u8> {
        le64(v.mid as u64) + spec_block(encode_utf8(v.content)) + le64(
            v.created_timestamp as u64,
        ) + le16(v.kind as u16) + le16(v.msg_type as u16)
    }

    open spec fn spec_encodable(v: P2pChatMessageCountV) -> bool {
        &&& encode_utf8(v.content).len() <= 32767
        &&& Self::spec_fields(v).len() <= 32767
    }

    proof fn lemma_encodable_fits(v: P2pChatMessageCountV) {
    }

    fn encode(&self) -> (r: Result<Vec<u8>, CodecError>) {
        let mut fields: Vec<u8> = Vec::new();
        binary_write_i64(&mut fields, self.mid);
        binary_write_string(&mut fields, self.content.as_str())?;
        binary_write_i64(&mut fields, self.created_timestamp);
        binary_write_i16(&mut fields, self.kind);
        binary_write_i16(&mut fields, self.msg_type);
        assert(fields@ =~= Self::spec_fields(self.deep_view()));
        encode_block(fields)
    }
}

impl BinaryDecode for FrontDisplayP2pChatMessageCount {
    open spec fn spec_dec(bytes: Seq<u8>, pos: int) -> Parsed<P2pChatMessageCountV> {
        match parse_i64(bytes, pos) {
            Parsed::Val(mid, p1) => match parse_str(bytes, p1) {
                Parsed::Val(content, p2) => match parse_i64(bytes, p2) {
                    Parsed::Val(created_timestamp, p3) => match parse_i16(bytes, p3) {
                        Parsed::Val(kind, p4) => match parse_i16(bytes, p4) {
                            Parsed::Val(msg_type, p5) => Parsed::Val(
                                P2pChatMessageCountV {
                                    mid,
                                    content,
                                    created_timestamp,
                                    kind,
                                    msg_type,
                                },
                                p5,
                            ),
                            Parsed::Fail(e) => Parsed::Fail(e),
                        },
                        Parsed::Fail(e) => Parsed::Fail(e),
                    },
                    Parsed::Fail(e) => Parsed::Fail(e),
                },
                Parsed::Fail(e) => Parsed::Fail(e),
            },
            Parsed::Fail(e) => Parsed::Fail(e),
        }
    }

    fn decode(cursor: &mut Cursor, bytes: &Vec<u8>) -> (r: Result<Self, CodecError>) {
        let mid = binary_read_i64(cursor, bytes)?;
        let content = binary_read_string(cursor, bytes)?;
        let created_timestamp = binary_read_i64(cursor, bytes)?;
        let kind = binary_read_i16(cursor, bytes)?;
        let msg_type = binary_read_i16(cursor, bytes)?;
        Ok(FrontDisplayP2pChatMessageCount { mid, content, created_timestamp, kind, msg_type })
    }
}

impl LosslessCodec for FrontDisplayP2pChatMessageCount {
    proof fn lemma_fields_nonempty(v: P2pChatMessageCountV) {
    }

    #[verifier::rlimit(60)]
    proof fn lemma_fields_round_trip(v: P2pChatMessageCountV, bytes: Seq<u8>, pos: int) {
        let f = Self::spec_fields(v);
        let cb = encode_utf8(v.content);
        let o1: int = 8;
        let o2: int = o1 + 2 + cb.len();
        let o3: int = o2 + 8;
        let o4: int = o3 + 2;
        let o5: int = o4 + 2;
        lemma_subrange_at(bytes, pos, f, 0, o1);
        assert(f.subrange(0, o1) =~= le64(v.mid as u64));
        lemma_parse_i64_at(bytes, pos, v.mid);
        lemma_subrange_at(bytes, pos, f, o1, o2);
        assert(f.subrange(o1, o2) =~= spec_block(cb));
        lemma_parse_str_at(bytes, pos + o1, v.content);
        lemma_subrange_at(bytes, pos, f, o2, o3);
        assert(f.subrange(o2, o3) =~= le64(v.created_timestamp as u64));
        lemma_parse_i64_at(bytes, pos + o2, v.created_timestamp);
        lemma_subrange_at(bytes, pos, f, o3, o4);
        assert(f.subrange(o3, o4) =~= le16(v.kind as u16));
        lemma_parse_i16_at(bytes, pos + o3, v.kind);
        lemma_subrange_at(bytes, pos, f, o4, o5);
        assert(f.subrange(o4, o5) =~= le16(v.msg_type as u16));
        lemma_parse_i16_at(bytes, pos + o4, v.msg_type);
    }
}

} // verus!
