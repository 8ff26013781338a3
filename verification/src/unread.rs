//! The unread-count summary returned for a whole account: the kingdom
//! channel, every group with unread messages, and every peer conversation.

use vstd::prelude::*;
use crate::codec::{
    BinaryDecode, BinaryEncode, CodecError, Cursor, LosslessCodec, Parsed, binary_read_i16,
    binary_read_i32, binary_write_i32, deserialize_binary, encode_block, le32, lemma_block_parts,
    lemma_concat3_parts, lemma_parse_i32_at, lemma_subrange_at, parse_i16, parse_i32, spec_block,
};
use crate::composites::{
    lemma_option_block_round_trip, lemma_seq_block_round_trip, seq_items_bytes,
};
use crate::models::chat_messages::{FrontDisplayKingdomChatMessage, KingdomChatMessageV};
use crate::models::chat_messages::{FrontDisplayGroupChatMessage, GroupChatMessageV};
use crate::models::chat_user_unread_counts::{
    ChatUserUnreadCountV, FrontDisplayChatUserUnreadCount,
};

verus! {

/// The kingdom channel's unread count, with its latest message when one
/// exists.
#[derive(Debug, Clone, PartialEq)]
pub struct KingdomUnReadCountMsg {
    pub unread_count: i32,
    pub latest_message: Option<FrontDisplayKingdomChatMessage>,
}

/// The mathematical value of the kingdom unread summary.
pub struct KingdomUnReadCountV {
    pub unread_count: i32,
    pub latest_message: Option<KingdomChatMessageV>,
}

impl DeepView for KingdomUnReadCountMsg {
    type V = KingdomUnReadCountV;

    open spec fn deep_view(&self) -> KingdomUnReadCountV {
        KingdomUnReadCountV {
            unread_count: self.unread_count,
            latest_message: self.latest_message.deep_view(),
        }
    }
}

impl BinaryEncode for KingdomUnReadCountMsg {
    open spec fn spec_fields(v: KingdomUnReadCountV) -> Seq<u8> {
        le32(v.unread_count as u32) + spec_block(
            <Option<FrontDisplayKingdomChatMessage> as BinaryEncode>::spec_fields(
                v.latest_message,
            ),
        )
    }

    open spec fn spec_encodable(v: KingdomUnReadCountV) -> bool {
        &&& <Option<FrontDisplayKingdomChatMessage> as BinaryEncode>::spec_encodable(
            v.latest_message,
        )
        &&& Self::spec_fields(v).len() <= 32767
    }

    proof fn lemma_encodable_fits(v: KingdomUnReadCountV) {
    }

    fn encode(&self) -> (r: Result<Vec<u8>, CodecError>) {
        let mut fields: Vec<u8> = Vec::new();
        binary_write_i32(&mut fields, self.unread_count);
        let mut msg_block = self.latest_message.encode()?;
        fields.append(&mut msg_block);
        assert(fields@ =~= Self::spec_fields(self.deep_view()));
        encode_block(fields)
    }
}

impl BinaryDecode for KingdomUnReadCountMsg {
    open spec fn spec_dec(bytes: Seq<u8>, pos: int) -> Parsed<KingdomUnReadCountV> {
        match parse_i32(bytes, pos) {
            Parsed::Val(unread_count, p1) => match
                <Option<FrontDisplayKingdomChatMessage> as BinaryDecode>::spec_dec(bytes, p1) {
                Parsed::Val(latest_message, p2) => Parsed::Val(
                    KingdomUnReadCountV { unread_count, latest_message },
                    p2,
                ),
                Parsed::Fail(e) => Parsed::Fail(e),
            },
            Parsed::Fail(e) => Parsed::Fail(e),
        }
    }

    fn decode(cursor: &mut Cursor, bytes: &Vec<u8>) -> (r: Result<Self, CodecError>) {
        let unread_count = binary_read_i32(cursor, bytes)?;
        let latest_message: Option<FrontDisplayKingdomChatMessage> = <Option<
            FrontDisplayKingdomChatMessage,
        > as BinaryDecode>::decode(cursor, bytes)?;
        Ok(KingdomUnReadCountMsg { unread_count, latest_message })
    }
}

impl LosslessCodec for KingdomUnReadCountMsg {
    proof fn lemma_fields_nonempty(v: KingdomUnReadCountV) {
    }

    proof fn lemma_fields_round_trip(v: KingdomUnReadCountV, bytes: Seq<u8>, pos: int) {
        let f = Self::spec_fields(v);
        let of = <Option<FrontDisplayKingdomChatMessage> as BinaryEncode>::spec_fields(
            v.latest_message,
        );
        let o1: int = 4;
        let o2: int = o1 + 2 + of.len();
        lemma_subrange_at(bytes, pos, f, 0, o1);
        assert(f.subrange(0, o1) =~= le32(v.unread_count as u32));
        lemma_parse_i32_at(bytes, pos, v.unread_count);
        lemma_subrange_at(bytes, pos, f, o1, o2);
        assert(f.subrange(o1, o2) =~= spec_block(of));
        lemma_option_block_round_trip::<FrontDisplayKingdomChatMessage>(
            v.latest_message,
            bytes,
            pos + o1,
        );
    }
}

/// One group's unread count with its latest message.
#[derive(Debug, Clone, PartialEq)]
pub struct GroupUnReadCountMsg {
    pub unread_count: i32,
    pub latest_message: FrontDisplayGroupChatMessage,
}

/// The mathematical value of a group unread summary.
pub struct GroupUnReadCountV {
    pub unread_count: i32,
    pub latest_message: GroupChatMessageV,
}

impl DeepView for GroupUnReadCountMsg {
    type V = GroupUnReadCountV;

    open spec fn deep_view(&self) -> GroupUnReadCountV {
        GroupUnReadCountV {
            unread_count: self.unread_count,
            latest_message: self.latest_message.deep_view(),
        }
    }
}

impl BinaryEncode for GroupUnReadCountMsg {
    open spec fn spec_fields(v: GroupUnReadCountV) -> Seq<u8> {
        le32(v.unread_count as u32) + spec_block(
            FrontDisplayGroupChatMessage::spec_fields(v.latest_message),
        )
    }

    open spec fn spec_encodable(v: GroupUnReadCountV) -> bool {
        &&& FrontDisplayGroupChatMessage::spec_encodable(v.latest_message)
        &&& Self::spec_fields(v).len() <= 32767
    }

    proof fn lemma_encodable_fits(v: GroupUnReadCountV) {
    }

    fn encode(&self) -> (r: Result<Vec<u8>, CodecError>) {
        let mut fields: Vec<u8> = Vec::new();
        binary_write_i32(&mut fields, self.unread_count);
        let mut msg_block = self.latest_message.encode()?;
        fields.append(&mut msg_block);
        assert(fields@ =~= Self::spec_fields(self.deep_view()));
        encode_block(fields)
    }
}

impl BinaryDecode for GroupUnReadCountMsg {
    open spec fn spec_dec(bytes: Seq<u8>, pos: int) -> Parsed<GroupUnReadCountV> {
        match parse_i32(bytes, pos) {
            Parsed::Val(unread_count, p1) => match parse_i16(bytes, p1) {
                Parsed::Val(_msg_len, p2) => match FrontDisplayGroupChatMessage::spec_dec(
                    bytes,
                    p2,
                ) {
                    Parsed::Val(latest_message, p3) => Parsed::Val(
                        GroupUnReadCountV { unread_count, latest_message },
                        p3,
                    ),
                    Parsed::Fail(e) => Parsed::Fail(e),
                },
                Parsed::Fail(e) => Parsed::Fail(e),
            },
            Parsed::Fail(e) => Parsed::Fail(e),
        }
    }

    fn decode(cursor: &mut Cursor, bytes: &Vec<u8>) -> (r: Result<Self, CodecError>) {
        let unread_count = binary_read_i32(cursor, bytes)?;
        let _msg_item_length = binary_read_i16(cursor, bytes)?;
        let latest_message: FrontDisplayGroupChatMessage = deserialize_binary(cursor, bytes)?;
        Ok(GroupUnReadCountMsg { unread_count, latest_message })
    }
}

impl LosslessCodec for GroupUnReadCountMsg {
    proof fn lemma_fields_nonempty(v: GroupUnReadCountV) {
    }

    proof fn lemma_fields_round_trip(v: GroupUnReadCountV, bytes: Seq<u8>, pos: int) {
        let f = Self::spec_fields(v);
        let mf = FrontDisplayGroupChatMessage::spec_fields(v.latest_message);
        let o1: int = 4;
        let o2: int = o1 + 2 + mf.len();
        lemma_subrange_at(bytes, pos, f, 0, o1);
        assert(f.subrange(0, o1) =~= le32(v.unread_count as u32));
        lemma_parse_i32_at(bytes, pos, v.unread_count);
        lemma_subrange_at(bytes, pos, f, o1, o2);
        assert(f.subrange(o1, o2) =~= spec_block(mf));
        lemma_subrange_at(bytes, pos + o1, spec_block(mf), 2, 2 + mf.len() as int);
        assert(spec_block(mf).subrange(2, 2 + mf.len() as int) =~= mf);
        FrontDisplayGroupChatMessage::lemma_fields_round_trip(v.latest_message, bytes, pos + o1 + 2);
    }
}

/// The whole unread-count answer for one account.
#[derive(Debug, Clone, PartialEq)]
pub struct ChatMessageUnReadCount {
    pub kingdom: KingdomUnReadCountMsg,
    pub groups: Vec<GroupUnReadCountMsg>,
    pub p2ps: Vec<FrontDisplayChatUserUnreadCount>,
}

/// The mathematical value of the whole unread-count answer.
pub struct ChatMessageUnReadCountV {
    pub kingdom: KingdomUnReadCountV,
    pub groups: Seq<GroupUnReadCountV>,
    pub p2ps: Seq<ChatUserUnreadCountV>,
}

impl DeepView for ChatMessageUnReadCount {
    type V = ChatMessageUnReadCountV;

    open spec fn deep_view(&self) -> ChatMessageUnReadCountV {
        ChatMessageUnReadCountV {
            kingdom: self.kingdom.deep_view(),
            groups: self.groups.deep_view(),
            p2ps: self.p2ps.deep_view(),
        }
    }
}

impl BinaryEncode for ChatMessageUnReadCount {
    open spec fn spec_fields(v: ChatMessageUnReadCountV) -> Seq<u8> {
        spec_block(KingdomUnReadCountMsg::spec_fields(v.kingdom)) + spec_block(
            seq_items_bytes::<GroupUnReadCountMsg>(v.groups),
        ) + spec_block(seq_items_bytes::<FrontDisplayChatUserUnreadCount>(v.p2ps))
    }

    open spec fn spec_encodable(v: ChatMessageUnReadCountV) -> bool {
        &&& KingdomUnReadCountMsg::spec_encodable(v.kingdom)
        &&& <Vec<GroupUnReadCountMsg> as BinaryEncode>::spec_encodable(v.groups)
        &&& <Vec<FrontDisplayChatUserUnreadCount> as BinaryEncode>::spec_encodable(v.p2ps)
        &&& Self::spec_fields(v).len() <= 32767
    }

    proof fn lemma_encodable_fits(v: ChatMessageUnReadCountV) {
    }

    fn encode(&self) -> (r: Result<Vec<u8>, CodecError>) {
        let mut fields: Vec<u8> = Vec::new();
        let mut kingdom_block = self.kingdom.encode()?;
        fields.append(&mut kingdom_block);
        let mut groups_block = self.groups.encode()?;
        fields.append(&mut groups_block);
        let mut p2ps_block = self.p2ps.encode()?;
        fields.append(&mut p2ps_block);
        assert(fields@ =~= Self::spec_fields(self.deep_view()));
        encode_block(fields)
    }
}

impl BinaryDecode for ChatMessageUnReadCount {
    open spec fn spec_dec(bytes: Seq<u8>, pos: int) -> Parsed<ChatMessageUnReadCountV> {
        match parse_i16(bytes, pos) {
            Parsed::Val(_kingdom_len, p1) => match KingdomUnReadCountMsg::spec_dec(bytes, p1) {
                Parsed::Val(kingdom, p2) => match
                    <Vec<GroupUnReadCountMsg> as BinaryDecode>::spec_dec(bytes, p2) {
                    Parsed::Val(groups, p3) => match
                        <Vec<FrontDisplayChatUserUnreadCount> as BinaryDecode>::spec_dec(
                        bytes,
                        p3,
                    ) {
                        Parsed::Val(p2ps, p4) => Parsed::Val(
                            ChatMessageUnReadCountV { kingdom, groups, p2ps },
                            p4,
                        ),
                        Parsed::Fail(e) => Parsed::Fail(e),
                    },
                    Parsed::Fail(e) => Parsed::Fail(e),
                },
                Parsed::Fail(e) => Parsed::Fail(e),
            },
            Parsed::Fail(e) => Parsed::Fail(e),
        }
    }

    fn decode(cursor: &mut Cursor, bytes: &Vec<u8>) -> (r: Result<Self, CodecError>) {
        let _kingdom_item_length = binary_read_i16(cursor, bytes)?;
        let kingdom: KingdomUnReadCountMsg = deserialize_binary(cursor, bytes)?;
        let groups: Vec<GroupUnReadCountMsg> = deserialize_binary(cursor, bytes)?;
        let p2ps: Vec<FrontDisplayChatUserUnreadCount> = deserialize_binary(cursor, bytes)?;
        Ok(ChatMessageUnReadCount { kingdom, groups, p2ps })
    }
}

impl LosslessCodec for ChatMessageUnReadCount {
    proof fn lemma_fields_nonempty(v: ChatMessageUnReadCountV) {
    }

    #[verifier::spinoff_prover]
    #[verifier::rlimit(100)]
    proof fn lemma_fields_round_trip(v: ChatMessageUnReadCountV, bytes: Seq<u8>, pos: int) {
        let f = Self::spec_fields(v);
        let kf = KingdomUnReadCountMsg::spec_fields(v.kingdom);
        let gi = seq_items_bytes::<GroupUnReadCountMsg>(v.groups);
        let pi = seq_items_bytes::<FrontDisplayChatUserUnreadCount>(v.p2ps);
        let o1: int = 2 + kf.len() as int;
        let o2: int = o1 + 2 + gi.len();
        let o3: int = o2 + 2 + pi.len();
        assert(f.len() == o3 && pos + 2 <= bytes.len()) by {
            lemma_block_parts(kf);
            lemma_block_parts(gi);
            lemma_block_parts(pi);
        }
        assert(KingdomUnReadCountMsg::spec_dec(bytes, pos + 2) == Parsed::Val(
            v.kingdom,
            pos + o1,
        )) by {
            lemma_block_parts(kf);
            lemma_concat3_parts(spec_block(kf), spec_block(gi), spec_block(pi));
            lemma_subrange_at(bytes, pos, f, 0, o1);
            lemma_subrange_at(bytes, pos, spec_block(kf), 2, 2 + kf.len() as int);
            KingdomUnReadCountMsg::lemma_fields_round_trip(v.kingdom, bytes, pos + 2);
        }
        assert(<Vec<GroupUnReadCountMsg> as BinaryDecode>::spec_dec(bytes, pos + o1)
            == Parsed::Val(v.groups, pos + o2)) by {
            lemma_block_parts(kf);
            lemma_block_parts(gi);
            lemma_concat3_parts(spec_block(kf), spec_block(gi), spec_block(pi));
            lemma_subrange_at(bytes, pos, f, o1, o2);
            lemma_seq_block_round_trip::<GroupUnReadCountMsg>(v.groups, bytes, pos + o1);
        }
        assert(<Vec<FrontDisplayChatUserUnreadCount> as BinaryDecode>::spec_dec(bytes, pos + o2)
            == Parsed::Val(v.p2ps, pos + o3)) by {
            lemma_block_parts(kf);
            lemma_block_parts(gi);
            lemma_block_parts(pi);
            lemma_concat3_parts(spec_block(kf), spec_block(gi), spec_block(pi));
            lemma_subrange_at(bytes, pos, f, o2, o3);
            lemma_seq_block_round_trip::<FrontDisplayChatUserUnreadCount>(
                v.p2ps,
                bytes,
                pos + o2,
            );
        }
    }
}

} // verus!
