//! The per-peer unread summary: who sent, who reads, how many are unread,
//! and the latest message's short form.

use vstd::prelude::*;
use crate::codec::{
    BinaryDecode, BinaryEncode, CodecError, Cursor, LosslessCodec, Parsed, binary_read_i16,
    binary_read_i64, binary_write_i16, binary_write_i64, deserialize_binary, encode_block, le16,
    le64, lemma_parse_i16_at, lemma_parse_i64_at, lemma_subrange_at, parse_i16, parse_i64,
    spec_block,
};
use crate::models::chat_messages::{FrontDisplayP2pChatMessageCount, P2pChatMessageCountV};
use crate::models::user::{ChatUserV, FrontDisplayChatUser};

verus! {

/// One peer's unread summary as the client displays it.
#[derive(Debug, Clone, PartialEq)]
pub struct FrontDisplayChatUserUnreadCount {
    pub sender: FrontDisplayChatUser,
    pub receiver: FrontDisplayChatUser,
    pub latest_timestamp: i64,
    pub unread_count: i16,
    pub latest_msg: FrontDisplayP2pChatMessageCount,
}

/// The mathematical value of a peer unread summary.
pub struct ChatUserUnreadCountV {
    pub sender: ChatUserV,
    pub receiver: ChatUserV,
    pub latest_timestamp: i64,
    pub unread_count: i16,
    pub latest_msg: P2pChatMessageCountV,
}

impl DeepView for FrontDisplayChatUserUnreadCount {
    type V = ChatUserUnreadCountV;

    open spec fn deep_view(&self) -> ChatUserUnreadCountV {
        ChatUserUnreadCountV {
            sender: self.sender.deep_view(),
            receiver: self.receiver.deep_view(),
            latest_timestamp: self.latest_timestamp,
            unread_count: self.unread_count,
            latest_msg: self.latest_msg.deep_view(),
        }
    }
}

impl BinaryEncode for FrontDisplayChatUserUnreadCount {
    open spec fn spec_fields(v: ChatUserUnreadCountV) -> Seq<u8> {
        spec_block(FrontDisplayChatUser::spec_fields(v.sender)) + spec_block(
            FrontDisplayChatUser::spec_fields(v.receiver),
        ) + le64(v.latest_timestamp as u64) + le16(v.unread_count as u16) + spec_block(
            FrontDisplayP2pChatMessageCount::spec_fields(v.latest_msg),
        )
    }

    open spec fn spec_encodable(v: ChatUserUnreadCountV) -> bool {
        &&& FrontDisplayChatUser::spec_encodable(v.sender)
        &&& FrontDisplayChatUser::spec_encodable(v.receiver)
        &&& FrontDisplayP2pChatMessageCount::spec_encodable(v.latest_msg)
        &&& Self::spec_fields(v).len() <= 32767
    }

    proof fn lemma_encodable_fits(v: ChatUserUnreadCountV) {
    }

    fn encode(&self) -> (r: Result<Vec<u8>, CodecError>) {
        let mut fields: Vec<u8> = Vec::new();
        let mut sender_block = self.sender.encode()?;
        fields.append(&mut sender_block);
        let mut receiver_block = self.receiver.encode()?;
        fields.append(&mut receiver_block);
        binary_write_i64(&mut fields, self.latest_timestamp);
        binary_write_i16(&mut fields, self.unread_count);
        let mut msg_block = self.latest_msg.encode()?;
        fields.append(&mut msg_block);
        assert(fields@ =~= Self::spec_fields(self.deep_view()));
        encode_block(fields)
    }
}

impl BinaryDecode for FrontDisplayChatUserUnreadCount {
    open spec fn spec_dec(bytes: Seq<u8>, pos: int) -> Parsed<ChatUserUnreadCountV> {
        match parse_i16(bytes, pos) {
            Parsed::Val(_send_len, p1) => match FrontDisplayChatUser::spec_dec(bytes, p1) {
                Parsed::Val(sender, p2) => match parse_i16(bytes, p2) {
                    Parsed::Val(_recv_len, p3) => match FrontDisplayChatUser::spec_dec(bytes, p3) {
                        Parsed::Val(receiver, p4) => match parse_i64(bytes, p4) {
                            Parsed::Val(latest_timestamp, p5) => match parse_i16(bytes, p5) {
                                Parsed::Val(unread_count, p6) => match parse_i16(bytes, p6) {
                                    Parsed::Val(_msg_len, p7) => match
                                        FrontDisplayP2pChatMessageCount::spec_dec(bytes, p7) {
                                        Parsed::Val(latest_msg, p8) => Parsed::Val(
                                            ChatUserUnreadCountV {
                                                sender,
                                                receiver,
                                                latest_timestamp,
                                                unread_count,
                                                latest_msg,
                                            },
                                            p8,
                                        ),
                                        Parsed::Fail(e) => Parsed::Fail(e),
                                    },
                                    Parsed::Fail(e) => Parsed::Fail(e),
                                },
                                Parsed::Fail(e) => Parsed::Fail(e),
                            },
                            Parsed::Fail(e) => Parsed::Fail(e),
                        },
                        Parsed::Fail(e) => Parsed::Fail(e),
                    },
                    Parsed::Fail(e) => Parsed::Fail(e),
                },
                Parsed::Fail(e) => Parsed::Fail(e),
            },
            Parsed::Fail(e) => Parsed::Fail(e),
        }
    }

    fn decode(cursor: &mut Cursor, bytes: &Vec<u8>) -> (r: Result<Self, CodecError>) {
        let _sender_item_length = binary_read_i16(cursor, bytes)?;
        let sender: FrontDisplayChatUser = deserialize_binary(cursor, bytes)?;
        let _receiver_item_length = binary_read_i16(cursor, bytes)?;
        let receiver: FrontDisplayChatUser = deserialize_binary(cursor, bytes)?;
        let latest_timestamp = binary_read_i64(cursor, bytes)?;
        let unread_count = binary_read_i16(cursor, bytes)?;
        let _msg_item_length = binary_read_i16(cursor, bytes)?;
        let latest_msg: FrontDisplayP2pChatMessageCount = deserialize_binary(cursor, bytes)?;
        Ok(
            FrontDisplayChatUserUnreadCount {
                sender,
                receiver,
                latest_timestamp,
                unread_count,
                latest_msg,
            },
        )
    }
}

impl LosslessCodec for FrontDisplayChatUserUnreadCount {
    proof fn lemma_fields_nonempty(v: ChatUserUnreadCountV) {
    }

    #[verifier::rlimit(60)]
    proof fn lemma_fields_round_trip(v: ChatUserUnreadCountV, bytes: Seq<u8>, pos: int) {
        let f = Self::spec_fields(v);
        let sf = FrontDisplayChatUser::spec_fields(v.sender);
        let rf = FrontDisplayChatUser::spec_fields(v.receiver);
        let mf = FrontDisplayP2pChatMessageCount::spec_fields(v.latest_msg);
        let o1: int = 2 + sf.len() as int;
        let o2: int = o1 + 2 + rf.len();
        let o3: int = o2 + 8;
        let o4: int = o3 + 2;
        let o5: int = o4 + 2 + mf.len();
        lemma_subrange_at(bytes, pos, f, 0, o1);
        assert(f.subrange(0, o1) =~= spec_block(sf));
        lemma_subrange_at(bytes, pos, spec_block(sf), 2, 2 + sf.len() as int);
        assert(spec_block(sf).subrange(2, 2 + sf.len() as int) =~= sf);
        FrontDisplayChatUser::lemma_fields_round_trip(v.sender, bytes, pos + 2);
        lemma_subrange_at(bytes, pos, f, o1, o2);
        assert(f.subrange(o1, o2) =~= spec_block(rf));
        lemma_subrange_at(bytes, pos + o1, spec_block(rf), 2, 2 + rf.len() as int);
        assert(spec_block(rf).subrange(2, 2 + rf.len() as int) =~= rf);
        FrontDisplayChatUser::lemma_fields_round_trip(v.receiver, bytes, pos + o1 + 2);
        lemma_subrange_at(bytes, pos, f, o2, o3);
        assert(f.subrange(o2, o3) =~= le64(v.latest_timestamp as u64));
        lemma_parse_i64_at(bytes, pos + o2, v.latest_timestamp);
        lemma_subrange_at(bytes, pos, f, o3, o4);
        assert(f.subrange(o3, o4) =~= le16(v.unread_count as u16));
        lemma_parse_i16_at(bytes, pos + o3, v.unread_count);
        lemma_subrange_at(bytes, pos, f, o4, o5);
        assert(f.subrange(o4, o5) =~= spec_block(mf));
        lemma_subrange_at(bytes, pos + o4, spec_block(mf), 2, 2 + mf.len() as int);
        assert(spec_block(mf).subrange(2, 2 + mf.len() as int) =~= mf);
        FrontDisplayP2pChatMessageCount::lemma_fields_round_trip(v.latest_msg, bytes, pos + o4 + 2);
    }
}

} // verus!
