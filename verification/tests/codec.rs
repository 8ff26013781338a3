//! Codec round trips and error behaviour, exercised on concrete values.

use v1::codec::{
    binary_read_i16, binary_read_i64, binary_read_i8, binary_read_msg, binary_read_string,
    binary_write_i16, binary_write_i64, binary_write_i8, binary_write_string, deserialize_binary,
    CodecError, Cursor,
};
use v1::models::chat_messages::{
    FrontDisplayChatMessage, FrontDisplayChatMessageUnreadCount, FrontDisplayGroupChatMessage,
    FrontDisplayKingdomChatMessage, FrontDisplayP2pChatMessage, FrontDisplayP2pChatMessageCount,
};
use v1::models::user::FrontDisplayChatUser;
use v1::models::chat_user_unread_counts::FrontDisplayChatUserUnreadCount;
use v1::{BinaryEncode, ChatMessageUnReadCount, GroupUnReadCountMsg, KingdomUnReadCountMsg};

fn sample_user(uuid: i64) -> FrontDisplayChatUser {
    FrontDisplayChatUser {
        uuid,
        uid: 7,
        name: "alice".to_string(),
        avatar: "a.png".to_string(),
        server_id: 3,
        action_points: 120,
    }
}

fn sample_p2p_message(mid: i64, ts: i64) -> FrontDisplayP2pChatMessage {
    FrontDisplayP2pChatMessage {
        mid,
        send_user: sample_user(42),
        dst_user: sample_user(99),
        content: "hi".to_string(),
        created_timestamp: ts,
        kind: 3,
        msg_type: 1,
    }
}

#[test]
fn scalar_write_read_round_trip() {
    let mut bytes = Vec::new();
    binary_write_i64(&mut bytes, -2);
    binary_write_i16(&mut bytes, 300);
    binary_write_i8(&mut bytes, -5);
    assert_eq!(&bytes[0..8], &[0xfe, 0xff, 0xff, 0xff, 0xff, 0xff, 0xff, 0xff]);
    assert_eq!(&bytes[8..10], &[44, 1]);
    let mut cursor = Cursor::new();
    assert_eq!(binary_read_i64(&mut cursor, &bytes).unwrap(), -2);
    assert_eq!(binary_read_i16(&mut cursor, &bytes).unwrap(), 300);
    assert_eq!(binary_read_i8(&mut cursor, &bytes).unwrap(), -5);
    assert_eq!(cursor.pos, 11);
}

#[test]
fn string_write_exact_bytes() {
    let mut bytes = Vec::new();
    binary_write_string(&mut bytes, "ab").unwrap();
    assert_eq!(bytes, vec![2, 0, 97, 98]);
}

#[test]
fn string_round_trip_multibyte() {
    let mut bytes = Vec::new();
    binary_write_string(&mut bytes, "héllo ✓").unwrap();
    let mut cursor = Cursor::new();
    let s = binary_read_string(&mut cursor, &bytes).unwrap();
    assert_eq!(s, "héllo ✓");
    assert_eq!(cursor.pos, bytes.len());
}

#[test]
fn truncated_scalar_read_fails() {
    let bytes = vec![1, 2, 3];
    let mut cursor = Cursor::new();
    assert_eq!(binary_read_i64(&mut cursor, &bytes), Err(CodecError::TruncatedInput));
}

#[test]
fn invalid_utf8_string_read_fails() {
    let bytes = vec![2, 0, 0xff, 0xfe];
    let mut cursor = Cursor::new();
    assert_eq!(binary_read_string(&mut cursor, &bytes), Err(CodecError::Encoding));
}

#[test]
fn negative_string_length_is_truncation() {
    let bytes = vec![0xff, 0xff, 1, 2];
    let mut cursor = Cursor::new();
    assert_eq!(binary_read_string(&mut cursor, &bytes), Err(CodecError::TruncatedInput));
}

#[test]
fn oversize_string_write_fails() {
    let big = "a".repeat(40000);
    let mut bytes = Vec::new();
    assert_eq!(binary_write_string(&mut bytes, big.as_str()), Err(CodecError::Oversize));
    assert!(bytes.is_empty());
}

#[test]
fn oversize_record_encode_fails() {
    let mut m = sample_p2p_message(5, 10);
    m.content = "x".repeat(40000);
    assert_eq!(m.encode(), Err(CodecError::Oversize));
}

#[test]
fn read_msg_skips_block() {
    let mut bytes = Vec::new();
    binary_write_string(&mut bytes, "note").unwrap();
    binary_write_i64(&mut bytes, 77);
    let mut cursor = Cursor::new();
    binary_read_msg(&mut cursor, &bytes).unwrap();
    assert_eq!(binary_read_i64(&mut cursor, &bytes).unwrap(), 77);
}

#[test]
fn chat_user_round_trip() {
    let user = sample_user(11);
    let bytes = user.encode().unwrap();
    let mut cursor = Cursor::new();
    let _item_length = binary_read_i16(&mut cursor, &bytes).unwrap();
    let decoded: FrontDisplayChatUser = deserialize_binary(&mut cursor, &bytes).unwrap();
    assert_eq!(decoded, user);
    assert_eq!(cursor.pos, bytes.len());
}

#[test]
fn chat_message_round_trip() {
    let msg = FrontDisplayChatMessage {
        mid: -9,
        send_id: 42,
        to_id: 99,
        content: "hello there".to_string(),
        created_timestamp: 1599731395,
        kind: 1,
        msg_type: 2,
    };
    let bytes = msg.encode().unwrap();
    let mut cursor = Cursor::new();
    let _item_length = binary_read_i16(&mut cursor, &bytes).unwrap();
    let decoded: FrontDisplayChatMessage = deserialize_binary(&mut cursor, &bytes).unwrap();
    assert_eq!(decoded, msg);
}

#[test]
fn kingdom_message_round_trip() {
    let msg = FrontDisplayKingdomChatMessage {
        mid: 1,
        send_user: sample_user(42),
        to_id: 1001,
        content: "kingdom news".to_string(),
        created_timestamp: 5,
        kind: 1,
        msg_type: 1,
    };
    let bytes = msg.encode().unwrap();
    let mut cursor = Cursor::new();
    let _item_length = binary_read_i16(&mut cursor, &bytes).unwrap();
    let decoded: FrontDisplayKingdomChatMessage = deserialize_binary(&mut cursor, &bytes).unwrap();
    assert_eq!(decoded, msg);
}

#[test]
fn group_message_round_trip() {
    let msg = FrontDisplayGroupChatMessage {
        mid: 2,
        send_user: sample_user(42),
        gid: 12,
        group_name: "raiders".to_string(),
        group_thumbnail: "thumb".to_string(),
        content: "group hello".to_string(),
        created_timestamp: 6,
        kind: 2,
        msg_type: 1,
    };
    let bytes = msg.encode().unwrap();
    let mut cursor = Cursor::new();
    let _item_length = binary_read_i16(&mut cursor, &bytes).unwrap();
    let decoded: FrontDisplayGroupChatMessage = deserialize_binary(&mut cursor, &bytes).unwrap();
    assert_eq!(decoded, msg);
}

#[test]
fn p2p_message_round_trip() {
    let msg = sample_p2p_message(3, 7);
    let bytes = msg.encode().unwrap();
    let mut cursor = Cursor::new();
    let _item_length = binary_read_i16(&mut cursor, &bytes).unwrap();
    let decoded: FrontDisplayP2pChatMessage = deserialize_binary(&mut cursor, &bytes).unwrap();
    assert_eq!(decoded, msg);
}

#[test]
fn unread_count_pair_round_trip() {
    let v = FrontDisplayChatMessageUnreadCount { unread_count: 4, kind: 3 };
    let bytes = v.encode().unwrap();
    assert_eq!(bytes, vec![4, 0, 4, 0, 3, 0]);
    let mut cursor = Cursor::new();
    let _item_length = binary_read_i16(&mut cursor, &bytes).unwrap();
    let decoded: FrontDisplayChatMessageUnreadCount =
        deserialize_binary(&mut cursor, &bytes).unwrap();
    assert_eq!(decoded, v);
}

#[test]
fn message_summary_round_trip() {
    let v = FrontDisplayP2pChatMessageCount {
        mid: 10,
        content: "hi".to_string(),
        created_timestamp: 20,
        kind: 3,
        msg_type: 1,
    };
    let bytes = v.encode().unwrap();
    let mut cursor = Cursor::new();
    let _item_length = binary_read_i16(&mut cursor, &bytes).unwrap();
    let decoded: FrontDisplayP2pChatMessageCount = deserialize_binary(&mut cursor, &bytes).unwrap();
    assert_eq!(decoded, v);
}

#[test]
fn sequence_round_trip_and_framing_bound() {
    let msgs = vec![
        sample_p2p_message(1, 100),
        {
            let mut m = sample_p2p_message(2, 200);
            m.content = "a longer message to vary the element sizes".to_string();
            m
        },
        sample_p2p_message(3, 300),
    ];
    let bytes = msgs.encode().unwrap();
    let outer = u16::from_le_bytes([bytes[0], bytes[1]]) as usize;
    let mut cursor = Cursor::new();
    let decoded: Vec<FrontDisplayP2pChatMessage> = deserialize_binary(&mut cursor, &bytes).unwrap();
    assert_eq!(decoded, msgs);
    // the bytes consumed are exactly the outer length field plus its own two bytes
    assert_eq!(cursor.pos, 2 + outer);
}

#[test]
fn empty_sequence_round_trip() {
    let msgs: Vec<FrontDisplayP2pChatMessage> = Vec::new();
    let bytes = msgs.encode().unwrap();
    assert_eq!(bytes, vec![0, 0]);
    let mut cursor = Cursor::new();
    let decoded: Vec<FrontDisplayP2pChatMessage> = deserialize_binary(&mut cursor, &bytes).unwrap();
    assert!(decoded.is_empty());
    assert_eq!(cursor.pos, 2);
}

#[test]
fn unread_summary_round_trip_with_none_and_empty() {
    let summary = ChatMessageUnReadCount {
        kingdom: KingdomUnReadCountMsg { unread_count: 0, latest_message: None },
        groups: Vec::new(),
        p2ps: Vec::new(),
    };
    let bytes = summary.encode().unwrap();
    let mut cursor = Cursor::new();
    let _item_length = binary_read_i16(&mut cursor, &bytes).unwrap();
    let decoded: ChatMessageUnReadCount = deserialize_binary(&mut cursor, &bytes).unwrap();
    assert_eq!(decoded, summary);
}

#[test]
fn unread_summary_round_trip_full() {
    let summary = ChatMessageUnReadCount {
        kingdom: KingdomUnReadCountMsg {
            unread_count: 2,
            latest_message: Some(FrontDisplayKingdomChatMessage {
                mid: 5,
                send_user: sample_user(42),
                to_id: 1001,
                content: "latest".to_string(),
                created_timestamp: 50,
                kind: 1,
                msg_type: 1,
            }),
        },
        groups: vec![GroupUnReadCountMsg {
            unread_count: 3,
            latest_message: FrontDisplayGroupChatMessage {
                mid: 6,
                send_user: sample_user(43),
                gid: 12,
                group_name: "raiders".to_string(),
                group_thumbnail: "t".to_string(),
                content: "gm".to_string(),
                created_timestamp: 60,
                kind: 2,
                msg_type: 1,
            },
        }],
        p2ps: vec![FrontDisplayChatUserUnreadCount {
            sender: sample_user(99),
            receiver: sample_user(42),
            latest_timestamp: 70,
            unread_count: 1,
            latest_msg: FrontDisplayP2pChatMessageCount {
                mid: 7,
                content: "hi".to_string(),
                created_timestamp: 70,
                kind: 3,
                msg_type: 1,
            },
        }],
    };
    let bytes = summary.encode().unwrap();
    let mut cursor = Cursor::new();
    let _item_length = binary_read_i16(&mut cursor, &bytes).unwrap();
    let decoded: ChatMessageUnReadCount = deserialize_binary(&mut cursor, &bytes).unwrap();
    assert_eq!(decoded, summary);
}
