//! Handler decision rules: request parsing, channel dispatch, blacklist
//! enforcement, limit clamping, response ordering, and the registries.

use v1::chat_system::chat::{
    assemble_unread_counts, channel_unread_response, client_feedback_server_message,
    group_chat_message, kingdom_chat_message, p2p_chat_message, parse_channel_unread_request,
    parse_connection_state, parse_group_history_request, parse_kingdom_history_request,
    parse_p2p_history_request, parse_send_message, parse_unread_count_request,
    send_message_dispatch, send_message_response, ChatChannel, ChatError, ChatMessage,
};
use v1::codec::{binary_write_i16, binary_write_i64, binary_write_i8, binary_write_string};
use v1::history::{clamp_limit, history_response};
use v1::models::chat_messages::{
    FrontDisplayGroupChatMessage, FrontDisplayKingdomChatMessage, FrontDisplayP2pChatMessage,
};
use v1::models::user::FrontDisplayChatUser;
use v1::presence::PresenceRegistry;
use v1::router::RouterError;
use v1::{RouterCode, RouterRegister};

fn sample_user(uuid: i64) -> FrontDisplayChatUser {
    FrontDisplayChatUser {
        uuid,
        uid: 7,
        name: "alice".to_string(),
        avatar: "a.png".to_string(),
        server_id: 3,
        action_points: 120,
    }
}

fn p2p_record(mid: i64, ts: i64, content: &str) -> FrontDisplayP2pChatMessage {
    FrontDisplayP2pChatMessage {
        mid,
        send_user: sample_user(42),
        dst_user: sample_user(99),
        content: content.to_string(),
        created_timestamp: ts,
        kind: 3,
        msg_type: 1,
    }
}

fn send_body(uid: u64, tid: i8, dst_id: u64, content: &str) -> Vec<u8> {
    // uid, tid, dst_id and msg_type, then a length-prefixed string whose
    // two-byte length serves as the content-length field
    let mut body = Vec::new();
    binary_write_i64(&mut body, uid as i64);
    binary_write_i8(&mut body, tid);
    binary_write_i64(&mut body, dst_id as i64);
    binary_write_i16(&mut body, 1);  // msg_type
    binary_write_string(&mut body, content).unwrap();
    body
}

#[test]
fn router_code_resolution_and_aliasing() {
    assert_eq!(RouterCode::from_u16(2001), RouterCode::ConnectionState);
    assert_eq!(RouterCode::from_u16(2002), RouterCode::SendMessage);
    assert_eq!(RouterCode::from_u16(2008), RouterCode::GetChannelChatMessageUnreadCount);
    // an unknown numeric code aliases to the first member
    assert_eq!(RouterCode::from_u16(9999), RouterCode::ConnectionState);
    assert_eq!(RouterCode::ConnectionState.value(), 2001);
    assert_eq!(RouterCode::GetP2pUserMessageContent.value(), 2007);
}

#[test]
fn router_register_lookup_and_overwrite() {
    let mut routers: RouterRegister<u32> = RouterRegister::new();
    assert_eq!(routers.call(RouterCode::SendMessage), Err(RouterError::NotFound));
    routers.add(RouterCode::SendMessage, 7);
    routers.add(RouterCode::PushMessage, 8);
    assert_eq!(routers.call(RouterCode::SendMessage), Ok(&7));
    assert_eq!(routers.call(RouterCode::PushMessage), Ok(&8));
    // re-registering a code shadows the earlier handler
    routers.add(RouterCode::SendMessage, 9);
    assert_eq!(routers.call(RouterCode::SendMessage), Ok(&9));
    assert_eq!(routers.call(RouterCode::ConnectionState), Err(RouterError::NotFound));
}

#[test]
fn presence_register_and_lookup() {
    let mut presence: PresenceRegistry<String> = PresenceRegistry::new();
    assert!(presence.lookup(42).is_none());
    presence.register(42, "conn-a".to_string());
    presence.register(99, "conn-b".to_string());
    assert_eq!(presence.lookup(42), Some(&"conn-a".to_string()));
    assert_eq!(presence.lookup(99), Some(&"conn-b".to_string()));
    // the same user announcing again silently replaces the old handle
    presence.register(42, "conn-c".to_string());
    assert_eq!(presence.lookup(42), Some(&"conn-c".to_string()));
}

#[test]
fn announce_parses_uid() {
    let mut body = Vec::new();
    binary_write_i64(&mut body, 42);
    assert_eq!(parse_connection_state(&body), Ok(42));
    assert_eq!(parse_connection_state(&vec![1, 2, 3]), Err(ChatError::InvalidUser));
}

#[test]
fn send_message_parse_and_field_errors() {
    let body = send_body(42, 3, 99, "hi");
    let q = parse_send_message(&body).unwrap();
    assert_eq!(q.uid, 42);
    assert_eq!(q.tid, 3);
    assert_eq!(q.dst_id, 99);
    assert_eq!(q.msg_type, 1);
    assert_eq!(q.content, b"hi".to_vec());
    assert_eq!(parse_send_message(&body[..4].to_vec()), Err(ChatError::InvalidUid));
    assert_eq!(parse_send_message(&body[..8].to_vec()), Err(ChatError::InvalidTid));
    assert_eq!(parse_send_message(&body[..12].to_vec()), Err(ChatError::InvalidDstId));
    assert_eq!(parse_send_message(&body[..17].to_vec()), Err(ChatError::InvalidMsgType));
    assert_eq!(parse_send_message(&body[..19].to_vec()), Err(ChatError::InvalidContentLength));
}

#[test]
fn send_dispatch_per_channel() {
    assert_eq!(send_message_dispatch(1), Ok(ChatChannel::Kingdom));
    assert_eq!(send_message_dispatch(2), Ok(ChatChannel::Group));
    assert_eq!(send_message_dispatch(3), Ok(ChatChannel::P2p));
    assert_eq!(send_message_dispatch(4), Err(ChatError::NotFinished));
    assert_eq!(send_message_dispatch(7), Err(ChatError::UnknownTid));
    assert_eq!(ChatError::NotFinished.message(), "not finished.");
    assert_eq!(ChatError::UnknownTid.message(), "invalid tid.");
}

#[test]
fn kingdom_send_uses_the_kingdom_lookup() {
    let msg = b"hello kingdom".to_vec();
    let row = kingdom_chat_message(42, &Ok(1001), &msg, 1, 555, 9000).unwrap();
    assert_eq!(row.send_id, 42);
    assert_eq!(row.to_id, 1001);
    assert_eq!(row.content, "hello kingdom");
    assert_eq!(row.kind, 1);
    assert_eq!(row.mid, 555);
    assert_eq!(row.created_timestamp, 9000);
    let e = kingdom_chat_message(42, &Err("no such server".to_string()), &msg, 1, 555, 9000)
        .unwrap_err();
    assert_eq!(e, ChatError::Collaborator("no such server".to_string()));
    assert_eq!(e.message(), "no such server");
    let bad = vec![0xff, 0xfe];
    assert_eq!(
        kingdom_chat_message(42, &Ok(1001), &bad, 1, 555, 9000),
        Err(ChatError::InvalidUtf8)
    );
}

#[test]
fn group_send_builds_the_row() {
    let row = group_chat_message(42, 12, &b"gm".to_vec(), 1, 556, 9001).unwrap();
    assert_eq!(row.to_id, 12);
    assert_eq!(row.kind, 2);
}

#[test]
fn blacklist_blocks_a_p2p_send() {
    // a directed blacklist entry from the destination against the sender
    // rejects the send before any row is produced
    let r = p2p_chat_message(42, 99, &Ok(true), &b"hi".to_vec(), 1, 557, 9002);
    assert_eq!(r, Err(ChatError::Blacklisted));
    assert_eq!(ChatError::Blacklisted.message(), "you are blacklisted.");
    // without the entry the row is built
    let row = p2p_chat_message(42, 99, &Ok(false), &b"hi".to_vec(), 1, 557, 9002).unwrap();
    assert_eq!(row.kind, 3);
    assert_eq!(row.to_id, 99);
    // a failed blacklist lookup does not block the send
    let row = p2p_chat_message(42, 99, &Err("db down".to_string()), &b"hi".to_vec(), 1, 558, 9003)
        .unwrap();
    assert_eq!(row.mid, 558);
}

#[test]
fn store_failure_is_a_server_error() {
    assert_eq!(
        send_message_response(Err("insert failed".to_string())),
        Err(ChatError::ServerError)
    );
    assert_eq!(ChatError::ServerError.message(), "server error.");
}

#[test]
fn limit_clamping() {
    assert_eq!(clamp_limit(51), 50);
    assert_eq!(clamp_limit(1000), 50);
    assert_eq!(clamp_limit(50), 50);
    assert_eq!(clamp_limit(7), 7);
    assert_eq!(clamp_limit(0), 10);
    assert_eq!(clamp_limit(-5), 10);
}

#[test]
fn history_request_parsing_clamps_the_limit() {
    let mut body = Vec::new();
    binary_write_i64(&mut body, 0);  // timestamp
    binary_write_i16(&mut body, 1000);  // limit far above the cap
    binary_write_i16(&mut body, 1);  // order
    binary_write_i64(&mut body, 42);  // uid
    let q = parse_kingdom_history_request(&body).unwrap();
    assert_eq!(q.limit, 50);
    assert_eq!(q.order, 1);
    assert_eq!(q.uid, 42);
    assert_eq!(parse_kingdom_history_request(&body[..12].to_vec()), Err(ChatError::InvalidUser));
}

#[test]
fn group_history_request_validates_ids() {
    let mut body = Vec::new();
    binary_write_i64(&mut body, 0);
    binary_write_i16(&mut body, 10);
    binary_write_i16(&mut body, 1);
    binary_write_i64(&mut body, 12);  // gid
    binary_write_i64(&mut body, 42);  // uid
    let q = parse_group_history_request(&body).unwrap();
    assert_eq!(q.gid, 12);
    assert_eq!(q.uid, 42);
    let mut bad = Vec::new();
    binary_write_i64(&mut bad, 0);
    binary_write_i16(&mut bad, 10);
    binary_write_i16(&mut bad, 1);
    binary_write_i64(&mut bad, 0);  // gid missing
    binary_write_i64(&mut bad, 42);
    assert_eq!(parse_group_history_request(&bad), Err(ChatError::InvalidGid));
    assert_eq!(parse_group_history_request(&body[..16].to_vec()), Err(ChatError::InvalidGid));
}

#[test]
fn p2p_history_request_parsing() {
    let mut body = Vec::new();
    binary_write_i64(&mut body, 0);
    binary_write_i16(&mut body, 10);
    binary_write_i16(&mut body, 0);
    binary_write_i64(&mut body, 99);  // send_uid
    binary_write_i64(&mut body, 42);  // my_uid
    let q = parse_p2p_history_request(&body).unwrap();
    assert_eq!(q.send_uid, 99);
    assert_eq!(q.my_uid, 42);
    assert_eq!(q.order, 0);
    assert_eq!(parse_p2p_history_request(&body[..14].to_vec()), Err(ChatError::InvalidSendId));
    assert_eq!(parse_p2p_history_request(&body[..22].to_vec()), Err(ChatError::InvalidUid));
}

#[test]
fn history_is_ordered_and_bounded() {
    let records = vec![
        p2p_record(1, 300, "c"),
        p2p_record(2, 100, "a"),
        p2p_record(3, 200, "b"),
    ];
    let asc = history_response(records.clone(), 0, 10);
    let times: Vec<i64> = asc.iter().map(|m| m.created_timestamp).collect();
    assert_eq!(times, vec![100, 200, 300]);
    let desc = history_response(records.clone(), 1, 10);
    let times: Vec<i64> = desc.iter().map(|m| m.created_timestamp).collect();
    assert_eq!(times, vec![300, 200, 100]);
    // the limit bounds the answer whatever the page held
    let cut = history_response(records.clone(), 1, 2);
    assert_eq!(cut.len(), 2);
    let times: Vec<i64> = cut.iter().map(|m| m.created_timestamp).collect();
    assert_eq!(times, vec![300, 200]);
}

#[test]
fn unread_count_request_parsing() {
    let mut body = Vec::new();
    binary_write_i64(&mut body, 1599731395);
    binary_write_i64(&mut body, 42);
    let q = parse_unread_count_request(&body).unwrap();
    assert_eq!(q.kingdom_read_timestamp, 1599731395);
    assert_eq!(q.uid, 42);
    assert_eq!(parse_unread_count_request(&body[..10].to_vec()), Err(ChatError::InvalidUser));
}

#[test]
fn unread_counts_tolerate_partial_failures() {
    let kingdom_msg = FrontDisplayKingdomChatMessage {
        mid: 5,
        send_user: sample_user(42),
        to_id: 1001,
        content: "latest".to_string(),
        created_timestamp: 50,
        kind: 1,
        msg_type: 1,
    };
    let group_msg = FrontDisplayGroupChatMessage {
        mid: 6,
        send_user: sample_user(43),
        gid: 12,
        group_name: "raiders".to_string(),
        group_thumbnail: "t".to_string(),
        content: "gm".to_string(),
        created_timestamp: 60,
        kind: 2,
        msg_type: 1,
    };
    let summary = assemble_unread_counts(
        Ok((2, kingdom_msg.clone())),
        vec![
            Ok((3, group_msg.clone())),
            Err("one group failed".to_string()),
            Ok((1, group_msg.clone())),
        ],
        Err("p2p lookup failed".to_string()),
    );
    assert_eq!(summary.kingdom.unread_count, 2);
    assert_eq!(summary.kingdom.latest_message, Some(kingdom_msg));
    // the failing group is skipped, not escalated
    assert_eq!(summary.groups.len(), 2);
    assert_eq!(summary.groups[0].unread_count, 3);
    assert_eq!(summary.groups[1].unread_count, 1);
    assert!(summary.p2ps.is_empty());
    let empty = assemble_unread_counts(Err("kingdom failed".to_string()), Vec::new(), Ok(Vec::new()));
    assert_eq!(empty.kingdom.unread_count, 0);
    assert_eq!(empty.kingdom.latest_message, None);
}

#[test]
fn channel_unread_request_and_response() {
    let mut body = Vec::new();
    binary_write_i16(&mut body, 3);
    binary_write_i64(&mut body, 5986398665897825204);
    binary_write_i64(&mut body, 3455115140489977330);
    let q = parse_channel_unread_request(&body).unwrap();
    assert_eq!(q.tid, 3);
    assert_eq!(q.dst_id_or_kingdom_timestamp, 5986398665897825204);
    assert_eq!(q.uid, 3455115140489977330);
    assert_eq!(parse_channel_unread_request(&body[..1].to_vec()), Err(ChatError::InvalidTid));
    assert_eq!(
        parse_channel_unread_request(&body[..6].to_vec()),
        Err(ChatError::InvalidDstOrTimestamp)
    );
    assert_eq!(parse_channel_unread_request(&body[..12].to_vec()), Err(ChatError::InvalidUid));
    let r = channel_unread_response(3, Some(4));
    assert_eq!(r.unread_count, 4);
    assert_eq!(r.kind, 3);
    let none = channel_unread_response(9, None);
    assert_eq!(none.unread_count, 0);
    assert_eq!(none.kind, 9);
}

#[test]
fn push_acknowledge_always_fails() {
    let r = client_feedback_server_message();
    assert_eq!(r, Err(ChatError::Unknown));
    assert_eq!(ChatError::Unknown.message(), "not uknown.");
}

#[test]
fn announce_then_send_then_history() {
    // a client announces itself, sends a peer message, and reads it back
    let mut presence: PresenceRegistry<u32> = PresenceRegistry::new();
    let mut announce_body = Vec::new();
    binary_write_i64(&mut announce_body, 42);
    let uid = parse_connection_state(&announce_body).unwrap();
    assert_eq!(uid, 42);
    presence.register(uid, 1);
    assert_eq!(presence.lookup(42), Some(&1));

    let body = send_body(42, 3, 99, "hi");
    let q = parse_send_message(&body).unwrap();
    assert_eq!(send_message_dispatch(q.tid), Ok(ChatChannel::P2p));
    let mid = 424299;
    let now = 1599731395;
    let row = p2p_chat_message(q.uid, q.dst_id, &Ok(false), &q.content, q.msg_type, mid, now)
        .unwrap();
    // the store inserts the row and hands it back
    let stored = ChatMessage {
        mid: row.mid,
        send_id: row.send_id,
        to_id: row.to_id,
        content: row.content.clone(),
        created_timestamp: row.created_timestamp,
        kind: row.kind,
        msg_type: row.msg_type,
    };
    let summary = send_message_response(Ok(stored)).unwrap();
    assert_eq!(summary.mid, mid);
    assert_eq!(summary.content, "hi");
    assert_eq!(summary.kind, 3);

    // the peer asks for the conversation's history
    let mut hist_body = Vec::new();
    binary_write_i64(&mut hist_body, 0);
    binary_write_i16(&mut hist_body, 10);
    binary_write_i16(&mut hist_body, 1);
    binary_write_i64(&mut hist_body, 99);
    binary_write_i64(&mut hist_body, 42);
    let hq = parse_p2p_history_request(&hist_body).unwrap();
    assert_eq!((hq.send_uid, hq.my_uid, hq.limit, hq.order), (99, 42, 10, 1));
    let page = vec![p2p_record(mid, now, "hi")];
    let answer = history_response(page, hq.order, hq.limit);
    assert_eq!(answer.len(), 1);
    assert_eq!(answer[0].mid, mid);
    assert_eq!(answer[0].content, "hi");
}
