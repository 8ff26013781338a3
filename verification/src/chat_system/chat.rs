//! What each chat handler decides: how its request body is read, which
//! inputs it rejects, what it asks of the persistence and cache
//! collaborators, and how their answers become a response.
//!
//! The handlers' outside work — the socket, the relational store, the cache —
//! stays with the caller; every rule stands here, over plain values.

use vstd::prelude::*;
use vstd::utf8::{decode_utf8, valid_utf8};
use crate::codec::{Cursor, binary_read_i16, binary_read_i64, binary_read_u16, binary_read_u64,
    binary_read_u8, bytes_to_string, word16_at, word64_at};
use crate::history::{clamp_limit, spec_clamp_limit};
use crate::models::chat_messages::{
    FrontDisplayChatMessageUnreadCount, FrontDisplayGroupChatMessage,
    FrontDisplayKingdomChatMessage, FrontDisplayP2pChatMessageCount,
};
use crate::models::chat_user_unread_counts::FrontDisplayChatUserUnreadCount;
use crate::unread::{ChatMessageUnReadCount, GroupUnReadCountMsg, KingdomUnReadCountMsg};

verus! {

/// A handler-level failure, each with the message its error response
/// carries.
#[derive(Debug, Clone, PartialEq)]
pub enum ChatError {
    /// A request's user id could not be read.
    InvalidUser,
    /// A send request's sender id could not be read.
    InvalidUid,
    /// A request's channel kind could not be read.
    InvalidTid,
    /// A send request's destination id could not be read.
    InvalidDstId,
    /// A send request's message type could not be read.
    InvalidMsgType,
    /// A send request's content length could not be read.
    InvalidContentLength,
    /// A send request named a channel kind nobody handles.
    UnknownTid,
    /// The alliance channel is not finished.
    NotFinished,
    /// A message's content is not valid UTF-8.
    InvalidUtf8,
    /// A group history request's group or user id is missing or not positive.
    InvalidGid,
    /// A peer history request's sender id could not be read.
    InvalidSendId,
    /// A channel unread request's destination or timestamp could not be read.
    InvalidDstOrTimestamp,
    /// The push-acknowledge code, which this core does not serve.
    Unknown,
    /// The directed blacklist forbids this pair.
    Blacklisted,
    /// Storing the message failed.
    ServerError,
    /// A collaborator failed; its own words are passed through.
    Collaborator(String),
}

impl ChatError {
    /// The message this failure's error response carries.
    pub open spec fn spec_message(&self) -> Seq<char> {
        match self {
            ChatError::InvalidUser => "invaild user param."@,
            ChatError::InvalidUid => "invaild uid param."@,
            ChatError::InvalidTid => "invaild tid param."@,
            ChatError::InvalidDstId => "invaild dst_id param."@,
            ChatError::InvalidMsgType => "invaild msg type param."@,
            ChatError::InvalidContentLength => "invaild content length param."@,
            ChatError::UnknownTid => "invalid tid."@,
            ChatError::NotFinished => "not finished."@,
            ChatError::InvalidUtf8 => "invalid utf8 encode."@,
            ChatError::InvalidGid => "invaild gid param."@,
            ChatError::InvalidSendId => "invaild send id param."@,
            ChatError::InvalidDstOrTimestamp => "invaild dst id or kingdom_timestamp param."@,
            ChatError::Unknown => "not uknown."@,
            ChatError::Blacklisted => "you are blacklisted."@,
            ChatError::ServerError => "server error."@,
            ChatError::Collaborator(m) => m@,
        }
    }

    /// The message this failure's error response carries.
    pub fn message(&self) -> (m: String)
        ensures
            m@ == self.spec_message(),
    {
        match self {
            ChatError::InvalidUser => "invaild user param.".to_owned(),
            ChatError::InvalidUid => "invaild uid param.".to_owned(),
            ChatError::InvalidTid => "invaild tid param.".to_owned(),
            ChatError::InvalidDstId => "invaild dst_id param.".to_owned(),
            ChatError::InvalidMsgType => "invaild msg type param.".to_owned(),
            ChatError::InvalidContentLength => "invaild content length param.".to_owned(),
            ChatError::UnknownTid => "invalid tid.".to_owned(),
            ChatError::NotFinished => "not finished.".to_owned(),
            ChatError::InvalidUtf8 => "invalid utf8 encode.".to_owned(),
            ChatError::InvalidGid => "invaild gid param.".to_owned(),
            ChatError::InvalidSendId => "invaild send id param.".to_owned(),
            ChatError::InvalidDstOrTimestamp => {
                "invaild dst id or kingdom_timestamp param.".to_owned()
            },
            ChatError::Unknown => "not uknown.".to_owned(),
            ChatError::Blacklisted => "you are blacklisted.".to_owned(),
            ChatError::ServerError => "server error.".to_owned(),
            ChatError::Collaborator(m) => m.clone(),
        }
    }
}

/// The identity a client announces: its user id, read from the body's first
/// eight bytes.
pub fn parse_connection_state(body: &Vec<u8>) -> (r: Result<u64, ChatError>)
    ensures
        r matches Ok(uid) ==> body@.len() >= 8 && uid == word64_at(body@, 0),
        r is Err ==> r == Result::<u64, ChatError>::Err(ChatError::InvalidUser) && body@.len()
            < 8,
{
    let mut cursor = Cursor::new();
    match binary_read_u64(&mut cursor, body) {
        Ok(uid) => Ok(uid),
        Err(_) => Err(ChatError::InvalidUser),
    }
}

/// A send request: who sends, over which channel, to whom, what kind of
/// message, and the content bytes.
#[derive(Debug, Clone, PartialEq)]
pub struct SendMessageRequest {
    pub uid: u64,
    pub tid: u8,
    pub dst_id: u64,
    pub msg_type: u16,
    pub content: Vec<u8>,
}

/// Reads a send request: sender id, channel kind, destination id, message
/// type, a content length that the reader does not use, and then the rest
/// of the body as the content bytes.
pub fn parse_send_message(body: &Vec<u8>) -> (r: Result<SendMessageRequest, ChatError>)
    ensures
        r matches Ok(q) ==> {
            &&& body@.len() >= 21
            &&& q.uid == word64_at(body@, 0)
            &&& q.tid == body@[8]
            &&& q.dst_id == word64_at(body@, 9)
            &&& q.msg_type == word16_at(body@, 17)
            &&& q.content@ == body@.skip(21)
        },
        r matches Err(e) ==> {
            &&& body@.len() < 21
            &&& e == if body@.len() < 8 {
                ChatError::InvalidUid
            } else if body@.len() < 9 {
                ChatError::InvalidTid
            } else if body@.len() < 17 {
                ChatError::InvalidDstId
            } else if body@.len() < 19 {
                ChatError::InvalidMsgType
            } else {
                ChatError::InvalidContentLength
            }
        },
{
    let mut cursor = Cursor::new();
    let uid = match binary_read_u64(&mut cursor, body) {
        Ok(v) => v,
        Err(_) => {
            return Err(ChatError::InvalidUid);
        },
    };
    let tid = match binary_read_u8(&mut cursor, body) {
        Ok(v) => v,
        Err(_) => {
            return Err(ChatError::InvalidTid);
        },
    };
    let dst_id = match binary_read_u64(&mut cursor, body) {
        Ok(v) => v,
        Err(_) => {
            return Err(ChatError::InvalidDstId);
        },
    };
    let msg_type = match binary_read_u16(&mut cursor, body) {
        Ok(v) => v,
        Err(_) => {
            return Err(ChatError::InvalidMsgType);
        },
    };
    let _content_length = match binary_read_u16(&mut cursor, body) {
        Ok(v) => v,
        Err(_) => {
            return Err(ChatError::InvalidContentLength);
        },
    };
    let content = vstd::slice::slice_to_vec(
        vstd::slice::slice_subrange(body.as_slice(), cursor.pos, body.len()),
    );
    assert(content@ =~= body@.skip(21));
    Ok(SendMessageRequest { uid, tid, dst_id, msg_type, content })
}

/// The channel a send request goes to.
#[derive(Debug, Clone, Copy, PartialEq, Eq, Structural)]
pub enum ChatChannel {
    Kingdom,
    Group,
    P2p,
}

/// Which channel a send request's kind selects: kingdom, group or peer. The
/// alliance kind is not finished, and anything else is unknown.
pub fn send_message_dispatch(tid: u8) -> (r: Result<ChatChannel, ChatError>)
    ensures
        tid == 1 ==> r == Result::<ChatChannel, ChatError>::Ok(ChatChannel::Kingdom),
        tid == 2 ==> r == Result::<ChatChannel, ChatError>::Ok(ChatChannel::Group),
        tid == 3 ==> r == Result::<ChatChannel, ChatError>::Ok(ChatChannel::P2p),
        tid == 4 ==> r == Result::<ChatChannel, ChatError>::Err(ChatError::NotFinished),
        tid != 1 && tid != 2 && tid != 3 && tid != 4 ==> r == Result::<
            ChatChannel,
            ChatError,
        >::Err(ChatError::UnknownTid),
{
    match tid {
        1 => Ok(ChatChannel::Kingdom),
        2 => Ok(ChatChannel::Group),
        3 => Ok(ChatChannel::P2p),
        4 => Err(ChatError::NotFinished),
        _ => Err(ChatError::UnknownTid),
    }
}

/// A chat message row about to be inserted into the store.
#[derive(Debug, Clone, PartialEq)]
pub struct NewChatMessage {
    pub mid: i64,
    pub send_id: i64,
    pub to_id: i64,
    pub content: String,
    pub created_timestamp: i64,
    pub kind: i16,
    pub msg_type: i16,
}

/// A stored chat message as the handlers read it back.
#[derive(Debug, Clone, PartialEq)]
pub struct ChatMessage {
    pub mid: i64,
    pub send_id: i64,
    pub to_id: i64,
    pub content: String,
    pub created_timestamp: i64,
    pub kind: i16,
    pub msg_type: i16,
}

/// The row a kingdom-channel send inserts: the content must be UTF-8 and
/// the destination's kingdom id must have been found; the row carries the
/// fresh message id and timestamp the caller drew.
pub fn kingdom_chat_message(
    from_uid: u64,
    kingdom_id: &Result<i64, String>,
    msg: &Vec<u8>,
    msg_type: u16,
    mid: i64,
    created_timestamp: i64,
) -> (r: Result<NewChatMessage, ChatError>)
    ensures
        !valid_utf8(msg@) ==> r == Result::<NewChatMessage, ChatError>::Err(
            ChatError::InvalidUtf8,
        ),
        valid_utf8(msg@) ==> (kingdom_id matches Err(e) ==> (r matches Err(er) && er matches
            ChatError::Collaborator(m) && m@ == e@)),
        valid_utf8(msg@) ==> (kingdom_id matches Ok(k) ==> (r matches Ok(n) && n.mid == mid
            && n.send_id == from_uid as i64 && n.to_id == k && n.content@ == decode_utf8(msg@)
            && n.created_timestamp == created_timestamp && n.kind == 1 && n.msg_type
            == msg_type as i16)),
{
    let content = match bytes_to_string(msg) {
        Some(s) => s,
        None => {
            return Err(ChatError::InvalidUtf8);
        },
    };
    let k = match kingdom_id {
        Ok(v) => *v,
        Err(e) => {
            return Err(ChatError::Collaborator(e.clone()));
        },
    };
    Ok(
        NewChatMessage {
            mid,
            send_id: from_uid as i64,
            to_id: k,
            content,
            created_timestamp,
            kind: 1,
            msg_type: msg_type as i16,
        },
    )
}

/// The row a group-channel send inserts; alongside it the store bumps every
/// other member's unread count in the same transaction.
pub fn group_chat_message(
    from_uid: u64,
    gid: u64,
    msg: &Vec<u8>,
    msg_type: u16,
    mid: i64,
    created_timestamp: i64,
) -> (r: Result<NewChatMessage, ChatError>)
    ensures
        !valid_utf8(msg@) ==> r == Result::<NewChatMessage, ChatError>::Err(
            ChatError::InvalidUtf8,
        ),
        valid_utf8(msg@) ==> (r matches Ok(n) && n.mid == mid && n.send_id == from_uid as i64
            && n.to_id == gid as i64 && n.content@ == decode_utf8(msg@) && n.created_timestamp
            == created_timestamp && n.kind == 2 && n.msg_type == msg_type as i16),
{
    let content = match bytes_to_string(msg) {
        Some(s) => s,
        None => {
            return Err(ChatError::InvalidUtf8);
        },
    };
    Ok(
        NewChatMessage {
            mid,
            send_id: from_uid as i64,
            to_id: gid as i64,
            content,
            created_timestamp,
            kind: 2,
            msg_type: msg_type as i16,
        },
    )
}

/// The row a peer-to-peer send inserts. Blacklist enforcement: when the
/// directed blacklist holds an entry from the destination against the
/// sender, the send is rejected with the blacklist message and no row is
/// produced, so nothing reaches the store. A blacklist lookup that itself
/// failed does not block the send.
pub fn p2p_chat_message(
    from_uid: u64,
    dst_uid: u64,
    blacklisted: &Result<bool, String>,
    msg: &Vec<u8>,
    msg_type: u16,
    mid: i64,
    created_timestamp: i64,
) -> (r: Result<NewChatMessage, ChatError>)
    ensures
        blacklisted matches Ok(true) ==> r == Result::<NewChatMessage, ChatError>::Err(
            ChatError::Blacklisted,
        ),
        !(blacklisted matches Ok(true)) && !valid_utf8(msg@) ==> r == Result::<
            NewChatMessage,
            ChatError,
        >::Err(ChatError::InvalidUtf8),
        (!(blacklisted matches Ok(true)) && valid_utf8(msg@)) ==> (r matches Ok(n) && n.mid
            == mid && n.send_id == from_uid as i64 && n.to_id == dst_uid as i64 && n.content@
            == decode_utf8(msg@) && n.created_timestamp == created_timestamp && n.kind == 3
            && n.msg_type == msg_type as i16),
{
    if let Ok(exists) = blacklisted {
        if *exists {
            return Err(ChatError::Blacklisted);
        }
    }
    let content = match bytes_to_string(msg) {
        Some(s) => s,
        None => {
            return Err(ChatError::InvalidUtf8);
        },
    };
    Ok(
        NewChatMessage {
            mid,
            send_id: from_uid as i64,
            to_id: dst_uid as i64,
            content,
            created_timestamp,
            kind: 3,
            msg_type: msg_type as i16,
        },
    )
}

/// The summary a successful send answers with, taken field for field from
/// the stored row; a store failure is a plain server error.
pub fn send_message_response(stored: Result<ChatMessage, String>) -> (r: Result<
    FrontDisplayP2pChatMessageCount,
    ChatError,
>)
    ensures
        stored matches Ok(m) ==> r matches Ok(s) && s.mid == m.mid && s.content@ == m.content@
            && s.created_timestamp == m.created_timestamp && s.kind == m.kind && s.msg_type
            == m.msg_type,
        stored is Err ==> r == Result::<FrontDisplayP2pChatMessageCount, ChatError>::Err(
            ChatError::ServerError,
        ),
{
    match stored {
        Ok(m) => Ok(
            FrontDisplayP2pChatMessageCount {
                mid: m.mid,
                content: m.content,
                created_timestamp: m.created_timestamp,
                kind: m.kind,
                msg_type: m.msg_type,
            },
        ),
        Err(_) => Err(ChatError::ServerError),
    }
}

/// A kingdom history request.
#[derive(Debug, Clone, Copy, PartialEq, Eq, Structural)]
pub struct HistoryRequest {
    pub timestamp: i64,
    pub limit: i16,
    pub order: i16,
    pub uid: i64,
}

/// Reads a kingdom history request: timestamp, limit — clamped on arrival —
/// order, and the asking user's id.
pub fn parse_kingdom_history_request(body: &Vec<u8>) -> (r: Result<HistoryRequest, ChatError>)
    ensures
        r matches Ok(q) ==> {
            &&& body@.len() >= 20
            &&& q.timestamp == word64_at(body@, 0) as i64
            &&& q.limit == spec_clamp_limit(word16_at(body@, 8) as i16)
            &&& q.order == word16_at(body@, 10) as i16
            &&& q.uid == word64_at(body@, 12) as i64
            &&& 0 < q.limit <= 50
        },
        r is Err ==> r == Result::<HistoryRequest, ChatError>::Err(ChatError::InvalidUser)
            && body@.len() < 20,
{
    if body.len() < 20 {
        return Err(ChatError::InvalidUser);
    }
    let mut cursor = Cursor::new();
    let timestamp = match binary_read_i64(&mut cursor, body) {
        Ok(v) => v,
        Err(_) => 0,
    };
    let raw_limit = match binary_read_i16(&mut cursor, body) {
        Ok(v) => v,
        Err(_) => 10,
    };
    let order = match binary_read_i16(&mut cursor, body) {
        Ok(v) => v,
        Err(_) => 1,
    };
    let uid = match binary_read_i64(&mut cursor, body) {
        Ok(v) => v,
        Err(_) => 0,
    };
    Ok(HistoryRequest { timestamp, limit: clamp_limit(raw_limit), order, uid })
}

/// A group history request.
#[derive(Debug, Clone, Copy, PartialEq, Eq, Structural)]
pub struct GroupHistoryRequest {
    pub timestamp: i64,
    pub limit: i16,
    pub order: i16,
    pub gid: i64,
    pub uid: i64,
}

/// Reads a group history request; the group id and the asking user's id
/// must both be present and positive.
pub fn parse_group_history_request(body: &Vec<u8>) -> (r: Result<GroupHistoryRequest, ChatError>)
    ensures
        r matches Ok(q) ==> {
            &&& body@.len() >= 28
            &&& q.timestamp == word64_at(body@, 0) as i64
            &&& q.limit == spec_clamp_limit(word16_at(body@, 8) as i16)
            &&& q.order == word16_at(body@, 10) as i16
            &&& q.gid == word64_at(body@, 12) as i64
            &&& q.uid == word64_at(body@, 20) as i64
            &&& q.gid > 0
            &&& q.uid > 0
            &&& 0 < q.limit <= 50
        },
        r is Err ==> r == Result::<GroupHistoryRequest, ChatError>::Err(ChatError::InvalidGid)
            && (body@.len() < 28 || word64_at(body@, 12) as i64 <= 0 || word64_at(body@, 20) as i64
            <= 0),
{
    if body.len() < 20 {
        return Err(ChatError::InvalidGid);
    }
    let mut cursor = Cursor::new();
    let timestamp = match binary_read_i64(&mut cursor, body) {
        Ok(v) => v,
        Err(_) => 0,
    };
    let raw_limit = match binary_read_i16(&mut cursor, body) {
        Ok(v) => v,
        Err(_) => 10,
    };
    let order = match binary_read_i16(&mut cursor, body) {
        Ok(v) => v,
        Err(_) => 1,
    };
    let gid = match binary_read_i64(&mut cursor, body) {
        Ok(v) => v,
        Err(_) => 0,
    };
    if gid <= 0 {
        return Err(ChatError::InvalidGid);
    }
    let uid = match binary_read_i64(&mut cursor, body) {
        Ok(v) => v,
        Err(_) => 0,
    };
    if uid <= 0 {
        return Err(ChatError::InvalidGid);
    }
    Ok(GroupHistoryRequest { timestamp, limit: clamp_limit(raw_limit), order, gid, uid })
}

/// A peer-to-peer history request.
#[derive(Debug, Clone, Copy, PartialEq, Eq, Structural)]
pub struct P2pHistoryRequest {
    pub timestamp: i64,
    pub limit: i16,
    pub order: i16,
    pub send_uid: i64,
    pub my_uid: i64,
}

/// Reads a peer-to-peer history request: the peer whose messages are asked
/// for and the asking user's own id.
pub fn parse_p2p_history_request(body: &Vec<u8>) -> (r: Result<P2pHistoryRequest, ChatError>)
    ensures
        r matches Ok(q) ==> {
            &&& body@.len() >= 28
            &&& q.timestamp == word64_at(body@, 0) as i64
            &&& q.limit == spec_clamp_limit(word16_at(body@, 8) as i16)
            &&& q.order == word16_at(body@, 10) as i16
            &&& q.send_uid == word64_at(body@, 12) as i64
            &&& q.my_uid == word64_at(body@, 20) as i64
            &&& 0 < q.limit <= 50
        },
        r matches Err(e) ==> body@.len() < 28 && e == if body@.len() < 20 {
            ChatError::InvalidSendId
        } else {
            ChatError::InvalidUid
        },
{
    if body.len() < 20 {
        return Err(ChatError::InvalidSendId);
    }
    if body.len() < 28 {
        return Err(ChatError::InvalidUid);
    }
    let mut cursor = Cursor::new();
    let timestamp = match binary_read_i64(&mut cursor, body) {
        Ok(v) => v,
        Err(_) => 0,
    };
    let raw_limit = match binary_read_i16(&mut cursor, body) {
        Ok(v) => v,
        Err(_) => 10,
    };
    let order = match binary_read_i16(&mut cursor, body) {
        Ok(v) => v,
        Err(_) => 1,
    };
    let send_uid = match binary_read_i64(&mut cursor, body) {
        Ok(v) => v,
        Err(_) => 0,
    };
    let my_uid = match binary_read_i64(&mut cursor, body) {
        Ok(v) => v,
        Err(_) => 0,
    };
    Ok(P2pHistoryRequest { timestamp, limit: clamp_limit(raw_limit), order, send_uid, my_uid })
}

/// An unread-count request: the client's last kingdom read time and its
/// user id.
#[derive(Debug, Clone, Copy, PartialEq, Eq, Structural)]
pub struct UnreadCountRequest {
    pub kingdom_read_timestamp: i64,
    pub uid: i64,
}

/// Reads an unread-count request.
pub fn parse_unread_count_request(body: &Vec<u8>) -> (r: Result<UnreadCountRequest, ChatError>)
    ensures
        r matches Ok(q) ==> {
            &&& body@.len() >= 16
            &&& q.kingdom_read_timestamp == word64_at(body@, 0) as i64
            &&& q.uid == word64_at(body@, 8) as i64
        },
        r is Err ==> r == Result::<UnreadCountRequest, ChatError>::Err(ChatError::InvalidUser)
            && body@.len() < 16,
{
    if body.len() < 16 {
        return Err(ChatError::InvalidUser);
    }
    let mut cursor = Cursor::new();
    let kingdom_read_timestamp = match binary_read_i64(&mut cursor, body) {
        Ok(v) => v,
        Err(_) => 0,
    };
    let uid = match binary_read_i64(&mut cursor, body) {
        Ok(v) => v,
        Err(_) => 0,
    };
    Ok(UnreadCountRequest { kingdom_read_timestamp, uid })
}

/// A per-channel unread-count request: the channel kind, then a destination
/// id or — for the kingdom channel — the last read timestamp, then the
/// asking user's id.
#[derive(Debug, Clone, Copy, PartialEq, Eq, Structural)]
pub struct ChannelUnreadRequest {
    pub tid: i16,
    pub dst_id_or_kingdom_timestamp: i64,
    pub uid: i64,
}

/// Reads a per-channel unread-count request.
pub fn parse_channel_unread_request(body: &Vec<u8>) -> (r: Result<ChannelUnreadRequest, ChatError>)
    ensures
        r matches Ok(q) ==> {
            &&& body@.len() >= 18
            &&& q.tid == word16_at(body@, 0) as i16
            &&& q.dst_id_or_kingdom_timestamp == word64_at(body@, 2) as i64
            &&& q.uid == word64_at(body@, 10) as i64
        },
        r matches Err(e) ==> body@.len() < 18 && e == if body@.len() < 2 {
            ChatError::InvalidTid
        } else if body@.len() < 10 {
            ChatError::InvalidDstOrTimestamp
        } else {
            ChatError::InvalidUid
        },
{
    let mut cursor = Cursor::new();
    let tid = match binary_read_i16(&mut cursor, body) {
        Ok(v) => v,
        Err(_) => {
            return Err(ChatError::InvalidTid);
        },
    };
    let dst_id_or_kingdom_timestamp = match binary_read_i64(&mut cursor, body) {
        Ok(v) => v,
        Err(_) => {
            return Err(ChatError::InvalidDstOrTimestamp);
        },
    };
    let uid = match binary_read_i64(&mut cursor, body) {
        Ok(v) => v,
        Err(_) => {
            return Err(ChatError::InvalidUid);
        },
    };
    Ok(ChannelUnreadRequest { tid, dst_id_or_kingdom_timestamp, uid })
}

/// The summaries of the groups whose unread counts could be computed, in
/// order; a group whose collaborator lookup failed is skipped, not
/// escalated.
pub open spec fn spec_group_summaries(
    results: Seq<Result<(i64, FrontDisplayGroupChatMessage), String>>,
) -> Seq<GroupUnReadCountMsg>
    decreases results.len(),
{
    if results.len() == 0 {
        Seq::empty()
    } else {
        let rest = spec_group_summaries(results.skip(1));
        match results[0] {
            Ok(k) => seq![
                GroupUnReadCountMsg { unread_count: k.0 as i32, latest_message: k.1 },
            ] + rest,
            Err(_) => rest,
        }
    }
}

/// Assembles the whole unread-count answer from the collaborators' results.
/// Partial results are preferred over total failure: a failed kingdom
/// lookup reads as zero unread with no latest message, a failed group is
/// skipped, and failed peer summaries read as none.
pub fn assemble_unread_counts(
    kingdom: Result<(i64, FrontDisplayKingdomChatMessage), String>,
    groups: Vec<Result<(i64, FrontDisplayGroupChatMessage), String>>,
    p2ps: Result<Vec<FrontDisplayChatUserUnreadCount>, String>,
) -> (r: ChatMessageUnReadCount)
    ensures
        kingdom matches Ok(k) ==> r.kingdom.unread_count == k.0 as i32
            && r.kingdom.latest_message == Some(k.1),
        kingdom is Err ==> r.kingdom.unread_count == 0 && r.kingdom.latest_message is None,
        r.groups@ == spec_group_summaries(groups@),
        p2ps matches Ok(v) ==> r.p2ps == v,
        p2ps is Err ==> r.p2ps@ == Seq::<FrontDisplayChatUserUnreadCount>::empty(),
{
    let kingdom_msg = match kingdom {
        Ok(k) => KingdomUnReadCountMsg {
            unread_count: #[verifier::truncate] (k.0 as i32),
            latest_message: Some(k.1),
        },
        Err(_) => KingdomUnReadCountMsg { unread_count: 0, latest_message: None },
    };
    let ghost groups_orig = groups@;
    let mut groups = groups;
    let mut out: Vec<GroupUnReadCountMsg> = Vec::new();
    proof {
        assert(groups@ =~= groups_orig.skip(0));
    }
    while groups.len() > 0
        invariant
            spec_group_summaries(groups_orig) == out@ + spec_group_summaries(groups@),
        decreases groups@.len(),
    {
        let ghost groups_before = groups@;
        let ghost out_before = out@;
        let g = groups.remove(0);
        proof {
            assert(groups@ =~= groups_before.skip(1));
        }
        match g {
            Ok(k) => {
                let summary = GroupUnReadCountMsg {
                    unread_count: #[verifier::truncate] (k.0 as i32),
                    latest_message: k.1,
                };
                out.push(summary);
                proof {
                    assert(out_before + (seq![summary] + spec_group_summaries(groups@)) =~= out@
                        + spec_group_summaries(groups@));
                }
            },
            Err(_) => {},
        }
    }
    proof {
        assert(spec_group_summaries(groups@) =~= Seq::<GroupUnReadCountMsg>::empty());
        assert(out@ + Seq::<GroupUnReadCountMsg>::empty() =~= out@);
    }
    let p2p_list = match p2ps {
        Ok(v) => v,
        Err(_) => Vec::new(),
    };
    proof {
        if p2ps is Err {
            assert(p2p_list@ =~= Seq::<FrontDisplayChatUserUnreadCount>::empty());
        }
    }
    ChatMessageUnReadCount { kingdom: kingdom_msg, groups: out, p2ps: p2p_list }
}

/// The per-channel unread answer: the count the channel's collaborator
/// computed, or zero when it could not — an unknown channel kind also reads
/// as zero — under the kind the request named.
pub fn channel_unread_response(tid: i16, count: Option<i64>) -> (r:
    FrontDisplayChatMessageUnreadCount)
    ensures
        r.kind == tid,
        count matches Some(c) ==> r.unread_count == c as i16,
        count is None ==> r.unread_count == 0,
{
    let unread_count: i16 = match count {
        Some(c) => #[verifier::truncate] (c as i16),
        None => 0,
    };
    FrontDisplayChatMessageUnreadCount { unread_count, kind: tid }
}

/// The push-acknowledge handler: this core does not serve it, so it always
/// fails.
pub fn client_feedback_server_message() -> (r: Result<Vec<u8>, ChatError>)
    ensures
        r == Result::<Vec<u8>, ChatError>::Err(ChatError::Unknown),
{
    Err(ChatError::Unknown)
}

} // verus!
