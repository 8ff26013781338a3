//! Protocol and dispatch engine for a binary-framed chat backend: a
//! length-prefixed little-endian codec for request and response payloads, the
//! wire frame around them with its signature check, the code-keyed router
//! registry, the per-connection session rules, and the shared online-presence
//! registry.

pub mod chat_system;
pub mod codec;
pub mod composites;
pub mod frame;
pub mod history;
pub mod models;
pub mod presence;
pub mod router;
pub mod session;
pub mod unread;

pub use codec::{BinaryDecode, BinaryEncode, deserialize_binary};
pub use frame::{Message, MessageNotifyType, MessageStateCode, ResponseContext};
pub use models::chat_messages::{
    FrontDisplayChatMessage, FrontDisplayGroupChatMessage, FrontDisplayKingdomChatMessage,
    FrontDisplayP2pChatMessage,
};
pub use models::chat_user_unread_counts::FrontDisplayChatUserUnreadCount;
pub use presence::PresenceRegistry;
pub use router::{RouterCode, RouterRegister};
pub use unread::{ChatMessageUnReadCount, GroupUnReadCountMsg, KingdomUnReadCountMsg};
