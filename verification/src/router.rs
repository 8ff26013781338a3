//! The closed set of message codes and the registry that maps each code to
//! its handler.

use vstd::prelude::*;

verus! {

/// The message kinds the server understands, one per wire code.
#[derive(Debug, Clone, Copy, PartialEq, Eq, Hash, Structural)]
pub enum RouterCode {
    ConnectionState,
    SendMessage,
    PushMessage,
    GetUserUnReadMessageCount,
    GetKingdomMessageContent,
    GetGroupMessageContent,
    GetP2pUserMessageContent,
    GetChannelChatMessageUnreadCount,
}

impl RouterCode {
    /// The kind a numeric wire code selects. An unrecognized code aliases to
    /// `ConnectionState`, the first member, rather than failing — the
    /// dispatcher treats unknown codes this way by design.
    pub open spec fn spec_from_u16(code: u16) -> RouterCode {
        if code == 2001 {
            RouterCode::ConnectionState
        } else if code == 2002 {
            RouterCode::SendMessage
        } else if code == 2003 {
            RouterCode::PushMessage
        } else if code == 2004 {
            RouterCode::GetUserUnReadMessageCount
        } else if code == 2005 {
            RouterCode::GetKingdomMessageContent
        } else if code == 2006 {
            RouterCode::GetGroupMessageContent
        } else if code == 2007 {
            RouterCode::GetP2pUserMessageContent
        } else if code == 2008 {
            RouterCode::GetChannelChatMessageUnreadCount
        } else {
            RouterCode::ConnectionState
        }
    }

    /// Resolves a numeric wire code; unknown codes alias to the first member.
    pub fn from_u16(code: u16) -> (r: Self)
        ensures
            r == Self::spec_from_u16(code),
    {
        match code {
            2001 => RouterCode::ConnectionState,
            2002 => RouterCode::SendMessage,
            2003 => RouterCode::PushMessage,
            2004 => RouterCode::GetUserUnReadMessageCount,
            2005 => RouterCode::GetKingdomMessageContent,
            2006 => RouterCode::GetGroupMessageContent,
            2007 => RouterCode::GetP2pUserMessageContent,
            2008 => RouterCode::GetChannelChatMessageUnreadCount,
            _ => RouterCode::ConnectionState,
        }
    }

    /// The numeric wire code of this kind.
    pub open spec fn spec_value(self) -> u16 {
        match self {
            RouterCode::ConnectionState => 2001,
            RouterCode::SendMessage => 2002,
            RouterCode::PushMessage => 2003,
            RouterCode::GetUserUnReadMessageCount => 2004,
            RouterCode::GetKingdomMessageContent => 2005,
            RouterCode::GetGroupMessageContent => 2006,
            RouterCode::GetP2pUserMessageContent => 2007,
            RouterCode::GetChannelChatMessageUnreadCount => 2008,
        }
    }

    /// The numeric wire code of this kind.
    pub fn value(self) -> (v: u16)
        ensures
            v == self.spec_value(),
    {
        match self {
            RouterCode::ConnectionState => 2001,
            RouterCode::SendMessage => 2002,
            RouterCode::PushMessage => 2003,
            RouterCode::GetUserUnReadMessageCount => 2004,
            RouterCode::GetKingdomMessageContent => 2005,
            RouterCode::GetGroupMessageContent => 2006,
            RouterCode::GetP2pUserMessageContent => 2007,
            RouterCode::GetChannelChatMessageUnreadCount => 2008,
        }
    }
}

/// The registry's dispatch failure: no handler stands under the code.
#[derive(Debug, Clone, Copy, PartialEq, Eq, Structural)]
pub enum RouterError {
    NotFound,
}

/// The first handler registered under `code`, scanning from the front.
pub open spec fn spec_find<T>(entries: Seq<(RouterCode, T)>, code: RouterCode) -> Option<T>
    decreases entries.len(),
{
    if entries.len() == 0 {
        None
    } else if entries[0].0 == code {
        Some(entries[0].1)
    } else {
        spec_find(entries.skip(1), code)
    }
}

/// The mapping from message code to handler. Registering a code again
/// shadows the earlier handler: the last writer wins.
pub struct RouterRegister<T> {
    entries: Vec<(RouterCode, T)>,
}

impl<T> RouterRegister<T> {
    /// The handler the registry holds for `code`, if any.
    pub closed spec fn spec_route(&self, code: RouterCode) -> Option<T> {
        spec_find(self.entries@, code)
    }

    /// An empty registry.
    pub fn new() -> (r: Self)
        ensures
            forall|c: RouterCode| #[trigger] r.spec_route(c) is None,
    {
        let r = RouterRegister { entries: Vec::new() };
        assert(forall|c: RouterCode| #[trigger] r.spec_route(c) is None);
        r
    }

    /// Registers `callback` under `code`, shadowing any earlier handler for
    /// the same code and leaving every other code's handler as it was.
    pub fn add(&mut self, code: RouterCode, callback: T)
        ensures
            final(self).spec_route(code) == Some(callback),
            forall|c: RouterCode|
                c != code ==> #[trigger] final(self).spec_route(c) == old(self).spec_route(c),
    {
        self.entries.insert(0, (code, callback));
        assert forall|c: RouterCode| c != code implies #[trigger] self.spec_route(c) == old(
            self,
        ).spec_route(c) by {
            assert(self.entries@.skip(1) =~= old(self).entries@);
        }
        assert(self.entries@.skip(1) =~= old(self).entries@);
    }

    /// Looks the code's handler up; an unregistered code is a dispatch
    /// failure, never a silent fallback.
    pub fn call(&self, code: RouterCode) -> (r: Result<&T, RouterError>)
        ensures
            match self.spec_route(code) {
                Some(h) => r matches Ok(f) && *f == h,
                None => r == Result::<&T, RouterError>::Err(RouterError::NotFound),
            },
    {
        let mut i: usize = 0;
        assert(self.entries@.skip(0) =~= self.entries@);
        while i < self.entries.len()
            invariant
                i <= self.entries@.len(),
                spec_find(self.entries@, code) == spec_find(self.entries@.skip(i as int), code),
            decreases self.entries@.len() - i,
        {
            proof {
                assert(self.entries@.skip(i as int).skip(1) =~= self.entries@.skip(i + 1));
                assert(self.entries@.skip(i as int)[0] == self.entries@[i as int]);
            }
            if self.entries[i].0 == code {
                return Ok(&self.entries[i].1);
            }
            i = i + 1;
        }
        Err(RouterError::NotFound)
    }
}

} // verus!
