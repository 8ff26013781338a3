//! The shared online-presence registry: which user id is reachable over
//! which live connection handle.
//!
//! Registration is an idempotent overwrite: a user announcing again shadows
//! the earlier handle — the last writer wins, with no collision detection.
//! No operation of this core removes an entry.

use vstd::prelude::*;

verus! {

/// The first handle registered under `uid`, scanning from the front.
pub open spec fn spec_find_handle<T>(entries: Seq<(u64, T)>, uid: u64) -> Option<T>
    decreases entries.len(),
{
    if entries.len() == 0 {
        None
    } else if entries[0].0 == uid {
        Some(entries[0].1)
    } else {
        spec_find_handle(entries.skip(1), uid)
    }
}

/// The mapping from user id to live connection handle, shared by every
/// session.
pub struct PresenceRegistry<T> {
    entries: Vec<(u64, T)>,
}

impl<T> PresenceRegistry<T> {
    /// The handle registered for `uid`, if the user is online.
    pub closed spec fn spec_lookup(&self, uid: u64) -> Option<T> {
        spec_find_handle(self.entries@, uid)
    }

    /// A registry with nobody online.
    pub fn new() -> (r: Self)
        ensures
            forall|u: u64| #[trigger] r.spec_lookup(u) is None,
    {
        let r = PresenceRegistry { entries: Vec::new() };
        assert(forall|u: u64| #[trigger] r.spec_lookup(u) is None);
        r
    }

    /// Registers `handle` under `uid`: the user's earlier handle, if any, is
    /// shadowed — the last writer wins — and every other user's entry stays.
    pub fn register(&mut self, uid: u64, handle: T)
        ensures
            final(self).spec_lookup(uid) == Some(handle),
            forall|u: u64|
                u != uid ==> #[trigger] final(self).spec_lookup(u) == old(self).spec_lookup(u),
    {
        self.entries.insert(0, (uid, handle));
        assert forall|u: u64| u != uid implies #[trigger] self.spec_lookup(u) == old(
            self,
        ).spec_lookup(u) by {
            assert(self.entries@.skip(1) =~= old(self).entries@);
        }
        assert(self.entries@.skip(1) =~= old(self).entries@);
    }

    /// The live handle for `uid`, for a later push or broadcast.
    pub fn lookup(&self, uid: u64) -> (r: Option<&T>)
        ensures
            match self.spec_lookup(uid) {
                Some(h) => r matches Some(f) && *f == h,
                None => r is None,
            },
    {
        let mut i: usize = 0;
        assert(self.entries@.skip(0) =~= self.entries@);
        while i < self.entries.len()
            invariant
                i <= self.entries@.len(),
                spec_find_handle(self.entries@, uid) == spec_find_handle(
                    self.entries@.skip(i as int),
                    uid,
                ),
            decreases self.entries@.len() - i,
        {
            proof {
                assert(self.entries@.skip(i as int).skip(1) =~= self.entries@.skip(i + 1));
                assert(self.entries@.skip(i as int)[0] == self.entries@[i as int]);
            }
            if self.entries[i].0 == uid {
                return Some(&self.entries[i].1);
            }
            i = i + 1;
        }
        None
    }
}

} // verus!
