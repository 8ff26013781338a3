//! Ordering and bounding of history responses.
//!
//! A history answer is monotonic in each record's creation timestamp,
//! ascending or descending as the request asked, and never holds more
//! records than the clamped limit allows.

use vstd::prelude::*;
use vstd::seq_lib::group_to_multiset_ensures;
use vstd::multiset::Multiset;
use crate::models::chat_messages::{
    FrontDisplayGroupChatMessage, FrontDisplayKingdomChatMessage, FrontDisplayP2pChatMessage,
};

verus! {

/// A record that carries its creation timestamp.
pub trait HasCreatedTimestamp: Sized {
    spec fn spec_created_ts(&self) -> i64;

    fn created_ts(&self) -> (t: i64)
        ensures
            t == self.spec_created_ts(),
    ;
}

impl HasCreatedTimestamp for FrontDisplayKingdomChatMessage {
    open spec fn spec_created_ts(&self) -> i64 {
        self.created_timestamp
    }

    fn created_ts(&self) -> (t: i64) {
        self.created_timestamp
    }
}

impl HasCreatedTimestamp for FrontDisplayGroupChatMessage {
    open spec fn spec_created_ts(&self) -> i64 {
        self.created_timestamp
    }

    fn created_ts(&self) -> (t: i64) {
        self.created_timestamp
    }
}

impl HasCreatedTimestamp for FrontDisplayP2pChatMessage {
    open spec fn spec_created_ts(&self) -> i64 {
        self.created_timestamp
    }

    fn created_ts(&self) -> (t: i64) {
        self.created_timestamp
    }
}

/// Timestamp order between two records, ascending or descending.
pub open spec fn ts_leq<T: HasCreatedTimestamp>(descending: bool, a: T, b: T) -> bool {
    if descending {
        a.spec_created_ts() >= b.spec_created_ts()
    } else {
        a.spec_created_ts() <= b.spec_created_ts()
    }
}

/// The sequence is monotonic in creation timestamp, in the given direction.
pub open spec fn sorted_by_ts<T: HasCreatedTimestamp>(s: Seq<T>, descending: bool) -> bool {
    forall|i: int, j: int| 0 <= i < j < s.len() ==> ts_leq(descending, s[i], s[j])
}

/// Orders records by creation timestamp: the result is monotonic in the
/// requested direction and holds exactly the input records.
pub fn sort_by_created_timestamp<T: HasCreatedTimestamp>(input: Vec<T>, descending: bool) -> (out:
    Vec<T>)
    ensures
        sorted_by_ts(out@, descending),
        out@.to_multiset() == input@.to_multiset(),
        out@.len() == input@.len(),
{
    broadcast use group_to_multiset_ensures;

    let mut rest = input;
    let mut out: Vec<T> = Vec::new();
    proof {
        assert(out@.to_multiset().add(rest@.to_multiset()) =~= input@.to_multiset());
    }
    while rest.len() > 0
        invariant
            sorted_by_ts(out@, descending),
            out@.to_multiset().add(rest@.to_multiset()) == input@.to_multiset(),
            out@.len() + rest@.len() == input@.len(),
            forall|i: int, j: int|
                0 <= i < out@.len() && 0 <= j < rest@.len() ==> ts_leq(
                    descending,
                    out@[i],
                    rest@[j],
                ),
        decreases rest@.len(),
    {
        let mut min_idx: usize = 0;
        let mut k: usize = 1;
        while k < rest.len()
            invariant
                (min_idx as int) < rest@.len(),
                k <= rest@.len(),
                rest@.len() > 0,
                forall|j: int| 0 <= j < k ==> ts_leq(descending, rest@[min_idx as int], rest@[j]),
            decreases rest@.len() - k,
        {
            let better = if descending {
                rest[k].created_ts() > rest[min_idx].created_ts()
            } else {
                rest[k].created_ts() < rest[min_idx].created_ts()
            };
            if better {
                min_idx = k;
            }
            k = k + 1;
        }
        let ghost rest_old = rest@;
        let ghost out_old = out@;
        let x = rest.remove(min_idx);
        out.push(x);
        proof {
            broadcast use group_to_multiset_ensures;

            rest_old.remove_ensures(min_idx as int);
            assert(rest_old.contains(x));
            assert(rest_old.to_multiset().count(x) > 0);
            assert(out@.to_multiset().add(rest@.to_multiset()) =~= input@.to_multiset()) by {
                assert(out@.to_multiset() == out_old.to_multiset().insert(x));
                assert(rest@.to_multiset() == rest_old.to_multiset().remove(x));
            }
            assert forall|i: int, j: int|
                0 <= i < out@.len() && 0 <= j < rest@.len() implies ts_leq(
                descending,
                out@[i],
                rest@[j],
            ) by {
                assert(rest@[j] == if j < min_idx as int {
                    rest_old[j]
                } else {
                    rest_old[j + 1]
                });
                assert(ts_leq(descending, x, rest@[j]));
                if i < out_old.len() {
                    assert(out@[i] == out_old[i]);
                } else {
                    assert(out@[i] == x);
                }
            }
            assert forall|i: int, j: int|
                0 <= i < j < out@.len() implies ts_leq(descending, out@[i], out@[j]) by {
                if j < out_old.len() {
                    assert(out@[i] == out_old[i] && out@[j] == out_old[j]);
                } else {
                    assert(out@[j] == x);
                }
            }
        }
    }
    proof {
        assert(rest@.to_multiset() =~= Multiset::<T>::empty());
        assert(out@.to_multiset().add(Multiset::<T>::empty()) =~= out@.to_multiset());
    }
    out
}

/// A prefix of a sequence holds no element more often than the sequence.
proof fn lemma_take_multiset_le<T>(s: Seq<T>, n: int)
    requires
        0 <= n <= s.len(),
    ensures
        s.take(n).to_multiset().subset_of(s.to_multiset()),
    decreases s.len() - n,
{
    broadcast use group_to_multiset_ensures;

    if n == s.len() {
        assert(s.take(n) =~= s);
    } else {
        lemma_take_multiset_le(s, n + 1);
        assert(s.take(n + 1) =~= s.take(n).push(s[n]));
        assert(s.take(n + 1).to_multiset() == s.take(n).to_multiset().insert(s[n]));
    }
}

/// Limit clamping: a requested limit above fifty is cut to fifty, and a
/// limit of zero or below falls back to the default of ten.
pub open spec fn spec_clamp_limit(limit: i16) -> i16 {
    if limit > 50 {
        50
    } else if limit <= 0 {
        10
    } else {
        limit
    }
}

/// Limit clamping: a requested limit above fifty is cut to fifty, and a
/// limit of zero or below falls back to the default of ten.
pub fn clamp_limit(limit: i16) -> (r: i16)
    ensures
        r == spec_clamp_limit(limit),
        0 < r <= 50,
{
    if limit > 50 {
        50
    } else if limit <= 0 {
        10
    } else {
        limit
    }
}

/// The history answer for a page of records: ordered by creation timestamp
/// as the request asked — ascending for order zero, descending for order
/// one, the stored order for any other value — and cut to at most `limit`
/// records whatever the page's size.
pub fn history_response<T: HasCreatedTimestamp>(records: Vec<T>, order: i16, limit: i16) -> (out:
    Vec<T>)
    requires
        0 <= limit,
    ensures
        out@.len() == vstd::math::min(limit as int, records@.len() as int),
        order == 0 ==> sorted_by_ts(out@, false),
        order == 1 ==> sorted_by_ts(out@, true),
        order != 0 && order != 1 ==> out@ == records@.take(
            vstd::math::min(limit as int, records@.len() as int),
        ),
        out@.to_multiset().subset_of(records@.to_multiset()),
{
    broadcast use group_to_multiset_ensures;

    let ghost records_ms = records@.to_multiset();
    let mut out = if order == 0 {
        sort_by_created_timestamp(records, false)
    } else if order == 1 {
        sort_by_created_timestamp(records, true)
    } else {
        records
    };
    let ghost sorted_full = out@;
    if (limit as usize) < out.len() {
        out.truncate(limit as usize);
        proof {
            assert(out@ =~= sorted_full.take(limit as int));
        }
    }
    proof {
        assert(out@ =~= sorted_full.take(out@.len() as int));
        lemma_take_multiset_le(sorted_full, out@.len() as int);
        assert(forall|i: int, j: int|
            0 <= i < j < out@.len() ==> out@[i] == sorted_full[i] && out@[j] == sorted_full[j]);
    }
    out
}

} // verus!
