//! Append-only message store: the durable log of chat messages, queryable
//! by session in chronological order.
//!
//! `recent` and `recent_global` answer with up to `limit` messages of the
//! greatest timestamps, handed back oldest-first (non-decreasing timestamp
//! order) whatever order the messages were appended in. Where two messages
//! share a timestamp, which of them yields to a tight limit is left open,
//! as it is in the backing query.

use vstd::prelude::*;
use vstd::seq_lib::lemma_multiset_commutative;
use crate::message::PersistedMessage;
use crate::text::str_eq;

verus! {

broadcast use {vstd::seq_lib::group_to_multiset_ensures, vstd::multiset::group_multiset_axioms};

/// True when the message is tagged with the session `sid`.
pub open spec fn in_session(m: PersistedMessage, sid: Seq<char>) -> bool {
    m.session_id@ == sid
}

/// The messages of `s` tagged with session `sid`, in the order of `s`.
pub open spec fn session_filter(s: Seq<PersistedMessage>, sid: Seq<char>) -> Seq<
    PersistedMessage,
> {
    s.filter(|m: PersistedMessage| in_session(m, sid))
}

/// Timestamps never decrease along the sequence: oldest first.
pub open spec fn sorted_by_timestamp(s: Seq<PersistedMessage>) -> bool {
    forall|i: int, j: int|
        0 <= i < j < s.len() ==> #[trigger] s[i].timestamp <= #[trigger] s[j].timestamp
}

/// How many messages a query limited to `limit` yields out of `available`.
pub open spec fn capped(limit: int, available: int) -> int {
    if limit <= available {
        limit
    } else {
        available
    }
}

/// One step of a scan: filtering one more element extends the filtered
/// prefix by that element exactly when it is in the session.
proof fn lemma_session_filter_step(s: Seq<PersistedMessage>, i: int, sid: Seq<char>)
    requires
        0 <= i < s.len(),
    ensures
        in_session(s[i], sid) ==> session_filter(s.take(i + 1), sid) == session_filter(
            s.take(i),
            sid,
        ).push(s[i]),
        !in_session(s[i], sid) ==> session_filter(s.take(i + 1), sid) == session_filter(
            s.take(i),
            sid,
        ),
{
    reveal_with_fuel(Seq::filter, 2);
    let t = s.take(i + 1);
    assert(t.drop_last() =~= s.take(i));
    assert(t.last() == s[i]);
}

/// The durable, append-only log of chat messages. Its view is the sequence
/// of appended messages in append order.
pub struct MessageStore {
    messages: Vec<PersistedMessage>,
}

impl View for MessageStore {
    type V = Seq<PersistedMessage>;

    closed spec fn view(&self) -> Seq<PersistedMessage> {
        self.messages@
    }
}

impl MessageStore {
    /// An empty store.
    pub fn new() -> (r: Self)
        ensures
            r@ == Seq::<PersistedMessage>::empty(),
    {
        MessageStore { messages: Vec::new() }
    }

    /// Records one message durably; messages are never altered or removed.
    pub fn append(&mut self, m: PersistedMessage)
        ensures
            final(self)@ == old(self)@.push(m),
    {
        self.messages.push(m);
    }

    /// How many messages the store holds.
    pub fn len(&self) -> (n: usize)
        ensures
            n == self@.len(),
    {
        self.messages.len()
    }

    /// Up to `limit` most-recent messages of session `session`, oldest
    /// first. Every answered message is a stored message of that session;
    /// the answer is sorted by timestamp; it is as long as the limit allows;
    /// and no stored message of the session that was left out is newer than
    /// any answered one.
    pub fn recent(&self, session: &str, limit: usize) -> (r: Vec<PersistedMessage>)
        ensures
            sorted_by_timestamp(r@),
            r@.len() == capped(limit as int, session_filter(self@, session@).len() as int),
            forall|x: PersistedMessage| #[trigger]
                r@.to_multiset().count(x) <= session_filter(self@, session@).to_multiset().count(
                    x,
                ),
            forall|x: PersistedMessage|
                #[trigger] session_filter(self@, session@).to_multiset().count(x)
                    > r@.to_multiset().count(x) ==> forall|i: int|
                    0 <= i < r@.len() ==> x.timestamp <= #[trigger] r@[i].timestamp,
    {
        let n = self.messages.len();
        let mut matching: Vec<PersistedMessage> = Vec::new();
        let mut i: usize = 0;
        while i < n
            invariant
                n == self@.len(),
                0 <= i <= n,
                matching@ == session_filter(self@.take(i as int), session@),
            decreases n - i,
        {
            proof {
                lemma_session_filter_step(self@, i as int, session@);
            }
            let m = &self.messages[i];
            if str_eq(m.session_id.as_str(), session) {
                matching.push(m.clone());
            }
            i = i + 1;
        }
        proof {
            assert(self@.take(n as int) =~= self@);
        }
        most_recent(matching, limit)
    }

    /// Up to `limit` most-recent messages over all sessions, oldest first,
    /// with the same guarantees as `recent` without the session filter.
    pub fn recent_global(&self, limit: usize) -> (r: Vec<PersistedMessage>)
        ensures
            sorted_by_timestamp(r@),
            r@.len() == capped(limit as int, self@.len() as int),
            forall|x: PersistedMessage| #[trigger]
                r@.to_multiset().count(x) <= self@.to_multiset().count(x),
            forall|x: PersistedMessage| #[trigger]
                self@.to_multiset().count(x) > r@.to_multiset().count(x) ==> forall|i: int|
                    0 <= i < r@.len() ==> x.timestamp <= #[trigger] r@[i].timestamp,
    {
        let n = self.messages.len();
        let mut all: Vec<PersistedMessage> = Vec::new();
        let mut i: usize = 0;
        while i < n
            invariant
                n == self@.len(),
                0 <= i <= n,
                all@ == self@.take(i as int),
            decreases n - i,
        {
            let m = &self.messages[i];
            all.push(m.clone());
            proof {
                assert(self@.take(i + 1) =~= self@.take(i as int).push(self@[i as int]));
            }
            i = i + 1;
        }
        proof {
            assert(self@.take(n as int) =~= self@);
        }
        most_recent(all, limit)
    }
}

/// Sorts `v` by timestamp, oldest first, by sorted insertion. The result
/// holds exactly the messages of `v`.
fn sort_by_ts(v: Vec<PersistedMessage>) -> (r: Vec<PersistedMessage>)
    ensures
        sorted_by_timestamp(r@),
        r@.to_multiset() == v@.to_multiset(),
        r@.len() == v@.len(),
{
    let n = v.len();
    let mut out: Vec<PersistedMessage> = Vec::new();
    let mut i: usize = 0;
    while i < n
        invariant
            n == v@.len(),
            0 <= i <= n,
            out@.len() == i,
            sorted_by_timestamp(out@),
            out@.to_multiset() == v@.take(i as int).to_multiset(),
        decreases n - i,
    {
        let m = v[i].clone();
        let olen = out.len();
        let mut j: usize = 0;
        while j < olen && out[j].timestamp <= m.timestamp
            invariant
                olen == out@.len(),
                0 <= j <= olen,
                forall|k: int| 0 <= k < j ==> #[trigger] out@[k].timestamp <= m.timestamp,
            decreases olen - j,
        {
            j = j + 1;
        }
        let ghost prev = out@;
        proof {
            assert(v@.take(i + 1) =~= v@.take(i as int).push(v@[i as int]));
        }
        out.insert(j, m);
        proof {
            assert forall|p: int, q: int|
                0 <= p < q < out@.len() implies #[trigger] out@[p].timestamp
                <= #[trigger] out@[q].timestamp by {
                prev.insert_ensures(j as int, m);
            }
            assert(out@.to_multiset() =~= v@.take(i + 1).to_multiset());
        }
        i = i + 1;
    }
    proof {
        assert(v@.take(n as int) =~= v@);
    }
    out
}

/// The suffix of length `capped(limit, |v|)` of `v` sorted by timestamp:
/// the newest messages, oldest first.
fn most_recent(v: Vec<PersistedMessage>, limit: usize) -> (r: Vec<PersistedMessage>)
    ensures
        sorted_by_timestamp(r@),
        r@.len() == capped(limit as int, v@.len() as int),
        forall|x: PersistedMessage| #[trigger]
            r@.to_multiset().count(x) <= v@.to_multiset().count(x),
        forall|x: PersistedMessage| #[trigger]
            v@.to_multiset().count(x) > r@.to_multiset().count(x) ==> forall|i: int|
                0 <= i < r@.len() ==> x.timestamp <= #[trigger] r@[i].timestamp,
{
    let sorted = sort_by_ts(v);
    let len = sorted.len();
    let start = if limit < len {
        len - limit
    } else {
        0
    };
    let mut out: Vec<PersistedMessage> = Vec::new();
    let mut j: usize = start;
    while j < len
        invariant
            len == sorted@.len(),
            start <= j <= len,
            out@ == sorted@.subrange(start as int, j as int),
        decreases len - j,
    {
        out.push(sorted[j].clone());
        proof {
            assert(sorted@.subrange(start as int, j + 1) =~= sorted@.subrange(
                start as int,
                j as int,
            ).push(sorted@[j as int]));
        }
        j = j + 1;
    }
    proof {
        let ghost dropped = sorted@.subrange(0, start as int);
        assert(sorted@ =~= dropped + out@);
        lemma_multiset_commutative(dropped, out@);
        assert forall|x: PersistedMessage| #[trigger] v@.to_multiset().count(x)
            > out@.to_multiset().count(x) implies forall|i: int|
            0 <= i < out@.len() ==> x.timestamp <= #[trigger] out@[i].timestamp by {
            assert(dropped.to_multiset().count(x) > 0);
            assert(dropped.contains(x));
            let w = choose|w: int| 0 <= w < dropped.len() && dropped[w] == x;
            assert(sorted@[w] == x);
            assert forall|i: int|
                0 <= i < out@.len() implies x.timestamp <= #[trigger] out@[i].timestamp by {
                assert(out@[i] == sorted@[start + i]);
                assert(sorted@[w].timestamp <= sorted@[start + i].timestamp);
            }
        }
    }
    out
}

} // verus!
