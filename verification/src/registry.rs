//! Session registry: maps a connecting identity to its current session.
//!
//! A connect always allocates a fresh session, even for an identity that is
//! already present — the old mapping is overwritten, never resumed. A
//! disconnect removes the mapping unconditionally; removing an absent
//! identity is a no-op, so teardown may run on every exit path.

use vstd::prelude::*;
use crate::ids::fresh_id;
use crate::text::str_eq;

verus! {

/// One registry entry: this identity's current session.
pub struct RegistryEntry {
    pub identity: String,
    pub session: String,
}

impl Clone for RegistryEntry {
    fn clone(&self) -> (r: Self)
        ensures
            r == *self,
    {
        RegistryEntry { identity: self.identity.clone(), session: self.session.clone() }
    }
}

/// The session recorded for `id`: the association list read from the
/// front. A well-formed registry holds each identity at most once.
pub open spec fn spec_lookup(s: Seq<RegistryEntry>, id: Seq<char>) -> Option<Seq<char>>
    decreases s.len(),
{
    if s.len() == 0 {
        None
    } else if s[0].identity@ == id {
        Some(s[0].session@)
    } else {
        spec_lookup(s.drop_first(), id)
    }
}

/// The registry without any entry of identity `id`, order kept.
pub open spec fn spec_detach(s: Seq<RegistryEntry>, id: Seq<char>) -> Seq<RegistryEntry>
    decreases s.len(),
{
    if s.len() == 0 {
        Seq::empty()
    } else if s[0].identity@ == id {
        spec_detach(s.drop_first(), id)
    } else {
        seq![s[0]] + spec_detach(s.drop_first(), id)
    }
}

/// Each identity occurs at most once.
pub open spec fn distinct_identities(s: Seq<RegistryEntry>) -> bool {
    forall|i: int, j: int|
        0 <= i < j < s.len() ==> #[trigger] s[i].identity@ != #[trigger] s[j].identity@
}

/// An identity is absent exactly when lookup finds nothing.
proof fn lemma_lookup_none_absent(s: Seq<RegistryEntry>, id: Seq<char>)
    ensures
        spec_lookup(s, id) is None <==> (forall|i: int|
            0 <= i < s.len() ==> #[trigger] s[i].identity@ != id),
    decreases s.len(),
{
    if s.len() > 0 {
        lemma_lookup_none_absent(s.drop_first(), id);
        assert forall|i: int| 1 <= i < s.len() implies s.drop_first()[i - 1] == s[i] by {}
    }
}

/// What detachment does: the detached identity is gone, every other
/// mapping is kept, entries are a sub-collection of the old ones,
/// distinctness survives, and an absent identity makes it a no-op.
proof fn lemma_detach_props(s: Seq<RegistryEntry>, id: Seq<char>)
    ensures
        spec_lookup(spec_detach(s, id), id) is None,
        forall|k: Seq<char>|
            k != id ==> #[trigger] spec_lookup(spec_detach(s, id), k) == spec_lookup(s, k),
        forall|e: RegistryEntry| #[trigger] spec_detach(s, id).contains(e) ==> s.contains(e),
        distinct_identities(s) ==> distinct_identities(spec_detach(s, id)),
        spec_lookup(s, id) is None ==> spec_detach(s, id) == s,
    decreases s.len(),
{
    if s.len() == 0 {
        assert(spec_detach(s, id) =~= s);
    } else {
        let rest = s.drop_first();
        lemma_detach_props(rest, id);
        let d = spec_detach(rest, id);
        assert forall|e: RegistryEntry| #[trigger] spec_detach(s, id).contains(e) implies
            s.contains(e) by {
            if spec_detach(s, id).contains(e) {
                if s[0].identity@ == id {
                    let w = choose|w: int| 0 <= w < rest.len() && rest[w] == e;
                    assert(s[w + 1] == e);
                } else {
                    let f = seq![s[0]] + d;
                    let w = choose|w: int| 0 <= w < f.len() && f[w] == e;
                    if w == 0 {
                        assert(s[0] == e);
                    } else {
                        assert(d.contains(f[w]));
                        let u = choose|u: int| 0 <= u < rest.len() && rest[u] == e;
                        assert(s[u + 1] == e);
                    }
                }
            }
        }
        if distinct_identities(s) {
            assert forall|i: int, j: int| 0 <= i < j < rest.len() implies #[trigger] rest[
                i
            ].identity@ != #[trigger] rest[j].identity@ by {
                assert(s[i + 1] == rest[i]);
                assert(s[j + 1] == rest[j]);
            }
            if s[0].identity@ != id {
                let f = seq![s[0]] + d;
                assert forall|i: int, j: int| 0 <= i < j < f.len() implies #[trigger] f[
                    i
                ].identity@ != #[trigger] f[j].identity@ by {
                    if i == 0 {
                        assert(d.contains(f[j]));
                        let u = choose|u: int| 0 <= u < rest.len() && rest[u] == f[j];
                        assert(s[u + 1] == f[j]);
                        assert(s[0].identity@ != s[u + 1].identity@);
                    }
                }
            }
        }
        if spec_lookup(s, id) is None {
            assert(s[0].identity@ != id);
            assert(spec_detach(s, id) =~= s);
        }
        if s[0].identity@ != id {
            assert forall|k: Seq<char>| k != id implies #[trigger] spec_lookup(
                spec_detach(s, id),
                k,
            ) == spec_lookup(s, k) by {
                let f = seq![s[0]] + d;
                assert(f[0] == s[0]);
                assert(f.drop_first() =~= d);
                assert(f.drop_first() == d);
                if s[0].identity@ == k {
                    assert(spec_lookup(f, k) == Some(s[0].session@));
                    assert(spec_lookup(s, k) == Some(s[0].session@));
                } else {
                    assert(spec_lookup(f, k) == spec_lookup(d, k));
                    assert(spec_lookup(s, k) == spec_lookup(rest, k));
                }
            }
            let f = seq![s[0]] + d;
            assert(f[0] == s[0]);
            assert(f.drop_first() =~= d);
            assert(f.drop_first() == d);
            assert(spec_lookup(f, id) == spec_lookup(d, id));
        }
    }
}

/// Appending an entry resolves its identity (when absent before) and
/// leaves every other identity's lookup unchanged.
proof fn lemma_lookup_push(s: Seq<RegistryEntry>, e: RegistryEntry)
    ensures
        spec_lookup(s, e.identity@) is None ==> spec_lookup(s.push(e), e.identity@) == Some(
            e.session@,
        ),
        forall|k: Seq<char>|
            k != e.identity@ ==> #[trigger] spec_lookup(s.push(e), k) == spec_lookup(s, k),
    decreases s.len(),
{
    if s.len() == 0 {
        assert(s.push(e)[0] == e);
        assert(s.push(e).drop_first() =~= Seq::<RegistryEntry>::empty());
        assert forall|k: Seq<char>| k != e.identity@ implies #[trigger] spec_lookup(s.push(e), k)
            == spec_lookup(s, k) by {
            assert(spec_lookup(s.push(e).drop_first(), k) is None);
        }
    } else {
        lemma_lookup_push(s.drop_first(), e);
        assert(s.push(e)[0] == s[0]);
        assert(s.push(e).drop_first() =~= s.drop_first().push(e));
        assert(s.push(e).drop_first() == s.drop_first().push(e));
        assert forall|k: Seq<char>| k != e.identity@ implies #[trigger] spec_lookup(s.push(e), k)
            == spec_lookup(s, k) by {
            if s[0].identity@ == k {
                assert(spec_lookup(s.push(e), k) == Some(s[0].session@));
                assert(spec_lookup(s, k) == Some(s[0].session@));
            } else {
                assert(spec_lookup(s.push(e), k) == spec_lookup(s.drop_first().push(e), k));
                assert(spec_lookup(s, k) == spec_lookup(s.drop_first(), k));
            }
        }
    }
}

/// Detaching an identity that is already detached changes nothing:
/// teardown is idempotent.
pub proof fn lemma_detach_idempotent(s: Seq<RegistryEntry>, id: Seq<char>)
    ensures
        spec_detach(spec_detach(s, id), id) == spec_detach(s, id),
{
    lemma_detach_props(s, id);
    lemma_detach_props(spec_detach(s, id), id);
}

/// The shared identity → session table. Its view is the entry sequence;
/// well-formed registries hold each identity at most once.
pub struct SessionRegistry {
    entries: Vec<RegistryEntry>,
}

impl View for SessionRegistry {
    type V = Seq<RegistryEntry>;

    closed spec fn view(&self) -> Seq<RegistryEntry> {
        self.entries@
    }
}

impl SessionRegistry {
    /// Each identity maps to at most one session.
    pub open spec fn wf(&self) -> bool {
        distinct_identities(self@)
    }

    /// An empty registry.
    pub fn new() -> (r: Self)
        ensures
            r@ == Seq::<RegistryEntry>::empty(),
            r.wf(),
    {
        SessionRegistry { entries: Vec::new() }
    }

    /// The session currently recorded for `identity`, if any.
    pub fn current_session(&self, identity: &str) -> (r: Option<String>)
        ensures
            r is Some <==> spec_lookup(self@, identity@) is Some,
            r matches Some(sid) ==> spec_lookup(self@, identity@) == Some(sid@),
    {
        let n = self.entries.len();
        proof {
            assert(self@.skip(0) =~= self@);
        }
        let mut i: usize = 0;
        while i < n
            invariant
                n == self@.len(),
                0 <= i <= n,
                spec_lookup(self@, identity@) == spec_lookup(self@.skip(i as int), identity@),
            decreases n - i,
        {
            proof {
                assert(self@.skip(i as int)[0] == self@[i as int]);
                assert(self@.skip(i as int).drop_first() =~= self@.skip(i + 1));
            }
            let e = &self.entries[i];
            if str_eq(e.identity.as_str(), identity) {
                return Some(e.session.clone());
            }
            i = i + 1;
        }
        proof {
            assert(self@.skip(n as int) =~= Seq::<RegistryEntry>::empty());
        }
        None
    }

    /// Records a fresh session for `identity` and returns its id,
    /// overwriting any session the identity had: connecting never resumes
    /// an old session. No other identity's mapping changes.
    pub fn attach(&mut self, identity: String) -> (sid: String)
        requires
            old(self).wf(),
        ensures
            final(self).wf(),
            spec_lookup(final(self)@, identity@) == Some(sid@),
            forall|k: Seq<char>|
                k != identity@ ==> #[trigger] spec_lookup(final(self)@, k) == spec_lookup(
                    old(self)@,
                    k,
                ),
            sid@.len() == 36,
    {
        let sid = fresh_id();
        proof {
            lemma_detach_props(self@, identity@);
        }
        self.remove_identity(identity.as_str());
        let ghost detached = self@;
        let entry = RegistryEntry { identity, session: sid.clone() };
        proof {
            lemma_lookup_push(detached, entry);
            lemma_lookup_none_absent(detached, entry.identity@);
        }
        self.entries.push(entry);
        sid
    }

    /// Removes `identity`'s mapping unconditionally. Absent identities are
    /// a no-op — the registry is unchanged — so duplicate teardown is safe.
    pub fn detach(&mut self, identity: &str)
        requires
            old(self).wf(),
        ensures
            final(self).wf(),
            final(self)@ == spec_detach(old(self)@, identity@),
            spec_lookup(final(self)@, identity@) is None,
            forall|k: Seq<char>|
                k != identity@ ==> #[trigger] spec_lookup(final(self)@, k) == spec_lookup(
                    old(self)@,
                    k,
                ),
            spec_lookup(old(self)@, identity@) is None ==> final(self)@ == old(self)@,
    {
        proof {
            lemma_detach_props(self@, identity@);
        }
        self.remove_identity(identity);
    }

    /// Rebuilds the entry list without `identity`.
    fn remove_identity(&mut self, identity: &str)
        ensures
            final(self)@ == spec_detach(old(self)@, identity@),
    {
        let n = self.entries.len();
        proof {
            assert(self@.skip(0) =~= self@);
            assert(Seq::<RegistryEntry>::empty() + spec_detach(self@, identity@) =~= spec_detach(
                self@,
                identity@,
            ));
        }
        let mut kept: Vec<RegistryEntry> = Vec::new();
        let mut i: usize = 0;
        while i < n
            invariant
                n == old(self)@.len(),
                self@ == old(self)@,
                0 <= i <= n,
                spec_detach(old(self)@, identity@) == kept@ + spec_detach(
                    old(self)@.skip(i as int),
                    identity@,
                ),
            decreases n - i,
        {
            proof {
                assert(self@.skip(i as int)[0] == self@[i as int]);
                assert(self@.skip(i as int).drop_first() =~= self@.skip(i + 1));
            }
            let e = &self.entries[i];
            if !str_eq(e.identity.as_str(), identity) {
                let ghost prev = kept@;
                kept.push(e.clone());
                proof {
                    assert(prev + (seq![self@[i as int]] + spec_detach(
                        self@.skip(i + 1),
                        identity@,
                    )) =~= kept@ + spec_detach(self@.skip(i + 1), identity@));
                }
            }
            i = i + 1;
        }
        proof {
            assert(self@.skip(n as int) =~= Seq::<RegistryEntry>::empty());
            assert(kept@ + spec_detach(self@.skip(n as int), identity@) =~= kept@);
        }
        self.entries = kept;
    }
}

} // verus!
