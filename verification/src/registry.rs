//! The connection registry: a process-wide mapping from connection identity
//! to that connection's event channel. Supports insert (last registrant
//! wins), idempotent removal, lookup, size, and broadcast to every
//! registered channel. Modelled as a `Map` from identity to channel state.

use vstd::prelude::*;
use crate::channel::{ChannelView, EventChannel, RecvOutcome, spec_send};

verus! {

/// One registered connection: its identity and its event channel.
struct Entry {
    id: String,
    chan: EventChannel,
}

/// The map described by a sequence of entries; a later entry for the same
/// identity overrides an earlier one.
spec fn entries_map(s: Seq<Entry>) -> Map<Seq<char>, ChannelView>
    decreases s.len(),
{
    if s.len() == 0 {
        Map::empty()
    } else {
        entries_map(s.drop_last()).insert(s.last().id@, s.last().chan@)
    }
}

/// No two entries share an identity.
spec fn unique_ids(s: Seq<Entry>) -> bool {
    forall|i: int, j: int| 0 <= i < j < s.len() ==> s[i].id@ != s[j].id@
}

/// An identity is in the map exactly when some entry carries it.
proof fn lemma_entries_map_dom(s: Seq<Entry>)
    ensures
        forall|k: Seq<char>|
            #[trigger] entries_map(s).dom().contains(k) <==> exists|i: int|
                0 <= i < s.len() && s[i].id@ == k,
    decreases s.len(),
{
    if s.len() > 0 {
        lemma_entries_map_dom(s.drop_last());
        assert forall|k: Seq<char>| #[trigger] entries_map(s).dom().contains(k) implies exists|i: int|
            0 <= i < s.len() && s[i].id@ == k by {
            if k == s.last().id@ {
                assert(s[s.len() - 1].id@ == k);
            } else {
                assert(entries_map(s.drop_last()).dom().contains(k));
                let i = choose|i: int| 0 <= i < s.drop_last().len() && s.drop_last()[i].id@ == k;
                assert(s.drop_last()[i] == s[i]);
                assert(s[i].id@ == k);
            }
        }
        assert forall|k: Seq<char>| (exists|i: int| 0 <= i < s.len() && s[i].id@ == k) implies
            #[trigger] entries_map(s).dom().contains(k) by {
            let i = choose|i: int| 0 <= i < s.len() && s[i].id@ == k;
            if i < s.len() - 1 {
                assert(s.drop_last()[i].id@ == k);
                assert(entries_map(s.drop_last()).dom().contains(k));
            } else {
                assert(k == s.last().id@);
            }
        }
    }
}

/// Replacing the channel of the entry at `i` (keeping its identity) is an
/// insert at that identity.
proof fn lemma_entries_map_update(s: Seq<Entry>, i: int, e: Entry)
    requires
        0 <= i < s.len(),
        e.id@ == s[i].id@,
        unique_ids(s),
    ensures
        unique_ids(s.update(i, e)),
        entries_map(s.update(i, e)) =~= entries_map(s).insert(e.id@, e.chan@),
    decreases s.len(),
{
    let s2 = s.update(i, e);
    assert(unique_ids(s2)) by {
        assert forall|a: int, b: int| 0 <= a < b < s2.len() implies s2[a].id@ != s2[b].id@ by {
            assert(s[a].id@ != s[b].id@);
        }
    }
    if i == s.len() - 1 {
        assert(s2.drop_last() =~= s.drop_last());
    } else {
        assert(s2.drop_last() =~= s.drop_last().update(i, e));
        assert(unique_ids(s.drop_last())) by {
            assert forall|a: int, b: int| 0 <= a < b < s.drop_last().len() implies
                s.drop_last()[a].id@ != s.drop_last()[b].id@ by {
                assert(s[a].id@ != s[b].id@);
            }
        }
        lemma_entries_map_update(s.drop_last(), i, e);
        assert(s.last().id@ != e.id@);
        assert(s2.last() == s.last());
    }
}

/// Removing the entry at `i` removes exactly its identity from the map.
proof fn lemma_entries_map_remove(s: Seq<Entry>, i: int)
    requires
        0 <= i < s.len(),
        unique_ids(s),
    ensures
        unique_ids(s.remove(i)),
        entries_map(s.remove(i)) =~= entries_map(s).remove(s[i].id@),
    decreases s.len(),
{
    let k = s[i].id@;
    assert(unique_ids(s.remove(i))) by {
        assert forall|a: int, b: int| 0 <= a < b < s.remove(i).len() implies
            s.remove(i)[a].id@ != s.remove(i)[b].id@ by {
            let a0 = if a < i { a } else { a + 1 };
            let b0 = if b < i { b } else { b + 1 };
            assert(s[a0].id@ != s[b0].id@);
        }
    }
    assert(unique_ids(s.drop_last())) by {
        assert forall|a: int, b: int| 0 <= a < b < s.drop_last().len() implies
            s.drop_last()[a].id@ != s.drop_last()[b].id@ by {
            assert(s[a].id@ != s[b].id@);
        }
    }
    if i == s.len() - 1 {
        assert(s.remove(i) =~= s.drop_last());
        lemma_entries_map_dom(s.drop_last());
        assert forall|j: int| 0 <= j < s.drop_last().len() implies s.drop_last()[j].id@ != k by {
            assert(s[j].id@ != s[i].id@);
        }
        assert(!entries_map(s.drop_last()).dom().contains(k));
    } else {
        assert(s.remove(i).drop_last() =~= s.drop_last().remove(i));
        assert(s.remove(i).last() == s.last());
        lemma_entries_map_remove(s.drop_last(), i);
        assert(s.drop_last()[i].id@ == k);
        assert(s.last().id@ != k);
    }
}

/// With unique identities, the map has exactly one key per entry.
proof fn lemma_entries_map_len(s: Seq<Entry>)
    requires
        unique_ids(s),
    ensures
        entries_map(s).dom().finite(),
        entries_map(s).dom().len() == s.len(),
    decreases s.len(),
{
    if s.len() > 0 {
        assert(unique_ids(s.drop_last())) by {
            assert forall|a: int, b: int| 0 <= a < b < s.drop_last().len() implies
                s.drop_last()[a].id@ != s.drop_last()[b].id@ by {
                assert(s[a].id@ != s[b].id@);
            }
        }
        lemma_entries_map_len(s.drop_last());
        lemma_entries_map_dom(s.drop_last());
        let k = s.last().id@;
        assert forall|j: int| 0 <= j < s.drop_last().len() implies s.drop_last()[j].id@ != k by {
            assert(s[j].id@ != s[s.len() - 1].id@);
        }
        assert(!entries_map(s.drop_last()).dom().contains(k));
        assert(entries_map(s).dom() =~= entries_map(s.drop_last()).dom().insert(k));
    }
}

/// The entry at `i` gives the map's value at its identity.
proof fn lemma_entries_map_index(s: Seq<Entry>, i: int)
    requires
        0 <= i < s.len(),
        unique_ids(s),
    ensures
        entries_map(s).dom().contains(s[i].id@),
        entries_map(s)[s[i].id@] == s[i].chan@,
    decreases s.len(),
{
    lemma_entries_map_dom(s);
    if i == s.len() - 1 {
    } else {
        assert(unique_ids(s.drop_last())) by {
            assert forall|a: int, b: int| 0 <= a < b < s.drop_last().len() implies
                s.drop_last()[a].id@ != s.drop_last()[b].id@ by {
                assert(s[a].id@ != s[b].id@);
            }
        }
        assert(s.drop_last()[i].id@ == s[i].id@);
        lemma_entries_map_index(s.drop_last(), i);
        assert(s.last().id@ != s[i].id@);
    }
}

/// A pointwise send on every entry's channel transforms the map pointwise.
proof fn lemma_entries_map_transform(a: Seq<Entry>, b: Seq<Entry>, p: Seq<char>)
    requires
        a.len() == b.len(),
        forall|j: int| #![trigger b[j], a[j]] 0 <= j < a.len() ==> b[j].id@ == a[j].id@
            && b[j].chan@ == spec_send(a[j].chan@, p),
    ensures
        entries_map(b).dom() =~= entries_map(a).dom(),
        forall|k: Seq<char>| #[trigger] entries_map(a).dom().contains(k) ==> entries_map(b)[k]
            == spec_send(entries_map(a)[k], p),
    decreases a.len(),
{
    if a.len() > 0 {
        let a1 = a.drop_last();
        let b1 = b.drop_last();
        assert forall|j: int| 0 <= j < a1.len() implies (#[trigger] b1[j].id@) == a1[j].id@
            && b1[j].chan@ == spec_send(a1[j].chan@, p) by {
            assert(b[j].id@ == a[j].id@ && b[j].chan@ == spec_send(a[j].chan@, p));
        }
        lemma_entries_map_transform(a1, b1, p);
        let ka = a.last().id@;
        assert(b.last().id@ == ka && b.last().chan@ == spec_send(a.last().chan@, p)) by {
            assert(b[a.len() - 1].id@ == a[a.len() - 1].id@);
        }
        assert forall|k: Seq<char>| #[trigger] entries_map(a).dom().contains(k) implies
            entries_map(b)[k] == spec_send(entries_map(a)[k], p) by {
            if k == ka {
            } else {
                assert(entries_map(a)[k] == entries_map(a1)[k]);
                assert(entries_map(b)[k] == entries_map(b1)[k]);
                assert(entries_map(a1).dom().contains(k));
            }
        }
    }
}

/// The registry of live connections, keyed by connection identity.
pub struct ConnectionRegistry {
    entries: Vec<Entry>,
}

impl View for ConnectionRegistry {
    type V = Map<Seq<char>, ChannelView>;

    closed spec fn view(&self) -> Map<Seq<char>, ChannelView> {
        entries_map(self.entries@)
    }
}

impl ConnectionRegistry {
    /// Internal invariant: no identity occurs twice.
    pub closed spec fn wf(&self) -> bool {
        unique_ids(self.entries@)
    }

    /// A fresh registry with no connections.
    pub fn new() -> (r: ConnectionRegistry)
        ensures
            r.wf(),
            r@ == Map::<Seq<char>, ChannelView>::empty(),
    {
        ConnectionRegistry { entries: Vec::new() }
    }

    /// The index of the entry for `identity`, if one is registered.
    fn find(&self, identity: &String) -> (r: Option<usize>)
        requires
            self.wf(),
        ensures
            match r {
                Some(i) => i < self.entries@.len() && self.entries@[i as int].id@ == identity@,
                None => forall|j: int| 0 <= j < self.entries@.len()
                    ==> (#[trigger] self.entries@[j].id@) != identity@,
            },
    {
        let mut j: usize = 0;
        while j < self.entries.len()
            invariant
                j <= self.entries@.len(),
                forall|t: int| 0 <= t < j ==> (#[trigger] self.entries@[t].id@) != identity@,
            decreases self.entries@.len() - j,
        {
            if self.entries[j].id.eq(identity) {
                return Some(j);
            }
            j += 1;
        }
        None
    }

    /// Whether `identity` is currently registered.
    pub fn contains(&self, identity: &String) -> (r: bool)
        requires
            self.wf(),
        ensures
            r == self@.dom().contains(identity@),
    {
        proof {
            lemma_entries_map_dom(self.entries@);
        }
        match self.find(identity) {
            Some(_) => true,
            None => false,
        }
    }

    /// The number of currently registered connections.
    pub fn size(&self) -> (r: usize)
        requires
            self.wf(),
        ensures
            r == self@.dom().len(),
    {
        proof {
            lemma_entries_map_len(self.entries@);
        }
        self.entries.len()
    }

    /// Inserts or overwrites the entry for `identity`. Overwriting silently
    /// drops the previous channel: the last registrant wins.
    pub fn register(&mut self, identity: String, chan: EventChannel)
        requires
            old(self).wf(),
        ensures
            final(self).wf(),
            final(self)@ == old(self)@.insert(identity@, chan@),
    {
        match self.find(&identity) {
            Some(i) => {
                proof {
                    lemma_entries_map_update(self.entries@, i as int, Entry { id: identity, chan });
                }
                self.entries[i] = Entry { id: identity, chan };
                assert(self@ =~= old(self)@.insert(identity@, chan@));
            },
            None => {
                proof {
                    lemma_entries_map_dom(self.entries@);
                }
                let ghost pre = self.entries@;
                self.entries.push(Entry { id: identity, chan });
                proof {
                    assert(self.entries@.drop_last() =~= pre);
                    assert(unique_ids(self.entries@)) by {
                        assert forall|a: int, b: int| 0 <= a < b < self.entries@.len() implies
                            self.entries@[a].id@ != self.entries@[b].id@ by {
                            if b < self.entries@.len() - 1 {
                                assert(pre[a].id@ != pre[b].id@);
                            } else {
                                assert(pre[a].id@ != identity@);
                            }
                        }
                    }
                }
                assert(self@ =~= old(self)@.insert(identity@, chan@));
            },
        }
    }

    /// Removes the entry for `identity` if present; a no-op when absent.
    /// Safe to call any number of times.
    pub fn unregister(&mut self, identity: &String)
        requires
            old(self).wf(),
        ensures
            final(self).wf(),
            final(self)@ == old(self)@.remove(identity@),
            !final(self)@.dom().contains(identity@),
    {
        match self.find(identity) {
            Some(i) => {
                proof {
                    lemma_entries_map_remove(self.entries@, i as int);
                }
                self.entries.remove(i);
                assert(self@ =~= old(self)@.remove(identity@));
            },
            None => {
                proof {
                    lemma_entries_map_dom(self.entries@);
                    assert(!self@.dom().contains(identity@));
                    assert(self@ =~= self@.remove(identity@));
                }
            },
        }
    }

    /// Delivers `payload` to every registered channel whose buffer is not
    /// full and which is still open; full or closed channels drop this
    /// payload and stay as they were. Never blocks and never fails.
    pub fn broadcast(&mut self, payload: &String)
        requires
            old(self).wf(),
        ensures
            final(self).wf(),
            final(self)@.dom() =~= old(self)@.dom(),
            forall|k: Seq<char>| #[trigger] old(self)@.dom().contains(k) ==> final(self)@[k]
                == spec_send(old(self)@[k], payload@),
    {
        let ghost pre = self.entries@;
        let mut i: usize = 0;
        while i < self.entries.len()
            invariant
                i <= self.entries@.len(),
                self.entries@.len() == pre.len(),
                forall|j: int| 0 <= j < pre.len() ==> (#[trigger] self.entries@[j].id@)
                    == pre[j].id@,
                forall|j: int| 0 <= j < i ==> (#[trigger] self.entries@[j].chan@)
                    == spec_send(pre[j].chan@, payload@),
                forall|j: int| i <= j < pre.len() ==> (#[trigger] self.entries@[j].chan@)
                    == pre[j].chan@,
            decreases self.entries@.len() - i,
        {
            let _ = self.entries[i].chan.send(payload.clone());
            i += 1;
        }
        proof {
            lemma_entries_map_transform(pre, self.entries@, payload@);
            assert(unique_ids(self.entries@)) by {
                assert forall|a: int, b: int| 0 <= a < b < self.entries@.len() implies
                    self.entries@[a].id@ != self.entries@[b].id@ by {
                    assert(pre[a].id@ != pre[b].id@);
                }
            }
        }
    }

    /// Read access to the channel registered for `identity`, if any.
    pub fn channel_of(&self, identity: &String) -> (r: Option<&EventChannel>)
        requires
            self.wf(),
        ensures
            match r {
                Some(c) => self@.dom().contains(identity@) && c@ == self@[identity@],
                None => !self@.dom().contains(identity@),
            },
    {
        proof {
            lemma_entries_map_dom(self.entries@);
        }
        match self.find(identity) {
            Some(i) => {
                proof {
                    lemma_entries_map_index(self.entries@, i as int);
                }
                Some(&self.entries[i].chan)
            },
            None => None,
        }
    }

    /// Receives the oldest buffered payload of the channel registered for
    /// `identity`: what a connection's session does when its channel is the
    /// ready source. `None` when the identity is not registered.
    pub fn recv_from(&mut self, identity: &String) -> (r: Option<RecvOutcome>)
        requires
            old(self).wf(),
        ensures
            final(self).wf(),
            !old(self)@.dom().contains(identity@) ==> r is None && final(self)@ == old(self)@,
            old(self)@.dom().contains(identity@) ==> match r {
                Some(rec) => {
                    let cv = old(self)@[identity@];
                    &&& cv.queue.len() > 0 ==> (rec matches RecvOutcome::Message(m)
                        && m@ == cv.queue[0]
                        && final(self)@ == old(self)@.insert(identity@, ChannelView {
                            queue: cv.queue.drop_first(),
                            closed: cv.closed,
                        }))
                    &&& cv.queue.len() == 0 ==> final(self)@ == old(self)@
                        && rec == (if cv.closed { RecvOutcome::Closed } else { RecvOutcome::Empty })
                },
                None => false,
            },
    {
        proof {
            lemma_entries_map_dom(self.entries@);
        }
        match self.find(identity) {
            Some(i) => {
                proof {
                    lemma_entries_map_index(self.entries@, i as int);
                }
                let ghost pre = self.entries@;
                let rec = self.entries[i].chan.recv();
                proof {
                    assert(self.entries@ =~= pre.update(i as int, self.entries@[i as int]));
                    lemma_entries_map_update(pre, i as int, self.entries@[i as int]);
                    if old(self)@[identity@].queue.len() == 0 {
                        assert(self.entries@[i as int].chan@ == pre[i as int].chan@);
                        assert(self@ =~= old(self)@);
                    }
                }
                Some(rec)
            },
            None => None,
        }
    }
}

/// Removing an identity twice has the same effect on the registry's map as
/// removing it once: `unregister` is idempotent.
pub proof fn lemma_unregister_idempotent(m: Map<Seq<char>, ChannelView>, k: Seq<char>)
    ensures
        m.remove(k).remove(k) =~= m.remove(k),
{
}

} // verus!
