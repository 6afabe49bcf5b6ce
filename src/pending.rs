//! The table of host-initiated requests that await the widget's reply.
use vstd::prelude::*;

use crate::text::str_eq;

verus! {

/// One request that awaits its reply, with what is to be done once it comes.
pub struct PendingRequest<T> {
    pub request_id: String,
    pub waiter: T,
}

/// Requests that await a reply, keyed by correlation id: no id stands twice.
pub struct PendingTable<T> {
    entries: Vec<PendingRequest<T>>,
}

/// The waiters of a list of entries by id.
pub open spec fn waiters_of<T>(s: Seq<PendingRequest<T>>) -> Map<Seq<char>, T>
    decreases s.len(),
{
    if s.len() == 0 {
        Map::empty()
    } else {
        waiters_of(s.drop_last()).insert(s.last().request_id@, s.last().waiter)
    }
}

pub open spec fn ids_unique<T>(s: Seq<PendingRequest<T>>) -> bool {
    forall|i: int, j: int|
        0 <= i < s.len() && 0 <= j < s.len() && i != j ==> s[i].request_id@ != s[j].request_id@
}

proof fn lemma_waiters_of_contains<T>(s: Seq<PendingRequest<T>>, id: Seq<char>)
    requires
        ids_unique(s),
    ensures
        waiters_of(s).contains_key(id) <==> exists|i: int|
            0 <= i < s.len() && s[i].request_id@ == id,
        forall|i: int|
            0 <= i < s.len() && s[i].request_id@ == id ==> waiters_of(s)[id] == s[i].waiter,
    decreases s.len(),
{
    if s.len() > 0 {
        let p = s.drop_last();
        assert(ids_unique(p));
        lemma_waiters_of_contains(p, id);
        if waiters_of(s).contains_key(id) && s.last().request_id@ != id {
            let i = choose|i: int| 0 <= i < p.len() && p[i].request_id@ == id;
            assert(s[i] == p[i]);
        }
        if exists|i: int| 0 <= i < s.len() && s[i].request_id@ == id {
            let i = choose|i: int| 0 <= i < s.len() && s[i].request_id@ == id;
            if i < s.len() - 1 {
                assert(p[i] == s[i]);
            }
        }
    }
}

proof fn lemma_waiters_of_remove<T>(s: Seq<PendingRequest<T>>, i: int)
    requires
        ids_unique(s),
        0 <= i < s.len(),
    ensures
        ids_unique(s.remove(i)),
        waiters_of(s.remove(i)) == waiters_of(s).remove(s[i].request_id@),
    decreases s.len(),
{
    let r = s.remove(i);
    assert(ids_unique(r)) by {
        assert forall|a: int, b: int|
            0 <= a < r.len() && 0 <= b < r.len() && a != b implies r[a].request_id@
            != r[b].request_id@ by {
            let sa = if a < i { a } else { a + 1 };
            let sb = if b < i { b } else { b + 1 };
            assert(r[a] == s[sa]);
            assert(r[b] == s[sb]);
        }
    }
    if i == s.len() - 1 {
        assert(r =~= s.drop_last());
        lemma_waiters_of_contains(s.drop_last(), s[i].request_id@);
        assert(waiters_of(r) =~= waiters_of(s).remove(s[i].request_id@));
    } else {
        let p = s.drop_last();
        assert(ids_unique(p));
        lemma_waiters_of_remove(p, i);
        assert(p.remove(i) =~= r.drop_last());
        assert(r.last() == s.last());
        assert(waiters_of(r) =~= waiters_of(s).remove(s[i].request_id@));
    }
}

/// Whether a character differs from the one at the same position of an id, or the id is too
/// short to have one there.
pub open spec fn differs_at(c: char, id: Seq<char>, k: int) -> bool {
    k >= id.len() || c != id[k]
}

impl<T> PendingTable<T> {
    /// The waiters by correlation id.
    pub closed spec fn view(&self) -> Map<Seq<char>, T> {
        waiters_of(self.entries@)
    }

    /// No correlation id stands twice.
    pub closed spec fn wf(&self) -> bool {
        ids_unique(self.entries@)
    }

    /// The ids of the requests that await a reply, in the order they were sent.
    pub closed spec fn ids(&self) -> Seq<Seq<char>> {
        self.entries@.map_values(|e: PendingRequest<T>| e.request_id@)
    }

    /// No two requests that await a reply share an id, and the ids are exactly those that the
    /// table maps to a waiter.
    pub proof fn lemma_ids_unique(&self)
        requires
            self.wf(),
        ensures
            self.ids().no_duplicates(),
            forall|id: Seq<char>| self.view().contains_key(id) <==> self.ids().contains(id),
    {
        let ids = self.ids();
        assert forall|i: int, j: int| 0 <= i < ids.len() && 0 <= j < ids.len() && i != j implies ids[i] != ids[j] by {
            assert(ids[i] == self.entries@[i].request_id@);
            assert(ids[j] == self.entries@[j].request_id@);
        }
        assert forall|id: Seq<char>| self.view().contains_key(id) <==> ids.contains(id) by {
            lemma_waiters_of_contains(self.entries@, id);
            if ids.contains(id) {
                let i = choose|i: int| 0 <= i < ids.len() && ids[i] == id;
                assert(self.entries@[i].request_id@ == id);
            }
            if self.view().contains_key(id) {
                let i = choose|i: int| 0 <= i < self.entries@.len() && self.entries@[i].request_id@ == id;
                assert(ids[i] == id);
            }
        }
    }

    pub fn new() -> (r: PendingTable<T>)
        ensures
            r.wf(),
            r.view() == Map::<Seq<char>, T>::empty(),
    {
        PendingTable { entries: Vec::new() }
    }

    fn index_of(&self, id: &str) -> (r: Option<usize>)
        requires
            self.wf(),
        ensures
            r matches Some(i) ==> i < self.entries@.len() && self.entries@[i as int].request_id@
                == id@,
            r is None ==> forall|i: int|
                0 <= i < self.entries@.len() ==> self.entries@[i].request_id@ != id@,
    {
        let mut i: usize = 0;
        while i < self.entries.len()
            invariant
                i <= self.entries@.len(),
                forall|k: int| 0 <= k < i ==> self.entries@[k].request_id@ != id@,
            decreases self.entries@.len() - i,
        {
            if str_eq(self.entries[i].request_id.as_str(), id) {
                return Some(i);
            }
            i = i + 1;
        }
        None
    }

    /// Whether a request with this id awaits its reply.
    pub fn contains(&self, id: &str) -> (r: bool)
        requires
            self.wf(),
        ensures
            r == self.view().contains_key(id@),
    {
        proof {
            lemma_waiters_of_contains(self.entries@, id@);
        }
        self.index_of(id).is_some()
    }

    /// The number of requests that await a reply.
    pub fn len(&self) -> (r: usize)
        requires
            self.wf(),
        ensures
            r == self.view().len(),
    {
        proof {
            self.lemma_len();
        }
        self.entries.len()
    }

    proof fn lemma_len(&self)
        requires
            self.wf(),
        ensures
            self.view().len() == self.entries@.len(),
    {
        lemma_len_of(self.entries@);
    }

    /// An id that no request awaiting a reply has: the candidate where it is free, otherwise
    /// one that differs from the `i`-th pending id at position `i` (or in length).
    pub fn fresh_id(&self, candidate: String) -> (r: String)
        requires
            self.wf(),
        ensures
            !self.view().contains_key(r@),
            !self.view().contains_key(candidate@) ==> r == candidate,
    {
        if !self.contains(candidate.as_str()) {
            return candidate;
        }
        let n = self.entries.len();
        let mut out = String::new();
        let mut i: usize = 0;
        while i < n
            invariant
                n == self.entries@.len(),
                i <= n,
                out@.len() == i,
                forall|k: int| 0 <= k < i ==> differs_at(#[trigger] out@[k], self.entries@[k].request_id@, k),
            decreases n - i,
        {
            let id = self.entries[i].request_id.as_str();
            let taken_a = i < id.unicode_len() && id.get_char(i) == 'a';
            let ghost before = out@;
            proof {
                reveal_strlit("a");
                reveal_strlit("b");
                assert("a"@.len() == 1 && "a"@[0] == 'a');
                assert("b"@.len() == 1 && "b"@[0] == 'b');
            }
            if taken_a {
                out = crate::text::concat(out.as_str(), "b");
            } else {
                out = crate::text::concat(out.as_str(), "a");
            }
            assert(out@[i as int] == (if taken_a { 'b' } else { 'a' }));
            assert(differs_at(out@[i as int], self.entries@[i as int].request_id@, i as int));
            assert forall|k: int| 0 <= k < i implies out@[k] == before[k] by {}
            i = i + 1;
        }
        proof {
            lemma_waiters_of_contains(self.entries@, out@);
            assert forall|k: int| 0 <= k < self.entries@.len() implies self.entries@[k].request_id@ != out@ by {
                if self.entries@[k].request_id@.len() == out@.len() {
                    assert(differs_at(out@[k], self.entries@[k].request_id@, k));
                    assert(out@[k] != self.entries@[k].request_id@[k]);
                }
            }
        }
        out
    }

    /// Parks a waiter under a fresh id. An id that already awaits a reply is refused, and the
    /// waiter handed back.
    pub fn insert(&mut self, id: String, waiter: T) -> (r: Result<(), T>)
        requires
            old(self).wf(),
        ensures
            final(self).wf(),
            old(self).view().contains_key(id@) ==> r == Err::<(), T>(waiter) && final(self).view()
                == old(self).view(),
            !old(self).view().contains_key(id@) ==> r is Ok && final(self).view() == old(
                self,
            ).view().insert(id@, waiter),
    {
        if self.contains(id.as_str()) {
            return Err(waiter);
        }
        proof {
            lemma_waiters_of_contains(self.entries@, id@);
        }
        let ghost before = self.entries@;
        self.entries.push(PendingRequest { request_id: id, waiter });
        assert(self.entries@.drop_last() =~= before);
        assert(ids_unique(self.entries@)) by {
            assert forall|a: int, b: int|
                0 <= a < self.entries@.len() && 0 <= b < self.entries@.len() && a != b implies self.entries@[a].request_id@
                != self.entries@[b].request_id@ by {
                if a < before.len() && b < before.len() {
                    assert(self.entries@[a] == before[a]);
                    assert(self.entries@[b] == before[b]);
                } else if a < before.len() {
                    assert(self.entries@[a] == before[a]);
                } else {
                    assert(self.entries@[b] == before[b]);
                }
            }
        }
        Ok(())
    }

    /// Takes out the waiter of a request, which then no longer awaits a reply. `None` where no
    /// request with this id awaits one.
    pub fn remove(&mut self, id: &str) -> (r: Option<T>)
        requires
            old(self).wf(),
        ensures
            final(self).wf(),
            final(self).view() == old(self).view().remove(id@),
            old(self).view().contains_key(id@) ==> r == Some(old(self).view()[id@]),
            !old(self).view().contains_key(id@) ==> r is None,
    {
        proof {
            lemma_waiters_of_contains(self.entries@, id@);
        }
        match self.index_of(id) {
            Some(i) => {
                proof {
                    lemma_waiters_of_remove(self.entries@, i as int);
                }
                let e = self.entries.remove(i);
                Some(e.waiter)
            },
            None => {
                assert(self.view().remove(id@) =~= self.view());
                None
            },
        }
    }
}

proof fn lemma_len_of<T>(s: Seq<PendingRequest<T>>)
    requires
        ids_unique(s),
    ensures
        waiters_of(s).len() == s.len(),
        waiters_of(s).dom().finite(),
    decreases s.len(),
{
    if s.len() > 0 {
        let p = s.drop_last();
        assert(ids_unique(p));
        lemma_len_of(p);
        lemma_waiters_of_contains(p, s.last().request_id@);
        assert forall|i: int| 0 <= i < p.len() implies p[i].request_id@ != s.last().request_id@ by {
            assert(p[i] == s[i]);
        }
    }
}

/// A reply resolves its request at most once: once taken out, whether by its reply or when
/// its time ran out, an id no longer awaits a reply, so a later reply with it finds nothing to
/// resolve.
pub proof fn lemma_resolved_at_most_once<T>(waiters: Map<Seq<char>, T>, id: Seq<char>)
    ensures
        !waiters.remove(id).contains_key(id),
        waiters.remove(id).remove(id) == waiters.remove(id),
{
    assert(waiters.remove(id).remove(id) =~= waiters.remove(id));
}

} // verus!
