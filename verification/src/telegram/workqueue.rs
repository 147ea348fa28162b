//! Per-conversation serialization: each remote conversation owns one
//! first-in-first-out queue of work items, so two events that arrive in
//! order leave for Telegram in the same order. The loops around the
//! queue run one item per key at a time.

use vstd::prelude::*;

verus! {

use crate::text::str_eq;

/// Queues of pending work, one per conversation key.
pub struct KeyedFifo {
    queues: Vec<(String, Vec<u64>)>,
}

/// The pending items of a key, oldest first; an unknown key has none.
pub open spec fn spec_queue_lookup(queues: Seq<(String, Vec<u64>)>, key: Seq<char>) -> Seq<u64>
    decreases queues.len(),
{
    if queues.len() == 0 {
        Seq::empty()
    } else if queues[0].0@ == key {
        queues[0].1@
    } else {
        spec_queue_lookup(queues.skip(1), key)
    }
}

impl KeyedFifo {
    pub closed spec fn spec_queues(&self) -> Seq<(String, Vec<u64>)> {
        self.queues@
    }

    pub open spec fn spec_queue(&self, key: Seq<char>) -> Seq<u64> {
        spec_queue_lookup(self.spec_queues(), key)
    }

    /// Keys appear once each.
    pub open spec fn wf(&self) -> bool {
        forall|i: int, j: int|
            0 <= i < j < self.spec_queues().len() ==> (#[trigger] self.spec_queues()[i]).0@ != (
            #[trigger] self.spec_queues()[j]).0@
    }

    pub fn new() -> (r: KeyedFifo)
        ensures
            r.wf(),
            r.spec_queues().len() == 0,
    {
        KeyedFifo { queues: Vec::new() }
    }

    fn queue_index(&self, key: &str) -> (r: Option<usize>)
        ensures
            match r {
                Some(i) => i < self.spec_queues().len() && self.spec_queues()[i as int].0@ == key@
                    && forall|j: int| 0 <= j < i ==> (#[trigger] self.spec_queues()[j]).0@ != key@,
                None => forall|j: int|
                    0 <= j < self.spec_queues().len() ==> (#[trigger] self.spec_queues()[j]).0@
                        != key@,
            },
    {
        let n = self.queues.len();
        let mut i: usize = 0;
        while i < n
            invariant
                0 <= i <= n,
                n == self.queues@.len(),
                forall|j: int| 0 <= j < i ==> (#[trigger] self.queues@[j]).0@ != key@,
            decreases n - i,
        {
            if str_eq(self.queues[i].0.as_str(), key) {
                return Some(i);
            }
            i = i + 1;
        }
        None
    }

    /// Appends a work item to its conversation's queue: arrivals keep
    /// their order.
    pub fn push(&mut self, key: String, job: u64)
        requires
            old(self).wf(),
        ensures
            final(self).wf(),
            final(self).spec_queue(key@) == old(self).spec_queue(key@).push(job),
            forall|k: Seq<char>|
                k != key@ ==> final(self).spec_queue(k) == old(self).spec_queue(k),
    {
        match self.queue_index(key.as_str()) {
            Some(i) => {
                proof {
                    lemma_queue_lookup_at(self.spec_queues(), i as int, key@);
                }
                let ghost pre = self.spec_queues();
                let mut entry = self.queues.remove(i);
                entry.1.push(job);
                self.queues.insert(i, entry);
                proof {
                    assert(self.spec_queues() =~= pre.update(i as int, self.spec_queues()[i as int]));
                    lemma_queue_lookup_updated(pre, i as int, key@, self.spec_queues()[i as int]);
                    assert(self.spec_queues()[i as int].1@ =~= pre[i as int].1@.push(job));
                    assert forall|a: int, b: int|
                        0 <= a < b < self.spec_queues().len() implies (
                    #[trigger] self.spec_queues()[a]).0@ != (#[trigger] self.spec_queues()[b]).0@ by {
                        assert(pre[a].0@ != pre[b].0@);
                        if a != i && b != i {
                            assert(self.spec_queues()[a] == pre[a] && self.spec_queues()[b]
                                == pre[b]);
                        }
                    }
                }
            },
            None => {
                proof {
                    lemma_queue_lookup_absent(self.spec_queues(), key@);
                }
                let ghost pre = self.spec_queues();
                let ghost keyv = key@;
                let mut q: Vec<u64> = Vec::new();
                q.push(job);
                self.queues.push((key, q));
                proof {
                    assert(self.spec_queues() =~= pre.push(self.spec_queues().last()));
                    assert(self.spec_queues().last().0@ == keyv);
                    lemma_queue_lookup_pushed(pre, self.spec_queues().last(), keyv);
                    assert(self.spec_queues().last().1@ =~= Seq::<u64>::empty().push(job));
                    assert(spec_queue_lookup(pre, keyv) =~= Seq::<u64>::empty());
                    assert forall|a: int, b: int|
                        0 <= a < b < self.spec_queues().len() implies (
                    #[trigger] self.spec_queues()[a]).0@ != (#[trigger] self.spec_queues()[b]).0@ by {
                        if b < self.spec_queues().len() - 1 {
                            assert(self.spec_queues()[a] == pre[a] && self.spec_queues()[b]
                                == pre[b]);
                        } else {
                            assert(self.spec_queues()[a] == pre[a]);
                        }
                    }
                }
            },
        }
    }

    /// Takes the oldest pending item of a conversation; an empty or
    /// unknown key yields nothing and nothing changes for other keys.
    pub fn pop(&mut self, key: &str) -> (r: Option<u64>)
        requires
            old(self).wf(),
        ensures
            final(self).wf(),
            old(self).spec_queue(key@).len() == 0 ==> r is None && final(self).spec_queue(key@)
                == old(self).spec_queue(key@),
            old(self).spec_queue(key@).len() > 0 ==> r == Some(old(self).spec_queue(key@)[0])
                && final(self).spec_queue(key@) == old(self).spec_queue(key@).skip(1),
            forall|k: Seq<char>|
                k != key@ ==> final(self).spec_queue(k) == old(self).spec_queue(k),
    {
        match self.queue_index(key) {
            Some(i) => {
                proof {
                    lemma_queue_lookup_at(self.spec_queues(), i as int, key@);
                }
                if self.queues[i].1.len() == 0 {
                    return None;
                }
                let ghost pre = self.spec_queues();
                let mut entry = self.queues.remove(i);
                let front = entry.1.remove(0);
                self.queues.insert(i, entry);
                proof {
                    assert(self.spec_queues() =~= pre.update(i as int, self.spec_queues()[i as int]));
                    lemma_queue_lookup_updated(pre, i as int, key@, self.spec_queues()[i as int]);
                    assert(self.spec_queues()[i as int].1@ =~= pre[i as int].1@.skip(1));
                    assert forall|a: int, b: int|
                        0 <= a < b < self.spec_queues().len() implies (
                    #[trigger] self.spec_queues()[a]).0@ != (#[trigger] self.spec_queues()[b]).0@ by {
                        assert(pre[a].0@ != pre[b].0@);
                        if a != i && b != i {
                            assert(self.spec_queues()[a] == pre[a] && self.spec_queues()[b]
                                == pre[b]);
                        }
                    }
                }
                Some(front)
            },
            None => {
                proof {
                    lemma_queue_lookup_absent(self.spec_queues(), key@);
                }
                None
            },
        }
    }
}

/// Work leaves a queue in arrival order: after any number of takes, the
/// next item out is exactly the earliest one still pending, so an item
/// enqueued before another is never delivered after it.
pub proof fn lemma_fifo_order(pending: Seq<u64>, taken: int)
    requires
        0 <= taken < pending.len(),
    ensures
        pending.skip(taken)[0] == pending[taken],
        forall|later: int|
            taken < later < pending.len() ==> pending.skip(taken).contains(
                #[trigger] pending[later],
            ),
{
    assert forall|later: int|
        taken < later < pending.len() implies pending.skip(taken).contains(
        #[trigger] pending[later],
    ) by {
        assert(pending.skip(taken)[later - taken] == pending[later]);
    }
}

proof fn lemma_queue_lookup_at(queues: Seq<(String, Vec<u64>)>, i: int, key: Seq<char>)
    requires
        0 <= i < queues.len(),
        queues[i].0@ == key,
        forall|j: int| 0 <= j < i ==> (#[trigger] queues[j]).0@ != key,
    ensures
        spec_queue_lookup(queues, key) == queues[i].1@,
    decreases queues.len(),
{
    if i > 0 {
        assert forall|j: int| 0 <= j < i - 1 implies (#[trigger] queues.skip(1)[j]).0@ != key by {
            assert(queues.skip(1)[j] == queues[j + 1]);
        }
        assert(queues.skip(1)[i - 1] == queues[i]);
        lemma_queue_lookup_at(queues.skip(1), i - 1, key);
    }
}

proof fn lemma_queue_lookup_absent(queues: Seq<(String, Vec<u64>)>, key: Seq<char>)
    requires
        forall|j: int| 0 <= j < queues.len() ==> (#[trigger] queues[j]).0@ != key,
    ensures
        spec_queue_lookup(queues, key) == Seq::<u64>::empty(),
    decreases queues.len(),
{
    if queues.len() > 0 {
        assert forall|j: int| 0 <= j < queues.skip(1).len() implies (#[trigger] queues.skip(
            1,
        )[j]).0@ != key by {
            assert(queues.skip(1)[j] == queues[j + 1]);
        }
        lemma_queue_lookup_absent(queues.skip(1), key);
    }
}

proof fn lemma_queue_lookup_pushed(
    queues: Seq<(String, Vec<u64>)>,
    entry: (String, Vec<u64>),
    key: Seq<char>,
)
    requires
        entry.0@ == key,
        forall|j: int| 0 <= j < queues.len() ==> (#[trigger] queues[j]).0@ != key,
    ensures
        spec_queue_lookup(queues.push(entry), key) == entry.1@,
        forall|k: Seq<char>|
            k != key ==> spec_queue_lookup(queues.push(entry), k) == spec_queue_lookup(queues, k),
    decreases queues.len(),
{
    let p = queues.push(entry);
    if queues.len() == 0 {
        assert(p[0] == entry);
        assert(p.skip(1) =~= Seq::<(String, Vec<u64>)>::empty());
        assert forall|k: Seq<char>| k != key implies spec_queue_lookup(p, k) == spec_queue_lookup(
            queues,
            k,
        ) by {
            assert(p[0].0@ == key);
            assert(spec_queue_lookup(p, k) == spec_queue_lookup(p.skip(1), k));
            assert(spec_queue_lookup(p.skip(1), k) =~= Seq::<u64>::empty());
            assert(spec_queue_lookup(queues, k) =~= Seq::<u64>::empty());
        }
    } else {
        assert(p[0] == queues[0]);
        assert(p.skip(1) =~= queues.skip(1).push(entry));
        assert forall|j: int| 0 <= j < queues.skip(1).len() implies (#[trigger] queues.skip(
            1,
        )[j]).0@ != key by {
            assert(queues.skip(1)[j] == queues[j + 1]);
        }
        lemma_queue_lookup_pushed(queues.skip(1), entry, key);
        assert forall|k: Seq<char>| k != key implies spec_queue_lookup(p, k) == spec_queue_lookup(
            queues,
            k,
        ) by {
            if queues[0].0@ == k {
            } else {
                assert(spec_queue_lookup(p, k) == spec_queue_lookup(p.skip(1), k));
                assert(spec_queue_lookup(p.skip(1), k) == spec_queue_lookup(
                    queues.skip(1).push(entry),
                    k,
                ));
                assert(spec_queue_lookup(queues, k) == spec_queue_lookup(queues.skip(1), k));
            }
        }
        assert(spec_queue_lookup(p, key) == spec_queue_lookup(p.skip(1), key));
    }
}

proof fn lemma_queue_lookup_updated(
    queues: Seq<(String, Vec<u64>)>,
    i: int,
    key: Seq<char>,
    updated: (String, Vec<u64>),
)
    requires
        0 <= i < queues.len(),
        queues[i].0@ == key,
        updated.0@ == key,
        forall|j: int| 0 <= j < i ==> (#[trigger] queues[j]).0@ != key,
    ensures
        spec_queue_lookup(queues.update(i, updated), key) == updated.1@,
        forall|k: Seq<char>|
            k != key ==> spec_queue_lookup(queues.update(i, updated), k) == spec_queue_lookup(
                queues,
                k,
            ),
    decreases queues.len(),
{
    let u = queues.update(i, updated);
    if i == 0 {
        assert(u[0] == updated);
        assert(u.skip(1) =~= queues.skip(1));
        assert forall|k: Seq<char>| k != key implies spec_queue_lookup(u, k) == spec_queue_lookup(
            queues,
            k,
        ) by {
            assert(queues[0].0@ == key);
            assert(spec_queue_lookup(u, k) == spec_queue_lookup(u.skip(1), k));
            assert(spec_queue_lookup(queues, k) == spec_queue_lookup(queues.skip(1), k));
        }
    } else {
        assert(u[0] == queues[0]);
        assert(u.skip(1) =~= queues.skip(1).update(i - 1, updated));
        assert forall|j: int| 0 <= j < i - 1 implies (#[trigger] queues.skip(1)[j]).0@ != key by {
            assert(queues.skip(1)[j] == queues[j + 1]);
        }
        assert(queues.skip(1)[i - 1] == queues[i]);
        lemma_queue_lookup_updated(queues.skip(1), i - 1, key, updated);
        assert forall|k: Seq<char>| k != key implies spec_queue_lookup(u, k) == spec_queue_lookup(
            queues,
            k,
        ) by {
            if queues[0].0@ == k {
            } else {
                assert(spec_queue_lookup(u, k) == spec_queue_lookup(u.skip(1), k));
                assert(spec_queue_lookup(u.skip(1), k) == spec_queue_lookup(
                    queues.skip(1).update(i - 1, updated),
                    k,
                ));
                assert(spec_queue_lookup(queues, k) == spec_queue_lookup(queues.skip(1), k));
            }
        }
        assert(spec_queue_lookup(u, key) == spec_queue_lookup(u.skip(1), key));
    }
}

} // verus!
