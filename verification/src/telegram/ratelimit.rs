//! Outbound rate limiting: per Telegram chat, at most 19 sends in any
//! rolling 60-second window. The limiter keeps each chat's recent grant
//! times and refuses a grant that would overfill the window.

use vstd::prelude::*;

verus! {

/// The configured limit; one token is held back, so 19 sends pass per
/// window.
pub const TG_RATE_LIMIT: u32 = 20;

/// The rolling window, in milliseconds.
pub const WINDOW_MS: i64 = 60000;

/// Grants allowed inside one window.
pub const GRANTS_PER_WINDOW: usize = 19;

/// How many grant times of `h` fall in the window `(t - 60s, t]`.
pub open spec fn count_in_window(h: Seq<int>, t: int) -> nat
    decreases h.len(),
{
    if h.len() == 0 {
        0
    } else {
        count_in_window(h.drop_last(), t) + (if t - 60000 < h.last() && h.last() <= t {
            1nat
        } else {
            0nat
        })
    }
}

pub open spec fn sorted_ascending(h: Seq<int>) -> bool {
    forall|i: int, j: int| 0 <= i <= j < h.len() ==> h[i] <= h[j]
}

/// Every grant time's own window holds at most 19 grants.
pub open spec fn grants_ok(h: Seq<int>) -> bool {
    forall|i: int| 0 <= i < h.len() ==> count_in_window(h, #[trigger] h[i]) <= 19
}

/// One chat's limiter state: the grant times still inside the window,
/// and the whole grant history as its mathematical shadow.
pub struct ChatWindow {
    kept: Vec<i64>,
    hist: Ghost<Seq<int>>,
    dropped: Ghost<int>,
}

impl ChatWindow {
    pub closed spec fn spec_history(&self) -> Seq<int> {
        self.hist@
    }

    /// Well-formed under a clock bound: the history is sorted and within
    /// the bound, the kept list is exactly the undropped suffix, dropped
    /// entries are out of every future window, and every grant respected
    /// the limit when it was made.
    pub closed spec fn wf(&self, now_bound: int) -> bool {
        &&& sorted_ascending(self.hist@)
        &&& grants_ok(self.hist@)
        &&& 0 <= self.dropped@ <= self.hist@.len()
        &&& self.kept@.len() == self.hist@.len() - self.dropped@
        &&& (forall|j: int|
            0 <= j < self.kept@.len() ==> #[trigger] self.kept@[j] as int == self.hist@[j
                + self.dropped@])
        &&& (forall|j: int| 0 <= j < self.dropped@ ==> #[trigger] self.hist@[j] <= now_bound
            - 60000)
        &&& (forall|j: int| 0 <= j < self.hist@.len() ==> #[trigger] self.hist@[j] <= now_bound)
    }

    pub fn new() -> (r: ChatWindow)
        ensures
            r.wf(i64::MIN as int),
            r.spec_history().len() == 0,
    {
        ChatWindow { kept: Vec::new(), hist: Ghost(Seq::empty()), dropped: Ghost(0) }
    }

    /// One acquisition attempt at time `now`. A grant is given exactly
    /// when fewer than 19 grants sit in the window ending now; a refusal
    /// leaves the history untouched.
    pub fn try_acquire(&mut self, now: i64, Ghost(bound): Ghost<int>) -> (r: bool)
        requires
            old(self).wf(bound),
            bound <= now as int,
            now as int - 60000 >= i64::MIN as int,
        ensures
            final(self).wf(now as int),
            r ==> final(self).spec_history() == old(self).spec_history().push(now as int),
            !r ==> final(self).spec_history() == old(self).spec_history(),
            !r ==> count_in_window(old(self).spec_history(), now as int) >= 19,
    {
        proof {
            assert(self.wf(now as int));
        }
        // Prune grants that left the window.
        while self.kept.len() > 0 && self.kept[0] <= now - WINDOW_MS
            invariant
                self.wf(now as int),
                self.spec_history() == old(self).spec_history(),
                forall|j: int|
                    0 <= j < self.spec_history().len() ==> #[trigger] self.spec_history()[j]
                        <= now as int,
                now as int - 60000 >= i64::MIN as int,
            decreases self.kept.len(),
        {
            let ghost prevk = self.kept@;
            let ghost prevd = self.dropped@;
            self.kept.remove(0);
            proof {
                self.dropped = Ghost(prevd + 1);
                assert forall|j: int| 0 <= j < self.kept@.len() implies #[trigger] self.kept@[j] as int
                    == self.hist@[j + self.dropped@] by {
                    assert(self.kept@[j] == prevk[j + 1]);
                    assert(prevk[j + 1] as int == self.hist@[(j + 1) + prevd]);
                }
            }
        }
        if self.kept.len() < GRANTS_PER_WINDOW {
            proof {
                assert forall|j: int| self.dropped@ <= j < self.hist@.len() implies now as int
                    - 60000 < #[trigger] self.hist@[j] && self.hist@[j] <= now as int by {
                    assert(self.kept@[j - self.dropped@] as int == self.hist@[j]);
                    assert(self.kept@[0] as int == self.hist@[self.dropped@]);
                    assert(self.hist@[self.dropped@] <= self.hist@[j]);
                }
                lemma_window_count_is_suffix(self.hist@, self.dropped@, now as int);
            }
            let ghost pre = self.hist@;
            self.kept.push(now);
            proof {
                self.hist = Ghost(pre.push(now as int));
                lemma_push_keeps_grants_ok(pre, self.dropped@, now as int);
                assert forall|j: int| 0 <= j < self.kept@.len() implies #[trigger] self.kept@[j] as int
                    == self.hist@[j + self.dropped@] by {
                    if j < self.kept@.len() - 1 {
                        assert(self.kept@[j] as int == pre[j + self.dropped@]);
                        assert(self.hist@[j + self.dropped@] == pre[j + self.dropped@]);
                    } else {
                        assert(self.hist@[j + self.dropped@] == now as int);
                    }
                }
            }
            true
        } else {
            proof {
                assert forall|j: int| self.dropped@ <= j < self.hist@.len() implies now as int
                    - 60000 < #[trigger] self.hist@[j] && self.hist@[j] <= now as int by {
                    assert(self.kept@[j - self.dropped@] as int == self.hist@[j]);
                    assert(self.kept@[0] as int == self.hist@[self.dropped@]);
                    assert(self.hist@[self.dropped@] <= self.hist@[j]);
                }
                lemma_window_count_is_suffix(self.hist@, self.dropped@, now as int);
            }
            false
        }
    }
}

/// When the first `d` entries are out of the window and the rest are
/// inside it, the window count is exactly the suffix length.
proof fn lemma_window_count_is_suffix(h: Seq<int>, d: int, now: int)
    requires
        0 <= d <= h.len(),
        forall|j: int| 0 <= j < d ==> #[trigger] h[j] <= now - 60000,
        forall|j: int| d <= j < h.len() ==> now - 60000 < #[trigger] h[j] <= now,
    ensures
        count_in_window(h, now) == h.len() - d,
    decreases h.len(),
{
    if h.len() > 0 {
        if d == h.len() {
            assert(h.last() <= now - 60000);
            lemma_window_count_is_suffix(h.drop_last(), d - 1, now);
        } else {
            assert(now - 60000 < h.last() <= now);
            lemma_window_count_is_suffix(h.drop_last(), d, now);
        }
    }
}

/// Appending a grant whose own window was checked keeps every grant's
/// window within the limit.
proof fn lemma_push_keeps_grants_ok(h: Seq<int>, d: int, now: int)
    requires
        sorted_ascending(h),
        grants_ok(h),
        forall|j: int| 0 <= j < h.len() ==> #[trigger] h[j] <= now,
        count_in_window(h, now) < 19,
    ensures
        sorted_ascending(h.push(now)),
        grants_ok(h.push(now)),
{
    let p = h.push(now);
    assert forall|i: int, j: int| 0 <= i <= j < p.len() implies p[i] <= p[j] by {
        if j < p.len() - 1 {
            assert(p[i] == h[i] && p[j] == h[j]);
        } else if i < p.len() - 1 {
            assert(p[i] == h[i]);
        }
    }
    assert(count_in_window(p, now) == count_in_window(h, now) + 1) by {
        assert(p.drop_last() =~= h);
    }
    assert forall|i: int| 0 <= i < p.len() implies count_in_window(p, #[trigger] p[i]) <= 19 by {
        if i == p.len() - 1 {
            assert(p[i] == now);
        } else {
            assert(p[i] == h[i]);
            if p[i] == now {
                assert(count_in_window(p, p[i]) == count_in_window(p, now));
            } else {
                assert(p[i] < now);
                assert(count_in_window(p, p[i]) == count_in_window(h, p[i])) by {
                    assert(p.drop_last() =~= h);
                    assert(!(p[i] - 60000 < now && now <= p[i]));
                }
            }
        }
    }
}

/// Windows hold the limit everywhere, not only at grant times: any
/// window anywhere in time holds at most 19 grants of a well-formed
/// history. This is the outbound delivery-rate bound.
pub proof fn lemma_rate_window_bound(h: Seq<int>, t: int)
    requires
        sorted_ascending(h),
        grants_ok(h),
    ensures
        count_in_window(h, t) <= 19,
{
    if count_in_window(h, t) > 0 {
        let j = lemma_last_in_window(h, t);
        assert(count_in_window(h, t) <= count_in_window(h, h[j])) by {
            lemma_count_monotone(h, t, h[j], j);
        }
    }
}

/// A nonempty window has a latest grant inside it.
proof fn lemma_last_in_window(h: Seq<int>, t: int) -> (j: int)
    requires
        count_in_window(h, t) > 0,
    ensures
        0 <= j < h.len(),
        t - 60000 < h[j] <= t,
        forall|i: int| j < i < h.len() ==> !(t - 60000 < #[trigger] h[i] && h[i] <= t),
    decreases h.len(),
{
    if t - 60000 < h.last() && h.last() <= t {
        h.len() - 1
    } else {
        assert(count_in_window(h.drop_last(), t) > 0);
        let j = lemma_last_in_window(h.drop_last(), t);
        assert forall|i: int| j < i < h.len() implies !(t - 60000 < #[trigger] h[i] && h[i]
            <= t) by {
            if i < h.len() - 1 {
                assert(h.drop_last()[i] == h[i]);
            }
        }
        assert(h.drop_last()[j] == h[j]);
        j
    }
}

/// Every grant inside the window ending at `t` also sits inside the
/// window ending at the window's own latest grant, so the count can only
/// shrink when the window slides forward past it.
proof fn lemma_count_monotone(h: Seq<int>, t: int, tj: int, j: int)
    requires
        sorted_ascending(h),
        0 <= j < h.len(),
        h[j] == tj,
        t - 60000 < tj <= t,
        forall|i: int| j < i < h.len() ==> !(t - 60000 < #[trigger] h[i] && h[i] <= t),
    ensures
        count_in_window(h, t) <= count_in_window(h, tj),
{
    lemma_count_subset(h, t, tj, h.len() as int, j);
    assert(h.take(h.len() as int) =~= h);
}

proof fn lemma_count_subset(h: Seq<int>, t: int, tj: int, upto: int, j: int)
    requires
        sorted_ascending(h),
        0 <= j < h.len(),
        h[j] == tj,
        t - 60000 < tj <= t,
        0 <= upto <= h.len(),
        forall|i: int| j < i < h.len() ==> !(t - 60000 < #[trigger] h[i] && h[i] <= t),
    ensures
        count_in_window(h.take(upto), t) <= count_in_window(h.take(upto), tj),
    decreases upto,
{
    if upto > 0 {
        lemma_count_subset(h, t, tj, upto - 1, j);
        let pref = h.take(upto);
        assert(pref.drop_last() =~= h.take(upto - 1));
        let x = pref.last();
        assert(x == h[upto - 1]);
        if t - 60000 < x && x <= t {
            // In the t-window: show it is in the tj-window too.
            if upto - 1 > j {
                assert(false);
            } else {
                assert(x <= h[j]);
                assert(tj - 60000 <= t - 60000);
                assert(tj - 60000 < x && x <= tj);
            }
        }
    } else {
        assert(h.take(0) =~= Seq::<int>::empty());
    }
}

/// The keyed limiter: one window per Telegram chat, entries created on
/// demand and never reclaimed, and one monotone clock bound.
pub struct RateLimiter {
    now_bound: i64,
    entries: Vec<(i64, ChatWindow)>,
}

impl RateLimiter {
    pub closed spec fn spec_now_bound(&self) -> int {
        self.now_bound as int
    }

    pub closed spec fn spec_entries(&self) -> Seq<(i64, ChatWindow)> {
        self.entries@
    }

    /// The grant history of a chat; an unknown chat has none.
    pub open spec fn spec_history(&self, key: i64) -> Seq<int> {
        spec_window_lookup(self.spec_entries(), key)
    }

    pub open spec fn wf(&self) -> bool {
        &&& (forall|i: int| 0 <= i < self.spec_entries().len() ==> (
        #[trigger] self.spec_entries()[i]).1.wf(self.spec_now_bound()))
        &&& (forall|i: int, j: int|
            0 <= i < j < self.spec_entries().len() ==> (#[trigger] self.spec_entries()[i]).0 != (
            #[trigger] self.spec_entries()[j]).0)
        &&& sorted_ascending_all(self.spec_entries())
        &&& self.spec_now_bound() - 60000 >= i64::MIN as int
    }

    pub fn new() -> (r: RateLimiter)
        ensures
            r.wf(),
            r.spec_entries().len() == 0,
    {
        RateLimiter { now_bound: i64::MIN + 60000, entries: Vec::new() }
    }

    /// One acquisition for a chat at time `now`; the clock may only move
    /// forward. The grant is given exactly when the chat's window ending
    /// now holds fewer than 19 grants.
    pub fn try_acquire(&mut self, key: i64, now: i64) -> (r: bool)
        requires
            old(self).wf(),
            now as int >= old(self).spec_now_bound(),
        ensures
            final(self).wf(),
            final(self).spec_now_bound() == now as int,
            r ==> final(self).spec_history(key) == old(self).spec_history(key).push(
                now as int,
            ),
            !r ==> final(self).spec_history(key) == old(self).spec_history(key),
            !r ==> count_in_window(old(self).spec_history(key), now as int) >= 19,
            sorted_ascending(final(self).spec_history(key)),
            grants_ok(final(self).spec_history(key)),
    {
        let idx = window_index(self, key);
        match idx {
            Some(at) => {
                let granted = acquire_at(self, at, key, now);
                granted
            },
            None => {
                proof {
                    lemma_window_lookup_absent(self.entries@, key);
                }
                let mut w = ChatWindow::new();
                let ghost pre = self.entries@;
                let granted = w.try_acquire(now, Ghost(i64::MIN as int));
                self.entries.push((key, w));
                self.now_bound = now;
                proof {
                    lemma_window_lookup_pushed(pre, key, self.entries@.last().1);
                    assert forall|a: int, b: int|
                        0 <= a < b < self.entries@.len() implies (#[trigger] self.entries@[a]).0
                        != (#[trigger] self.entries@[b]).0 by {
                        if b < self.entries@.len() - 1 {
                            assert(self.entries@[a] == pre[a] && self.entries@[b] == pre[b]);
                        } else {
                            assert(self.entries@[a] == pre[a]);
                        }
                    }
                    assert forall|a: int|
                        0 <= a < self.entries@.len() implies (#[trigger] self.entries@[a]).1.wf(
                        now as int,
                    ) by {
                        if a < self.entries@.len() - 1 {
                            assert(self.entries@[a] == pre[a]);
                            lemma_wf_clock_forward(pre[a].1, old(self).spec_now_bound(), now as int);
                        }
                    }
                }
                granted
            },
        }
    }
}

/// The position of a chat's window, scanning first-match.
fn window_index(lim: &RateLimiter, key: i64) -> (r: Option<usize>)
    ensures
        match r {
            Some(i) => i < lim.spec_entries().len() && lim.spec_entries()[i as int].0 == key
                && forall|j: int| 0 <= j < i ==> (#[trigger] lim.spec_entries()[j]).0 != key,
            None => forall|j: int|
                0 <= j < lim.spec_entries().len() ==> (#[trigger] lim.spec_entries()[j]).0 != key,
        },
{
    let n = lim.entries.len();
    let mut i: usize = 0;
    while i < n
        invariant
            0 <= i <= n,
            n == lim.entries@.len(),
            forall|j: int| 0 <= j < i ==> (#[trigger] lim.entries@[j]).0 != key,
        decreases n - i,
    {
        if lim.entries[i].0 == key {
            return Some(i);
        }
        i = i + 1;
    }
    None
}

/// An index-addressed acquisition, so the borrow of one entry's window
/// can be reasoned about on its own.
fn acquire_at(lim: &mut RateLimiter, at: usize, key: i64, now: i64) -> (r: bool)
    requires
        old(lim).wf(),
        now as int >= old(lim).spec_now_bound(),
        at < old(lim).spec_entries().len(),
        old(lim).spec_entries()[at as int].0 == key,
        forall|j: int| 0 <= j < at ==> (#[trigger] old(lim).spec_entries()[j]).0 != key,
    ensures
        final(lim).wf(),
        final(lim).spec_now_bound() == now as int,
        r ==> final(lim).spec_history(key) == old(lim).spec_history(key).push(now as int),
        !r ==> final(lim).spec_history(key) == old(lim).spec_history(key),
        !r ==> count_in_window(old(lim).spec_history(key), now as int) >= 19,
        sorted_ascending(final(lim).spec_history(key)),
        grants_ok(final(lim).spec_history(key)),
{
    proof {
        lemma_window_lookup_at(old(lim).spec_entries(), at as int, key);
    }
    let ghost pre = lim.entries@;
    let mut entry = lim.entries.remove(at);
    let granted = entry.1.try_acquire(now, Ghost(old(lim).spec_now_bound()));
    lim.entries.insert(at, entry);
    lim.now_bound = now;
    proof {
        assert(lim.entries@ =~= pre.update(at as int, lim.entries@[at as int]));
        lemma_window_lookup_updated(pre, at as int, key, lim.entries@[at as int]);
        assert forall|a: int, b: int|
            0 <= a < b < lim.entries@.len() implies (#[trigger] lim.entries@[a]).0 != (
        #[trigger] lim.entries@[b]).0 by {
            assert(pre[a].0 != pre[b].0);
            if a != at && b != at {
                assert(lim.entries@[a] == pre[a] && lim.entries@[b] == pre[b]);
            }
        }
        assert forall|a: int|
            0 <= a < lim.entries@.len() implies (#[trigger] lim.entries@[a]).1.wf(now as int) by {
            if a != at {
                assert(lim.entries@[a] == pre[a]);
                lemma_wf_clock_forward(pre[a].1, old(lim).spec_now_bound(), now as int);
            }
        }
    }
    granted
}

/// A window that is well-formed under an earlier clock bound is still
/// well-formed under a later one.
proof fn lemma_wf_clock_forward(w: ChatWindow, earlier: int, later: int)
    requires
        w.wf(earlier),
        earlier <= later,
    ensures
        w.wf(later),
{
}

pub open spec fn sorted_ascending_all(entries: Seq<(i64, ChatWindow)>) -> bool {
    forall|i: int| 0 <= i < entries.len() ==> sorted_ascending(
        (#[trigger] entries[i]).1.spec_history(),
    )
}

/// The history an entry list records for a key: the first entry wins,
/// an absent key has none.
pub open spec fn spec_window_lookup(entries: Seq<(i64, ChatWindow)>, key: i64) -> Seq<int>
    decreases entries.len(),
{
    if entries.len() == 0 {
        Seq::empty()
    } else if entries[0].0 == key {
        entries[0].1.spec_history()
    } else {
        spec_window_lookup(entries.skip(1), key)
    }
}

proof fn lemma_window_lookup_at(entries: Seq<(i64, ChatWindow)>, i: int, key: i64)
    requires
        0 <= i < entries.len(),
        entries[i].0 == key,
        forall|j: int| 0 <= j < i ==> (#[trigger] entries[j]).0 != key,
    ensures
        spec_window_lookup(entries, key) == entries[i].1.spec_history(),
    decreases entries.len(),
{
    if i > 0 {
        assert forall|j: int| 0 <= j < i - 1 implies (#[trigger] entries.skip(1)[j]).0 != key by {
            assert(entries.skip(1)[j] == entries[j + 1]);
        }
        assert(entries.skip(1)[i - 1] == entries[i]);
        lemma_window_lookup_at(entries.skip(1), i - 1, key);
    }
}

proof fn lemma_window_lookup_absent(entries: Seq<(i64, ChatWindow)>, key: i64)
    requires
        forall|j: int| 0 <= j < entries.len() ==> (#[trigger] entries[j]).0 != key,
    ensures
        spec_window_lookup(entries, key) == Seq::<int>::empty(),
    decreases entries.len(),
{
    if entries.len() > 0 {
        assert forall|j: int| 0 <= j < entries.skip(1).len() implies (#[trigger] entries.skip(
            1,
        )[j]).0 != key by {
            assert(entries.skip(1)[j] == entries[j + 1]);
        }
        lemma_window_lookup_absent(entries.skip(1), key);
    }
}

proof fn lemma_window_lookup_pushed(entries: Seq<(i64, ChatWindow)>, key: i64, w: ChatWindow)
    requires
        forall|j: int| 0 <= j < entries.len() ==> (#[trigger] entries[j]).0 != key,
    ensures
        spec_window_lookup(entries.push((key, w)), key) == w.spec_history(),
    decreases entries.len(),
{
    let p = entries.push((key, w));
    if entries.len() == 0 {
        assert(p[0] == (key, w));
    } else {
        assert(p[0] == entries[0]);
        assert(p.skip(1) =~= entries.skip(1).push((key, w)));
        assert forall|j: int| 0 <= j < entries.skip(1).len() implies (#[trigger] entries.skip(
            1,
        )[j]).0 != key by {
            assert(entries.skip(1)[j] == entries[j + 1]);
        }
        lemma_window_lookup_pushed(entries.skip(1), key, w);
    }
}

proof fn lemma_window_lookup_updated(
    entries: Seq<(i64, ChatWindow)>,
    i: int,
    key: i64,
    updated: (i64, ChatWindow),
)
    requires
        0 <= i < entries.len(),
        entries[i].0 == key,
        updated.0 == key,
        forall|j: int| 0 <= j < i ==> (#[trigger] entries[j]).0 != key,
    ensures
        spec_window_lookup(entries.update(i, updated), key) == updated.1.spec_history(),
    decreases entries.len(),
{
    let u = entries.update(i, updated);
    if i == 0 {
        assert(u[0] == updated);
    } else {
        assert(u[0] == entries[0]);
        assert(u.skip(1) =~= entries.skip(1).update(i - 1, updated));
        assert forall|j: int| 0 <= j < i - 1 implies (#[trigger] entries.skip(1)[j]).0 != key by {
            assert(entries.skip(1)[j] == entries[j + 1]);
        }
        assert(entries.skip(1)[i - 1] == entries[i]);
        lemma_window_lookup_updated(entries.skip(1), i - 1, key, updated);
    }
}

} // verus!
