//! The OneBot server's decision core: handshake acceptance, connection
//! registry, and request/response correlation by echo. The socket loops
//! around it only move frames and complete waiters.

use vstd::prelude::*;

verus! {

use crate::common::{Endpoint, Platform};
use crate::onebot::protocol::event::{Event, LifecycleEvent, MetaEvent};
use crate::text::{starts_with, str_eq};
use vstd::string::StringExecFns;

/// Capacity of every bounded channel around the server.
pub const BUFFER_SIZE: usize = 1024;

/// Seconds an API call may wait for its response.
pub const API_TIMEOUT_SECS: u64 = 120;

/// WebSocket read buffer: 8 MiB.
pub const WS_READ_BUFFER_SIZE: usize = 8388608;

/// Largest accepted WebSocket message: 512 MiB.
pub const WS_MAX_MESSAGE_SIZE: usize = 536870912;

/// Largest accepted WebSocket frame: 256 MiB.
pub const WS_MAX_FRAME_SIZE: usize = 268435456;

// ---------- handshake ----------

/// How a WebSocket handshake ends.
#[derive(Debug, Clone, PartialEq, Eq)]
pub enum HandshakeOutcome {
    /// The connection is accepted and named by this endpoint.
    Accept(Endpoint),
    /// The `Authorization` header does not match: HTTP 401.
    Unauthorized,
    /// `X-Self-ID` or `User-Agent` is missing: HTTP 400.
    BadRequest,
}

/// The exact `Authorization` value a configured token demands.
pub open spec fn spec_bearer(token: Option<Seq<char>>) -> Option<Seq<char>> {
    match token {
        Some(t) => Some("Bearer "@ + t),
        None => None,
    }
}

pub open spec fn opt_view(o: Option<String>) -> Option<Seq<char>> {
    match o {
        Some(s) => Some(s@),
        None => None,
    }
}

/// The authorization gate: the header must equal `Bearer <token>` byte
/// for byte when a token is configured, and must be absent when none is.
pub open spec fn spec_auth_ok(token: Option<Seq<char>>, auth: Option<Seq<char>>) -> bool {
    auth == spec_bearer(token)
}

/// Platform inference from the `User-Agent`: an `LLOneBot` prefix and any
/// unrecognized agent mean QQ, a `WeChat` prefix means WeChat.
pub open spec fn spec_platform_of_agent(ua: Seq<char>) -> Platform {
    if crate::text::has_prefix(ua, "LLOneBot"@) {
        Platform::QQ
    } else if crate::text::has_prefix(ua, "WeChat"@) {
        Platform::WeChat
    } else {
        Platform::QQ
    }
}

pub fn platform_of_agent(ua: &str) -> (r: Platform)
    ensures
        r == spec_platform_of_agent(ua@),
{
    if starts_with(ua, "LLOneBot") {
        Platform::QQ
    } else if starts_with(ua, "WeChat") {
        Platform::WeChat
    } else {
        Platform::QQ
    }
}

/// Decides a handshake. The connection is accepted exactly when the
/// authorization gate passes and both `X-Self-ID` and `User-Agent` are
/// present; a failed gate is 401, missing headers are 400.
pub fn check_handshake(
    token: &Option<String>,
    auth: &Option<String>,
    x_self_id: &Option<String>,
    user_agent: &Option<String>,
) -> (r: HandshakeOutcome)
    ensures
        match r {
            HandshakeOutcome::Accept(e) => spec_auth_ok(opt_view(*token), opt_view(*auth))
                && x_self_id is Some && user_agent is Some && e.id@ == x_self_id->0@
                && e.platform == spec_platform_of_agent(user_agent->0@),
            HandshakeOutcome::Unauthorized => !spec_auth_ok(opt_view(*token), opt_view(*auth)),
            HandshakeOutcome::BadRequest => spec_auth_ok(opt_view(*token), opt_view(*auth)) && (
            x_self_id is None || user_agent is None),
        },
{
    let auth_ok = match (token, auth) {
        (None, None) => true,
        (Some(t), Some(a)) => {
            let mut expected = "Bearer ".to_owned();
            expected.append(t.as_str());
            let ok = str_eq(a.as_str(), expected.as_str());
            proof {
                assert(expected@ == "Bearer "@ + t@);
            }
            ok
        },
        _ => false,
    };
    if !auth_ok {
        return HandshakeOutcome::Unauthorized;
    }
    match (x_self_id, user_agent) {
        (Some(id), Some(ua)) => HandshakeOutcome::Accept(
            Endpoint { platform: platform_of_agent(ua.as_str()), id: id.clone() },
        ),
        _ => HandshakeOutcome::BadRequest,
    }
}

/// The event synthesized when a connection's read loop fails: a lifecycle
/// `disconnect` for that endpoint.
pub fn disconnect_event(self_id: String, time: i64) -> (r: Event)
    ensures
        r matches Event::Meta(m) && m matches MetaEvent::Lifecycle(e) && e.time == time
            && e.self_id == self_id && e.sub_type@ == "disconnect"@,
{
    Event::Meta(
        MetaEvent::Lifecycle(
            LifecycleEvent { time, self_id, sub_type: "disconnect".to_owned() },
        ),
    )
}

// ---------- correlation state ----------

/// Lookup in an association list: the first entry with the key wins.
pub open spec fn assoc_lookup(entries: Seq<(Seq<char>, u64)>, key: Seq<char>) -> Option<u64>
    decreases entries.len(),
{
    if entries.len() == 0 {
        None
    } else if entries[0].0 == key {
        Some(entries[0].1)
    } else {
        assoc_lookup(entries.skip(1), key)
    }
}

pub open spec fn assoc_keys_unique(entries: Seq<(Seq<char>, u64)>) -> bool {
    forall|i: int, j: int|
        0 <= i < j < entries.len() ==> (#[trigger] entries[i]).0 != (#[trigger] entries[j]).0
}

/// Lookup of an endpoint's entry, comparing by platform and id.
pub open spec fn spec_endpoint_lookup(entries: Seq<(Endpoint, u64)>, e: Endpoint) -> Option<u64>
    decreases entries.len(),
{
    if entries.len() == 0 {
        None
    } else if entries[0].0.spec_same(e) {
        Some(entries[0].1)
    } else {
        spec_endpoint_lookup(entries.skip(1), e)
    }
}

pub open spec fn endpoints_unique(entries: Seq<(Endpoint, u64)>) -> bool {
    forall|i: int, j: int|
        0 <= i < j < entries.len() ==> !(#[trigger] entries[i]).0.spec_same(
            (#[trigger] entries[j]).0,
        )
}

pub open spec fn spec_pending_of(entries: Seq<(String, u64)>) -> Seq<(Seq<char>, u64)> {
    Seq::new(entries.len(), |i: int| (entries[i].0@, entries[i].1))
}

/// The dispatcher's state: which endpoint owns which writer slot, and
/// which waiter each in-flight echo belongs to. Writer slots and waiters
/// are opaque handles owned by the surrounding loops.
pub struct Dispatcher {
    endpoints: Vec<(Endpoint, u64)>,
    pending: Vec<(String, u64)>,
}

/// What the dispatcher decides for one API request.
#[derive(Debug, Clone, PartialEq, Eq)]
pub enum DispatchDecision {
    /// Enqueue the request on this writer; the waiter is now pending
    /// under the request's echo.
    Enqueue { writer: u64 },
    /// No connection for the endpoint: answer the waiter with an error.
    ClientNotFound,
}

impl Endpoint {
    /// An explicit copy, so verified code can duplicate an endpoint
    /// without relying on a derived clone.
    pub fn clone_endpoint(&self) -> (r: Endpoint)
        ensures
            r == *self,
            r.spec_same(*self),
    {
        Endpoint { platform: self.platform, id: self.id.clone() }
    }
}

impl Dispatcher {
    pub closed spec fn spec_pending(&self) -> Seq<(Seq<char>, u64)> {
        spec_pending_of(self.pending@)
    }

    pub closed spec fn spec_endpoints(&self) -> Seq<(Endpoint, u64)> {
        self.endpoints@
    }

    /// Well-formed: every in-flight echo has exactly one waiter, every
    /// endpoint at most one connection.
    pub open spec fn wf(&self) -> bool {
        assoc_keys_unique(self.spec_pending()) && endpoints_unique(self.spec_endpoints())
    }

    pub fn new() -> (r: Dispatcher)
        ensures
            r.wf(),
            r.spec_pending().len() == 0,
            r.spec_endpoints().len() == 0,
    {
        Dispatcher { endpoints: Vec::new(), pending: Vec::new() }
    }

    fn endpoint_index(&self, endpoint: &Endpoint) -> (r: Option<usize>)
        ensures
            match r {
                Some(i) => i < self.endpoints@.len() && self.endpoints@[i as int].0.spec_same(
                    *endpoint,
                ) && forall|j: int|
                    0 <= j < i ==> !(#[trigger] self.endpoints@[j]).0.spec_same(*endpoint),
                None => forall|j: int|
                    0 <= j < self.endpoints@.len() ==> !(#[trigger] self.endpoints@[j]).0.spec_same(
                        *endpoint,
                    ),
            },
    {
        let n = self.endpoints.len();
        let mut i: usize = 0;
        while i < n
            invariant
                0 <= i <= n,
                n == self.endpoints@.len(),
                forall|j: int| 0 <= j < i ==> !(#[trigger] self.endpoints@[j]).0.spec_same(
                    *endpoint,
                ),
            decreases n - i,
        {
            if self.endpoints[i].0.same(endpoint) {
                return Some(i);
            }
            i = i + 1;
        }
        None
    }

    /// The writer slot an endpoint currently owns.
    pub fn writer_for(&self, endpoint: &Endpoint) -> (r: Option<u64>)
        ensures
            r == spec_endpoint_lookup(self.spec_endpoints(), *endpoint),
    {
        match self.endpoint_index(endpoint) {
            Some(i) => {
                proof {
                    lemma_endpoint_lookup_at(self.endpoints@, i as int, *endpoint);
                }
                Some(self.endpoints[i].1)
            },
            None => {
                proof {
                    lemma_endpoint_lookup_absent(self.endpoints@, *endpoint);
                }
                None
            },
        }
    }

    /// A connection died: its endpoint no longer routes anywhere.
    pub fn remove_endpoint(&mut self, endpoint: &Endpoint)
        requires
            old(self).wf(),
        ensures
            final(self).wf(),
            final(self).spec_pending() == old(self).spec_pending(),
            spec_endpoint_lookup(final(self).spec_endpoints(), *endpoint) is None,
            forall|e: Endpoint|
                !e.spec_same(*endpoint) ==> spec_endpoint_lookup(final(self).spec_endpoints(), e)
                    == spec_endpoint_lookup(old(self).spec_endpoints(), e),
    {
        match self.endpoint_index(endpoint) {
            Some(i) => {
                proof {
                    lemma_endpoint_remove(self.endpoints@, i as int, *endpoint);
                }
                let ghost pre = self.pending@;
                self.endpoints.remove(i);
                proof {
                    assert(self.pending@ == pre);
                }
            },
            None => {
                proof {
                    lemma_endpoint_lookup_absent(self.endpoints@, *endpoint);
                }
            },
        }
    }

    /// A connection completed its handshake: its endpoint now owns this
    /// writer slot, replacing any earlier connection with the same name.
    pub fn register_endpoint(&mut self, endpoint: Endpoint, writer: u64)
        requires
            old(self).wf(),
        ensures
            final(self).wf(),
            final(self).spec_pending() == old(self).spec_pending(),
            spec_endpoint_lookup(final(self).spec_endpoints(), endpoint) == Some(writer),
            forall|e: Endpoint|
                !e.spec_same(endpoint) ==> spec_endpoint_lookup(final(self).spec_endpoints(), e)
                    == spec_endpoint_lookup(old(self).spec_endpoints(), e),
    {
        self.remove_endpoint(&endpoint);
        let ghost mid = self.endpoints@;
        let ghost e0 = endpoint;
        self.endpoints.push((endpoint, writer));
        proof {
            lemma_endpoint_lookup_absent_converse(mid, e0);
            lemma_endpoint_push(mid, e0, writer);
        }
    }

    fn pending_index(&self, echo: &str) -> (r: Option<usize>)
        ensures
            match r {
                Some(i) => i < self.pending@.len() && self.pending@[i as int].0@ == echo@
                    && forall|j: int| 0 <= j < i ==> (#[trigger] self.pending@[j]).0@ != echo@,
                None => forall|j: int|
                    0 <= j < self.pending@.len() ==> (#[trigger] self.pending@[j]).0@ != echo@,
            },
    {
        let n = self.pending.len();
        let mut i: usize = 0;
        while i < n
            invariant
                0 <= i <= n,
                n == self.pending@.len(),
                forall|j: int| 0 <= j < i ==> (#[trigger] self.pending@[j]).0@ != echo@,
            decreases n - i,
        {
            if str_eq(self.pending[i].0.as_str(), echo) {
                return Some(i);
            }
            i = i + 1;
        }
        None
    }

    /// Decides one API request: with a connected endpoint the waiter is
    /// registered under the echo before anything is enqueued; without one
    /// the waiter is answered at once and nothing changes.
    pub fn on_api_request(
        &mut self,
        endpoint: &Endpoint,
        echo: String,
        waiter: u64,
    ) -> (r: DispatchDecision)
        requires
            old(self).wf(),
            assoc_lookup(old(self).spec_pending(), echo@) is None,
        ensures
            final(self).wf(),
            final(self).spec_endpoints() == old(self).spec_endpoints(),
            match r {
                DispatchDecision::Enqueue { writer } => spec_endpoint_lookup(
                    old(self).spec_endpoints(),
                    *endpoint,
                ) == Some(writer) && assoc_lookup(final(self).spec_pending(), echo@) == Some(
                    waiter,
                ) && (forall|e: Seq<char>|
                    e != echo@ ==> assoc_lookup(final(self).spec_pending(), e) == assoc_lookup(
                        old(self).spec_pending(),
                        e,
                    )),
                DispatchDecision::ClientNotFound => spec_endpoint_lookup(
                    old(self).spec_endpoints(),
                    *endpoint,
                ) is None && final(self).spec_pending() == old(self).spec_pending(),
            },
    {
        match self.writer_for(endpoint) {
            Some(writer) => {
                let ghost pre = self.spec_pending();
                let ghost e0 = echo@;
                self.pending.push((echo, waiter));
                proof {
                    assert(self.spec_pending() =~= pre.push((e0, waiter)));
                    lemma_assoc_lookup_in_keys(pre, e0);
                    lemma_assoc_push(pre, e0, waiter);
                }
                DispatchDecision::Enqueue { writer }
            },
            None => DispatchDecision::ClientNotFound,
        }
    }

    /// Resolves a response (or an enqueue failure) for an echo: the one
    /// pending waiter comes out and its entry is gone; an unknown echo
    /// changes nothing and nobody is answered.
    pub fn take_pending(&mut self, echo: &str) -> (r: Option<u64>)
        requires
            old(self).wf(),
        ensures
            final(self).wf(),
            final(self).spec_endpoints() == old(self).spec_endpoints(),
            r == assoc_lookup(old(self).spec_pending(), echo@),
            assoc_lookup(final(self).spec_pending(), echo@) is None,
            forall|e: Seq<char>|
                e != echo@ ==> assoc_lookup(final(self).spec_pending(), e) == assoc_lookup(
                    old(self).spec_pending(),
                    e,
                ),
    {
        match self.pending_index(echo) {
            Some(i) => {
                let waiter = self.pending[i].1;
                proof {
                    lemma_assoc_remove(self.spec_pending(), i as int, echo@);
                }
                let ghost pre = self.pending@;
                let ghost eps = self.endpoints@;
                self.pending.remove(i);
                proof {
                    assert(self.endpoints@ == eps);
                    assert(self.spec_pending() =~= spec_pending_of(pre).remove(i as int));
                }
                Some(waiter)
            },
            None => {
                proof {
                    lemma_assoc_absent(self.spec_pending(), echo@);
                }
                None
            },
        }
    }
}

// ---------- association-list lemmas ----------

proof fn lemma_assoc_absent(entries: Seq<(Seq<char>, u64)>, key: Seq<char>)
    requires
        forall|j: int| 0 <= j < entries.len() ==> (#[trigger] entries[j]).0 != key,
    ensures
        assoc_lookup(entries, key) is None,
    decreases entries.len(),
{
    if entries.len() > 0 {
        assert forall|j: int| 0 <= j < entries.skip(1).len() implies (#[trigger] entries.skip(
            1,
        )[j]).0 != key by {
            assert(entries.skip(1)[j] == entries[j + 1]);
        }
        lemma_assoc_absent(entries.skip(1), key);
    }
}

/// A key that is not found occurs nowhere in the entries.
proof fn lemma_assoc_lookup_in_keys(entries: Seq<(Seq<char>, u64)>, key: Seq<char>)
    requires
        assoc_lookup(entries, key) is None,
    ensures
        forall|i: int| 0 <= i < entries.len() ==> (#[trigger] entries[i]).0 != key,
    decreases entries.len(),
{
    if entries.len() > 0 {
        lemma_assoc_lookup_in_keys(entries.skip(1), key);
        assert forall|i: int| 0 <= i < entries.len() implies (#[trigger] entries[i]).0 != key by {
            if i > 0 {
                assert(entries.skip(1)[i - 1] == entries[i]);
            }
        }
    }
}

/// Pushing an absent key: the new entry answers for it, others are
/// untouched, and uniqueness is preserved.
proof fn lemma_assoc_push(entries: Seq<(Seq<char>, u64)>, key: Seq<char>, val: u64)
    requires
        assoc_keys_unique(entries),
        forall|i: int| 0 <= i < entries.len() ==> (#[trigger] entries[i]).0 != key,
    ensures
        assoc_keys_unique(entries.push((key, val))),
        assoc_lookup(entries.push((key, val)), key) == Some(val),
        forall|e: Seq<char>|
            e != key ==> assoc_lookup(entries.push((key, val)), e) == assoc_lookup(entries, e),
    decreases entries.len(),
{
    let pushed = entries.push((key, val));
    assert forall|i: int, j: int| 0 <= i < j < pushed.len() implies (#[trigger] pushed[i]).0 != (
    #[trigger] pushed[j]).0 by {
        if j < pushed.len() - 1 {
            assert(pushed[i] == entries[i] && pushed[j] == entries[j]);
        } else {
            assert(pushed[i] == entries[i] && pushed[j] == (key, val));
        }
    }
    assert forall|e: Seq<char>| true implies (e != key ==> assoc_lookup(pushed, e)
        == assoc_lookup(entries, e)) && assoc_lookup(pushed, key) == Some(val) by {
        lemma_assoc_push_one(entries, key, val, e);
    }
}

proof fn lemma_assoc_push_one(
    entries: Seq<(Seq<char>, u64)>,
    key: Seq<char>,
    val: u64,
    e: Seq<char>,
)
    requires
        forall|i: int| 0 <= i < entries.len() ==> (#[trigger] entries[i]).0 != key,
    ensures
        e != key ==> assoc_lookup(entries.push((key, val)), e) == assoc_lookup(entries, e),
        assoc_lookup(entries.push((key, val)), key) == Some(val),
    decreases entries.len(),
{
    let pushed = entries.push((key, val));
    if entries.len() == 0 {
        assert(pushed[0] == (key, val));
        assert(pushed.skip(1) =~= Seq::<(Seq<char>, u64)>::empty());
    } else {
        assert(pushed[0] == entries[0]);
        assert(pushed.skip(1) =~= entries.skip(1).push((key, val)));
        assert forall|i: int| 0 <= i < entries.skip(1).len() implies (#[trigger] entries.skip(
            1,
        )[i]).0 != key by {
            assert(entries.skip(1)[i] == entries[i + 1]);
        }
        lemma_assoc_push_one(entries.skip(1), key, val, e);
        assert(assoc_lookup(pushed.skip(1), e) == assoc_lookup(entries.skip(1).push((key, val)), e));
        assert(assoc_lookup(pushed.skip(1), key) == assoc_lookup(
            entries.skip(1).push((key, val)),
            key,
        ));
        assert(entries[0].0 != key);
    }
}

/// Removing the key's entry from a unique-keyed list: the key had that
/// entry's value, is now absent, and every other key answers as before.
proof fn lemma_assoc_remove(entries: Seq<(Seq<char>, u64)>, i: int, key: Seq<char>)
    requires
        assoc_keys_unique(entries),
        0 <= i < entries.len(),
        entries[i].0 == key,
        forall|j: int| 0 <= j < i ==> (#[trigger] entries[j]).0 != key,
    ensures
        assoc_lookup(entries, key) == Some(entries[i].1),
        assoc_keys_unique(entries.remove(i)),
        assoc_lookup(entries.remove(i), key) is None,
        forall|e: Seq<char>|
            e != key ==> assoc_lookup(entries.remove(i), e) == assoc_lookup(entries, e),
    decreases entries.len(),
{
    let removed = entries.remove(i);
    assert forall|a: int, b: int| 0 <= a < b < removed.len() implies (#[trigger] removed[a]).0 != (
    #[trigger] removed[b]).0 by {
        let a2: int = if a < i { a } else { a + 1 };
        let b2: int = if b < i { b } else { b + 1 };
        assert(removed[a] == entries[a2] && removed[b] == entries[b2]);
    }
    if i == 0 {
        assert(removed =~= entries.skip(1));
        assert(assoc_lookup(entries, key) == Some(entries[0].1));
        assert forall|j: int| 0 <= j < removed.len() implies (#[trigger] removed[j]).0 != key by {
            assert(removed[j] == entries[j + 1]);
        }
        lemma_assoc_absent(removed, key);
        assert forall|e: Seq<char>| e != key implies assoc_lookup(removed, e) == assoc_lookup(
            entries,
            e,
        ) by {
            assert(assoc_lookup(entries, e) == assoc_lookup(entries.skip(1), e));
        }
    } else {
        assert(entries[0].0 != key);
        assert(removed[0] == entries[0]);
        assert(removed.skip(1) =~= entries.skip(1).remove(i - 1));
        assert forall|j: int| 0 <= j < i - 1 implies (#[trigger] entries.skip(1)[j]).0 != key by {
            assert(entries.skip(1)[j] == entries[j + 1]);
        }
        assert(entries.skip(1)[i - 1] == entries[i]);
        assert(assoc_keys_unique(entries.skip(1))) by {
            assert forall|a: int, b: int|
                0 <= a < b < entries.skip(1).len() implies (#[trigger] entries.skip(1)[a]).0 != (
            #[trigger] entries.skip(1)[b]).0 by {
                assert(entries.skip(1)[a] == entries[a + 1]);
                assert(entries.skip(1)[b] == entries[b + 1]);
            }
        }
        lemma_assoc_remove(entries.skip(1), i - 1, key);
        assert forall|e: Seq<char>| e != key implies assoc_lookup(removed, e) == assoc_lookup(
            entries,
            e,
        ) by {
            if entries[0].0 == e {
                assert(assoc_lookup(removed, e) == Some(removed[0].1));
                assert(assoc_lookup(entries, e) == Some(entries[0].1));
            } else {
                assert(assoc_lookup(removed, e) == assoc_lookup(removed.skip(1), e));
                assert(assoc_lookup(entries, e) == assoc_lookup(entries.skip(1), e));
            }
        }
        assert(assoc_lookup(removed, key) == assoc_lookup(removed.skip(1), key));
    }
}

// ---------- endpoint-list lemmas ----------

proof fn lemma_endpoint_lookup_absent(entries: Seq<(Endpoint, u64)>, e: Endpoint)
    requires
        forall|j: int| 0 <= j < entries.len() ==> !(#[trigger] entries[j]).0.spec_same(e),
    ensures
        spec_endpoint_lookup(entries, e) is None,
    decreases entries.len(),
{
    if entries.len() > 0 {
        assert forall|j: int| 0 <= j < entries.skip(1).len() implies !(#[trigger] entries.skip(
            1,
        )[j]).0.spec_same(e) by {
            assert(entries.skip(1)[j] == entries[j + 1]);
        }
        lemma_endpoint_lookup_absent(entries.skip(1), e);
    }
}

proof fn lemma_endpoint_lookup_absent_converse(entries: Seq<(Endpoint, u64)>, e: Endpoint)
    requires
        spec_endpoint_lookup(entries, e) is None,
    ensures
        forall|j: int| 0 <= j < entries.len() ==> !(#[trigger] entries[j]).0.spec_same(e),
    decreases entries.len(),
{
    if entries.len() > 0 {
        lemma_endpoint_lookup_absent_converse(entries.skip(1), e);
        assert forall|j: int| 0 <= j < entries.len() implies !(#[trigger] entries[j]).0.spec_same(
            e,
        ) by {
            if j > 0 {
                assert(entries.skip(1)[j - 1] == entries[j]);
            }
        }
    }
}

proof fn lemma_endpoint_lookup_at(entries: Seq<(Endpoint, u64)>, i: int, e: Endpoint)
    requires
        0 <= i < entries.len(),
        entries[i].0.spec_same(e),
        forall|j: int| 0 <= j < i ==> !(#[trigger] entries[j]).0.spec_same(e),
    ensures
        spec_endpoint_lookup(entries, e) == Some(entries[i].1),
    decreases entries.len(),
{
    if i > 0 {
        assert forall|j: int| 0 <= j < i - 1 implies !(#[trigger] entries.skip(1)[j]).0.spec_same(
            e,
        ) by {
            assert(entries.skip(1)[j] == entries[j + 1]);
        }
        assert(entries.skip(1)[i - 1] == entries[i]);
        lemma_endpoint_lookup_at(entries.skip(1), i - 1, e);
    }
}

/// Pushing an endpoint that is not yet registered.
proof fn lemma_endpoint_push(entries: Seq<(Endpoint, u64)>, e: Endpoint, w: u64)
    requires
        endpoints_unique(entries),
        forall|j: int| 0 <= j < entries.len() ==> !(#[trigger] entries[j]).0.spec_same(e),
    ensures
        endpoints_unique(entries.push((e, w))),
        spec_endpoint_lookup(entries.push((e, w)), e) == Some(w),
        forall|x: Endpoint|
            !x.spec_same(e) ==> spec_endpoint_lookup(entries.push((e, w)), x)
                == spec_endpoint_lookup(entries, x),
{
    let pushed = entries.push((e, w));
    assert forall|a: int, b: int| 0 <= a < b < pushed.len() implies !(
    #[trigger] pushed[a]).0.spec_same((#[trigger] pushed[b]).0) by {
        if b < pushed.len() - 1 {
            assert(pushed[a] == entries[a] && pushed[b] == entries[b]);
        } else {
            assert(pushed[a] == entries[a] && pushed[b] == (e, w));
            assert(!entries[a].0.spec_same(e));
        }
    }
    assert forall|x: Endpoint| true implies (!x.spec_same(e) ==> spec_endpoint_lookup(pushed, x)
        == spec_endpoint_lookup(entries, x)) && spec_endpoint_lookup(pushed, e) == Some(w) by {
        lemma_endpoint_push_one(entries, e, w, x);
    }
}

proof fn lemma_endpoint_push_one(entries: Seq<(Endpoint, u64)>, e: Endpoint, w: u64, x: Endpoint)
    requires
        forall|j: int| 0 <= j < entries.len() ==> !(#[trigger] entries[j]).0.spec_same(e),
    ensures
        !x.spec_same(e) ==> spec_endpoint_lookup(entries.push((e, w)), x) == spec_endpoint_lookup(
            entries,
            x,
        ),
        spec_endpoint_lookup(entries.push((e, w)), e) == Some(w),
    decreases entries.len(),
{
    let pushed = entries.push((e, w));
    if entries.len() == 0 {
        assert(pushed[0] == (e, w));
        assert(pushed[0].0.spec_same(e));
        if !x.spec_same(e) {
            assert(!pushed[0].0.spec_same(x));
        }
        assert(pushed.skip(1) =~= Seq::<(Endpoint, u64)>::empty());
    } else {
        assert(pushed[0] == entries[0]);
        assert(pushed.skip(1) =~= entries.skip(1).push((e, w)));
        assert forall|j: int| 0 <= j < entries.skip(1).len() implies !(#[trigger] entries.skip(
            1,
        )[j]).0.spec_same(e) by {
            assert(entries.skip(1)[j] == entries[j + 1]);
        }
        lemma_endpoint_push_one(entries.skip(1), e, w, x);
        assert(spec_endpoint_lookup(pushed.skip(1), x) == spec_endpoint_lookup(
            entries.skip(1).push((e, w)),
            x,
        ));
        assert(spec_endpoint_lookup(pushed.skip(1), e) == spec_endpoint_lookup(
            entries.skip(1).push((e, w)),
            e,
        ));
        assert(!entries[0].0.spec_same(e));
    }
}

/// Removing a registered endpoint from a unique registry.
proof fn lemma_endpoint_remove(entries: Seq<(Endpoint, u64)>, i: int, e: Endpoint)
    requires
        endpoints_unique(entries),
        0 <= i < entries.len(),
        entries[i].0.spec_same(e),
        forall|j: int| 0 <= j < i ==> !(#[trigger] entries[j]).0.spec_same(e),
    ensures
        endpoints_unique(entries.remove(i)),
        spec_endpoint_lookup(entries.remove(i), e) is None,
        forall|x: Endpoint|
            !x.spec_same(e) ==> spec_endpoint_lookup(entries.remove(i), x)
                == spec_endpoint_lookup(entries, x),
    decreases entries.len(),
{
    let removed = entries.remove(i);
    assert forall|a: int, b: int| 0 <= a < b < removed.len() implies !(
    #[trigger] removed[a]).0.spec_same((#[trigger] removed[b]).0) by {
        let a2: int = if a < i { a } else { a + 1 };
        let b2: int = if b < i { b } else { b + 1 };
        assert(removed[a] == entries[a2] && removed[b] == entries[b2]);
    }
    if i == 0 {
        assert(removed =~= entries.skip(1));
        assert forall|j: int| 0 <= j < removed.len() implies !(#[trigger] removed[j]).0.spec_same(
            e,
        ) by {
            assert(removed[j] == entries[j + 1]);
            assert(!entries[0].0.spec_same(entries[j + 1].0));
            lemma_spec_same_transfer(entries[0].0, entries[j + 1].0, e);
        }
        lemma_endpoint_lookup_absent(removed, e);
    } else {
        assert(!entries[0].0.spec_same(e));
        assert(removed[0] == entries[0]);
        assert(removed.skip(1) =~= entries.skip(1).remove(i - 1));
        assert forall|j: int| 0 <= j < i - 1 implies !(#[trigger] entries.skip(1)[j]).0.spec_same(
            e,
        ) by {
            assert(entries.skip(1)[j] == entries[j + 1]);
        }
        assert(entries.skip(1)[i - 1] == entries[i]);
        assert(endpoints_unique(entries.skip(1))) by {
            assert forall|a: int, b: int|
                0 <= a < b < entries.skip(1).len() implies !(#[trigger] entries.skip(
                1,
            )[a]).0.spec_same((#[trigger] entries.skip(1)[b]).0) by {
                assert(entries.skip(1)[a] == entries[a + 1]);
                assert(entries.skip(1)[b] == entries[b + 1]);
            }
        }
        lemma_endpoint_remove(entries.skip(1), i - 1, e);
    }
}

/// `spec_same` carries across a shared witness: two endpoints that both
/// match the same one match each other.
proof fn lemma_spec_same_transfer(a: Endpoint, b: Endpoint, e: Endpoint)
    requires
        !a.spec_same(b),
        a.spec_same(e),
    ensures
        !b.spec_same(e),
{
}

} // verus!
