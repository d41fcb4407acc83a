use vstd::prelude::*;
use std::collections::HashMap;

verus! {

broadcast use vstd::std_specs::hash::group_hash_axioms;

/// An outgoing frame for the transport: a request when it carries an
/// identifier, a notification when it does not.
pub struct RequestFrame {
    pub id: Option<u64>,
    pub method: String,
    pub params: serde_json::Value,
}

/// An inbound frame, as the backend listener decoded it.
pub enum Incoming {
    /// A reply to the request with identifier `id`.
    Response { id: u64, result: serde_json::Value },
    /// A call the backend initiated, with no identifier.
    Notification { method: String, params: serde_json::Value },
}

/// What the correlator decided for one inbound frame.
pub enum Dispatch<C> {
    /// The continuation of the answered request, to be run with `result`.
    Complete { continuation: C, result: serde_json::Value },
    /// A backend notification, for the handler.
    Notify { method: String, params: serde_json::Value },
    /// A response whose identifier has no pending entry: stale or duplicate.
    Discarded { id: u64 },
}

/// Abstract state of the correlator.
pub struct CorrelatorModel<C> {
    /// The identifier the next request receives.
    pub next_id: nat,
    /// The pending request table.
    pub pending: Map<u64, C>,
}

impl<C> CorrelatorModel<C> {
    /// Identifiers start at one, and every live entry was assigned before
    /// the next identifier, so no live identifier is handed out again.
    pub open spec fn wf(self) -> bool {
        &&& self.next_id >= 1
        &&& forall|id: u64| #[trigger] self.pending.contains_key(id) ==> 1 <= id < self.next_id
    }
}

/// The table left after responses carrying `ids` arrived, in order.
pub open spec fn pending_after<C>(m: Map<u64, C>, ids: Seq<u64>) -> Map<u64, C>
    decreases ids.len(),
{
    if ids.len() == 0 {
        m
    } else {
        pending_after(m, ids.drop_last()).remove(ids.last())
    }
}

/// The identifiers whose continuations fired while responses carrying `ids`
/// arrived, in order.
pub open spec fn fired<C>(m: Map<u64, C>, ids: Seq<u64>) -> Seq<u64>
    decreases ids.len(),
{
    if ids.len() == 0 {
        Seq::empty()
    } else {
        let prev = ids.drop_last();
        if pending_after(m, prev).contains_key(ids.last()) {
            fired(m, prev).push(ids.last())
        } else {
            fired(m, prev)
        }
    }
}

/// How often `i` occurs in `s`.
pub open spec fn occurrences(s: Seq<u64>, i: u64) -> nat
    decreases s.len(),
{
    if s.len() == 0 {
        0
    } else {
        occurrences(s.drop_last(), i) + if s.last() == i { 1nat } else { 0nat }
    }
}

/// Correlation exactness: over any sequence of inbound responses, the
/// continuation of identifier `i` fires exactly once if `i` was pending and
/// at least one response carries it, and never otherwise. Responses with an
/// identifier that is not pending leave the table as it was.
pub proof fn lemma_correlation_exact<C>(m: Map<u64, C>, ids: Seq<u64>, i: u64)
    ensures
        occurrences(fired(m, ids), i) == if m.contains_key(i) && occurrences(ids, i) > 0 {
            1nat
        } else {
            0nat
        },
        pending_after(m, ids).contains_key(i) <==> (m.contains_key(i) && occurrences(ids, i)
            == 0),
        forall|j: u64| !m.contains_key(j) ==> !(#[trigger] pending_after(m, ids).contains_key(j)),
    decreases ids.len(),
{
    if ids.len() > 0 {
        let prev = ids.drop_last();
        lemma_correlation_exact(m, prev, i);
        let before = pending_after(m, prev);
        if before.contains_key(ids.last()) {
            assert(fired(m, ids) == fired(m, prev).push(ids.last()));
            assert(fired(m, ids).drop_last() =~= fired(m, prev));
        }
    }
}

/// Tracks in-flight requests and matches inbound responses to them.
pub struct Correlator<C> {
    next_id: u64,
    pending: HashMap<u64, C>,
}

impl<C> View for Correlator<C> {
    type V = CorrelatorModel<C>;

    closed spec fn view(&self) -> CorrelatorModel<C> {
        CorrelatorModel { next_id: self.next_id as nat, pending: self.pending@ }
    }
}

/// A notification frame: fire-and-forget, with no identifier and no entry in
/// any table.
pub fn send_notification(method: String, params: serde_json::Value) -> (f: RequestFrame)
    ensures
        f.id is None,
        f.method == method,
        f.params == params,
{
    RequestFrame { id: None, method, params }
}

impl<C> Correlator<C> {
    pub open spec fn wf(&self) -> bool {
        self@.wf()
    }

    /// A correlator with no request in flight; the first request gets
    /// identifier 1.
    pub fn new() -> (r: Correlator<C>)
        ensures
            r@.next_id == 1,
            r@.pending == Map::<u64, C>::empty(),
            r.wf(),
    {
        Correlator { next_id: 1, pending: HashMap::new() }
    }

    /// Whether a request with identifier `id` awaits its response.
    pub fn is_pending(&self, id: u64) -> (r: bool)
        ensures
            r == self@.pending.contains_key(id),
    {
        self.pending.contains_key(&id)
    }

    /// Assigns the next identifier to a request, records `continuation`
    /// under it and returns the frame for the transport. Returns `None`, and
    /// changes nothing, only once every identifier has been handed out.
    pub fn send_request(&mut self, method: String, params: serde_json::Value, continuation: C) -> (r:
        Option<RequestFrame>)
        requires
            old(self).wf(),
        ensures
            final(self).wf(),
            r is None <==> old(self)@.next_id == u64::MAX,
            r is None ==> final(self)@ == old(self)@,
            r matches Some(f) ==> {
                &&& f.id == Some(old(self)@.next_id as u64)
                &&& f.method == method
                &&& f.params == params
                &&& !old(self)@.pending.contains_key(old(self)@.next_id as u64)
                &&& final(self)@.pending == old(self)@.pending.insert(
                    old(self)@.next_id as u64,
                    continuation,
                )
                &&& final(self)@.next_id == old(self)@.next_id + 1
            },
    {
        if self.next_id == u64::MAX {
            return None;
        }
        let id = self.next_id;
        self.pending.insert(id, continuation);
        self.next_id = id + 1;
        assert forall|k: u64| #[trigger] self@.pending.contains_key(k) implies 1 <= k
            < self@.next_id by {
            if k != id {
                assert(old(self)@.pending.contains_key(k));
            }
        }
        Some(RequestFrame { id: Some(id), method, params })
    }

    /// Classifies one inbound frame. A response whose identifier is pending
    /// removes the entry and hands back its continuation with the result; one
    /// whose identifier is not pending changes nothing and is discarded. A
    /// notification goes to the handler.
    pub fn dispatch(&mut self, frame: Incoming) -> (d: Dispatch<C>)
        requires
            old(self).wf(),
        ensures
            final(self).wf(),
            match frame {
                Incoming::Response { id, result } => if old(self)@.pending.contains_key(id) {
                    &&& d == (Dispatch::Complete { continuation: old(self)@.pending[id], result })
                    &&& final(self)@.pending == old(self)@.pending.remove(id)
                    &&& final(self)@.next_id == old(self)@.next_id
                } else {
                    &&& d == (Dispatch::<C>::Discarded { id })
                    &&& final(self)@ == old(self)@
                },
                Incoming::Notification { method, params } => {
                    &&& d == (Dispatch::<C>::Notify { method, params })
                    &&& final(self)@ == old(self)@
                },
            },
    {
        match frame {
            Incoming::Response { id, result } => {
                match self.pending.remove(&id) {
                    Some(continuation) => Dispatch::Complete { continuation, result },
                    None => {
                        assert(self.pending@ =~= old(self).pending@.remove(id));
                        assert(self.pending@ =~= old(self).pending@);
                        Dispatch::Discarded { id }
                    },
                }
            },
            Incoming::Notification { method, params } => Dispatch::Notify { method, params },
        }
    }
}

} // verus!
