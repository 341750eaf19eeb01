//! The correlation table and the routing of incoming messages: each request
//! gets a fresh id and a waiter; each response goes to the waiter registered
//! under its id; each event goes to the event stream.

use vstd::prelude::*;
use std::collections::HashMap;
use serde_json::Value;
use crate::codec::{classification, decode_line, frame_request, request_text, DecodeError, Incoming};
use crate::codec::{shape_is_event, shape_response_id};
use crate::json::{is_json_text, line_shape, no_newline};

verus! {

broadcast use vstd::std_specs::hash::group_hash_axioms;

/// Why a call could not be started.
#[derive(Debug, Clone, Copy, PartialEq, Eq, Structural)]
pub enum CallError {
    /// The backend's output has ended: nothing will answer any more.
    Closed,
    /// Every id has been used.
    IdsExhausted,
}

/// Where an incoming message goes.
pub enum Routed<W> {
    /// To the waiter of the request that it answers.
    Deliver { waiter: W, result: Value },
    /// To the event stream.
    Emit { message: Value },
    /// Nowhere: no request with this id is outstanding.
    Unmatched { id: u64, result: Value },
}

/// The outcome of starting a call: the next id, unless the connection is
/// closed or the ids are used up.
pub open spec fn call_outcome(closed: bool, last_id: u64) -> Result<u64, CallError> {
    if closed {
        Err(CallError::Closed)
    } else if last_id == u64::MAX {
        Err(CallError::IdsExhausted)
    } else {
        Ok((last_id + 1) as u64)
    }
}

/// Routing one message against the outstanding waiters: the table after it,
/// and where the message went.
pub open spec fn routed<W>(pending: Map<u64, W>, msg: Incoming) -> (Map<u64, W>, Routed<W>) {
    match msg {
        Incoming::Response { id, result } => {
            if pending.contains_key(id) {
                (pending.remove(id), Routed::Deliver { waiter: pending[id], result })
            } else {
                (pending, Routed::Unmatched { id, result })
            }
        },
        Incoming::Event { message } => (pending, Routed::Emit { message }),
    }
}

/// The client's side of the connection: the waiters of the outstanding
/// requests, keyed by id, the last id handed out, and whether the backend's
/// output has ended.
pub struct Bridge<W> {
    pending: HashMap<u64, W>,
    last_id: u64,
    closed: bool,
}

impl<W> Bridge<W> {
    /// The outstanding waiters, by id.
    pub closed spec fn pending(&self) -> Map<u64, W> {
        self.pending@
    }

    /// The last id handed out; 0 before the first.
    pub closed spec fn last_id(&self) -> u64 {
        self.last_id
    }

    /// Whether the backend's output has ended.
    pub closed spec fn is_closed(&self) -> bool {
        self.closed
    }

    /// Every outstanding id was handed out already: ids run from 1 to `last_id`.
    pub closed spec fn wf(&self) -> bool {
        forall|k: u64| #[trigger] self.pending@.contains_key(k) ==> 1 <= k <= self.last_id
    }

    /// A bridge with nothing outstanding.
    pub fn new() -> (b: Self)
        ensures
            b.wf(),
            b.pending() == Map::<u64, W>::empty(),
            b.last_id() == 0,
            !b.is_closed(),
    {
        Bridge { pending: HashMap::new(), last_id: 0, closed: false }
    }

    /// Whether the backend's output has ended.
    pub fn closed(&self) -> (r: bool)
        ensures
            r == self.is_closed(),
    {
        self.closed
    }

    /// The number of outstanding requests.
    pub fn outstanding(&self) -> (r: usize)
        ensures
            r == self.pending().len(),
    {
        self.pending.len()
    }

    /// Starts a call: takes the next id and registers `waiter` under it,
    /// before anything is sent.
    pub fn begin_call(&mut self, waiter: W) -> (r: Result<u64, CallError>)
        requires
            old(self).wf(),
        ensures
            final(self).wf(),
            r == call_outcome(old(self).is_closed(), old(self).last_id()),
            final(self).is_closed() == old(self).is_closed(),
            match r {
                Ok(id) => {
                    &&& !old(self).pending().contains_key(id)
                    &&& final(self).pending() == old(self).pending().insert(id, waiter)
                    &&& final(self).last_id() == id
                },
                Err(_) => {
                    &&& final(self).pending() == old(self).pending()
                    &&& final(self).last_id() == old(self).last_id()
                },
            },
    {
        if self.closed {
            return Err(CallError::Closed);
        }
        if self.last_id == u64::MAX {
            return Err(CallError::IdsExhausted);
        }
        let id = self.last_id + 1;
        assert(!self.pending@.contains_key(id));
        match self.register(id, waiter) {
            Ok(()) => Ok(id),
            Err(_) => Err(CallError::IdsExhausted),
        }
    }

    /// Registers `waiter` under `id`. An id that is outstanding already, or
    /// 0, is refused and the waiter handed back: nothing is overwritten.
    pub fn register(&mut self, id: u64, waiter: W) -> (r: Result<(), W>)
        requires
            old(self).wf(),
        ensures
            final(self).wf(),
            final(self).is_closed() == old(self).is_closed(),
            r is Err <==> (id == 0 || old(self).pending().contains_key(id)),
            match r {
                Ok(()) => {
                    &&& final(self).pending() == old(self).pending().insert(id, waiter)
                    &&& final(self).last_id() == (if id > old(self).last_id() {
                        id
                    } else {
                        old(self).last_id()
                    })
                },
                Err(w) => {
                    &&& w == waiter
                    &&& final(self).pending() == old(self).pending()
                    &&& final(self).last_id() == old(self).last_id()
                },
            },
    {
        if id == 0 || self.pending.contains_key(&id) {
            return Err(waiter);
        }
        if id > self.last_id {
            self.last_id = id;
        }
        self.pending.insert(id, waiter);
        assert forall|k: u64| #[trigger] self.pending@.contains_key(k) implies 1 <= k
            <= self.last_id by {
            if k != id {
                assert(old(self).pending@.contains_key(k));
            }
        }
        Ok(())
    }

    /// Takes the waiter registered under `id`, if there is one.
    pub fn resolve(&mut self, id: u64) -> (r: Option<W>)
        requires
            old(self).wf(),
        ensures
            final(self).wf(),
            r == (if old(self).pending().contains_key(id) {
                Some(old(self).pending()[id])
            } else {
                None::<W>
            }),
            final(self).pending() == old(self).pending().remove(id),
            final(self).last_id() == old(self).last_id(),
            final(self).is_closed() == old(self).is_closed(),
    {
        let r = self.pending.remove(&id);
        assert forall|k: u64| #[trigger] self.pending@.contains_key(k) implies 1 <= k
            <= self.last_id by {
            assert(old(self).pending@.contains_key(k));
        }
        r
    }

    /// Routes one incoming message: a response to the waiter registered under
    /// its id, which leaves the table; an event to the event stream.
    pub fn dispatch(&mut self, msg: Incoming) -> (r: Routed<W>)
        requires
            old(self).wf(),
        ensures
            final(self).wf(),
            (final(self).pending(), r) == routed(old(self).pending(), msg),
            final(self).last_id() == old(self).last_id(),
            final(self).is_closed() == old(self).is_closed(),
    {
        match msg {
            Incoming::Response { id, result } => {
                match self.resolve(id) {
                    Some(waiter) => Routed::Deliver { waiter, result },
                    None => Routed::Unmatched { id, result },
                }
            },
            Incoming::Event { message } => Routed::Emit { message },
        }
    }

    /// Starts a call and writes its request line. The waiter is registered
    /// before the line exists, so no response can come before its waiter.
    pub fn start_request(&mut self, method: &str, params: &str, waiter: W) -> (r: Result<
        (u64, String),
        CallError,
    >)
        requires
            old(self).wf(),
            no_newline(params@),
        ensures
            final(self).wf(),
            final(self).is_closed() == old(self).is_closed(),
            match r {
                Ok((id, line)) => {
                    &&& call_outcome(old(self).is_closed(), old(self).last_id()) == Ok::<
                        u64,
                        CallError,
                    >(id)
                    &&& final(self).pending() == old(self).pending().insert(id, waiter)
                    &&& final(self).last_id() == id
                    &&& line@ == request_text(id as nat, method@, params@)
                    &&& no_newline(line@)
                },
                Err(e) => {
                    &&& call_outcome(old(self).is_closed(), old(self).last_id()) == Err::<
                        u64,
                        CallError,
                    >(e)
                    &&& final(self).pending() == old(self).pending()
                    &&& final(self).last_id() == old(self).last_id()
                },
            },
    {
        match self.begin_call(waiter) {
            Ok(id) => Ok((id, frame_request(id, method, params))),
            Err(e) => Err(e),
        }
    }

    /// Reads one line of the backend's output: decodes it and routes the
    /// message. A line that is not a message changes nothing.
    pub fn handle_line(&mut self, line: &str) -> (r: Result<Routed<W>, DecodeError>)
        requires
            old(self).wf(),
        ensures
            final(self).wf(),
            final(self).last_id() == old(self).last_id(),
            final(self).is_closed() == old(self).is_closed(),
            r == Err::<Routed<W>, DecodeError>(DecodeError::Malformed) <==> !is_json_text(line@),
            r is Err ==> final(self).pending() == old(self).pending(),
            is_json_text(line@) ==> match shape_response_id(line_shape(line@)) {
                Some(k) => if old(self).pending().contains_key(k) {
                    &&& r matches Ok(Routed::Deliver { waiter, .. })
                    &&& r->Ok_0->Deliver_waiter == old(self).pending()[k]
                    &&& final(self).pending() == old(self).pending().remove(k)
                } else {
                    &&& r matches Ok(Routed::Unmatched { id, .. })
                    &&& r->Ok_0->Unmatched_id == k
                    &&& final(self).pending() == old(self).pending()
                },
                None => if shape_is_event(line_shape(line@)) {
                    &&& r matches Ok(Routed::Emit { .. })
                    &&& final(self).pending() == old(self).pending()
                } else {
                    &&& r == Err::<Routed<W>, DecodeError>(DecodeError::UnrecognizedShape)
                    &&& final(self).pending() == old(self).pending()
                },
            },
    {
        match decode_line(line) {
            Ok(m) => Ok(self.dispatch(m)),
            Err(e) => Err(e),
        }
    }

    /// Marks the connection closed and hands back every outstanding waiter,
    /// so that each can be failed. No call can start afterwards.
    pub fn close(&mut self) -> (r: HashMap<u64, W>)
        requires
            old(self).wf(),
        ensures
            final(self).wf(),
            r@ == old(self).pending(),
            final(self).pending() == Map::<u64, W>::empty(),
            final(self).is_closed(),
            final(self).last_id() == old(self).last_id(),
    {
        let mut taken: HashMap<u64, W> = HashMap::new();
        std::mem::swap(&mut taken, &mut self.pending);
        self.closed = true;
        taken
    }
}


/// What the reading of the backend's output does after a line that is not a
/// message, or a response that matches no outstanding request.
#[derive(Debug, Clone, Copy, PartialEq, Eq, Structural)]
pub enum Policy {
    /// The session ends: the line shows that the two sides disagree.
    Strict,
    /// The line is reported and reading goes on.
    Relaxed,
}

/// Whether reading goes on after a line with this outcome.
pub open spec fn keeps_reading<W>(policy: Policy, outcome: Result<Routed<W>, DecodeError>) -> bool {
    match outcome {
        Ok(Routed::Deliver { .. }) | Ok(Routed::Emit { .. }) => true,
        Ok(Routed::Unmatched { .. }) | Err(_) => policy == Policy::Relaxed,
    }
}

/// Decides whether reading goes on after a line with this outcome: always
/// after a delivered response or an event; after a bad line or an unmatched
/// response only under the relaxed policy.
pub fn keep_reading<W>(policy: Policy, outcome: &Result<Routed<W>, DecodeError>) -> (r: bool)
    ensures
        r == keeps_reading(policy, *outcome),
{
    match outcome {
        Ok(Routed::Deliver { .. }) => true,
        Ok(Routed::Emit { .. }) => true,
        _ => policy == Policy::Relaxed,
    }
}

/// Routing messages one after another, starting from the given table: where
/// each of them went.
pub open spec fn route_all<W>(pending: Map<u64, W>, msgs: Seq<Incoming>) -> Seq<Routed<W>>
    decreases msgs.len(),
{
    if msgs.len() == 0 {
        Seq::empty()
    } else {
        let (next, out) = routed(pending, msgs[0]);
        seq![out] + route_all(next, msgs.drop_first())
    }
}

/// The messages handed to the event stream, in order.
pub open spec fn emitted<W>(outs: Seq<Routed<W>>) -> Seq<Value>
    decreases outs.len(),
{
    if outs.len() == 0 {
        Seq::empty()
    } else {
        let head = match outs[0] {
            Routed::Emit { message } => seq![message],
            _ => Seq::empty(),
        };
        head + emitted(outs.drop_first())
    }
}

/// The events among the messages, in order.
pub open spec fn events_of(msgs: Seq<Incoming>) -> Seq<Value>
    decreases msgs.len(),
{
    if msgs.len() == 0 {
        Seq::empty()
    } else {
        let head = match msgs[0] {
            Incoming::Event { message } => seq![message],
            _ => Seq::empty(),
        };
        head + events_of(msgs.drop_first())
    }
}

/// The id of a response; `None` for an event.
pub open spec fn response_id(m: Incoming) -> Option<u64> {
    match m {
        Incoming::Response { id, .. } => Some(id),
        Incoming::Event { .. } => None,
    }
}

/// Whether a response with id `k` is among the first `i` messages.
pub open spec fn answered_before(msgs: Seq<Incoming>, i: int, k: u64) -> bool {
    exists|j: int| 0 <= j < i && #[trigger] response_id(msgs[j]) == Some(k)
}

proof fn lemma_route_all_len<W>(pending: Map<u64, W>, msgs: Seq<Incoming>)
    ensures
        route_all(pending, msgs).len() == msgs.len(),
    decreases msgs.len(),
{
    if msgs.len() > 0 {
        let (next, out) = routed(pending, msgs[0]);
        lemma_route_all_len(next, msgs.drop_first());
    }
}

/// Events reach the event stream in the order in which they were read,
/// whatever responses come between them.
pub proof fn lemma_events_in_order<W>(pending: Map<u64, W>, msgs: Seq<Incoming>)
    ensures
        emitted(route_all(pending, msgs)) == events_of(msgs),
    decreases msgs.len(),
{
    if msgs.len() > 0 {
        let (next, out) = routed(pending, msgs[0]);
        lemma_events_in_order(next, msgs.drop_first());
        let outs = route_all(pending, msgs);
        assert(outs[0] == out);
        assert(outs.drop_first() =~= route_all(next, msgs.drop_first()));
    }
}

/// Each response reaches a waiter exactly when its id is outstanding:
/// registered, and not answered by an earlier message. It then reaches the
/// waiter registered under its own id, with its result unchanged, in whatever
/// order the responses arrive.
pub proof fn lemma_delivery_by_id<W>(pending: Map<u64, W>, msgs: Seq<Incoming>, i: int)
    requires
        0 <= i < msgs.len(),
    ensures
        route_all(pending, msgs)[i] is Deliver <==> {
            &&& response_id(msgs[i]) is Some
            &&& pending.contains_key(response_id(msgs[i]).unwrap())
            &&& !answered_before(msgs, i, response_id(msgs[i]).unwrap())
        },
        match (route_all(pending, msgs)[i], msgs[i]) {
            (Routed::Deliver { waiter, result }, Incoming::Response { id, result: sent }) => {
                waiter == pending[id] && result == sent
            },
            _ => true,
        },
    decreases i,
{
    let (next, out) = routed(pending, msgs[0]);
    let rest = msgs.drop_first();
    let outs = route_all(pending, msgs);
    lemma_route_all_len(pending, msgs);
    lemma_route_all_len(next, rest);
    assert(outs[0] == out);
    if i == 0 {
        if let Some(k) = response_id(msgs[0]) {
            assert(!answered_before(msgs, 0, k));
        }
    } else {
        lemma_delivery_by_id(next, rest, i - 1);
        assert(outs.drop_first() =~= route_all(next, rest));
        assert(outs[i] == route_all(next, rest)[i - 1]);
        assert(rest[i - 1] == msgs[i]);
        if let Some(k) = response_id(msgs[i]) {
            if answered_before(rest, i - 1, k) {
                let j = choose|j: int| 0 <= j < i - 1 && #[trigger] response_id(rest[j]) == Some(k);
                assert(response_id(msgs[j + 1]) == Some(k));
            }
            if answered_before(msgs, i, k) && response_id(msgs[0]) != Some(k) {
                let j = choose|j: int| 0 <= j < i && #[trigger] response_id(msgs[j]) == Some(k);
                assert(j != 0);
                assert(response_id(rest[j - 1]) == Some(k));
            }
            if response_id(msgs[0]) == Some(k) {
                assert(answered_before(msgs, i, k));
            }
        }
    }
}

/// The id that a call takes is never outstanding: it is larger than every
/// outstanding id, so no id is registered twice.
pub proof fn lemma_fresh_id<W>(b: Bridge<W>)
    requires
        b.wf(),
    ensures
        call_outcome(b.is_closed(), b.last_id()) matches Ok(id) ==> {
            &&& !b.pending().contains_key(id)
            &&& forall|k: u64| #[trigger] b.pending().contains_key(k) ==> k < id
        },
{
}

/// Once the connection is closed and its waiters handed back, every call
/// fails at once and no later message reaches a waiter.
pub proof fn lemma_closed_fails_fast<W>(b: Bridge<W>, msgs: Seq<Incoming>)
    requires
        b.is_closed(),
        b.pending() == Map::<u64, W>::empty(),
    ensures
        call_outcome(b.is_closed(), b.last_id()) == Err::<u64, CallError>(CallError::Closed),
        forall|i: int| 0 <= i < msgs.len() ==> !(#[trigger] route_all(b.pending(), msgs)[i] is Deliver),
{
    assert forall|i: int| 0 <= i < msgs.len() implies !(#[trigger] route_all(b.pending(), msgs)[i] is Deliver) by {
        lemma_delivery_by_id(b.pending(), msgs, i);
    }
}

/// A response to a request, read back with the request's id, reaches the
/// waiter registered for that request with its result unchanged, and leaves
/// the table as it was before the request.
pub proof fn lemma_response_round_trip<W>(
    pending: Map<u64, W>,
    id: u64,
    waiter: W,
    result: Value,
    has_method: bool,
    has_params: bool,
    message: Value,
)
    requires
        !pending.contains_key(id),
    ensures
        classification(Some(Some(id)), Some(result), has_method, has_params, message)
            == Ok::<Incoming, DecodeError>(Incoming::Response { id, result }),
        routed(pending.insert(id, waiter), Incoming::Response { id, result }) == (
            pending,
            Routed::Deliver { waiter, result },
        ),
{
    assert(pending.insert(id, waiter).remove(id) =~= pending);
}

} // verus!
