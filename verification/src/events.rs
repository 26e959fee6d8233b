use vstd::prelude::*;

use crate::platform::{new_id, uuid_version};

verus! {

/// Calls `<serde_json::Value as Clone>::clone`, which makes a deep copy: the
/// copy is the same JSON value.
#[verifier::external_body]
fn copy_json(v: &serde_json::Value) -> (c: serde_json::Value)
    ensures
        c == *v,
{
    v.clone()
}

/// A domain event with its routing metadata; `payload` is the event body as
/// JSON and `occurred_at` is in microseconds since the Unix epoch.
#[derive(Debug)]
pub struct EventEnvelope {
    /// Unique id of this occurrence.
    pub id: u128,
    /// Machine-readable event type, e.g. "order.created".
    pub event_type: String,
    /// Id of the aggregate that produced the event.
    pub aggregate_id: u128,
    /// Aggregate kind, e.g. "order", "courier".
    pub aggregate_type: String,
    pub occurred_at: i64,
    pub payload: serde_json::Value,
}

/// Equal field by field (texts compared by content).
pub open spec fn same_envelope(a: EventEnvelope, b: EventEnvelope) -> bool {
    &&& a.id == b.id
    &&& a.event_type@ == b.event_type@
    &&& a.aggregate_id == b.aggregate_id
    &&& a.aggregate_type@ == b.aggregate_type@
    &&& a.occurred_at == b.occurred_at
    &&& a.payload == b.payload
}

impl EventEnvelope {
    /// An envelope with a fresh id around an already serialised payload.
    pub fn new(
        event_type: &str,
        aggregate_id: u128,
        aggregate_type: &str,
        occurred_at: i64,
        payload: serde_json::Value,
    ) -> (e: EventEnvelope)
        ensures
            e.id != 0,
            uuid_version(e.id) == 7,
            e.event_type@ == event_type@,
            e.aggregate_id == aggregate_id,
            e.aggregate_type@ == aggregate_type@,
            e.occurred_at == occurred_at,
            e.payload == payload,
    {
        EventEnvelope {
            id: new_id(),
            event_type: event_type.to_owned(),
            aggregate_id,
            aggregate_type: aggregate_type.to_owned(),
            occurred_at,
            payload,
        }
    }

    /// A copy of the envelope.
    pub fn duplicate(&self) -> (c: EventEnvelope)
        ensures
            same_envelope(c, *self),
    {
        EventEnvelope {
            id: self.id,
            event_type: self.event_type.clone(),
            aggregate_id: self.aggregate_id,
            aggregate_type: self.aggregate_type.clone(),
            occurred_at: self.occurred_at,
            payload: copy_json(&self.payload),
        }
    }
}

/// Errors an event bus may report.
#[derive(Debug, Clone, PartialEq, Eq)]
pub enum EventBusError {
    Serialization(String),
    Transport(String),
}

/// An event bus that keeps every published envelope in memory, in order.
pub struct InMemoryEventBus {
    events: Vec<EventEnvelope>,
}

impl InMemoryEventBus {
    /// The published envelopes, oldest first.
    pub closed spec fn published(&self) -> Seq<EventEnvelope> {
        self.events@
    }

    /// An empty bus.
    pub fn new() -> (b: InMemoryEventBus)
        ensures
            b.published() == Seq::<EventEnvelope>::empty(),
    {
        InMemoryEventBus { events: Vec::new() }
    }

    /// Copies of the published envelopes, oldest first.
    pub fn events(&self) -> (v: Vec<EventEnvelope>)
        ensures
            v@.len() == self.published().len(),
            forall|i: int| 0 <= i < v@.len() ==> same_envelope(#[trigger] v@[i], self.published()[i]),
    {
        let mut v: Vec<EventEnvelope> = Vec::new();
        let n = self.events.len();
        let mut i: usize = 0;
        while i < n
            invariant
                n == self.events@.len(),
                i <= n,
                v@.len() == i,
                forall|k: int| 0 <= k < i ==> same_envelope(#[trigger] v@[k], self.events@[k]),
            decreases n - i,
        {
            v.push(self.events[i].duplicate());
            i = i + 1;
        }
        v
    }

    pub fn len(&self) -> (n: usize)
        ensures
            n == self.published().len(),
    {
        self.events.len()
    }

    pub fn is_empty(&self) -> (b: bool)
        ensures
            b == (self.published().len() == 0),
    {
        self.len() == 0
    }

    /// Stores a copy of `event` after the ones already published.
    pub fn publish(&mut self, event: &EventEnvelope) -> (r: Result<(), EventBusError>)
        ensures
            r is Ok,
            final(self).published().len() == old(self).published().len() + 1,
            final(self).published().drop_last() == old(self).published(),
            same_envelope(final(self).published().last(), *event),
    {
        self.events.push(event.duplicate());
        assert(self.events@.drop_last() =~= old(self).events@);
        Ok(())
    }
}

} // verus!
