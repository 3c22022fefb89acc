//! Synchronous, in-process event broadcast: every observer registered at
//! the time of a dispatch is invoked exactly once per event, in
//! registration order, on the caller's thread. An observer that reports
//! failure does not suppress delivery to the observers after it.

use vstd::prelude::*;

use crate::Event;
use crate::EventView;

verus! {

/// An observer of session events. `delivered` is the abstract record of
/// the events the observer has seen, oldest first; handling an event must
/// append exactly that event to the record.
pub trait EventSink: Sized {
    /// The events this observer has seen, oldest first.
    spec fn delivered(&self) -> Seq<EventView>;

    /// Observe one event. The result reports the observer's own success
    /// and is ignored by dispatch: a failing observer cannot suppress
    /// delivery to the others.
    fn on_event(&mut self, event: &Event) -> (ok: bool)
        ensures
            final(self).delivered() == old(self).delivered().push(event@),
    ;
}

/// The views of a sequence of events, in order.
pub open spec fn views_of_events(events: Seq<Event>) -> Seq<EventView> {
    Seq::new(events.len(), |i: int| events[i]@)
}

/// The ordered collection of registered observers: append-only, invoked in
/// registration order on every dispatched event.
pub struct EventDispatcher<S> {
    /// The observers, in registration order.
    pub sinks: Vec<S>,
}

impl<S: EventSink> EventDispatcher<S> {
    /// An empty observer list.
    pub fn new() -> (r: Self)
        ensures
            r.sinks@.len() == 0,
    {
        EventDispatcher { sinks: Vec::new() }
    }

    /// Append an observer; observers are never removed.
    pub fn register(&mut self, sink: S)
        ensures
            final(self).sinks@ == old(self).sinks@.push(sink),
    {
        self.sinks.push(sink);
    }

    /// How many observers are registered.
    pub fn count(&self) -> (n: usize)
        ensures
            n == self.sinks@.len(),
    {
        self.sinks.len()
    }

    /// Law: deliver one event to every registered observer, exactly once
    /// each, walking the observers in registration order. Each observer's
    /// record is extended by exactly this event, whether or not observers
    /// before it reported failure.
    pub fn dispatch(&mut self, event: &Event)
        ensures
            final(self).sinks@.len() == old(self).sinks@.len(),
            forall|i: int|
                0 <= i < old(self).sinks@.len() ==> #[trigger] final(self).sinks@[i].delivered()
                    == old(self).sinks@[i].delivered().push(event@),
    {
        let ghost sinks0 = self.sinks@;
        let n = self.sinks.len();
        let mut i: usize = 0;
        while i < n
            invariant
                i <= n,
                n == sinks0.len(),
                self.sinks@.len() == sinks0.len(),
                forall|j: int|
                    0 <= j < i ==> #[trigger] self.sinks@[j].delivered() == sinks0[j].delivered(
                    ).push(event@),
                forall|j: int| i <= j < sinks0.len() ==> #[trigger] self.sinks@[j] == sinks0[j],
            decreases n - i,
        {
            let mut sink = self.sinks.remove(i);
            let _observer_ok = sink.on_event(event);
            self.sinks.insert(i, sink);
            i += 1;
        }
    }

    /// Deliver a batch of events in order: every observer sees every event
    /// exactly once, events in batch order.
    pub fn dispatch_all(&mut self, events: Vec<Event>)
        ensures
            final(self).sinks@.len() == old(self).sinks@.len(),
            events@.len() == 0 ==> final(self).sinks@ == old(self).sinks@,
            forall|i: int|
                0 <= i < old(self).sinks@.len() ==> #[trigger] final(self).sinks@[i].delivered()
                    == old(self).sinks@[i].delivered() + views_of_events(events@),
    {
        let ghost sinks0 = self.sinks@;
        let ghost all = events@;
        let mut events = events;
        let mut k: usize = 0;
        let n = events.len();
        while k < n
            invariant
                k <= n,
                n == all.len(),
                events@ == all,
                self.sinks@.len() == sinks0.len(),
                n == 0 ==> self.sinks@ == sinks0,
                forall|i: int|
                    0 <= i < sinks0.len() ==> #[trigger] self.sinks@[i].delivered() == sinks0[i].delivered()
                        + views_of_events(all.take(k as int)),
            decreases n - k,
        {
            let ghost before = self.sinks@;
            self.dispatch(&events[k]);
            proof {
                assert forall|i: int| 0 <= i < sinks0.len() implies #[trigger] self.sinks@[i].delivered()
                    == sinks0[i].delivered() + views_of_events(all.take(k as int + 1)) by {
                    assert(self.sinks@[i].delivered() == before[i].delivered().push(all[k as int]@));
                    assert(views_of_events(all.take(k as int + 1)) =~= views_of_events(
                        all.take(k as int),
                    ).push(all[k as int]@));
                    assert(sinks0[i].delivered() + views_of_events(all.take(k as int + 1)) =~= (
                    sinks0[i].delivered() + views_of_events(all.take(k as int))).push(
                        all[k as int]@,
                    ));
                }
            }
            k += 1;
        }
        proof {
            assert(all.take(n as int) =~= all);
        }
    }
}

/// An observer that records every event it sees; its report of success is
/// configurable, so tests can show that a failing observer does not
/// suppress delivery to the others.
pub struct RecorderSink {
    /// The events seen, oldest first.
    pub events: Vec<Event>,
    /// What `on_event` reports.
    pub succeed: bool,
}

impl RecorderSink {
    /// A fresh recorder reporting success or failure as asked.
    pub fn new(succeed: bool) -> (r: Self)
        ensures
            r.delivered().len() == 0,
            r.succeed == succeed,
    {
        RecorderSink { events: Vec::new(), succeed }
    }
}

impl EventSink for RecorderSink {
    open spec fn delivered(&self) -> Seq<EventView> {
        views_of_events(self.events@)
    }

    fn on_event(&mut self, event: &Event) -> (ok: bool)
        ensures
            final(self).delivered() == old(self).delivered().push(event@),
    {
        self.events.push(event.deep_clone());
        assert(self.delivered() =~= old(self).delivered().push(event@));
        self.succeed
    }
}

} // verus!
