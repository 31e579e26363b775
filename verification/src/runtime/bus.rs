//! The retained part of the best-effort event bus.
//!
//! Publishing never waits. A full bus gives up its oldest event and counts it; the next event that
//! is taken says how many were lost before it.

use std::collections::VecDeque;
use vstd::prelude::*;

use super::event_relay::BusMessage;
use crate::config::NonZeroUsize;
use crate::events::Event;

verus! {

/// Events that wait for the relay.
#[derive(Debug)]
pub struct BusQueue {
    capacity: NonZeroUsize,
    events: VecDeque<Event>,
    skipped: u64,
    closed: bool,
}

/// Contents of a [`BusQueue`].
pub struct BusView {
    /// Number of events retained at most.
    pub capacity: usize,
    /// Retained events, oldest first.
    pub events: Seq<Event>,
    /// Events lost since one was taken.
    pub skipped: u64,
    /// Whether publication has ended.
    pub closed: bool,
}

impl View for BusQueue {
    type V = BusView;

    closed spec fn view(&self) -> BusView {
        BusView {
            capacity: self.capacity.spec_get(),
            events: self.events@,
            skipped: self.skipped,
            closed: self.closed,
        }
    }
}

/// One more lost event, as far as numbers go.
pub open spec fn one_more(skipped: u64) -> u64 {
    if skipped < u64::MAX {
        (skipped + 1) as u64
    } else {
        skipped
    }
}

impl BusView {
    /// No more events are retained than the bus has room for.
    pub open spec fn valid(self) -> bool {
        self.events.len() <= self.capacity && self.capacity > 0
    }

    /// After an event was published.
    pub open spec fn published(self, event: Event) -> BusView {
        if self.closed {
            self
        } else if self.events.len() >= self.capacity {
            BusView {
                events: self.events.skip(1).push(event),
                skipped: one_more(self.skipped),
                ..self
            }
        } else {
            BusView { events: self.events.push(event), ..self }
        }
    }

    /// Message that is taken next.
    pub open spec fn next(self) -> BusMessage {
        if self.skipped == 0 {
            BusMessage::Event(self.events[0])
        } else {
            BusMessage::Lagged { dropped: self.skipped, event: self.events[0] }
        }
    }

    /// After a message was taken, if there is one.
    pub open spec fn taken(self) -> BusView {
        if self.events.len() == 0 {
            self
        } else {
            BusView { events: self.events.skip(1), skipped: 0, ..self }
        }
    }

    /// Everything that is retained, as messages: a gap can only be before the first.
    pub open spec fn messages(self) -> Seq<BusMessage> {
        Seq::new(
            self.events.len(),
            |i: int|
                if i == 0 {
                    self.next()
                } else {
                    BusMessage::Event(self.events[i])
                },
        )
    }
}

impl BusQueue {
    /// Bus that retains up to `capacity` events.
    pub fn new(capacity: NonZeroUsize) -> (queue: BusQueue)
        ensures
            queue@.valid(),
            queue@ == (BusView {
                capacity: capacity.spec_get(),
                events: Seq::empty(),
                skipped: 0,
                closed: false,
            }),
    {
        // Known to be nonzero only after it is read.
        let _ = capacity.get();
        BusQueue { capacity, events: VecDeque::new(), skipped: 0, closed: false }
    }

    /// Number of events retained at most.
    pub fn retained_capacity(&self) -> (capacity: usize)
        ensures
            capacity == self@.capacity,
    {
        self.capacity.get()
    }

    /// Publishes an event. A closed bus ignores it; a full one gives up its oldest.
    pub fn publish(&mut self, event: Event)
        requires
            old(self)@.valid(),
        ensures
            final(self)@.valid(),
            final(self)@ == old(self)@.published(event),
    {
        if self.closed {
            return;
        }
        if self.events.len() >= self.capacity.get() {
            let _ = self.events.pop_front();
            self.skipped = self.skipped.saturating_add(1);
            proof {
                assert(self.events@ =~= old(self).events@.skip(1));
            }
        }
        self.events.push_back(event);
    }

    /// Takes the oldest retained event, with the gap before it.
    pub fn take(&mut self) -> (message: Option<BusMessage>)
        requires
            old(self)@.valid(),
        ensures
            final(self)@.valid(),
            final(self)@ == old(self)@.taken(),
            message == (if old(self)@.events.len() == 0 {
                None
            } else {
                Some(old(self)@.next())
            }),
    {
        match self.events.pop_front() {
            None => None,
            Some(event) => {
                let dropped = self.skipped;
                self.skipped = 0;
                proof {
                    assert(self.events@ =~= old(self).events@.skip(1));
                }
                if dropped == 0 {
                    Some(BusMessage::Event(event))
                } else {
                    Some(BusMessage::Lagged { dropped, event })
                }
            },
        }
    }

    /// Ends publication and hands out everything that is retained, with the events lost after it.
    pub fn close(&mut self) -> (rest: (Vec<BusMessage>, u64))
        requires
            old(self)@.valid(),
        ensures
            final(self)@.valid(),
            final(self)@ == (BusView {
                events: Seq::empty(),
                skipped: 0,
                closed: true,
                ..old(self)@
            }),
            rest.0@ == old(self)@.messages(),
            rest.1 == (if old(self)@.events.len() == 0 {
                old(self)@.skipped
            } else {
                0
            }),
    {
        self.closed = true;
        let ghost all = self@;
        let mut messages: Vec<BusMessage> = Vec::new();
        proof {
            assert(all.events.skip(0) =~= all.events);
            assert(messages@ =~= all.messages().take(0));
        }
        while self.events.len() > 0
            invariant
                self@.valid(),
                self.closed,
                self@.capacity == all.capacity,
                messages@.len() <= all.events.len(),
                self@.events == all.events.skip(messages@.len() as int),
                self@.skipped == (if messages@.len() == 0 {
                    all.skipped
                } else {
                    0
                }),
                messages@ == all.messages().take(messages@.len() as int),
            decreases self.events@.len(),
        {
            let ghost n = messages@.len() as int;
            if let Some(message) = self.take() {
                proof {
                    assert(all.events.skip(n)[0] == all.events[n]);
                    assert(message == all.messages()[n]);
                    assert(all.events.skip(n).skip(1) =~= all.events.skip(n + 1));
                }
                messages.push(message);
                proof {
                    assert(messages@ =~= all.messages().take(n + 1));
                }
            }
        }
        proof {
            assert(messages@.len() == all.events.len());
            assert(messages@ =~= all.messages());
            assert(self@.events =~= Seq::empty());
        }
        let skipped = self.skipped;
        self.skipped = 0;
        (messages, skipped)
    }
}

/// A full bus loses its oldest event and nothing else, and counts it: what is retained, plus what
/// was lost, grows by the published event.
pub proof fn law_the_bus_counts_what_it_loses(bus: BusView, event: Event)
    requires
        bus.valid(),
        !bus.closed,
        bus.skipped < u64::MAX,
    ensures
        bus.published(event).valid(),
        bus.published(event).events.len() + bus.published(event).skipped == bus.events.len()
            + bus.skipped + 1,
        bus.published(event).events.last() == event,
        forall|i: int|
            0 <= i < bus.published(event).events.len() - 1 ==> #[trigger] bus.published(
                event,
            ).events[i] == bus.events[i + bus.published(event).skipped - bus.skipped],
{
}

} // verus!
