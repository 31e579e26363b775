//! From the best-effort event bus to subscriber queues.
//!
//! Delivery is intentionally lossy. Lag is reported through a subscriber-overflow diagnostic.
//! Shutdown forwards only a bounded retained tail; events beyond that tail are discarded and
//! counted.

use vstd::prelude::*;
use vstd::string::*;

use super::remove::event_views;
use crate::events::{failure_event, plain_event, Event, EventKind, EventView};
use crate::text::{append_decimal, decimal};

verus! {

/// Most retained events that are forwarded after runtime cancellation.
pub const SHUTDOWN_RELAY_DRAIN_LIMIT: usize = 1024;

/// One message of the bus.
#[derive(Debug)]
pub enum BusMessage {
    /// An event.
    Event(Event),
    /// An event that follows a gap.
    Lagged {
        /// Events lost in the gap.
        dropped: u64,
        /// The event after the gap.
        event: Event,
    },
}

impl BusMessage {
    /// The event that the message carries.
    pub open spec fn event(self) -> EventView {
        match self {
            BusMessage::Event(event) => event@,
            BusMessage::Lagged { event, .. } => event@,
        }
    }

    /// Events lost before it.
    pub open spec fn gap(self) -> nat {
        match self {
            BusMessage::Event(_) => 0,
            BusMessage::Lagged { dropped, .. } => dropped as nat,
        }
    }
}

/// Overflow diagnostic of the relay.
pub open spec fn overflow_event(dropped: u64) -> EventView {
    EventView {
        task: Some("subscriber_listener"@),
        reason: Some("lagged("@ + decimal(dropped as nat) + ")"@),
        dropped: Some(dropped),
        ..plain_event(EventKind::SubscriberOverflow)
    }
}

/// Overflow diagnostic of the relay.
pub fn overflow(dropped: u64) -> (event: Event)
    ensures
        event@ == overflow_event(dropped),
{
    let mut reason = "lagged(".to_owned();
    append_decimal(&mut reason, dropped);
    reason.append(")");
    Event::subscriber_overflow("subscriber_listener", reason.as_str()).with_dropped(dropped)
}

/// What subscribers see of one message: the event, and after a gap its diagnostic.
pub fn relay_message(message: BusMessage) -> (events: Vec<Event>)
    ensures
        event_views(events@) == (match message {
            BusMessage::Event(event) => seq![event@],
            BusMessage::Lagged { dropped, event } => seq![event@, overflow_event(dropped)],
        }),
{
    let mut events: Vec<Event> = Vec::new();
    match message {
        BusMessage::Event(event) => {
            events.push(event);
            proof {
                assert(event_views(events@) =~= seq![event@]);
            }
        },
        BusMessage::Lagged { dropped, event } => {
            events.push(event);
            events.push(overflow(dropped));
            proof {
                assert(event_views(events@) =~= seq![event@, overflow_event(dropped)]);
            }
        },
    }
    events
}

/// Events lost in the gaps before the first `n` messages.
pub open spec fn gaps(messages: Seq<BusMessage>, n: int) -> nat
    decreases n,
{
    if n <= 0 {
        0
    } else {
        gaps(messages, n - 1) + messages[n - 1].gap()
    }
}

/// A count, or the largest number where the count is larger.
pub open spec fn saturated(count: nat) -> u64 {
    if count > u64::MAX {
        u64::MAX
    } else {
        count as u64
    }
}

/// Messages that the bounded tail forwards.
pub open spec fn forwarded(messages: Seq<BusMessage>, retained_capacity: usize) -> int {
    let budget = if retained_capacity < SHUTDOWN_RELAY_DRAIN_LIMIT {
        retained_capacity as int
    } else {
        SHUTDOWN_RELAY_DRAIN_LIMIT as int
    };
    if messages.len() < budget {
        messages.len() as int
    } else {
        budget
    }
}

/// Events that the bounded tail loses: those in gaps, those the bus skipped, and those beyond the
/// tail.
pub open spec fn lost(messages: Seq<BusMessage>, retained_capacity: usize, skipped: u64) -> nat {
    let n = forwarded(messages, retained_capacity);
    gaps(messages, n) + skipped as nat + (messages.len() - n) as nat
}

/// Forwards a bounded retained tail before event publication closes.
///
/// `messages` are those retained at shutdown, `skipped` the events that the bus dropped while it
/// closed. One overflow diagnostic covers everything that was lost.
pub fn drain_pending(messages: Vec<BusMessage>, retained_capacity: usize, skipped: u64) -> (events:
    Vec<Event>)
    ensures
        ({
            let n = forwarded(messages@, retained_capacity);
            let dropped = saturated(lost(messages@, retained_capacity, skipped));
            event_views(events@) == Seq::new(n as nat, |i: int| messages@[i].event()) + (
            if dropped != 0 {
                seq![overflow_event(dropped)]
            } else {
                seq![]
            })
        }),
{
    let ghost all = messages@;
    let ghost total = forwarded(all, retained_capacity);
    let ghost kept = Seq::new(total as nat, |i: int| all[i].event());
    let len = messages.len();
    let budget = if retained_capacity < SHUTDOWN_RELAY_DRAIN_LIMIT {
        retained_capacity
    } else {
        SHUTDOWN_RELAY_DRAIN_LIMIT
    };
    let count = if len < budget {
        len
    } else {
        budget
    };
    let mut events: Vec<Event> = Vec::new();
    let mut dropped: u64 = 0;
    let mut taken: usize = 0;
    proof {
        assert(event_views(events@) =~= kept.take(0));
    }
    for message in iter: messages
        invariant
            iter.seq() == all,
            count == total,
            total <= all.len(),
            kept == Seq::new(total as nat, |i: int| all[i].event()),
            taken == (if iter.index() < total {
                iter.index()
            } else {
                total
            }),
            event_views(events@) == kept.take(taken as int),
            dropped == saturated(gaps(all, taken as int)),
    {
        let ghost before = events@;
        if taken < count {
            match message {
                BusMessage::Event(event) => {
                    events.push(event);
                },
                BusMessage::Lagged { dropped: lagged, event } => {
                    events.push(event);
                    dropped = dropped.saturating_add(lagged);
                },
            }
            taken = taken + 1;
            proof {
                assert(event_views(events@) =~= event_views(before).push(events@.last()@));
                assert(event_views(events@) =~= kept.take(taken as int));
            }
        }
    }
    proof {
        assert(taken == total);
        assert(kept.take(total) =~= kept);
    }
    let discarded = (len - count) as u64;
    dropped = dropped.saturating_add(skipped).saturating_add(discarded);
    if dropped != 0 {
        let ghost before = events@;
        events.push(overflow(dropped));
        proof {
            assert(event_views(events@) =~= event_views(before).push(overflow_event(dropped)));
        }
    }
    proof {
        assert(event_views(events@) =~= kept + (if dropped != 0 {
            seq![overflow_event(dropped)]
        } else {
            seq![]
        }));
    }
    events
}

/// Reports how the relay was joined: its diagnostic, if it failed.
///
/// `join_error` is the text of the join error, if there was one. A disabled or unstarted relay
/// counts as clean.
pub fn join_subscriber_listener(join_error: Option<String>) -> (failure: Option<Event>)
    ensures
        match join_error {
            Some(error) => failure matches Some(event) && event@ == failure_event(
                "subscriber_listener"@,
                "listener join failed: "@ + error@,
            ),
            None => failure is None,
        },
{
    match join_error {
        Some(error) => {
            let mut reason = "listener join failed: ".to_owned();
            reason.append(error.as_str());
            Some(Event::runtime_failure("subscriber_listener", reason.as_str()))
        },
        None => None,
    }
}

/// Nothing disappears unnoticed: as long as the numbers fit, every retained event is either
/// forwarded or counted as dropped, and the work stays within the drain limit.
pub proof fn law_the_tail_forwards_or_counts_every_event(
    messages: Seq<BusMessage>,
    retained_capacity: usize,
    skipped: u64,
)
    requires
        lost(messages, retained_capacity, skipped) <= u64::MAX,
    ensures
        ({
            let n = forwarded(messages, retained_capacity);
            let dropped = saturated(lost(messages, retained_capacity, skipped));
            &&& 0 <= n <= SHUTDOWN_RELAY_DRAIN_LIMIT
            &&& n <= retained_capacity
            &&& n + dropped == messages.len() + gaps(messages, n) + skipped
        }),
{
}

} // verus!
