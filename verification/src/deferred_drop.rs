//! User values on their way to isolated destruction.
//!
//! A user value never dies on a runtime task. It travels in a [`DropBundle`] that is submitted,
//! once, to a destructor worker. The runtime parks the values themselves; the bundle names them
//! by their ticket.

use vstd::prelude::*;

use crate::outcome::TaskOutcome;

verus! {

/// User values of one task with the cleanup capacity reserved for them.
#[derive(Debug)]
pub struct DropBundle<S> {
    /// Ticket under which the runtime parks the user values.
    pub ticket: u64,
    /// Outcomes that nobody received, destroyed together with the task.
    pub outcomes: Vec<TaskOutcome<S>>,
    /// Ticket of the physical actor output, once it joined the bundle.
    pub output: Option<u64>,
    /// Ticket of a panic payload, destroyed together with the task.
    pub payload: Option<u64>,
    /// Whether the destructor of a user value panicked or its ownership is inconsistent.
    pub poisoned: bool,
}

impl<S> DropBundle<S> {
    /// Whether the bundle holds the freshly charged user values of a ticket and nothing else.
    pub open spec fn is_fresh(self, ticket: u64) -> bool {
        &&& self.ticket == ticket
        &&& self.outcomes@ == Seq::<TaskOutcome<S>>::empty()
        &&& self.output is None
        &&& self.payload is None
        &&& !self.poisoned
    }

    /// Bundle of freshly charged user values.
    pub fn new(ticket: u64) -> (bundle: DropBundle<S>)
        ensures
            bundle.is_fresh(ticket),
    {
        DropBundle { ticket, outcomes: Vec::new(), output: None, payload: None, poisoned: false }
    }

    /// Adds an outcome that nobody received.
    pub fn attach_outcome(&mut self, outcome: TaskOutcome<S>)
        ensures
            final(self).outcomes@ == old(self).outcomes@.push(outcome),
            final(self).ticket == old(self).ticket,
            final(self).output == old(self).output,
            final(self).payload == old(self).payload,
            final(self).poisoned == old(self).poisoned,
    {
        self.outcomes.push(outcome);
    }

    /// Adds the physical actor output.
    pub fn attach_physical(&mut self, output: u64)
        ensures
            *final(self) == (DropBundle { output: Some(output), ..*old(self) }),
    {
        self.output = Some(output);
    }

    /// Adds the payload of a caught panic.
    pub fn attach_panic_payload(&mut self, payload: u64)
        ensures
            *final(self) == (DropBundle { payload: Some(payload), ..*old(self) }),
    {
        self.payload = Some(payload);
    }

    /// Marks the bundle as unsafe to reuse capacity from.
    pub fn poison(&mut self)
        ensures
            *final(self) == (DropBundle { poisoned: true, ..*old(self) }),
    {
        self.poisoned = true;
    }
}

/// Resource name of the user-lifetime budget.
pub const OWNERSHIP_RESOURCE: &'static str = "owned_user_lifetimes";

/// Why cleanup capacity was not granted.
#[derive(Debug)]
pub enum DropAdmissionError {
    /// The destructor workers could not start.
    Start {
        /// Error from thread creation or the startup handshake.
        source: std::io::Error,
    },
    /// The budget has no room.
    Capacity {
        /// Configured budget.
        limit: usize,
    },
}

/// Budget of user-owned lifetimes of one supervisor.
///
/// A slot is charged when a user value is accepted and released when it was destroyed. A slot whose
/// destructor panicked is retired: it is never given out again. Without a capacity nothing is
/// refused.
#[derive(Debug)]
pub struct DropDomain {
    capacity: Option<usize>,
    charged: usize,
    retired: usize,
}

/// Contents of a [`DropDomain`], and what a caller sees of it.
#[derive(Clone, Copy, Debug, PartialEq, Eq)]
pub struct OwnershipSnapshot {
    /// Configured budget, if there is one.
    pub capacity: Option<usize>,
    /// Slots in use.
    pub charged: usize,
    /// Slots that are never given out again.
    pub retired: usize,
}

impl OwnershipSnapshot {
    /// Number of slots that a budget can have at most.
    pub open spec fn ceiling(self) -> usize {
        match self.capacity {
            Some(capacity) => capacity,
            None => usize::MAX,
        }
    }

    /// The budget is never overdrawn.
    pub open spec fn within_budget(self) -> bool {
        self.charged + self.retired <= self.ceiling()
    }

    /// Whether that many slots can be charged now.
    pub open spec fn admits(self, count: nat) -> bool {
        self.capacity is Some ==> count <= self.capacity->0 - self.charged - self.retired
    }

    /// With that many more slots in use. An unlimited budget counts as far as numbers go.
    pub open spec fn charged_by(self, count: nat) -> OwnershipSnapshot {
        OwnershipSnapshot {
            charged: if self.charged + self.retired + count <= self.ceiling() {
                (self.charged + count) as usize
            } else {
                (self.ceiling() - self.retired) as usize
            },
            ..self
        }
    }

    /// With one slot fewer in use. A poisoned slot is retired.
    pub open spec fn released(self, poisoned: bool) -> OwnershipSnapshot {
        OwnershipSnapshot {
            charged: (self.charged - 1) as usize,
            retired: if poisoned {
                (self.retired + 1) as usize
            } else {
                self.retired
            },
            ..self
        }
    }
}

impl View for DropDomain {
    type V = OwnershipSnapshot;

    closed spec fn view(&self) -> OwnershipSnapshot {
        OwnershipSnapshot {
            capacity: self.capacity,
            charged: self.charged,
            retired: self.retired,
        }
    }
}

impl DropDomain {
    /// The budget is never overdrawn.
    #[verifier::type_invariant]
    spec fn sound(self) -> bool {
        self@.within_budget()
    }

    /// Budget with every slot free.
    pub fn new(capacity: Option<usize>) -> (domain: DropDomain)
        ensures
            domain@ == (OwnershipSnapshot { capacity, charged: 0, retired: 0 }),
    {
        DropDomain { capacity, charged: 0, retired: 0 }
    }

    /// Configured budget, if there is one.
    pub fn capacity(&self) -> (capacity: Option<usize>)
        ensures
            capacity == self@.capacity,
    {
        self.capacity
    }

    /// State of the budget.
    pub fn snapshot(&self) -> (snapshot: OwnershipSnapshot)
        ensures
            snapshot == self@,
            snapshot.within_budget(),
    {
        proof {
            use_type_invariant(&*self);
        }
        OwnershipSnapshot {
            capacity: self.capacity,
            charged: self.charged,
            retired: self.retired,
        }
    }

    /// Charges a complete batch, or nothing.
    pub fn try_reserve_many(&mut self, count: usize) -> (reserved: Result<(), DropAdmissionError>)
        ensures
            if old(self)@.admits(count as nat) {
                &&& reserved is Ok
                &&& final(self)@ == old(self)@.charged_by(count as nat)
            } else {
                &&& reserved == Err::<(), _>(
                    DropAdmissionError::Capacity { limit: old(self)@.ceiling() },
                )
                &&& final(self)@ == old(self)@
            },
    {
        proof {
            use_type_invariant(&*self);
        }
        match self.capacity {
            Some(capacity) => {
                if count <= capacity - self.charged - self.retired {
                    self.charged = self.charged + count;
                    Ok(())
                } else {
                    Err(DropAdmissionError::Capacity { limit: capacity })
                }
            },
            None => {
                let room = usize::MAX - self.retired - self.charged;
                self.charged = self.charged + if count <= room {
                    count
                } else {
                    room
                };
                Ok(())
            },
        }
    }

    /// Charges one slot.
    pub fn try_reserve(&mut self) -> (reserved: Result<(), DropAdmissionError>)
        ensures
            if old(self)@.admits(1) {
                &&& reserved is Ok
                &&& final(self)@ == old(self)@.charged_by(1)
            } else {
                &&& reserved == Err::<(), _>(
                    DropAdmissionError::Capacity { limit: old(self)@.ceiling() },
                )
                &&& final(self)@ == old(self)@
            },
    {
        self.try_reserve_many(1)
    }

    /// Ends the charge of one slot. A poisoned slot is retired.
    pub fn release(&mut self, poisoned: bool)
        requires
            old(self)@.charged > 0,
        ensures
            final(self)@ == old(self)@.released(poisoned),
    {
        proof {
            use_type_invariant(&*self);
        }
        let charged = self.charged - 1;
        let retired = if poisoned {
            self.retired + 1
        } else {
            self.retired
        };
        *self = DropDomain { capacity: self.capacity, charged, retired };
    }
}

/// A limited budget is charged and released without loss: after a charge and an unpoisoned release
/// it admits exactly what it admitted before, and a poisoned release costs one slot for good.
pub proof fn law_only_poisoned_slots_are_lost(budget: OwnershipSnapshot, count: nat)
    requires
        budget.within_budget(),
        budget.capacity is Some,
        budget.admits(1),
    ensures
        budget.charged_by(1).released(false) == budget,
        budget.charged_by(1).released(true).admits(count) <==> budget.admits(count + 1),
{
}

/// A limited budget is never overdrawn and never refuses what fits: it admits a batch exactly when
/// the slots in use, those retired, and the batch stay within its capacity. What it admits it
/// counts, and a slot that comes back is either free or retired.
pub proof fn law_a_budget_counts_every_slot(
    budget: OwnershipSnapshot,
    capacity: usize,
    count: nat,
    poisoned: bool,
)
    requires
        budget.capacity == Some(capacity),
        budget.within_budget(),
    ensures
        budget.admits(count) <==> budget.charged + budget.retired + count <= capacity,
        budget.admits(count) ==> {
            let charged = budget.charged_by(count);
            &&& charged.charged == budget.charged + count
            &&& charged.retired == budget.retired
            &&& charged.capacity == budget.capacity
            &&& charged.charged + charged.retired <= capacity
        },
        budget.charged > 0 ==> {
            let released = budget.released(poisoned);
            &&& released.charged == budget.charged - 1
            &&& released.retired == budget.retired + (if poisoned {
                1int
            } else {
                0int
            })
            &&& released.capacity == budget.capacity
        },
        budget.ceiling() == capacity,
        budget.charged + budget.retired <= capacity,
{
}

/// An unlimited budget refuses nothing.
pub proof fn law_an_unlimited_budget_refuses_nothing(budget: OwnershipSnapshot, count: nat)
    requires
        budget.capacity is None,
    ensures
        budget.admits(count),
        budget.charged + budget.retired + count <= usize::MAX ==> budget.charged_by(count).charged
            == budget.charged + count,
        budget.charged_by(count).retired == budget.retired,
        budget.charged_by(count).capacity is None,
{
}

} // verus!
