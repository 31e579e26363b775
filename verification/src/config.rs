//! Checked settings of one supervisor.

use std::time::Duration;
use vstd::prelude::*;

use crate::duration::nanos;

verus! {

/// A 32-bit number other than zero.
#[derive(Clone, Copy, Debug, PartialEq, Eq, Structural)]
pub struct NonZeroU32 {
    value: u32,
}

impl NonZeroU32 {
    /// The number itself.
    pub closed spec fn spec_get(self) -> u32 {
        self.value
    }

    #[verifier::type_invariant]
    spec fn nonzero(self) -> bool {
        self.value != 0
    }

    /// The number, unless it is zero.
    pub fn new(value: u32) -> (number: Option<NonZeroU32>)
        ensures
            value == 0 ==> number is None,
            value != 0 ==> number is Some && number->0.spec_get() == value,
    {
        if value == 0 {
            None
        } else {
            Some(NonZeroU32 { value })
        }
    }

    /// The number itself.
    pub fn get(self) -> (value: u32)
        ensures
            value == self.spec_get(),
            value != 0,
    {
        proof {
            use_type_invariant(self);
        }
        self.value
    }
}

/// A size other than zero.
#[derive(Clone, Copy, Debug, PartialEq, Eq, Structural)]
pub struct NonZeroUsize {
    value: usize,
}

impl NonZeroUsize {
    /// The size itself.
    pub closed spec fn spec_get(self) -> usize {
        self.value
    }

    #[verifier::type_invariant]
    spec fn nonzero(self) -> bool {
        self.value != 0
    }

    /// The size, unless it is zero.
    pub fn new(value: usize) -> (number: Option<NonZeroUsize>)
        ensures
            value == 0 ==> number is None,
            value != 0 ==> number is Some && number->0.spec_get() == value,
    {
        if value == 0 {
            None
        } else {
            Some(NonZeroUsize { value })
        }
    }

    /// The size itself.
    pub fn get(self) -> (value: usize)
        ensures
            value == self.spec_get(),
            value != 0,
    {
        proof {
            use_type_invariant(self);
        }
        self.value
    }
}

/// Number behind an optional limit.
pub open spec fn limit_view(limit: Option<NonZeroUsize>) -> Option<usize> {
    match limit {
        Some(limit) => Some(limit.spec_get()),
        None => None,
    }
}

/// Number behind an optional limit.
pub fn limit_of(limit: Option<NonZeroUsize>) -> (number: Option<usize>)
    ensures
        number == limit_view(limit),
{
    match limit {
        Some(limit) => Some(limit.get()),
        None => None,
    }
}

/// Refused configuration value.
#[non_exhaustive]
#[derive(Clone, Copy, Debug, PartialEq, Eq)]
pub enum ConfigError {
    /// A setting that must be positive is zero.
    Zero {
        /// Stable configuration field name.
        field: &'static str,
    },
}

/// Runtime limits, queue sizes, and shutdown behavior of one supervisor.
#[derive(Clone, Copy, Debug)]
#[must_use]
pub struct SupervisorConfig {
    grace: Duration,
    max_registered_tasks: Option<NonZeroUsize>,
    registry_queue_capacity: NonZeroUsize,
    bus_capacity: NonZeroUsize,
    ownership_capacity: Option<NonZeroUsize>,
}

/// Settings held by [`SupervisorConfig`].
pub struct SupervisorConfigView {
    /// Time that tasks get to stop.
    pub grace: Duration,
    /// Limit for registered and physically reaping tasks.
    pub max_registered_tasks: Option<NonZeroUsize>,
    /// Slots of the management command queue.
    pub registry_queue_capacity: NonZeroUsize,
    /// Events retained by the bus.
    pub bus_capacity: NonZeroUsize,
    /// User-owned lifetimes that may be charged at once. `None` means unlimited.
    pub ownership_capacity: Option<NonZeroUsize>,
}

impl View for SupervisorConfig {
    type V = SupervisorConfigView;

    closed spec fn view(&self) -> SupervisorConfigView {
        SupervisorConfigView {
            grace: self.grace,
            max_registered_tasks: self.max_registered_tasks,
            registry_queue_capacity: self.registry_queue_capacity,
            bus_capacity: self.bus_capacity,
            ownership_capacity: self.ownership_capacity,
        }
    }
}

impl SupervisorConfig {
    /// Time that tasks get to stop.
    #[must_use]
    pub fn grace(&self) -> (grace: Duration)
        ensures
            grace == self@.grace,
    {
        self.grace
    }

    /// Limit for registered and physically reaping tasks.
    #[must_use]
    pub fn max_registered_tasks(&self) -> (limit: Option<NonZeroUsize>)
        ensures
            limit == self@.max_registered_tasks,
    {
        self.max_registered_tasks
    }

    /// Slots of the management command queue.
    #[must_use]
    pub fn registry_queue_capacity(&self) -> (capacity: NonZeroUsize)
        ensures
            capacity == self@.registry_queue_capacity,
    {
        self.registry_queue_capacity
    }

    /// Events retained by the bus.
    #[must_use]
    pub fn bus_capacity(&self) -> (capacity: NonZeroUsize)
        ensures
            capacity == self@.bus_capacity,
    {
        self.bus_capacity
    }

    /// User-owned lifetimes that may be charged at once. `None` means unlimited.
    #[must_use]
    pub fn ownership_capacity(&self) -> (capacity: Option<NonZeroUsize>)
        ensures
            capacity == self@.ownership_capacity,
    {
        self.ownership_capacity
    }

    /// Sets the time that tasks get to stop.
    pub fn with_grace(self, grace: Duration) -> (config: SupervisorConfig)
        ensures
            config@ == (SupervisorConfigView { grace, ..self@ }),
    {
        SupervisorConfig { grace, ..self }
    }

    /// Sets the registration limit. `None` means unlimited.
    pub fn with_max_registered_tasks(self, limit: Option<NonZeroUsize>) -> (config:
        SupervisorConfig)
        ensures
            config@ == (SupervisorConfigView { max_registered_tasks: limit, ..self@ }),
    {
        SupervisorConfig { max_registered_tasks: limit, ..self }
    }

    /// Sets the slots of the management command queue.
    pub fn with_registry_queue_capacity(self, capacity: NonZeroUsize) -> (config: SupervisorConfig)
        ensures
            config@ == (SupervisorConfigView { registry_queue_capacity: capacity, ..self@ }),
    {
        SupervisorConfig { registry_queue_capacity: capacity, ..self }
    }

    /// Sets the events retained by the bus.
    pub fn with_bus_capacity(self, capacity: NonZeroUsize) -> (config: SupervisorConfig)
        ensures
            config@ == (SupervisorConfigView { bus_capacity: capacity, ..self@ }),
    {
        SupervisorConfig { bus_capacity: capacity, ..self }
    }

    /// Sets the user-owned lifetimes that may be charged at once. `None` means unlimited.
    pub fn with_ownership_capacity(self, capacity: Option<NonZeroUsize>) -> (config:
        SupervisorConfig)
        ensures
            config@ == (SupervisorConfigView { ownership_capacity: capacity, ..self@ }),
    {
        SupervisorConfig { ownership_capacity: capacity, ..self }
    }
}

impl Default for SupervisorConfig {
    /// One minute of grace, no registration limit, and room for 1024 of everything else.
    fn default() -> (config: SupervisorConfig)
        ensures
            nanos(config@.grace) == 60_000_000_000,
            config@.max_registered_tasks is None,
            config@.registry_queue_capacity.spec_get() == 1024,
            config@.bus_capacity.spec_get() == 1024,
            limit_view(config@.ownership_capacity) == Some(1024usize),
    {
        SupervisorConfig {
            grace: Duration::from_secs(60),
            max_registered_tasks: None,
            registry_queue_capacity: NonZeroUsize { value: 1024 },
            bus_capacity: NonZeroUsize { value: 1024 },
            ownership_capacity: Some(NonZeroUsize { value: 1024 }),
        }
    }
}

/// An optional limit is the number behind it, and none is none.
pub proof fn law_a_limit_is_its_number(limit: NonZeroUsize)
    ensures
        limit_view(Some(limit)) == Some(limit.spec_get()),
        limit_view(None) is None,
{
}

/// A setting that was set is the one that is read, and no builder touches another setting.
pub proof fn law_config_builders_set_one_setting(
    config: SupervisorConfig,
    next: SupervisorConfig,
    grace: Duration,
    limit: Option<NonZeroUsize>,
    capacity: NonZeroUsize,
    read_grace: Duration,
    read_limit: Option<NonZeroUsize>,
    read_queue: NonZeroUsize,
    read_bus: NonZeroUsize,
    read_ownership: Option<NonZeroUsize>,
)
    requires
        call_ensures(SupervisorConfig::grace, (&next,), read_grace),
        call_ensures(SupervisorConfig::max_registered_tasks, (&next,), read_limit),
        call_ensures(SupervisorConfig::registry_queue_capacity, (&next,), read_queue),
        call_ensures(SupervisorConfig::bus_capacity, (&next,), read_bus),
        call_ensures(SupervisorConfig::ownership_capacity, (&next,), read_ownership),
    ensures
        call_ensures(SupervisorConfig::with_grace, (config, grace), next) ==> read_grace == grace
            && read_limit == config@.max_registered_tasks && read_queue
            == config@.registry_queue_capacity && read_bus == config@.bus_capacity
            && read_ownership == config@.ownership_capacity,
        call_ensures(SupervisorConfig::with_max_registered_tasks, (config, limit), next)
            ==> read_limit == limit && read_grace == config@.grace && read_queue
            == config@.registry_queue_capacity && read_bus == config@.bus_capacity
            && read_ownership == config@.ownership_capacity,
        call_ensures(SupervisorConfig::with_registry_queue_capacity, (config, capacity), next)
            ==> read_queue == capacity && read_grace == config@.grace && read_limit
            == config@.max_registered_tasks && read_bus == config@.bus_capacity && read_ownership
            == config@.ownership_capacity,
        call_ensures(SupervisorConfig::with_bus_capacity, (config, capacity), next) ==> read_bus
            == capacity && read_grace == config@.grace && read_limit == config@.max_registered_tasks
            && read_queue == config@.registry_queue_capacity && read_ownership
            == config@.ownership_capacity,
        call_ensures(SupervisorConfig::with_ownership_capacity, (config, limit), next)
            ==> read_ownership == limit && read_grace == config@.grace && read_limit
            == config@.max_registered_tasks && read_queue == config@.registry_queue_capacity
            && read_bus == config@.bus_capacity,
{
}

/// A number that may not be zero is refused exactly when it is, and reads back as it is.
pub proof fn law_only_zero_is_refused(
    small: u32,
    size: usize,
    number: Option<NonZeroU32>,
    limit: Option<NonZeroUsize>,
)
    requires
        call_ensures(NonZeroU32::new, (small,), number),
        call_ensures(NonZeroUsize::new, (size,), limit),
    ensures
        number is None <==> small == 0,
        limit is None <==> size == 0,
        forall|read: u32| #[trigger]
            call_ensures(NonZeroU32::get, (number->0,), read) && small != 0 ==> read == small,
        forall|read: usize| #[trigger]
            call_ensures(NonZeroUsize::get, (limit->0,), read) && size != 0 ==> read == size,
{
}

} // verus!
