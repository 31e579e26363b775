//! Supervisor-wide defaults for task execution.

use std::time::Duration;
use vstd::prelude::*;

use crate::config::{ConfigError, NonZeroU32};
use crate::duration::{nanos, normalize_timeout, normalized};
use crate::policies::{BackoffPolicy, JitterPolicy, RestartPolicy, FACTOR_TWO};

verus! {

/// Default settings applied when a supervisor accepts a task specification.
///
/// An explicit value of the specification always wins.
///
/// ```text
/// specification inherits a field -> the default is used
/// specification sets a field     -> the set value is used
/// ```
///
/// The built-in defaults restart after retryable failures, use exponential backoff with jitter,
/// set no attempt timeout, and allow unlimited retries.
#[derive(Clone, Copy, Debug)]
#[must_use]
pub struct TaskDefaults {
    restart: RestartPolicy,
    backoff: BackoffPolicy,
    timeout: Option<Duration>,
    max_retries: Option<NonZeroU32>,
}

/// Settings held by [`TaskDefaults`].
pub struct TaskDefaultsView {
    pub restart: RestartPolicy,
    pub backoff: BackoffPolicy,
    pub timeout: Option<Duration>,
    pub max_retries: Option<NonZeroU32>,
}

impl TaskDefaultsView {
    /// Whether these are the built-in settings: restart after failure, exponential backoff from
    /// 200 ms to 30 seconds with equal jitter, no attempt timeout, unlimited retries.
    pub open spec fn built_in(self) -> bool {
        &&& self.restart == RestartPolicy::OnFailure
        &&& nanos(self.backoff.spec_first()) == 200_000_000
        &&& nanos(self.backoff.spec_max()) == 30_000_000_000
        &&& self.backoff.spec_factor_bits() == FACTOR_TWO
        &&& self.backoff.spec_jitter() == JitterPolicy::Equal
        &&& self.timeout is None
        &&& self.max_retries is None
    }
}

impl View for TaskDefaults {
    type V = TaskDefaultsView;

    closed spec fn view(&self) -> TaskDefaultsView {
        TaskDefaultsView {
            restart: self.restart,
            backoff: self.backoff,
            timeout: self.timeout,
            max_retries: self.max_retries,
        }
    }
}

impl TaskDefaults {
    /// A timeout is never zero: no timeout is written as `None`.
    #[verifier::type_invariant]
    spec fn timeout_is_normal(self) -> bool {
        self.timeout == normalized(self.timeout)
    }

    /// Default restart policy.
    #[must_use]
    pub fn restart(&self) -> (restart: RestartPolicy)
        ensures
            restart == self@.restart,
    {
        self.restart
    }

    /// Default backoff policy.
    #[must_use]
    pub fn backoff(&self) -> (backoff: BackoffPolicy)
        ensures
            backoff == self@.backoff,
    {
        self.backoff
    }

    /// Default timeout for one task attempt.
    ///
    /// `None` means that attempts have no default timeout. The timeout is never zero.
    #[must_use]
    pub fn timeout(&self) -> (timeout: Option<Duration>)
        ensures
            timeout == self@.timeout,
            timeout is Some ==> nanos(timeout->0) > 0,
    {
        proof {
            use_type_invariant(&*self);
        }
        self.timeout
    }

    /// Default number of retries in one failure streak.
    ///
    /// `None` means unlimited retries.
    #[must_use]
    pub fn max_retries(&self) -> (max_retries: Option<NonZeroU32>)
        ensures
            max_retries == self@.max_retries,
    {
        self.max_retries
    }

    /// Sets the default restart policy.
    pub fn with_restart(self, restart: RestartPolicy) -> (defaults: TaskDefaults)
        ensures
            defaults@ == (TaskDefaultsView { restart, ..self@ }),
    {
        proof {
            use_type_invariant(self);
        }
        TaskDefaults { restart, ..self }
    }

    /// Sets the default backoff policy.
    pub fn with_backoff(self, backoff: BackoffPolicy) -> (defaults: TaskDefaults)
        ensures
            defaults@ == (TaskDefaultsView { backoff, ..self@ }),
    {
        proof {
            use_type_invariant(self);
        }
        TaskDefaults { backoff, ..self }
    }

    /// Sets the default timeout for each task attempt.
    ///
    /// Pass a [`Duration`] to enable it. Pass `None` or zero for no timeout.
    pub fn with_timeout<D: Into<Option<Duration>>>(self, timeout: D) -> (defaults: TaskDefaults)
        ensures
            exists|value: Option<Duration>| #[trigger]
                call_ensures(<D as Into<Option<Duration>>>::into, (timeout,), value) && defaults@
                    == (TaskDefaultsView { timeout: normalized(value), ..self@ }),
    {
        let value: Option<Duration> = timeout.into();
        TaskDefaults { timeout: normalize_timeout(value), ..self }
    }

    /// Sets the default number of retries in one failure streak.
    ///
    /// Pass a number for a limit or `None` for unlimited retries. A limit of three allows one
    /// failed attempt and three retries. A successful attempt resets the count.
    pub fn with_max_retries<R: Into<Option<NonZeroU32>>>(self, max_retries: R) -> (defaults:
        TaskDefaults)
        ensures
            exists|value: Option<NonZeroU32>| #[trigger]
                call_ensures(<R as Into<Option<NonZeroU32>>>::into, (max_retries,), value)
                    && defaults@ == (TaskDefaultsView { max_retries: value, ..self@ }),
    {
        proof {
            use_type_invariant(self);
        }
        let value: Option<NonZeroU32> = max_retries.into();
        TaskDefaults { max_retries: value, ..self }
    }

    /// Sets the default retry limit from a raw integer.
    ///
    /// # Errors
    ///
    /// [`ConfigError::Zero`] when `max_retries` is zero. Use
    /// [`with_max_retries`](Self::with_max_retries) with `None` for unlimited retries.
    pub fn try_with_max_retries(self, max_retries: u32) -> (result: Result<
        TaskDefaults,
        ConfigError,
    >)
        ensures
            match result {
                Ok(defaults) => {
                    &&& max_retries != 0
                    &&& defaults@.max_retries is Some
                    &&& defaults@.max_retries->0.spec_get() == max_retries
                    &&& defaults@ == (TaskDefaultsView {
                        max_retries: defaults@.max_retries,
                        ..self@
                    })
                },
                Err(error) => max_retries == 0 && error == (ConfigError::Zero {
                    field: "max_retries",
                }),
            },
    {
        match NonZeroU32::new(max_retries) {
            Some(limit) => Ok(self.with_max_retries(limit)),
            None => Err(ConfigError::Zero { field: "max_retries" }),
        }
    }
}

impl Default for TaskDefaults {
    /// Default task execution settings:
    /// - restart after failure,
    /// - exponential backoff from 200 ms to 30 seconds with equal jitter,
    /// - no attempt timeout,
    /// - unlimited failure retries.
    fn default() -> (defaults: TaskDefaults)
        ensures
            defaults@.built_in(),
    {
        TaskDefaults {
            restart: RestartPolicy::default(),
            backoff: BackoffPolicy::default(),
            timeout: None,
            max_retries: None,
        }
    }
}

/// The built-in settings are safe and explicit: retry after a failure, wait from 200 milliseconds
/// up to 30 seconds, doubling, no timeout, and no limit of retries.
pub proof fn law_built_in_settings_are_explicit(view: TaskDefaultsView)
    requires
        view.built_in(),
    ensures
        view.restart == RestartPolicy::OnFailure,
        nanos(view.backoff.spec_first()) == 200 * 1_000_000,
        nanos(view.backoff.spec_max()) == 30 * 1_000_000_000,
        view.timeout is None,
        view.max_retries is None,
{
}

/// A default that was set is the one that is read, no builder touches another default, and a retry
/// limit of zero is refused by name.
pub proof fn law_default_builders_set_one_setting(
    defaults: TaskDefaults,
    next: TaskDefaults,
    restart: RestartPolicy,
    backoff: BackoffPolicy,
    retries: u32,
    limited: Result<TaskDefaults, ConfigError>,
    read_restart: RestartPolicy,
    read_backoff: BackoffPolicy,
    read_timeout: Option<Duration>,
    read_retries: Option<NonZeroU32>,
)
    requires
        call_ensures(TaskDefaults::restart, (&next,), read_restart),
        call_ensures(TaskDefaults::backoff, (&next,), read_backoff),
        call_ensures(TaskDefaults::timeout, (&next,), read_timeout),
        call_ensures(TaskDefaults::max_retries, (&next,), read_retries),
    ensures
        call_ensures(TaskDefaults::with_restart, (defaults, restart), next) ==> read_restart
            == restart && read_backoff == defaults@.backoff && read_timeout == defaults@.timeout
            && read_retries == defaults@.max_retries,
        call_ensures(TaskDefaults::with_backoff, (defaults, backoff), next) ==> read_backoff
            == backoff && read_restart == defaults@.restart && read_timeout == defaults@.timeout
            && read_retries == defaults@.max_retries,
        call_ensures(TaskDefaults::try_with_max_retries, (defaults, retries), limited) ==> {
            &&& limited is Ok <==> retries != 0
            &&& limited matches Err(error) ==> error == (ConfigError::Zero {
                field: "max_retries",
            })
            &&& limited == Ok::<_, ConfigError>(next) ==> read_retries is Some
                && read_retries->0.spec_get() == retries && read_restart == defaults@.restart
                && read_backoff == defaults@.backoff && read_timeout == defaults@.timeout
        },
        read_timeout matches Some(timeout) ==> nanos(timeout) > 0,
{
}

} // verus!
