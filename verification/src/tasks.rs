//! What a caller asks for when adding a task.

use std::time::Duration;
use vstd::prelude::*;

use crate::config::NonZeroU32;
use crate::duration::{nanos, normalize_timeout, normalized};
use crate::policies::{BackoffPolicy, RestartPolicy};
use crate::task_defaults::TaskDefaults;

verus! {

/// One setting of a task: taken from the supervisor's defaults, or set explicitly.
#[derive(Clone, Copy, Debug)]
pub enum Setting<V> {
    /// The default is used.
    Inherit,
    /// This value is used.
    Explicit(V),
}

impl<V> Setting<V> {
    /// The set value, or else the default.
    pub open spec fn or_default(self, default: V) -> V {
        match self {
            Setting::Inherit => default,
            Setting::Explicit(value) => value,
        }
    }
}

/// Name and settings of a task to add.
#[derive(Debug)]
pub struct TaskSpec {
    /// Unique name the task runs under.
    pub name: String,
    /// Restart policy.
    pub restart: Setting<RestartPolicy>,
    /// Backoff policy.
    pub backoff: Setting<BackoffPolicy>,
    /// Timeout of one attempt.
    pub timeout: Setting<Option<Duration>>,
    /// Retries in one failure streak.
    pub max_retries: Setting<Option<NonZeroU32>>,
}

/// Settings of an accepted task, with nothing left to inherit.
#[derive(Clone, Copy, Debug)]
pub struct ActorParams {
    /// Restart policy.
    pub restart: RestartPolicy,
    /// Backoff policy.
    pub backoff: BackoffPolicy,
    /// Timeout of one attempt.
    pub timeout: Option<Duration>,
    /// Retries in one failure streak.
    pub max_retries: Option<NonZeroU32>,
}

impl TaskSpec {
    /// Task that runs once, with every other setting inherited.
    pub fn once(name: String) -> (spec: TaskSpec)
        ensures
            spec == (TaskSpec {
                name,
                restart: Setting::Explicit(RestartPolicy::Never),
                backoff: Setting::Inherit,
                timeout: Setting::Inherit,
                max_retries: Setting::Inherit,
            }),
    {
        TaskSpec {
            name,
            restart: Setting::Explicit(RestartPolicy::Never),
            backoff: Setting::Inherit,
            timeout: Setting::Inherit,
            max_retries: Setting::Inherit,
        }
    }

    /// Task that restarts after a retryable failure, with every other setting inherited.
    pub fn restartable(name: String) -> (spec: TaskSpec)
        ensures
            spec == (TaskSpec {
                name,
                restart: Setting::Explicit(RestartPolicy::OnFailure),
                backoff: Setting::Inherit,
                timeout: Setting::Inherit,
                max_retries: Setting::Inherit,
            }),
    {
        TaskSpec {
            name,
            restart: Setting::Explicit(RestartPolicy::OnFailure),
            backoff: Setting::Inherit,
            timeout: Setting::Inherit,
            max_retries: Setting::Inherit,
        }
    }

    /// Settings that the task runs with under the given defaults.
    pub open spec fn resolved(self, defaults: TaskDefaults) -> ActorParams {
        ActorParams {
            restart: self.restart.or_default(defaults@.restart),
            backoff: self.backoff.or_default(defaults@.backoff),
            timeout: normalized(self.timeout.or_default(defaults@.timeout)),
            max_retries: self.max_retries.or_default(defaults@.max_retries),
        }
    }

    /// Fills every inherited setting from the defaults. An explicit value wins.
    pub fn resolve(&self, defaults: &TaskDefaults) -> (params: ActorParams)
        ensures
            params == self.resolved(*defaults),
    {
        let timeout = match self.timeout {
            Setting::Inherit => defaults.timeout(),
            Setting::Explicit(timeout) => timeout,
        };
        ActorParams {
            restart: match self.restart {
                Setting::Inherit => defaults.restart(),
                Setting::Explicit(restart) => restart,
            },
            backoff: match self.backoff {
                Setting::Inherit => defaults.backoff(),
                Setting::Explicit(backoff) => backoff,
            },
            timeout: normalize_timeout(timeout),
            max_retries: match self.max_retries {
                Setting::Inherit => defaults.max_retries(),
                Setting::Explicit(max_retries) => max_retries,
            },
        }
    }
}

/// An explicit setting always wins, whatever the defaults are, and an inherited one is the default;
/// the settings do not mix. A timeout of no length, from either side, is no timeout.
pub proof fn law_an_explicit_setting_wins(
    spec: TaskSpec,
    defaults: TaskDefaults,
    restart: RestartPolicy,
    backoff: BackoffPolicy,
    timeout: Duration,
    max_retries: Option<NonZeroU32>,
)
    ensures
        spec.restart == Setting::Explicit(restart) ==> spec.resolved(defaults).restart == restart,
        spec.restart is Inherit ==> spec.resolved(defaults).restart == defaults@.restart,
        spec.backoff == Setting::Explicit(backoff) ==> spec.resolved(defaults).backoff == backoff,
        spec.backoff is Inherit ==> spec.resolved(defaults).backoff == defaults@.backoff,
        spec.timeout == Setting::Explicit(Some(timeout)) && nanos(timeout) > 0 ==> spec.resolved(
            defaults,
        ).timeout == Some(timeout),
        spec.timeout == Setting::Explicit(Some(timeout)) && nanos(timeout) == 0 ==> spec.resolved(
            defaults,
        ).timeout is None,
        spec.timeout == Setting::Explicit(None::<Duration>) ==> spec.resolved(
            defaults,
        ).timeout is None,
        spec.timeout is Inherit && defaults@.timeout == Some(timeout) && nanos(timeout) > 0
            ==> spec.resolved(defaults).timeout == Some(timeout),
        spec.timeout is Inherit && defaults@.timeout is None ==> spec.resolved(
            defaults,
        ).timeout is None,
        spec.max_retries == Setting::Explicit(max_retries) ==> spec.resolved(defaults).max_retries
            == max_retries,
        spec.max_retries is Inherit ==> spec.resolved(defaults).max_retries
            == defaults@.max_retries,
{
}

/// The defaults matter only where a setting is inherited: a specification with every setting
/// explicit resolves the same under any two of them.
pub proof fn law_defaults_fill_only_what_is_inherited(
    spec: TaskSpec,
    one: TaskDefaults,
    other: TaskDefaults,
)
    ensures
        !(spec.restart is Inherit) ==> spec.resolved(one).restart == spec.resolved(other).restart,
        !(spec.backoff is Inherit) ==> spec.resolved(one).backoff == spec.resolved(other).backoff,
        !(spec.timeout is Inherit) ==> spec.resolved(one).timeout == spec.resolved(other).timeout,
        !(spec.max_retries is Inherit) ==> spec.resolved(one).max_retries == spec.resolved(
            other,
        ).max_retries,
{
}

/// The two kinds of task differ in their restart policy alone; everything else is inherited.
pub proof fn law_task_kinds_differ_in_restart_alone(
    name: String,
    once: TaskSpec,
    restartable: TaskSpec,
    defaults: TaskDefaults,
    params: ActorParams,
)
    requires
        call_ensures(TaskSpec::once, (name,), once),
        call_ensures(TaskSpec::restartable, (name,), restartable),
        call_ensures(TaskSpec::resolve, (&once, &defaults), params),
    ensures
        once.name == name && restartable.name == name,
        once.restart == Setting::Explicit(RestartPolicy::Never),
        restartable.restart == Setting::Explicit(RestartPolicy::OnFailure),
        params.restart == RestartPolicy::Never,
        params.backoff == defaults@.backoff,
        params.max_retries == defaults@.max_retries,
        defaults@.timeout is None ==> params.timeout is None,
{
}

} // verus!
