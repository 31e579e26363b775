//! Stable reason texts carried by rejection events and outcomes.

use vstd::prelude::*;

verus! {

/// The name is held by the registry, by a physically active attempt, or by an earlier batch item.
pub const ALREADY_EXISTS: &'static str = "already_exists";

/// Another item of the same atomic batch was refused.
pub const BATCH_REJECTED: &'static str = "batch_rejected";

/// The registration limit leaves no room.
pub const REGISTERED_TASK_LIMIT: &'static str = "registered_task_limit";

/// A caller asked for the cancellation.
pub const MANUAL_CANCEL: &'static str = "manual_cancel";

/// The actor was force-aborted at its grace deadline.
pub const FORCE_ABORTED: &'static str = "task did not stop within grace; force-aborted";

/// The task runner itself panicked.
pub const RUNNER_PANICKED: &'static str = "internal task runner panicked";

} // verus!
