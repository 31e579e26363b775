//! Runtime identity of one supervised task.

use vstd::prelude::*;

use crate::text::{append_decimal, decimal};

verus! {

/// Identity assigned to a task before it reaches the registry.
///
/// Two tasks of one process never share an identity, also when they share a name.
#[derive(Clone, Copy, Debug, PartialEq, Eq, PartialOrd, Ord, Hash, Structural)]
pub struct TaskId {
    /// Number behind the identity.
    pub raw: u64,
}

impl TaskId {
    /// Identity behind a number handed out by the process-wide counter.
    pub fn new(raw: u64) -> (id: TaskId)
        ensures
            id.raw == raw,
    {
        TaskId { raw }
    }

    /// Number behind the identity.
    pub fn get(self) -> (raw: u64)
        ensures
            raw == self.raw,
    {
        self.raw
    }

    /// Decimal text of the identity, as it appears in diagnostics.
    pub fn to_string(&self) -> (text: String)
        ensures
            text@ == decimal(self.raw as nat),
    {
        let mut text = String::new();
        append_decimal(&mut text, self.raw);
        proof {
            assert(text@ =~= decimal(self.raw as nat));
        }
        text
    }
}

} // verus!
