//! A to-do item: a task with a done flag.

use vstd::prelude::*;

verus! {

/// A task and whether it has been done. The task text is public; the
/// flag changes only through [`ToDo::check`].
pub struct ToDo(bool, pub String);

impl ToDo {
    /// Whether the item has been checked off.
    pub closed spec fn spec_done(&self) -> bool {
        self.0
    }

    /// The task text.
    pub closed spec fn spec_task(&self) -> Seq<char> {
        self.1@
    }

    /// Builds an item with the given initial status and task text.
    pub fn new(status: bool, task: &str) -> (r: Self)
        ensures
            r.spec_done() == status,
            r.spec_task() == task@,
    {
        ToDo(status, task.to_owned())
    }

    /// Marks the item done; the task text stays as it is.
    pub fn check(&mut self)
        ensures
            final(self).spec_done(),
            final(self).spec_task() == old(self).spec_task(),
    {
        self.0 = true;
    }

    /// Whether the item is done.
    pub fn is_done(&self) -> (r: bool)
        ensures
            r == self.spec_done(),
    {
        self.0
    }
}

} // verus!
