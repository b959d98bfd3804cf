//! The runtime of a thread: the spawns that wait for the scheduler to adopt
//! them.
//!
//! A thread has at most one runtime. An embedding keeps the slot for it in
//! thread-local storage and hands it to these operations.

use crate::runnable::Spawn;
use crate::task::Task;
use vstd::prelude::*;

verus! {

/// The runtime that is installed on a thread.
pub struct Runtime {
    rs: Vec<Spawn>,
}

impl Runtime {
    /// The spawns that were not adopted yet, oldest first.
    pub closed spec fn pending(&self) -> Seq<Spawn> {
        self.rs@
    }

    /// A runtime without pending spawns.
    pub fn new() -> (rt: Self)
        ensures
            rt.pending().len() == 0,
    {
        Runtime { rs: Vec::new() }
    }

    /// Installs a new runtime in the slot of the thread, which must be free:
    /// runtimes do not nest.
    pub fn enter(slot: &mut Option<Runtime>)
        requires
            old(slot).is_none(),
        ensures
            final(slot).is_some(),
            final(slot).unwrap().pending().len() == 0,
    {
        *slot = Some(Runtime::new());
    }

    /// Removes the runtime of the thread, and with it the spawns that were
    /// never adopted.
    pub fn leave(slot: &mut Option<Runtime>)
        ensures
            final(slot).is_none(),
    {
        *slot = None;
    }

    /// The runtime of the thread, which must be installed.
    pub fn with(slot: &mut Option<Runtime>) -> (rt: &mut Runtime)
        requires
            old(slot).is_some(),
        ensures
            *rt == old(slot).unwrap(),
            *final(slot) == Some(*final(rt)),
    {
        slot.as_mut().unwrap()
    }

    /// The number of spawns that were not adopted yet.
    pub fn len(&self) -> (len: usize)
        ensures
            len == self.pending().len(),
    {
        self.rs.len()
    }

    /// Takes the pending spawns out, oldest first.
    pub fn take(&mut self) -> (spawns: Vec<Spawn>)
        ensures
            spawns@ == old(self).pending(),
            final(self).pending().len() == 0,
    {
        let mut spawns = Vec::new();
        core::mem::swap(&mut spawns, &mut self.rs);
        spawns
    }
}

/// Spawns a task on the thread whose runtime is in `slot`: queues its runnable
/// for adoption and returns the handle of the task. The runtime must be
/// installed. The second part of the result says whether the host is to be
/// woken: it is when no other spawn was pending, so that the host turns to the
/// scheduler though no wake is on its way.
pub fn spawn_local(slot: &mut Option<Runtime>, spawn: Spawn) -> (spawned: (Task, bool))
    requires
        old(slot).is_some(),
    ensures
        final(slot).is_some(),
        final(slot).unwrap().pending() == old(slot).unwrap().pending().push(spawn),
        !spawned.0.is_detach(),
        spawned.1 == (old(slot).unwrap().pending().len() == 0),
{
    let rt = Runtime::with(slot);
    let need_wake = rt.rs.len() == 0;
    rt.rs.push(spawn);
    (Task::new(), need_wake)
}

} // verus!
