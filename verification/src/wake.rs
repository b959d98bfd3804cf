//! The wake object of an adopted task.

use crate::channel::{Request, RequestChannel, Requests};
use vstd::prelude::*;

verus! {

/// What a wake object holds.
pub struct WakeState {
    pub id: usize,
    /// Set while a wake is pending, or while the task has not been polled since
    /// it was last woken.
    pub is_wake: bool,
}

impl WakeState {
    /// Whether a wake in this state puts the id into the channel.
    pub open spec fn enqueues(self) -> bool {
        !self.is_wake
    }

    /// The state after a wake.
    pub open spec fn wake(self) -> Self {
        WakeState { is_wake: true, ..self }
    }

    /// The state after a waker snapshot was taken for a poll.
    pub open spec fn snapshot(self) -> Self {
        WakeState { is_wake: false, ..self }
    }

    /// The state after `n` wakes in a row.
    pub open spec fn wake_times(self, n: nat) -> Self
        decreases n,
    {
        if n == 0 {
            self
        } else {
            self.wake_times((n - 1) as nat).wake()
        }
    }

    /// The queues after a wake in this state.
    pub open spec fn wake_requests<W>(self, c: Requests<W>) -> Requests<W> {
        if self.enqueues() {
            c.push(Request::Wake(self.id))
        } else {
            c
        }
    }

    /// The queues after `n` wakes in a row that started in this state.
    pub open spec fn wake_times_requests<W>(self, c: Requests<W>, n: nat) -> Requests<W>
        decreases n,
    {
        if n == 0 {
            c
        } else {
            self.wake_times((n - 1) as nat).wake_requests(
                self.wake_times_requests(c, (n - 1) as nat),
            )
        }
    }
}

/// The wake object of one task: its id and the flag that folds repeated wakes
/// into one request.
///
/// The flag is set on construction and by every `wake`, and cleared only when
/// a waker snapshot is taken for a poll.
pub struct TaskWake {
    id: usize,
    is_wake: bool,
}

impl View for TaskWake {
    type V = WakeState;

    closed spec fn view(&self) -> WakeState {
        WakeState { id: self.id, is_wake: self.is_wake }
    }
}

impl TaskWake {
    /// The wake object of the task `id`, with the flag set.
    pub fn new(id: usize) -> (wake: Self)
        ensures
            wake@ == (WakeState { id, is_wake: true }),
    {
        TaskWake { id, is_wake: true }
    }

    pub fn id(&self) -> (id: usize)
        ensures
            id == self@.id,
    {
        self.id
    }

    pub fn is_wake(&self) -> (is_wake: bool)
        ensures
            is_wake == self@.is_wake,
    {
        self.is_wake
    }

    /// Takes the waker snapshot for a poll: clears the flag, so that a wake
    /// that arrives during the poll is enqueued again. Returns the id that a
    /// wake through the snapshot asks to be polled.
    pub fn waker(&mut self) -> (id: usize)
        ensures
            id == old(self)@.id,
            final(self)@ == old(self)@.snapshot(),
    {
        self.is_wake = false;
        self.id
    }

    /// Wakes the task: sets the flag and, if it was clear, asks the channel for
    /// a poll of the task. A wake that finds the flag set does nothing more.
    /// The result says whether the host is to be woken.
    pub fn wake<W>(&mut self, rc: &mut RequestChannel<W>) -> (call_wake: bool)
        ensures
            final(self)@ == old(self)@.wake(),
            final(rc)@ == old(self)@.wake_requests(old(rc)@),
            call_wake == (old(self)@.enqueues() && old(rc)@.is_empty()),
    {
        let was_wake = self.is_wake;
        self.is_wake = true;
        if !was_wake {
            rc.push_wake(self.id)
        } else {
            false
        }
    }

    /// Releases the wake object when its last holder lets go of it: asks the
    /// channel to remove the slab entry of the task. The result says whether
    /// the host is to be woken.
    pub fn drop<W>(self, rc: &mut RequestChannel<W>) -> (call_wake: bool)
        ensures
            final(rc)@ == old(rc)@.push(Request::Drop(self@.id)),
            call_wake == old(rc)@.is_empty(),
    {
        rc.push_drop(self.id)
    }
}

/// Wakes of one task between two of its polls put its id into the channel at
/// most once: the first of them does if the flag was clear, and every other
/// one finds the flag set.
pub proof fn lemma_wake_coalesces<W>(wake: WakeState, c: Requests<W>, n: nat)
    ensures
        wake.wake_times(n) == (if n == 0 {
            wake
        } else {
            wake.wake()
        }),
        wake.wake_times_requests(c, n) == (if n > 0 && wake.enqueues() {
            c.push(Request::Wake(wake.id))
        } else {
            c
        }),
    decreases n,
{
    if n > 0 {
        lemma_wake_coalesces(wake, c, (n - 1) as nat);
    }
}

/// A task that is woken while it is polled is asked for again: after the
/// snapshot for the poll the first wake is enqueued, once, in the channel.
pub proof fn lemma_wake_during_poll_is_enqueued<W>(wake: WakeState, c: Requests<W>, n: nat)
    requires
        n > 0,
    ensures
        wake.snapshot().wake_times_requests(c, n) == c.push(Request::Wake(wake.id)),
{
    lemma_wake_coalesces(wake.snapshot(), c, n);
}

} // verus!
