//! The task record and the handle that the spawner of a task keeps.
//!
//! A record is shared by the handle, the runnable and whoever completes the
//! task. An embedding keeps it behind a lock and calls these operations while
//! it holds the lock; a continuation that an operation hands back is woken
//! after the lock is let go.

use crate::channel::{Request, RequestChannel, Requests};
use vstd::prelude::*;

verus! {

/// The id of a task that the scheduler has not adopted yet.
pub const ID_NULL: usize = usize::MAX;

/// The id of the top-level task of a run.
pub const ID_MAIN: usize = usize::MAX - 1;

/// What a poll hands back.
pub enum Poll<T> {
    Ready(T),
    Pending,
}

/// The life cycle of a task.
pub enum TaskState<T, W> {
    /// The task can still make progress. `id` is `ID_NULL` until the scheduler
    /// adopts the task; `waker` is the continuation of whoever awaits the
    /// handle.
    Running { id: usize, waker: Option<W> },
    /// The handle was dropped before the task completed.
    Cancelled,
    /// The task returned this value, and the handle has not taken it yet.
    Completed(T),
    /// The handle has taken the value.
    Finished,
}

impl<T, W> TaskState<T, W> {
    /// The state of a task that was just spawned.
    pub open spec fn spawned() -> Self {
        TaskState::Running { id: ID_NULL, waker: None }
    }

    /// The state after the scheduler has adopted the task under `id`.
    pub open spec fn adopted(self, id: usize) -> Self {
        match self {
            TaskState::Running { id: _, waker } => TaskState::Running { id, waker },
            _ => self,
        }
    }

    /// The state after the task's future returned `value`. Only a running task
    /// completes.
    pub open spec fn completed(self, value: T) -> Self {
        match self {
            TaskState::Running { .. } => TaskState::Completed(value),
            _ => self,
        }
    }

    /// The continuation that waits for the task to complete, if there is one.
    pub open spec fn awaiter(self) -> Option<W> {
        match self {
            TaskState::Running { id: _, waker } => waker,
            _ => None,
        }
    }

    /// Whether the handle of a task in this state may be polled.
    pub open spec fn can_poll(self) -> bool {
        !(self is Finished)
    }

    /// The state after the handle was polled by a caller whose continuation is
    /// `waker`.
    pub open spec fn polled(self, waker: W) -> Self {
        match self {
            TaskState::Running { id, waker: _ } => TaskState::Running { id, waker: Some(waker) },
            TaskState::Cancelled => TaskState::Cancelled,
            TaskState::Completed(_) => TaskState::Finished,
            TaskState::Finished => TaskState::Finished,
        }
    }

    /// What a poll of the handle returns in this state.
    pub open spec fn poll_result(self) -> Poll<T> {
        match self {
            TaskState::Completed(value) => Poll::Ready(value),
            _ => Poll::Pending,
        }
    }

    /// The state after the handle was dropped.
    pub open spec fn dropped(self, is_detach: bool) -> Self {
        match self {
            TaskState::Running { .. } if !is_detach => TaskState::Cancelled,
            _ => self,
        }
    }

    /// The id for which a poll is asked when the handle is dropped, if any: that
    /// of a running task that was adopted, unless the handle was detached.
    pub open spec fn drop_wakes(self, is_detach: bool) -> Option<usize> {
        match self {
            TaskState::Running { id, waker: _ } if !is_detach && id != ID_NULL => Some(id),
            _ => None,
        }
    }

    /// The queues after the handle was dropped.
    pub open spec fn dropped_requests(self, is_detach: bool, c: Requests<W>) -> Requests<W> {
        match self.drop_wakes(is_detach) {
            Some(id) => c.push(Request::Wake(id)),
            None => c,
        }
    }

    /// The state after the task's future was polled with the outcome `polled`.
    pub open spec fn after_poll(self, polled: Poll<T>) -> Self {
        match polled {
            Poll::Ready(value) => self.completed(value),
            Poll::Pending => self,
        }
    }

    /// The continuation to wake after the task's future was polled with the
    /// outcome `polled`.
    pub open spec fn wakes_after_poll(self, polled: Poll<T>) -> Option<W> {
        match polled {
            Poll::Ready(_) => self.awaiter(),
            Poll::Pending => None,
        }
    }
}

/// The record of one task.
pub struct RawTask<T, W> {
    state: TaskState<T, W>,
}

impl<T, W> View for RawTask<T, W> {
    type V = TaskState<T, W>;

    closed spec fn view(&self) -> TaskState<T, W> {
        self.state
    }
}

impl<T, W> RawTask<T, W> {
    /// The record of a task that was just spawned: running, not adopted, with
    /// nobody waiting for it.
    pub fn new() -> (task: Self)
        ensures
            task@ == TaskState::<T, W>::spawned(),
    {
        RawTask { state: TaskState::Running { id: ID_NULL, waker: None } }
    }

    pub fn state(&self) -> (state: &TaskState<T, W>)
        ensures
            *state == self@,
    {
        &self.state
    }

    /// Writes the id under which the scheduler adopted the task.
    pub fn set_id(&mut self, id: usize)
        ensures
            final(self)@ == old(self)@.adopted(id),
    {
        match &mut self.state {
            TaskState::Running { id: id_, .. } => {
                *id_ = id;
            },
            _ => {},
        }
    }

    pub fn is_cancelled(&self) -> (cancelled: bool)
        ensures
            cancelled == (self@ is Cancelled),
    {
        matches!(&self.state, TaskState::Cancelled)
    }

    /// Whether the future of the task is to be polled when the scheduler
    /// turns to its runnable: it is unless the task was cancelled, in which
    /// case the runnable is done without a poll.
    pub fn should_poll(&self) -> (poll: bool)
        ensures
            poll == !(self@ is Cancelled),
    {
        !self.is_cancelled()
    }

    /// Records that the task's future returned `value`, and hands back the
    /// continuation that waited for it, which the caller wakes.
    pub fn complete(&mut self, value: T) -> (awaiter: Option<W>)
        ensures
            final(self)@ == old(self)@.completed(value),
            awaiter == old(self)@.awaiter(),
    {
        if matches!(&self.state, TaskState::Running { .. }) {
            let mut before = TaskState::Completed(value);
            core::mem::swap(&mut self.state, &mut before);
            match before {
                TaskState::Running { id: _, waker } => waker,
                _ => None,
            }
        } else {
            None
        }
    }

    /// Takes in the outcome of one poll of the task's future. The first part
    /// of the result says whether the runnable keeps its slot, which it does
    /// while the future is pending; the second is the continuation to wake.
    pub fn finish_poll(&mut self, polled: Poll<T>) -> (r: (bool, Option<W>))
        ensures
            final(self)@ == old(self)@.after_poll(polled),
            r.0 == (polled is Pending),
            r.1 == old(self)@.wakes_after_poll(polled),
    {
        match polled {
            Poll::Ready(value) => (false, self.complete(value)),
            Poll::Pending => (true, None),
        }
    }
}

/// The handle of a spawned task. Dropping it cancels the task, unless it was
/// detached.
pub struct Task {
    is_detach: bool,
}

impl Task {
    pub closed spec fn spec_is_detach(&self) -> bool {
        self.is_detach
    }

    /// The handle of a task that was just spawned.
    pub fn new() -> (task: Self)
        ensures
            !task.is_detach(),
    {
        Task { is_detach: false }
    }

    #[verifier::when_used_as_spec(spec_is_detach)]
    pub fn is_detach(&self) -> (is_detach: bool)
        ensures
            is_detach == self.is_detach(),
    {
        self.is_detach
    }

    /// Lets the task run on when the handle is dropped.
    pub fn detach(&mut self)
        ensures
            final(self).is_detach(),
    {
        self.is_detach = true;
    }

    /// Polls the handle on behalf of a caller whose continuation is `waker`.
    ///
    /// A running task keeps the continuation and the poll is pending. A
    /// cancelled task never resolves: the poll is pending, and nothing is kept.
    /// A completed task gives up its value, once.
    pub fn poll<T, W>(&self, task: &mut RawTask<T, W>, waker: W) -> (polled: Poll<T>)
        requires
            old(task)@.can_poll(),
        ensures
            final(task)@ == old(task)@.polled(waker),
            polled == old(task)@.poll_result(),
    {
        if matches!(&task.state, TaskState::Running { .. }) {
            match &mut task.state {
                TaskState::Running { id: _, waker: slot } => {
                    *slot = Some(waker);
                },
                _ => {},
            }
            Poll::Pending
        } else if matches!(&task.state, TaskState::Completed(_)) {
            let mut before = TaskState::Finished;
            core::mem::swap(&mut task.state, &mut before);
            match before {
                TaskState::Completed(value) => Poll::Ready(value),
                _ => Poll::Pending,
            }
        } else {
            Poll::Pending
        }
    }

    /// Drops the handle. Unless it was detached, a running task becomes
    /// cancelled, and if the scheduler had adopted it, a poll of it is asked
    /// for, so that the scheduler sees the cancellation and tears the runnable
    /// down. The first part of the result says whether the host is to be
    /// woken; the second is the continuation that waited for the task, which
    /// is not woken: the caller lets it go.
    pub fn drop<T, W>(self, task: &mut RawTask<T, W>, rc: &mut RequestChannel<W>) -> (r: (
        bool,
        Option<W>,
    ))
        ensures
            final(task)@ == old(task)@.dropped(self.is_detach()),
            final(rc)@ == old(task)@.dropped_requests(self.is_detach(), old(rc)@),
            r.0 == (old(task)@.drop_wakes(self.is_detach()).is_some() && old(rc)@.is_empty()),
            r.1 == (if self.is_detach() {
                None
            } else {
                old(task)@.awaiter()
            }),
    {
        if self.is_detach || !matches!(&task.state, TaskState::Running { .. }) {
            return (false, None);
        }
        let mut before = TaskState::Cancelled;
        core::mem::swap(&mut task.state, &mut before);
        match before {
            TaskState::Running { id, waker } => {
                if id != ID_NULL {
                    (rc.push_wake(id), waker)
                } else {
                    (false, waker)
                }
            },
            _ => (false, None),
        }
    }
}

/// A task that was polled to `Ready` gives its value to exactly that one poll
/// of the handle: the record is `Finished` afterwards, the handle may not be
/// polled again, and nothing leads out of `Finished`.
pub proof fn lemma_value_taken_once<T, W>(state: TaskState<T, W>, waker: W, value: T, id: usize)
    requires
        state.can_poll(),
        state.poll_result() == Poll::Ready(value),
    ensures
        state == TaskState::<T, W>::Completed(value),
        state.polled(waker) == TaskState::<T, W>::Finished,
        !state.polled(waker).can_poll(),
        state.polled(waker).completed(value) == TaskState::<T, W>::Finished,
        state.polled(waker).adopted(id) == TaskState::<T, W>::Finished,
        state.polled(waker).dropped(false) == TaskState::<T, W>::Finished,
        state.polled(waker).dropped(true) == TaskState::<T, W>::Finished,
{
}

/// A poll that is not `Ready` takes nothing: the value of a completed task is
/// still there for the poll that will return it.
pub proof fn lemma_pending_poll_keeps_value<T, W>(state: TaskState<T, W>, waker: W)
    requires
        state.can_poll(),
        state.poll_result() is Pending,
    ensures
        !(state is Completed),
        state.polled(waker).can_poll(),
        state.polled(waker).poll_result() is Pending,
{
}

/// Dropping a detached handle cancels nothing: the record stays as it is and
/// nothing is put into the channel.
pub proof fn lemma_detached_drop_is_silent<T, W>(state: TaskState<T, W>, c: Requests<W>)
    ensures
        state.dropped(true) == state,
        state.dropped_requests(true, c) == c,
        state.drop_wakes(true).is_none(),
{
}

/// Dropping the handle of a running task that was never adopted leaves the
/// record `Cancelled` and puts nothing into the channel.
pub proof fn lemma_drop_before_adoption<T, W>(waker: Option<W>, c: Requests<W>)
    ensures
        (TaskState::<T, W>::Running { id: ID_NULL, waker }).dropped(false)
            == TaskState::<T, W>::Cancelled,
        (TaskState::<T, W>::Running { id: ID_NULL, waker }).dropped_requests(false, c) == c,
{
}

/// A completed task waits for the poll that takes its value: nothing but that
/// poll changes its record, and the poll leaves it `Finished`.
pub proof fn lemma_completed_is_only_taken<T, W>(
    value: T,
    other: T,
    waker: W,
    id: usize,
    is_detach: bool,
)
    ensures
        TaskState::<T, W>::Completed(value).completed(other) == TaskState::<T, W>::Completed(value),
        TaskState::<T, W>::Completed(value).adopted(id) == TaskState::<T, W>::Completed(value),
        TaskState::<T, W>::Completed(value).dropped(is_detach) == TaskState::<T, W>::Completed(
            value,
        ),
        TaskState::<T, W>::Completed(value).polled(waker) == TaskState::<T, W>::Finished,
        TaskState::<T, W>::Completed(value).poll_result() == Poll::Ready(value),
{
}

/// A running task is cancelled by the drop of its handle and by nothing else,
/// and it completes only when its future is ready.
pub proof fn lemma_running_ends_by_drop_or_completion<T, W>(
    state: TaskState<T, W>,
    waker: W,
    id: usize,
    polled: Poll<T>,
)
    requires
        state is Running,
    ensures
        state.adopted(id) is Running,
        state.polled(waker) is Running,
        state.dropped(true) is Running,
        state.dropped(false) is Cancelled,
        state.after_poll(polled) is Cancelled == false,
        polled is Pending ==> state.after_poll(polled) == state,
        polled matches Poll::Ready(value) ==> state.after_poll(polled) == TaskState::<
            T,
            W,
        >::Completed(value),
{
}

/// A cancelled task stays cancelled, whatever happens to its record.
pub proof fn lemma_cancelled_is_final<T, W>(waker: W, value: T, id: usize, is_detach: bool)
    ensures
        TaskState::<T, W>::Cancelled.polled(waker) == TaskState::<T, W>::Cancelled,
        TaskState::<T, W>::Cancelled.completed(value) == TaskState::<T, W>::Cancelled,
        TaskState::<T, W>::Cancelled.adopted(id) == TaskState::<T, W>::Cancelled,
        TaskState::<T, W>::Cancelled.dropped(is_detach) == TaskState::<T, W>::Cancelled,
{
}

} // verus!
