//! The request channel: the inbox through which wakes, drops and idle-waiters
//! reach the scheduler.
//!
//! The channel is plain data. An embedding keeps it behind its lock, calls these
//! operations while it holds the lock, and wakes the host after it has let the
//! lock go, whenever an operation says so.

use std::collections::VecDeque;
use vstd::prelude::*;

verus! {

/// One request to the scheduler.
pub enum Request<W> {
    /// Poll the task with this id in the next drain iteration.
    Wake(usize),
    /// Remove the slab entry with this id.
    Drop(usize),
    /// Resume this continuation once there is no immediate work.
    Idle(W),
}

/// The three queues of a channel as mathematical sequences, oldest request first.
#[verifier::ext_equal]
pub struct Requests<W> {
    pub wakes: Seq<usize>,
    pub drops: Seq<usize>,
    pub idles: Seq<W>,
}

impl<W> Requests<W> {
    pub open spec fn empty() -> Self {
        Requests { wakes: Seq::empty(), drops: Seq::empty(), idles: Seq::empty() }
    }

    pub open spec fn is_empty(self) -> bool {
        self.wakes.len() == 0 && self.drops.len() == 0 && self.idles.len() == 0
    }

    /// The queues after `req` has been appended to the queue of its kind.
    pub open spec fn push(self, req: Request<W>) -> Self {
        match req {
            Request::Wake(id) => Requests { wakes: self.wakes.push(id), ..self },
            Request::Drop(id) => Requests { drops: self.drops.push(id), ..self },
            Request::Idle(w) => Requests { idles: self.idles.push(w), ..self },
        }
    }

    /// The queues after every request of `reqs` has been pushed, in order.
    pub open spec fn push_all(self, reqs: Seq<Request<W>>) -> Self
        decreases reqs.len(),
    {
        if reqs.len() == 0 {
            self
        } else {
            self.push_all(reqs.drop_last()).push(reqs.last())
        }
    }

    /// How often the host is to be woken while `reqs` are pushed in order: once
    /// for each push that finds all three queues empty.
    pub open spec fn host_wakes(self, reqs: Seq<Request<W>>) -> nat
        decreases reqs.len(),
    {
        if reqs.len() == 0 {
            0
        } else {
            let before = self.push_all(reqs.drop_last());
            let earlier = self.host_wakes(reqs.drop_last());
            if before.is_empty() {
                earlier + 1
            } else {
                earlier
            }
        }
    }

    /// The queues after the oldest idle-waiter, if there is one, has been taken.
    pub open spec fn pop_idle(self) -> Self {
        if self.idles.len() == 0 {
            self
        } else {
            Requests { idles: self.idles.drop_first(), ..self }
        }
    }

    /// The queues after the `n` oldest idle-waiters have been taken, one by one.
    pub open spec fn pop_idles(self, n: nat) -> Self
        decreases n,
    {
        if n == 0 {
            self
        } else {
            self.pop_idle().pop_idles((n - 1) as nat)
        }
    }
}

/// Between two swaps the host is woken at most once: by the first request, if it
/// found the channel empty, and by no later one.
pub proof fn lemma_host_woken_once_per_transition<W>(c: Requests<W>, reqs: Seq<Request<W>>)
    ensures
        c.host_wakes(reqs) == (if c.is_empty() && reqs.len() > 0 {
            1nat
        } else {
            0nat
        }),
        reqs.len() > 0 ==> !c.push_all(reqs).is_empty(),
        reqs.len() == 0 ==> c.push_all(reqs) == c,
    decreases reqs.len(),
{
    if reqs.len() > 0 {
        lemma_host_woken_once_per_transition(c, reqs.drop_last());
    }
}

/// Taking idle-waiters one by one hands them out oldest first and touches
/// neither of the other queues.
pub proof fn lemma_pop_idles<W>(c: Requests<W>, n: nat)
    requires
        n <= c.idles.len(),
    ensures
        c.pop_idles(n).idles == c.idles.skip(n as int),
        c.pop_idles(n).wakes == c.wakes,
        c.pop_idles(n).drops == c.drops,
    decreases n,
{
    if n > 0 {
        lemma_pop_idles(c.pop_idle(), (n - 1) as nat);
    }
}

/// An idle-waiter is resumed right after the waiters that were stashed before
/// it, however many there are: once those have been taken, it is the next.
pub proof fn lemma_idle_waiters_resume_in_order<W>(c: Requests<W>, waker: W)
    ensures
        c.push(Request::Idle(waker)).pop_idles(c.idles.len()).idles == seq![waker],
{
    lemma_pop_idles(c.push(Request::Idle(waker)), c.idles.len());
}

/// The queues of pending requests.
pub struct RawRequests<W> {
    pub wakes: Vec<usize>,
    pub drops: Vec<usize>,
    pub idles: VecDeque<W>,
}

impl<W> View for RawRequests<W> {
    type V = Requests<W>;

    open spec fn view(&self) -> Requests<W> {
        Requests { wakes: self.wakes@, drops: self.drops@, idles: self.idles@ }
    }
}

impl<W> RawRequests<W> {
    pub fn new() -> (reqs: Self)
        ensures
            reqs@ == Requests::<W>::empty(),
    {
        RawRequests { wakes: Vec::new(), drops: Vec::new(), idles: VecDeque::new() }
    }

    pub fn is_empty(&self) -> (empty: bool)
        ensures
            empty == self@.is_empty(),
    {
        self.wakes.len() == 0 && self.drops.len() == 0 && self.idles.len() == 0
    }
}

/// The inbox of one runtime.
pub struct RequestChannel<W> {
    reqs: RawRequests<W>,
}

impl<W> View for RequestChannel<W> {
    type V = Requests<W>;

    closed spec fn view(&self) -> Requests<W> {
        self.reqs@
    }
}

impl<W> RequestChannel<W> {
    /// A channel with nothing pending.
    pub fn new() -> (rc: Self)
        ensures
            rc@ == Requests::<W>::empty(),
    {
        RequestChannel { reqs: RawRequests::new() }
    }

    /// The pending requests.
    pub fn reqs(&self) -> (reqs: &RawRequests<W>)
        ensures
            reqs@ == self@,
    {
        &self.reqs
    }

    /// Moves all three queues out into the caller's buffers, which must be empty,
    /// and leaves the channel empty.
    pub fn swap(
        &mut self,
        wakes: &mut Vec<usize>,
        drops: &mut Vec<usize>,
        idles: &mut VecDeque<W>,
    )
        requires
            old(wakes)@.len() == 0,
            old(drops)@.len() == 0,
            old(idles)@.len() == 0,
        ensures
            final(wakes)@ == old(self)@.wakes,
            final(drops)@ == old(self)@.drops,
            final(idles)@ == old(self)@.idles,
            final(self)@ == Requests::<W>::empty(),
    {
        core::mem::swap(wakes, &mut self.reqs.wakes);
        core::mem::swap(drops, &mut self.reqs.drops);
        core::mem::swap(idles, &mut self.reqs.idles);
    }

    /// Appends one request. The result says whether the host is to be woken: it
    /// is, exactly when the channel was empty before.
    pub fn push_with(&mut self, req: Request<W>) -> (call_wake: bool)
        ensures
            call_wake == old(self)@.is_empty(),
            final(self)@ == old(self)@.push(req),
    {
        let call_wake = self.reqs.is_empty();
        match req {
            Request::Wake(id) => self.reqs.wakes.push(id),
            Request::Drop(id) => self.reqs.drops.push(id),
            Request::Idle(w) => self.reqs.idles.push_back(w),
        }
        call_wake
    }

    /// Asks for the task `id` to be polled.
    pub fn push_wake(&mut self, id: usize) -> (call_wake: bool)
        ensures
            call_wake == old(self)@.is_empty(),
            final(self)@ == old(self)@.push(Request::Wake(id)),
    {
        self.push_with(Request::Wake(id))
    }

    /// Asks for the slab entry `id` to be removed.
    pub fn push_drop(&mut self, id: usize) -> (call_wake: bool)
        ensures
            call_wake == old(self)@.is_empty(),
            final(self)@ == old(self)@.push(Request::Drop(id)),
    {
        self.push_with(Request::Drop(id))
    }

    /// Stashes a continuation that waits for the runtime to become idle.
    pub fn push_on_idle(&mut self, waker: W) -> (call_wake: bool)
        ensures
            call_wake == old(self)@.is_empty(),
            final(self)@ == old(self)@.push(Request::Idle(waker)),
    {
        self.push_with(Request::Idle(waker))
    }

    /// Takes the oldest idle-waiter, if there is one.
    pub fn pop_on_idle(&mut self) -> (waker: Option<W>)
        ensures
            final(self)@ == old(self)@.pop_idle(),
            waker == (if old(self)@.idles.len() == 0 {
                None
            } else {
                Some(old(self)@.idles.first())
            }),
    {
        self.reqs.idles.pop_front()
    }
}

} // verus!
