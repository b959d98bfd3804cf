//! Waiting until the runtime and its host have no immediate work.

use crate::channel::{Request, RequestChannel, Requests};
use crate::task::Poll;
use vstd::prelude::*;

verus! {

/// The future behind `wait_for_idle`: it yields once, and resumes when the host
/// has found nothing else to do.
pub struct WaitForIdle {
    is_ready: bool,
}

impl WaitForIdle {
    pub closed spec fn spec_is_ready(&self) -> bool {
        self.is_ready
    }

    /// What a poll returns.
    pub open spec fn poll_result(&self) -> Poll<()> {
        if self.is_ready() {
            Poll::Ready(())
        } else {
            Poll::Pending
        }
    }

    /// The queues after a poll by a task whose continuation is `waker`.
    pub open spec fn poll_requests<W>(&self, c: Requests<W>, waker: W) -> Requests<W> {
        if self.is_ready() {
            c
        } else {
            c.push(Request::Idle(waker))
        }
    }

    #[verifier::when_used_as_spec(spec_is_ready)]
    pub fn is_ready(&self) -> (is_ready: bool)
        ensures
            is_ready == self.is_ready(),
    {
        self.is_ready
    }

    /// Polls on behalf of a task whose continuation is `waker`.
    ///
    /// The first poll stashes the continuation among the idle-waiters of the
    /// channel and is pending; every later one is ready. The second part of
    /// the result says whether the host is to be woken.
    pub fn poll<W>(&mut self, rc: &mut RequestChannel<W>, waker: W) -> (r: (Poll<()>, bool))
        ensures
            final(self).is_ready(),
            r.0 == old(self).poll_result(),
            final(rc)@ == old(self).poll_requests(old(rc)@, waker),
            r.1 == (!old(self).is_ready() && old(rc)@.is_empty()),
    {
        if self.is_ready {
            (Poll::Ready(()), false)
        } else {
            self.is_ready = true;
            let call_wake = rc.push_on_idle(waker);
            (Poll::Pending, call_wake)
        }
    }
}

/// Starts a wait for the runtime to become idle. The task that awaits the
/// result is suspended until its host resumes it.
pub fn wait_for_idle() -> (wait: WaitForIdle)
    ensures
        !wait.is_ready(),
{
    WaitForIdle { is_ready: false }
}

/// A wait yields exactly once. The first poll is pending and stashes the
/// continuation; it leaves the wait ready, so that the poll after the host has
/// resumed the task returns and asks for nothing.
pub proof fn lemma_wait_yields_once<W>(first: WaitForIdle, second: WaitForIdle, c: Requests<W>, waker: W)
    requires
        !first.is_ready(),
        second.is_ready(),
    ensures
        first.poll_result() == Poll::<()>::Pending,
        first.poll_requests(c, waker) == c.push(Request::Idle(waker)),
        first.poll_requests(c, waker).idles.last() == waker,
        second.poll_result() == Poll::Ready(()),
        second.poll_requests(c, waker) == c,
{
}

} // verus!
