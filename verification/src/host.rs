//! The blocking host: a message loop for a thread that has nothing to do but
//! run the tasks.
//!
//! The loop sleeps on a flag. A waker sets the flag and rouses the thread; the
//! loop clears the flag and calls the scheduler until neither a drain nor the
//! idle-waiters bring up more work. What the loop does between its decisions,
//! calling back, sleeping and rousing, is the embedding's part.

use vstd::prelude::*;

verus! {

/// What has just happened in the loop.
#[derive(Clone, Copy, PartialEq, Eq, Structural, Debug)]
pub enum HostEvent {
    /// The loop was entered.
    Started,
    /// The thread was roused from its sleep.
    Woken,
    /// The step callback returned; `false` says that the run is over.
    Stepped(bool),
    /// The idle callback returned; `true` says that a continuation was
    /// resumed.
    Idled(bool),
}

/// What the loop does next.
#[derive(Clone, Copy, PartialEq, Eq, Structural, Debug)]
pub enum HostAction {
    /// Call the step callback.
    Step,
    /// Call the idle callback.
    Idle,
    /// Sleep until a waker rouses the thread.
    Wait,
    /// Leave the loop.
    Return,
}

/// The blocking host loop.
pub struct MainLoop {
    is_wake: bool,
}

impl MainLoop {
    /// Whether a wake has arrived that the loop has not taken up.
    pub closed spec fn spec_is_wake(&self) -> bool {
        self.is_wake
    }

    /// What the loop does after `event`.
    pub open spec fn action(&self, event: HostEvent) -> HostAction {
        match event {
            HostEvent::Stepped(false) => HostAction::Return,
            HostEvent::Stepped(true) => HostAction::Idle,
            HostEvent::Idled(true) => HostAction::Step,
            _ => if self.is_wake() {
                HostAction::Step
            } else {
                HostAction::Wait
            },
        }
    }

    /// Whether the loop looks at the flag after `event`: it does before it
    /// would go to sleep.
    pub open spec fn checks(event: HostEvent) -> bool {
        !(event is Stepped) && event != HostEvent::Idled(true)
    }

    /// A host loop whose first decision is to call the step callback.
    pub fn new() -> (host: Self)
        ensures
            host.is_wake(),
    {
        MainLoop { is_wake: true }
    }

    #[verifier::when_used_as_spec(spec_is_wake)]
    pub fn is_wake(&self) -> (is_wake: bool)
        ensures
            is_wake == self.is_wake(),
    {
        self.is_wake
    }

    /// Wakes the host. The result says whether the sleeping thread is to be
    /// roused: it is unless a wake was already waiting to be taken up.
    pub fn wake(&mut self) -> (notify: bool)
        ensures
            final(self).is_wake(),
            notify == !old(self).is_wake(),
    {
        let notify = !self.is_wake;
        self.is_wake = true;
        notify
    }

    /// Decides what the loop does after `event`.
    ///
    /// While the step callback asks to go on, the loop calls the idle
    /// callback, and steps again when that resumed a continuation. Only when
    /// neither brings up more work does it look at the flag: it takes a wake up
    /// and steps, or sleeps.
    pub fn run(&mut self, event: HostEvent) -> (action: HostAction)
        ensures
            action == old(self).action(event),
            final(self).is_wake() == (old(self).is_wake() && !Self::checks(event)),
    {
        match event {
            HostEvent::Stepped(proceed) => {
                if proceed {
                    HostAction::Idle
                } else {
                    HostAction::Return
                }
            },
            HostEvent::Idled(true) => HostAction::Step,
            _ => {
                if self.is_wake {
                    self.is_wake = false;
                    HostAction::Step
                } else {
                    HostAction::Wait
                }
            },
        }
    }
}

impl Default for MainLoop {
    fn default() -> (host: Self)
        ensures
            host.is_wake(),
    {
        Self::new()
    }
}

/// What has just happened in the loop of a host that pumps the messages of
/// its thread.
#[derive(Clone, Copy, PartialEq, Eq, Structural, Debug)]
pub enum PumpEvent {
    /// The loop was entered.
    Started,
    /// The step callback returned; `false` says that the run is over.
    Stepped(bool),
    /// The queue was looked at without waiting. `None` says that it was
    /// empty; otherwise a message was taken, and `Some(true)` says that it
    /// was the quit message.
    Peeked(Option<bool>),
    /// The idle callback returned; `true` says that a continuation was
    /// resumed.
    Idled(bool),
    /// The thread waited for a message and took it; `true` says that it was
    /// the quit message.
    Fetched(bool),
    /// The message at hand was dispatched.
    Dispatched,
}

/// What the loop of a message-pumping host does next.
#[derive(Clone, Copy, PartialEq, Eq, Structural, Debug)]
pub enum PumpAction {
    /// Call the step callback.
    Step,
    /// Look at the queue without waiting.
    Peek,
    /// Call the idle callback.
    Idle,
    /// Wait for a message.
    Fetch,
    /// Dispatch the message at hand.
    Dispatch,
    /// Leave the loop.
    Return,
    /// The quit message came: the host is torn down under a run that has not
    /// ended, which is fatal.
    Abort,
}

/// The host that pumps the message queue of its thread. A waker rouses it by
/// posting an empty message to the thread.
pub struct WindowsMessageLoop {}

impl WindowsMessageLoop {
    /// What the loop does after `event`.
    pub open spec fn action(event: PumpEvent) -> PumpAction {
        match event {
            PumpEvent::Started => PumpAction::Step,
            PumpEvent::Stepped(false) => PumpAction::Return,
            PumpEvent::Stepped(true) => PumpAction::Peek,
            PumpEvent::Peeked(None) => PumpAction::Idle,
            PumpEvent::Peeked(Some(true)) => PumpAction::Abort,
            PumpEvent::Peeked(Some(false)) => PumpAction::Dispatch,
            PumpEvent::Idled(true) => PumpAction::Step,
            PumpEvent::Idled(false) => PumpAction::Fetch,
            PumpEvent::Fetched(true) => PumpAction::Abort,
            PumpEvent::Fetched(false) => PumpAction::Dispatch,
            PumpEvent::Dispatched => PumpAction::Step,
        }
    }

    pub fn new() -> Self {
        WindowsMessageLoop {  }
    }

    /// Decides what the loop does after `event`.
    ///
    /// Every drain is followed by a look at the queue. A message is
    /// dispatched, and the scheduler steps again. Only when the queue is empty
    /// are the idle-waiters asked, and only when none of them was resumed does
    /// the thread wait for a message.
    pub fn run(&self, event: PumpEvent) -> (action: PumpAction)
        ensures
            action == Self::action(event),
    {
        match event {
            PumpEvent::Started => PumpAction::Step,
            PumpEvent::Stepped(proceed) => {
                if proceed {
                    PumpAction::Peek
                } else {
                    PumpAction::Return
                }
            },
            PumpEvent::Peeked(None) => PumpAction::Idle,
            PumpEvent::Idled(resumed) => {
                if resumed {
                    PumpAction::Step
                } else {
                    PumpAction::Fetch
                }
            },
            PumpEvent::Peeked(Some(quit)) | PumpEvent::Fetched(quit) => {
                if quit {
                    PumpAction::Abort
                } else {
                    PumpAction::Dispatch
                }
            },
            PumpEvent::Dispatched => PumpAction::Step,
        }
    }
}

/// The loop goes to sleep only when there is nothing left to do: at once
/// after a drain it never sleeps, but asks the idle-waiters first, and it does
/// not sleep while a wake waits to be taken up or after a continuation was
/// resumed. It leaves only when the step callback says that the run is over.
pub proof fn lemma_host_sleeps_only_when_idle(host: MainLoop, event: HostEvent)
    ensures
        host.action(event) == HostAction::Wait ==> !host.is_wake() && (event == HostEvent::Started
            || event == HostEvent::Woken || event == HostEvent::Idled(false)),
        host.action(event) == HostAction::Return <==> event == HostEvent::Stepped(false),
        host.action(event) == HostAction::Idle <==> event == HostEvent::Stepped(true),
        event == HostEvent::Idled(true) ==> host.action(event) == HostAction::Step,
{
}

/// A message-pumping host waits for a message only when the queue is empty
/// and no idle-waiter was resumed, and asks the idle-waiters only when the
/// queue is empty. The quit message, and nothing else, aborts it.
pub proof fn lemma_pump_waits_only_when_idle(event: PumpEvent)
    ensures
        WindowsMessageLoop::action(event) == PumpAction::Fetch <==> event == PumpEvent::Idled(
            false,
        ),
        WindowsMessageLoop::action(event) == PumpAction::Idle <==> event == PumpEvent::Peeked(None),
        WindowsMessageLoop::action(event) == PumpAction::Abort <==> (event == PumpEvent::Peeked(
            Some(true),
        ) || event == PumpEvent::Fetched(true)),
        WindowsMessageLoop::action(event) == PumpAction::Return <==> event == PumpEvent::Stepped(
            false,
        ),
{
}

} // verus!
