//! Setting a runtime up on a thread, driving it, and tearing it down.
//!
//! A thread has two slots, one for its runtime and one for its scheduler. An
//! embedding keeps both in thread-local storage and hands them to these
//! operations; it shares the channel that `enter` or `run` returns with the
//! wakers of its tasks.

use crate::channel::{Request, RequestChannel, Requests};
use crate::runnable::DynRunnable;
use crate::runner::{requests_for, Runner};
use crate::runtime::Runtime;
use crate::task::ID_MAIN;
use vstd::prelude::*;

verus! {

/// Sets a runtime up on the thread, for a host that calls `step` itself:
/// installs a new runtime and a new scheduler, and returns their channel,
/// which is empty. The slot of the runtime must be free: runtimes do not
/// nest.
pub fn enter<W>(runner: &mut Option<Runner<W>>, runtime: &mut Option<Runtime>) -> (rc:
    RequestChannel<W>)
    requires
        old(runtime).is_none(),
    ensures
        rc@ == Requests::<W>::empty(),
        final(runtime).is_some(),
        final(runtime).unwrap().pending().len() == 0,
        final(runner).is_some(),
        final(runner).unwrap().wf(),
        final(runner).unwrap().wakes().len() == 0,
        final(runner).unwrap().drops().len() == 0,
        final(runner).unwrap().idles().len() == 0,
        forall|id: usize| !final(runner).unwrap().slots().contains_key(id),
{
    let rc = RequestChannel::new();
    Runtime::enter(runtime);
    *runner = Some(Runner::new());
    rc
}

/// Sets a runtime up on the thread for a run: as `enter`, and the channel
/// holds a first wake for the top-level task, so that the first tick of the
/// host polls it.
pub fn run<W>(runner: &mut Option<Runner<W>>, runtime: &mut Option<Runtime>) -> (rc: RequestChannel<
    W,
>)
    requires
        old(runtime).is_none(),
    ensures
        rc@ == Requests::<W>::empty().push(Request::Wake(ID_MAIN)),
        final(runtime).is_some(),
        final(runtime).unwrap().pending().len() == 0,
        final(runner).is_some(),
        final(runner).unwrap().wf(),
        final(runner).unwrap().wakes().len() == 0,
        final(runner).unwrap().drops().len() == 0,
        final(runner).unwrap().idles().len() == 0,
        forall|id: usize| !final(runner).unwrap().slots().contains_key(id),
{
    let mut rc = enter(runner, runtime);
    rc.push_wake(ID_MAIN);
    rc
}

/// Tears the runtime of the thread down. The scheduler, which must be
/// installed, goes with every runnable that it still holds, and the runtime
/// with every spawn that was never adopted: nothing of either is kept.
pub fn leave<W>(runner: &mut Option<Runner<W>>, runtime: &mut Option<Runtime>)
    requires
        old(runner).is_some(),
    ensures
        final(runner).is_none(),
        final(runtime).is_none(),
{
    *runner = None;
    Runtime::leave(runtime);
}

/// One drain iteration of the scheduler of the thread, which must be
/// installed.
pub fn step<W>(runner: &mut Option<Runner<W>>)
    requires
        old(runner).is_some(),
        old(runner).unwrap().wf(),
    ensures
        final(runner).is_some(),
        final(runner).unwrap().wf(),
        old(runner).unwrap().drains_to(&final(runner).unwrap()),
{
    match runner {
        Some(r) => {
            r.step();
        },
        None => {},
    }
}

/// One drain iteration of the scheduler of the thread during a run whose
/// top-level task is `main`. The scheduler must be installed. `false` says
/// that `main` is done and the run is over.
pub fn on_step<W, M: DynRunnable>(runner: &mut Option<Runner<W>>, main: &mut M) -> (proceed: bool)
    requires
        old(runner).is_some(),
        old(runner).unwrap().wf(),
    ensures
        final(runner).is_some(),
        final(runner).unwrap().wf(),
        final(main).told() == old(main).told(),
        proceed == (if old(runner).unwrap().wakes().contains(ID_MAIN) {
            final(main).stayed()
        } else {
            true
        }),
        proceed ==> old(runner).unwrap().drains_to(&final(runner).unwrap()) && final(main).polls()
            == old(main).polls() + requests_for(old(runner).unwrap().wakes(), ID_MAIN),
        !proceed ==> old(runner).unwrap().ends_with_main(
            &final(runner).unwrap(),
            final(main).polls() - old(main).polls(),
        ),
{
    match runner {
        Some(r) => r.on_step(main),
        None => true,
    }
}

/// Takes the oldest idle-waiter of the thread for the host to resume, if
/// there is one. The scheduler must be installed. The host calls this when a
/// drain has found nothing more to do, wakes what it gets, and drains again;
/// only when there is no idle-waiter either does it wait for its own input.
pub fn on_idle<W>(runner: &mut Option<Runner<W>>, rc: &mut RequestChannel<W>) -> (waker: Option<W>)
    requires
        old(runner).is_some(),
    ensures
        final(runner).is_some(),
        final(runner).unwrap().wakes() == old(runner).unwrap().wakes(),
        final(runner).unwrap().drops() == old(runner).unwrap().drops(),
        final(runner).unwrap().slots() == old(runner).unwrap().slots(),
        waker == (if (old(runner).unwrap().idles() + old(rc)@.idles).len() == 0 {
            None
        } else {
            Some((old(runner).unwrap().idles() + old(rc)@.idles).first())
        }),
        final(runner).unwrap().idles() + final(rc)@.idles == (if (old(runner).unwrap().idles()
            + old(rc)@.idles).len() == 0 {
            old(runner).unwrap().idles() + old(rc)@.idles
        } else {
            (old(runner).unwrap().idles() + old(rc)@.idles).drop_first()
        }),
        final(rc)@.wakes == old(rc)@.wakes,
        final(rc)@.drops == old(rc)@.drops,
{
    match runner {
        Some(r) => r.on_idle(rc),
        None => None,
    }
}

} // verus!
