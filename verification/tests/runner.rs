use rt_local::channel::RequestChannel;
use rt_local::entry;
use rt_local::runnable::{
    retire, run_item, DynRunnable, RawRunnable, Runnable, Spawn, TaskFuture,
};
use rt_local::runner::Runner;
use rt_local::runtime::{spawn_local, Runtime};
use rt_local::task::{ID_MAIN, ID_NULL};
use std::cell::RefCell;
use std::collections::VecDeque;
use std::rc::Rc;

type Log = Rc<RefCell<Vec<String>>>;

/// A runnable that writes down what happens to it, and stays as often as its
/// script says.
struct Script {
    name: &'static str,
    stays: VecDeque<bool>,
    log: Log,
    id: Rc<RefCell<Option<usize>>>,
}

impl TaskFuture for Script {
    fn set_id(&mut self, id: usize) {
        *self.id.borrow_mut() = Some(id);
        self.log.borrow_mut().push(format!("adopt {}", self.name));
    }

    fn run(&mut self) -> bool {
        self.log.borrow_mut().push(format!("run {}", self.name));
        self.stays.pop_front().unwrap_or(false)
    }
}

impl Drop for Script {
    fn drop(&mut self) {
        self.log.borrow_mut().push(format!("drop {}", self.name));
    }
}

struct Thread {
    runner: Option<Runner<&'static str>>,
    runtime: Option<Runtime>,
    rc: RequestChannel<&'static str>,
    log: Log,
}

impl Thread {
    fn enter() -> Self {
        let mut runner = None;
        let mut runtime = None;
        let rc = entry::enter(&mut runner, &mut runtime);
        Thread {
            runner,
            runtime,
            rc,
            log: Rc::new(RefCell::new(Vec::new())),
        }
    }

    fn script(
        &self,
        name: &'static str,
        stays: &[bool],
    ) -> (Box<RawRunnable<Script>>, Rc<RefCell<Option<usize>>>) {
        let id = Rc::new(RefCell::new(None));
        let script = Box::new(RawRunnable::new(Script {
            name,
            stays: stays.iter().copied().collect(),
            log: self.log.clone(),
            id: id.clone(),
        }));
        (script, id)
    }

    fn spawn(&mut self, name: &'static str, stays: &[bool]) -> (Rc<RefCell<Option<usize>>>, bool) {
        let (script, id) = self.script(name, stays);
        let (handle, call_wake) = spawn_local(&mut self.runtime, Spawn::new(script));
        assert!(!handle.is_detach());
        (id, call_wake)
    }

    fn ready(&mut self) -> bool {
        self.runner
            .as_mut()
            .unwrap()
            .ready_requests(&mut self.rc, self.runtime.as_mut().unwrap())
    }

    fn runner(&mut self) -> &mut Runner<&'static str> {
        self.runner.as_mut().unwrap()
    }

    fn take_log(&self) -> Vec<String> {
        std::mem::take(&mut *self.log.borrow_mut())
    }
}

fn id_of(id: &Rc<RefCell<Option<usize>>>) -> usize {
    id.borrow().expect("the runnable was not adopted")
}

#[test]
fn new_runner_has_no_slot_and_nothing_to_do() {
    let mut runner: Runner<u8> = Runner::new();
    assert!(!runner.contains(0));
    assert!(!runner.is_live(0));
    assert!(!runner.contains(ID_MAIN));
    assert!(!runner.contains(ID_NULL));
    let mut rc = RequestChannel::new();
    let mut rt = Runtime::new();
    assert!(!runner.ready_requests(&mut rc, &mut rt));
    runner.step();
    assert_eq!(runner.on_idle(&mut rc), None);
}

#[test]
fn enter_installs_an_empty_runtime() {
    let mut t = Thread::enter();
    assert!(t.rc.reqs().is_empty());
    assert_eq!(t.runtime.as_ref().unwrap().len(), 0);
    assert!(!t.runner().contains(0));
    assert!(!t.ready());
}

#[test]
fn run_installs_a_runtime_with_a_wake_for_the_main_task() {
    let mut runner: Option<Runner<u8>> = None;
    let mut runtime = None;
    let rc = entry::run(&mut runner, &mut runtime);
    assert_eq!(rc.reqs().wakes, vec![ID_MAIN]);
    assert!(rc.reqs().drops.is_empty());
    assert!(rc.reqs().idles.is_empty());
    assert_eq!(runtime.as_ref().unwrap().len(), 0);
    assert!(!runner.as_ref().unwrap().contains(0));
}

#[test]
fn leave_removes_both() {
    let mut t = Thread::enter();
    entry::leave(&mut t.runner, &mut t.runtime);
    assert!(t.runner.is_none());
    assert!(t.runtime.is_none());
    let mut runner = Some(Runner::<u8>::new());
    let mut runtime = None;
    entry::leave(&mut runner, &mut runtime);
    assert!(runner.is_none());
    assert!(runtime.is_none());
}

#[test]
fn runtime_slot_is_entered_and_left() {
    let mut slot = None;
    Runtime::enter(&mut slot);
    assert_eq!(slot.as_ref().unwrap().len(), 0);
    assert_eq!(Runtime::with(&mut slot).len(), 0);
    Runtime::leave(&mut slot);
    assert!(slot.is_none());
    Runtime::leave(&mut slot);
    assert!(slot.is_none());
}

#[test]
fn only_the_first_pending_spawn_wakes_the_host() {
    let mut t = Thread::enter();
    assert!(t.spawn("a", &[]).1);
    assert!(!t.spawn("b", &[]).1);
    assert!(!t.spawn("c", &[]).1);
    assert_eq!(t.runtime.as_ref().unwrap().len(), 3);
    assert!(t.ready());
    assert_eq!(t.runtime.as_ref().unwrap().len(), 0);
    assert!(t.spawn("d", &[]).1);
}

#[test]
fn take_hands_the_pending_spawns_out_oldest_first() {
    let t = Thread::enter();
    let mut rt = Runtime::new();
    let mut slot = Some(Runtime::new());
    std::mem::swap(&mut rt, slot.as_mut().unwrap());
    for name in ["a", "b", "c"] {
        spawn_local(&mut slot, Spawn::new(t.script(name, &[]).0));
    }
    let spawns: Vec<Spawn> = slot.as_mut().unwrap().take();
    assert_eq!(slot.as_ref().unwrap().len(), 0);
    assert_eq!(spawns.len(), 3);
    for mut spawn in spawns {
        spawn.r.run();
    }
    assert_eq!(t.take_log(), ["run a", "drop a", "run b", "drop b", "run c", "drop c"]);
}

#[test]
fn spawns_are_adopted_in_order_under_fresh_ids_and_polled_in_the_same_iteration() {
    let mut t = Thread::enter();
    let a = t.spawn("a", &[true]).0;
    let b = t.spawn("b", &[true]).0;
    let c = t.spawn("c", &[true]).0;
    assert!(t.ready());
    assert_eq!(t.take_log(), ["adopt a", "adopt b", "adopt c"]);
    let ids = [id_of(&a), id_of(&b), id_of(&c)];
    assert!(ids[0] != ids[1] && ids[1] != ids[2] && ids[0] != ids[2]);
    for id in ids {
        assert!(id < ID_MAIN);
        assert!(t.runner().contains(id));
        assert!(t.runner().is_live(id));
    }
    assert!(t.rc.reqs().is_empty());
    t.runner().step();
    assert_eq!(t.take_log(), ["run a", "run b", "run c"]);
    assert!(!t.ready());
    t.runner().step();
    assert_eq!(t.take_log(), Vec::<String>::new());
}

#[test]
fn wakes_from_the_channel_are_polled_before_new_spawns_and_in_their_order() {
    let mut t = Thread::enter();
    let a = t.spawn("a", &[true, true, true]).0;
    let b = t.spawn("b", &[true, true, true]).0;
    t.ready();
    t.runner().step();
    t.take_log();
    t.rc.push_wake(id_of(&b));
    t.rc.push_wake(id_of(&a));
    t.rc.push_wake(id_of(&b));
    t.spawn("c", &[true]);
    assert!(t.ready());
    t.runner().step();
    assert_eq!(t.take_log(), ["adopt c", "run b", "run a", "run b", "run c"]);
}

#[test]
fn task_that_is_not_woken_is_not_polled() {
    let mut t = Thread::enter();
    let a = t.spawn("a", &[true, true]).0;
    t.spawn("b", &[true, true]);
    t.ready();
    t.runner().step();
    t.take_log();
    t.rc.push_wake(id_of(&a));
    assert!(t.ready());
    t.runner().step();
    assert_eq!(t.take_log(), ["run a"]);
}

#[test]
fn runnable_that_is_done_is_torn_down_at_once_and_its_slot_kept() {
    let mut t = Thread::enter();
    let a = t.spawn("a", &[]).0;
    let b = t.spawn("b", &[true]).0;
    t.ready();
    t.runner().step();
    assert_eq!(t.take_log(), ["adopt a", "adopt b", "run a", "drop a", "run b"]);
    assert!(t.runner().contains(id_of(&a)));
    assert!(!t.runner().is_live(id_of(&a)));
    assert!(t.runner().is_live(id_of(&b)));

    t.rc.push_wake(id_of(&a));
    assert!(t.ready());
    t.runner().step();
    assert_eq!(t.take_log(), Vec::<String>::new());
    assert!(t.runner().contains(id_of(&a)));
}

#[test]
fn drop_requests_remove_the_slots_after_the_polls() {
    let mut t = Thread::enter();
    let a = t.spawn("a", &[true, true]).0;
    let b = t.spawn("b", &[true, true]).0;
    t.ready();
    t.runner().step();
    t.take_log();
    t.rc.push_drop(id_of(&a));
    t.rc.push_wake(id_of(&a));
    assert!(t.ready());
    t.runner().step();
    assert_eq!(t.take_log(), ["run a", "drop a"]);
    assert!(!t.runner().contains(id_of(&a)));
    assert!(!t.runner().is_live(id_of(&a)));
    assert!(t.runner().is_live(id_of(&b)));
    assert!(!t.ready());
}

#[test]
fn drop_request_for_an_empty_slot_frees_the_id() {
    let mut t = Thread::enter();
    let a = t.spawn("a", &[]).0;
    t.ready();
    t.runner().step();
    t.take_log();
    assert!(t.runner().contains(id_of(&a)));
    t.rc.push_drop(id_of(&a));
    assert!(t.ready());
    t.runner().step();
    assert!(!t.runner().contains(id_of(&a)));
    assert_eq!(t.take_log(), Vec::<String>::new());
}

#[test]
fn requests_for_ids_without_a_slot_are_passed_over() {
    let mut t = Thread::enter();
    let a = t.spawn("a", &[true, true]).0;
    t.ready();
    t.runner().step();
    t.take_log();
    for id in [77, ID_MAIN, ID_NULL] {
        t.rc.push_wake(id);
        t.rc.push_drop(id);
    }
    assert!(t.ready());
    t.runner().step();
    assert_eq!(t.take_log(), Vec::<String>::new());
    assert!(t.runner().is_live(id_of(&a)));
    assert!(!t.ready());
}

#[test]
fn apply_drops_alone_removes_what_was_taken_in() {
    let mut t = Thread::enter();
    let a = t.spawn("a", &[true]).0;
    let b = t.spawn("b", &[true]).0;
    t.ready();
    t.runner().step();
    t.take_log();
    t.rc.push_drop(id_of(&b));
    t.rc.push_drop(id_of(&b));
    assert!(t.ready());
    t.runner().apply_drops();
    assert_eq!(t.take_log(), ["drop b"]);
    assert!(!t.runner().contains(id_of(&b)));
    assert!(t.runner().is_live(id_of(&a)));
    t.runner().apply_drops();
    assert!(t.runner().is_live(id_of(&a)));
}

#[test]
fn freed_id_may_be_given_to_a_later_spawn() {
    let mut t = Thread::enter();
    let a = t.spawn("a", &[true]).0;
    t.ready();
    t.runner().step();
    t.rc.push_drop(id_of(&a));
    t.ready();
    t.runner().step();
    assert!(!t.runner().contains(id_of(&a)));
    let b = t.spawn("b", &[true]).0;
    t.ready();
    assert!(t.runner().is_live(id_of(&b)));
    assert!(id_of(&b) < ID_MAIN);
}

#[test]
fn on_step_polls_the_main_task_for_its_wake() {
    let mut t = Thread::enter();
    let a = t.spawn("a", &[true, true, true]).0;
    t.ready();
    t.runner().step();
    t.take_log();
    let mut main = t.script("main", &[true]).0;
    t.rc.push_wake(id_of(&a));
    t.rc.push_wake(ID_MAIN);
    t.rc.push_wake(id_of(&a));
    assert!(t.ready());
    assert!(t.runner.as_mut().unwrap().on_step(&mut *main));
    assert_eq!(t.take_log(), ["run a", "run main", "run a"]);
}

#[test]
fn on_step_without_a_wake_for_the_main_task_goes_on() {
    let mut t = Thread::enter();
    t.spawn("a", &[true]);
    let mut main = t.script("main", &[]).0;
    assert!(t.ready());
    assert!(t.runner.as_mut().unwrap().on_step(&mut *main));
    assert_eq!(t.take_log(), ["adopt a", "run a"]);
}

#[test]
fn on_step_ends_where_the_main_task_is_done() {
    let mut t = Thread::enter();
    let a = t.spawn("a", &[true, true, true]).0;
    let b = t.spawn("b", &[true, true, true]).0;
    t.ready();
    t.runner().step();
    t.take_log();
    let mut main = t.script("main", &[]).0;
    t.rc.push_wake(id_of(&a));
    t.rc.push_wake(ID_MAIN);
    t.rc.push_wake(id_of(&b));
    t.rc.push_drop(id_of(&b));
    assert!(t.ready());
    assert!(!t.runner.as_mut().unwrap().on_step(&mut *main));
    assert_eq!(t.take_log(), ["run a", "run main"]);
    assert!(t.runner().is_live(id_of(&b)));

    assert!(t.ready());
    t.runner().step();
    assert_eq!(t.take_log(), ["drop b"]);
    assert!(!t.runner().contains(id_of(&b)));
}

#[test]
fn idle_waiters_are_kept_for_the_host_and_end_the_drain() {
    let mut t = Thread::enter();
    t.rc.push_on_idle("first");
    t.rc.push_on_idle("second");
    assert!(t.ready());
    assert!(t.rc.reqs().is_empty());
    t.runner().step();
    assert!(!t.ready());
    t.rc.push_on_idle("third");
    let Thread { runner, rc, .. } = &mut t;
    let runner = runner.as_mut().unwrap();
    assert_eq!(runner.on_idle(rc), Some("first"));
    assert_eq!(runner.on_idle(rc), Some("second"));
    assert_eq!(rc.reqs().idles, VecDeque::from(vec!["third"]));
    assert_eq!(runner.on_idle(rc), Some("third"));
    assert_eq!(runner.on_idle(rc), None);
    assert!(rc.reqs().is_empty());
}

#[test]
fn step_of_the_thread_runs_its_scheduler() {
    let mut t = Thread::enter();
    t.spawn("a", &[]);
    assert!(t.ready());
    entry::step(&mut t.runner);
    assert_eq!(t.take_log(), ["adopt a", "run a", "drop a"]);
    assert!(t.runner.is_some());
}

#[test]
fn on_step_of_the_thread_polls_the_main_task() {
    let mut t = Thread::enter();
    t.spawn("a", &[true]);
    let mut main = t.script("main", &[true]).0;
    t.rc.push_wake(ID_MAIN);
    assert!(t.ready());
    assert!(entry::on_step(&mut t.runner, &mut *main));
    assert_eq!(t.take_log(), ["adopt a", "run main", "run a"]);
    t.rc.push_wake(ID_MAIN);
    assert!(t.ready());
    assert!(!entry::on_step(&mut t.runner, &mut *main));
    assert_eq!(t.take_log(), ["run main"]);
    assert!(t.runner.is_some());
}

#[test]
fn on_idle_of_the_thread_takes_one_waiter_at_a_time() {
    let mut t = Thread::enter();
    t.rc.push_on_idle("first");
    assert!(t.ready());
    t.rc.push_on_idle("second");
    assert_eq!(entry::on_idle(&mut t.runner, &mut t.rc), Some("first"));
    assert_eq!(entry::on_idle(&mut t.runner, &mut t.rc), Some("second"));
    assert_eq!(entry::on_idle(&mut t.runner, &mut t.rc), None);
    assert!(t.runner.is_some());
}

#[test]
fn leave_lets_every_runnable_go_exactly_once() {
    let mut t = Thread::enter();
    t.spawn("adopted", &[true]);
    t.spawn("done", &[]);
    t.ready();
    t.runner().step();
    t.spawn("pending", &[]);
    assert_eq!(t.take_log(), ["adopt adopted", "adopt done", "run adopted", "run done", "drop done"]);
    entry::leave(&mut t.runner, &mut t.runtime);
    let mut log = t.take_log();
    log.sort();
    assert_eq!(log, ["drop adopted", "drop pending"]);
}

#[test]
fn runnable_is_adopted_under_the_id_it_is_given() {
    let t = Thread::enter();
    let (script, id) = t.script("a", &[true]);
    let mut runnable = Runnable::new(Spawn::new(script), 9);
    assert_eq!(id_of(&id), 9);
    assert_eq!(runnable.id(), 9);
    assert!(runnable.run());
    assert!(!runnable.run());
    assert_eq!(runnable.id(), 9);
    assert_eq!(t.take_log(), ["adopt a", "run a", "run a"]);
}

#[test]
fn raw_runnable_hands_the_calls_on_to_its_future() {
    let t = Thread::enter();
    let (script, id) = t.script("a", &[true, false]);
    let mut runnable = *script;
    assert_eq!(runnable.get_ref().name, "a");
    assert!(id.borrow().is_none());
    runnable.set_id(5);
    assert_eq!(id_of(&id), 5);
    assert!(runnable.run());
    assert!(!runnable.run());
    assert_eq!(t.take_log(), ["adopt a", "run a", "run a"]);
    runnable.get_mut().name = "b";
    assert!(!runnable.run());
    assert_eq!(t.take_log(), ["run b"]);
    let script = runnable.into_inner();
    assert_eq!(script.name, "b");
    assert_eq!(t.take_log(), Vec::<String>::new());
    drop(script);
    assert_eq!(t.take_log(), ["drop b"]);
}

#[test]
fn main_polled_goes_on_while_the_main_task_stays() {
    let mut t = Thread::enter();
    let a = t.spawn("a", &[true, true]).0;
    t.ready();
    t.runner().step();
    t.take_log();
    t.rc.push_wake(id_of(&a));
    t.rc.push_drop(id_of(&a));
    assert!(t.ready());
    assert!(t.runner().main_polled(true));
    t.runner().step();
    assert_eq!(t.take_log(), ["run a", "drop a"]);
}

#[test]
fn main_polled_lets_the_wakes_go_when_the_main_task_is_done() {
    let mut t = Thread::enter();
    let a = t.spawn("a", &[true, true]).0;
    t.ready();
    t.runner().step();
    t.take_log();
    t.rc.push_wake(id_of(&a));
    t.rc.push_drop(id_of(&a));
    assert!(t.ready());
    assert!(!t.runner().main_polled(false));
    assert!(t.runner().is_live(id_of(&a)));
    t.runner().step();
    assert_eq!(t.take_log(), ["drop a"]);
    assert!(!t.runner().contains(id_of(&a)));
}

#[test]
fn spawn_local_queues_the_spawn_and_does_not_touch_it() {
    let mut t = Thread::enter();
    t.spawn("a", &[true]);
    t.spawn("b", &[true]);
    assert_eq!(t.take_log(), Vec::<String>::new());
    let spawns = t.runtime.as_mut().unwrap().take();
    assert_eq!(spawns.len(), 2);
    for mut spawn in spawns {
        spawn.r.run();
    }
    assert_eq!(t.take_log(), ["run a", "drop a", "run b", "drop b"]);
}

#[test]
fn spawn_holds_the_runnable_that_it_was_made_of() {
    let t = Thread::enter();
    let (script, id) = t.script("a", &[true]);
    let mut spawn = Spawn::new(script);
    spawn.r.set_id(4);
    assert_eq!(id_of(&id), 4);
    assert!(spawn.r.run());
    assert_eq!(t.take_log(), ["adopt a", "run a"]);
    drop(spawn);
    assert_eq!(t.take_log(), ["drop a"]);
}

#[test]
fn run_item_empties_the_slot_of_a_runnable_that_is_done() {
    let t = Thread::enter();
    let mut slot = Some(Runnable::new(Spawn::new(t.script("a", &[true]).0), 1));
    run_item(&mut slot);
    assert_eq!(slot.as_ref().map(|runnable| runnable.id()), Some(1));
    run_item(&mut slot);
    assert!(slot.is_none());
    run_item(&mut slot);
    assert!(slot.is_none());
    assert_eq!(t.take_log(), ["adopt a", "run a", "run a", "drop a"]);
}

#[test]
fn retire_empties_a_slot_only_when_told() {
    let t = Thread::enter();
    let mut slot = Some(Runnable::new(Spawn::new(t.script("a", &[]).0), 1));
    retire(&mut slot, true);
    assert!(slot.is_some());
    retire(&mut slot, false);
    assert!(slot.is_none());
    retire(&mut slot, true);
    assert!(slot.is_none());
    retire(&mut slot, false);
    assert!(slot.is_none());
}
