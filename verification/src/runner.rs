//! The scheduler: the runnables in their slab, and what one drain iteration
//! does with the requests that it took in.
//!
//! A host tick drains to a fixed point: the embedding calls `ready_requests`
//! while it holds the channel and the runtime, lets both go, and calls `step`
//! (or `on_step`, during a run), again and again until `ready_requests` finds
//! nothing. What tasks ask for while they are polled goes into the channel, so
//! it is taken in by the next iteration and never by the one that is under
//! way.

use crate::channel::{Request, RequestChannel, Requests};
use crate::runnable::{done_after, polled, run_item, DynRunnable, Runnable, Spawn};
use crate::runtime::Runtime;
use crate::slab::{slab_entries, slab_get, slab_get_mut, slab_insert, slab_new, slab_remove};
use crate::task::{ID_MAIN, ID_NULL};
use slabmap::SlabMap;
use std::collections::VecDeque;
use vstd::prelude::*;

verus! {

/// The slots of a slab: under each id in use, the runnable of the task, or
/// nothing once the runnable was torn down.
pub type Slots = Map<usize, Option<Runnable>>;

/// How many of the requests `ids` are for `id`.
pub open spec fn requests_for(ids: Seq<usize>, id: usize) -> nat
    decreases ids.len(),
{
    if ids.len() == 0 {
        0
    } else {
        requests_for(ids.drop_last(), id) + if ids.last() == id {
            1nat
        } else {
            0nat
        }
    }
}

/// `after` is `before` with one new, filled slot under each of `ids`, which
/// were not in use and are all different. The slot under the j-th id holds the
/// runnable made of the j-th of `spawns`: adopted under that id, told that
/// id, and not polled.
pub open spec fn adopts(before: Slots, after: Slots, ids: Seq<usize>, spawns: Seq<Spawn>) -> bool {
    &&& ids.len() == spawns.len()
    &&& ids.no_duplicates()
    &&& forall|i: int|
        0 <= i < ids.len() ==> !before.contains_key(#[trigger] ids[i]) && after.contains_key(
            ids[i],
        ) && after[ids[i]].is_some() && adopted(after[ids[i]].unwrap(), ids[i], spawns[i])
    &&& forall|id: usize| #[trigger]
        before.contains_key(id) ==> after.contains_key(id) && after[id] == before[id]
    &&& forall|id: usize| #[trigger]
        after.contains_key(id) ==> before.contains_key(id) || ids.contains(id)
}

/// `runnable` is what adoption under `id` makes of `spawn`.
pub open spec fn adopted(runnable: Runnable, id: usize, spawn: Spawn) -> bool {
    &&& runnable.id() == id
    &&& runnable.told() == Some(id)
    &&& runnable.origin() == spawn
    &&& runnable.polls() == spawn.polls()
}

/// `after` is what polling the tasks `ids`, one poll for each request, makes
/// of `before`: the same ids are in use, an empty slot is still empty, and the
/// slot of a task that was not asked for is as it was. A slot that is still
/// filled holds its runnable, polled once for each request for its id. One
/// that was filled and is empty held a runnable that was polled for the
/// requests for its id until it answered that it is done.
pub open spec fn polls(before: Slots, after: Slots, ids: Seq<usize>) -> bool {
    &&& forall|id: usize| #[trigger] after.contains_key(id) <==> before.contains_key(id)
    &&& forall|id: usize| #[trigger]
        before.contains_key(id) && before[id].is_none() ==> after[id].is_none()
    &&& forall|id: usize| #[trigger]
        before.contains_key(id) && before[id].is_some() && after[id].is_some() ==> polled(
            before[id].unwrap(),
            after[id].unwrap(),
            requests_for(ids, id),
        )
    &&& forall|id: usize| #[trigger]
        before.contains_key(id) && before[id].is_some() && after[id].is_none() ==> exists|
            last: Runnable,
        |
            done_after(before[id].unwrap(), last, requests_for(ids, id))
    &&& forall|id: usize| #[trigger]
        before.contains_key(id) && !ids.contains(id) ==> after[id] == before[id]
}

/// `after` is what one request for a poll of `id` makes of `before`: nothing
/// where `id` has no slot or an empty one; else the runnable in the slot was
/// polled once, and the slot holds it still or, when it was done, nothing.
pub open spec fn polls_one(before: Slots, after: Slots, id: usize) -> bool {
    if before.contains_key(id) && before[id].is_some() {
        &&& after.contains_key(id)
        &&& after == before.insert(id, after[id])
        &&& after[id].is_some() ==> polled(before[id].unwrap(), after[id].unwrap(), 1)
        &&& after[id].is_none() ==> exists|last: Runnable| done_after(before[id].unwrap(), last, 1)
    } else {
        after == before
    }
}

/// The slots without those of `ids`.
pub open spec fn without(slots: Slots, ids: Seq<usize>) -> Slots {
    slots.remove_keys(ids.to_set())
}

/// The scheduler of one runtime.
pub struct Runner<W> {
    wakes: Vec<usize>,
    drops: Vec<usize>,
    idles: VecDeque<W>,
    rs: SlabMap<Option<Runnable>>,
}

impl<W> Runner<W> {
    /// The ids to poll in the drain iteration at hand, oldest first.
    pub closed spec fn wakes(&self) -> Seq<usize> {
        self.wakes@
    }

    /// The ids whose slots the drain iteration at hand removes.
    pub closed spec fn drops(&self) -> Seq<usize> {
        self.drops@
    }

    /// The continuations that wait for the runtime to become idle and were
    /// taken in from the channel, oldest first.
    pub closed spec fn idles(&self) -> Seq<W> {
        self.idles@
    }

    /// The slab.
    pub closed spec fn slots(&self) -> Slots {
        slab_entries(self.rs)
    }

    /// No slot has one of the two reserved ids, and every runnable sits in
    /// the slot under whose id it was adopted, and was told that id.
    pub open spec fn wf(&self) -> bool {
        forall|id: usize| #[trigger]
            self.slots().contains_key(id) ==> id < ID_MAIN && (self.slots()[id].is_some()
                ==> self.slots()[id].unwrap().id() == id && self.slots()[id].unwrap().told()
                == Some(id))
    }

    /// `after` is what one whole drain iteration makes of this scheduler: the
    /// tasks that were asked for were polled, once for each request and in
    /// the order of the requests, and then the drop requests were applied.
    pub open spec fn drains_to(&self, after: &Self) -> bool {
        &&& after.wakes().len() == 0
        &&& after.drops().len() == 0
        &&& after.idles() == self.idles()
        &&& exists|polled: Slots|
            polls(self.slots(), polled, self.wakes()) && after.slots() == without(
                polled,
                self.drops(),
            )
    }

    /// `after` is what a drain iteration makes of this scheduler when it
    /// ends at the request `n`, a wake for the top-level task, which was
    /// then done: the requests before it were served, the others are let go,
    /// and the drop requests are kept.
    pub open spec fn ends_at(&self, after: &Self, n: int) -> bool {
        &&& 0 <= n < self.wakes().len()
        &&& self.wakes()[n] == ID_MAIN
        &&& after.wakes().len() == 0
        &&& after.drops() == self.drops()
        &&& after.idles() == self.idles()
        &&& polls(self.slots(), after.slots(), self.wakes().take(n))
    }

    /// `after` is what a drain iteration makes of this scheduler when it
    /// ends because the top-level task is done, and `polls` is how often
    /// that task was polled in it: once for each wake for it up to the one
    /// at which the iteration ended.
    pub open spec fn ends_with_main(&self, after: &Self, polls: int) -> bool {
        exists|n: int| #[trigger]
            self.ends_at(after, n) && polls == requests_for(self.wakes().take(n), ID_MAIN) + 1
    }

    /// A scheduler with nothing to do and no task.
    pub fn new() -> (runner: Self)
        ensures
            runner.wf(),
            runner.wakes().len() == 0,
            runner.drops().len() == 0,
            runner.idles().len() == 0,
            forall|id: usize| !runner.slots().contains_key(id),
    {
        Runner { wakes: Vec::new(), drops: Vec::new(), idles: VecDeque::new(), rs: slab_new() }
    }

    /// Whether the slab has a slot for `id`, filled or not.
    pub fn contains(&self, id: usize) -> (found: bool)
        ensures
            found == self.slots().contains_key(id),
    {
        slab_get(&self.rs, id).is_some()
    }

    /// Whether the slab holds a runnable for `id`.
    pub fn is_live(&self, id: usize) -> (live: bool)
        ensures
            live == (self.slots().contains_key(id) && self.slots()[id].is_some()),
    {
        match slab_get(&self.rs, id) {
            Some(slot) => slot.is_some(),
            None => false,
        }
    }

    /// Adopts one spawn: gives it a slot of the slab, tells it the id of the
    /// slot, and returns the id.
    fn adopt(&mut self, spawn: Spawn) -> (id: usize)
        requires
            old(self).wf(),
        ensures
            final(self).wf(),
            final(self).wakes() == old(self).wakes(),
            final(self).drops() == old(self).drops(),
            final(self).idles() == old(self).idles(),
            !old(self).slots().contains_key(id),
            final(self).slots().contains_key(id),
            final(self).slots()[id].is_some(),
            adopted(final(self).slots()[id].unwrap(), id, spawn),
            final(self).slots().remove(id) == old(self).slots(),
    {
        let id = slab_insert(&mut self.rs, None);
        let runnable = Runnable::new(spawn, id);
        match slab_get_mut(&mut self.rs, id) {
            Some(slot) => {
                *slot = Some(runnable);
            },
            None => {},
        }
        assert(self.slots().remove(id) =~= old(self).slots());
        id
    }

    /// Takes in what there is to do: moves the requests out of the channel
    /// behind those at hand, and adopts the pending spawns of the runtime in
    /// the order in which they were spawned, asking for a poll of each in the
    /// iteration that follows. The idle-waiters are kept for `on_idle`.
    /// Returns whether anything was taken in or is left to be done.
    pub fn ready_requests(&mut self, rc: &mut RequestChannel<W>, rt: &mut Runtime) -> (ready: bool)
        requires
            old(self).wf(),
        ensures
            final(self).wf(),
            final(rc)@ == Requests::<W>::empty(),
            final(rt).pending().len() == 0,
            final(self).drops() == old(self).drops() + old(rc)@.drops,
            final(self).idles() == old(self).idles() + old(rc)@.idles,
            ({
                let taken = old(self).wakes() + old(rc)@.wakes;
                let adopted = final(self).wakes().skip(taken.len() as int);
                &&& final(self).wakes() == taken + adopted
                &&& adopts(old(self).slots(), final(self).slots(), adopted, old(rt).pending())
            }),
            ready == (final(self).wakes().len() > 0 || final(self).drops().len() > 0
                || old(rc)@.idles.len() > 0),
    {
        let mut wakes: Vec<usize> = Vec::new();
        let mut drops: Vec<usize> = Vec::new();
        let mut idles: VecDeque<W> = VecDeque::new();
        rc.swap(&mut wakes, &mut drops, &mut idles);
        let more_idles = idles.len() > 0;
        self.wakes.append(&mut wakes);
        self.drops.append(&mut drops);
        self.idles.append(&mut idles);
        let spawns = rt.take();
        let ghost taken = self.wakes@;
        let ghost mut adopted = Seq::<usize>::empty();
        assert(self.slots() == old(self).slots());
        let ghost pending = spawns@;
        assert(pending.take(0) =~= Seq::<Spawn>::empty());
        for spawn in it: spawns
            invariant
                self.wf(),
                self.drops@ == old(self).drops@ + old(rc)@.drops,
                self.idles@ == old(self).idles@ + old(rc)@.idles,
                taken == old(self).wakes@ + old(rc)@.wakes,
                self.wakes@ == taken + adopted,
                pending == old(rt).pending(),
                it.seq() == pending,
                adopts(old(self).slots(), self.slots(), adopted, pending.take(it.index() as int)),
        {
            let ghost before = self.slots();
            let ghost done = pending.take(it.index() as int);
            let id = self.adopt(spawn);
            self.wakes.push(id);
            proof {
                lemma_adopts_one_more(old(self).slots(), before, self.slots(), adopted, done, id, spawn);
                adopted = adopted.push(id);
                assert(pending.take(it.index() + 1) =~= done.push(spawn));
            }
        }
        assert(pending.take(pending.len() as int) =~= pending);
        assert(self.wakes@.skip(taken.len() as int) =~= adopted);
        !self.wakes.is_empty() || !self.drops.is_empty() || more_idles
    }

    /// Removes the slots that the drop requests at hand name, and with them
    /// what is left of their runnables.
    pub fn apply_drops(&mut self)
        requires
            old(self).wf(),
        ensures
            final(self).wf(),
            final(self).slots() == without(old(self).slots(), old(self).drops()),
            final(self).drops().len() == 0,
            final(self).wakes() == old(self).wakes(),
            final(self).idles() == old(self).idles(),
    {
        let n = self.drops.len();
        let mut i: usize = 0;
        while i < n
            invariant
                i <= n,
                n == self.drops@.len(),
                self.wf(),
                self.drops@ == old(self).drops@,
                self.wakes@ == old(self).wakes@,
                self.idles@ == old(self).idles@,
                self.slots() == without(old(self).slots(), self.drops@.take(i as int)),
            decreases n - i,
        {
            let id = self.drops[i];
            if id != ID_NULL {
                slab_remove(&mut self.rs, id);
            }
            proof {
                let ids = self.drops@.take(i as int);
                let more = self.drops@.take(i + 1);
                assert(more =~= ids.push(id));
                ids.lemma_push_to_set_commute(id);
            }
            i += 1;
        }
        assert(self.drops@.take(n as int) =~= self.drops@);
        self.drops.clear();
    }

    /// Polls the tasks that the wake requests at hand name, in their order,
    /// once for each request. A request for an id without a runnable is
    /// passed over.
    fn run_wakes(&mut self)
        requires
            old(self).wf(),
        ensures
            final(self).wf(),
            polls(old(self).slots(), final(self).slots(), old(self).wakes()),
            final(self).wakes().len() == 0,
            final(self).drops() == old(self).drops(),
            final(self).idles() == old(self).idles(),
    {
        let n = self.wakes.len();
        let mut i: usize = 0;
        proof {
            lemma_polls_none(self.slots());
            assert(self.wakes@.take(0) =~= Seq::<usize>::empty());
        }
        while i < n
            invariant
                i <= n,
                n == self.wakes@.len(),
                self.wf(),
                self.wakes@ == old(self).wakes@,
                self.drops@ == old(self).drops@,
                self.idles@ == old(self).idles@,
                polls(old(self).slots(), self.slots(), self.wakes@.take(i as int)),
            decreases n - i,
        {
            let id = self.wakes[i];
            let ghost before = self.slots();
            match slab_get_mut(&mut self.rs, id) {
                Some(slot) => {
                    run_item(slot);
                },
                None => {},
            }
            proof {
                let ids = self.wakes@.take(i as int);
                assert(self.wakes@.take(i + 1) =~= ids.push(id));
                if before.contains_key(id) && before[id].is_none() {
                    assert(self.slots() =~= before);
                }
                lemma_polls_one_more(old(self).slots(), before, self.slots(), ids, id);
            }
            i += 1;
        }
        assert(self.wakes@.take(n as int) =~= self.wakes@);
        self.wakes.clear();
    }

    /// One drain iteration of a runtime without a top-level task: polls the
    /// tasks that were woken, once for each request and in the order of the
    /// requests, then applies the drop requests.
    pub fn step(&mut self)
        requires
            old(self).wf(),
        ensures
            final(self).wf(),
            old(self).drains_to(final(self)),
    {
        self.run_wakes();
        let ghost polled = self.slots();
        self.apply_drops();
        assert(polls(old(self).slots(), polled, old(self).wakes()) && self.slots() == without(
            polled,
            old(self).drops(),
        ));
    }

    /// Takes in what the poll of the top-level task returned. While the task
    /// stays, the iteration goes on and nothing changes. When it is done the
    /// run is over: the wakes that are left are let go, the drop requests are
    /// kept, and the result is `false`.
    pub fn main_polled(&mut self, stays: bool) -> (proceed: bool)
        ensures
            proceed == stays,
            final(self).wakes() == (if stays {
                old(self).wakes()
            } else {
                Seq::<usize>::empty()
            }),
            final(self).drops() == old(self).drops(),
            final(self).idles() == old(self).idles(),
            final(self).slots() == old(self).slots(),
    {
        if !stays {
            self.wakes.clear();
        }
        stays
    }

    /// One drain iteration during a run, whose top-level task is `main`: as
    /// `step`, but a wake for `ID_MAIN` polls `main`, once for each such
    /// request. When `main` is done the iteration ends there and returns
    /// `false`: the run is over. Otherwise it returns `true`.
    pub fn on_step<M: DynRunnable>(&mut self, main: &mut M) -> (proceed: bool)
        requires
            old(self).wf(),
        ensures
            final(self).wf(),
            final(main).told() == old(main).told(),
            proceed == (if old(self).wakes().contains(ID_MAIN) {
                final(main).stayed()
            } else {
                true
            }),
            !old(self).wakes().contains(ID_MAIN) ==> final(main).stayed() == old(main).stayed(),
            proceed ==> old(self).drains_to(final(self)) && final(main).polls() == old(
                main,
            ).polls() + requests_for(old(self).wakes(), ID_MAIN),
            !proceed ==> old(self).ends_with_main(
                final(self),
                final(main).polls() - old(main).polls(),
            ),
    {
        let n = self.wakes.len();
        let mut i: usize = 0;
        proof {
            lemma_polls_none(self.slots());
            assert(self.wakes@.take(0) =~= Seq::<usize>::empty());
        }
        while i < n
            invariant
                i <= n,
                n == self.wakes@.len(),
                self.wf(),
                self.wakes@ == old(self).wakes@,
                self.drops@ == old(self).drops@,
                self.idles@ == old(self).idles@,
                polls(old(self).slots(), self.slots(), self.wakes@.take(i as int)),
                main.told() == old(main).told(),
                main.polls() == old(main).polls() + requests_for(
                    self.wakes@.take(i as int),
                    ID_MAIN,
                ),
                self.wakes@.take(i as int).contains(ID_MAIN) ==> main.stayed(),
                !self.wakes@.take(i as int).contains(ID_MAIN) ==> main.stayed() == old(
                    main,
                ).stayed(),
            decreases n - i,
        {
            let id = self.wakes[i];
            let ghost before = self.slots();
            if id == ID_MAIN {
                let stays = main.run();
                if !self.main_polled(stays) {
                    assert(old(self).ends_at(self, i as int));
                    assert(old(self).wakes()[i as int] == ID_MAIN);
                    return false;
                }
            } else {
                match slab_get_mut(&mut self.rs, id) {
                    Some(slot) => {
                        run_item(slot);
                    },
                    None => {},
                }
            }
            proof {
                let ids = self.wakes@.take(i as int);
                assert(self.wakes@.take(i + 1) =~= ids.push(id));
                assert(ids.push(id).drop_last() =~= ids);
                assert(ids.push(id)[i as int] == id);
                assert forall|k: usize| ids.push(id).contains(k) implies ids.contains(k) || k
                    == id by {
                    let j = choose|j: int| 0 <= j < ids.push(id).len() && ids.push(id)[j] == k;
                    if j < ids.len() {
                        assert(ids[j] == k);
                    }
                }
                if ids.contains(ID_MAIN) {
                    let j = choose|j: int| 0 <= j < ids.len() && ids[j] == ID_MAIN;
                    assert(ids.push(id)[j] == ID_MAIN);
                }
                if before.contains_key(id) && before[id].is_none() {
                    assert(self.slots() =~= before);
                }
                lemma_polls_one_more(old(self).slots(), before, self.slots(), ids, id);
            }
            i += 1;
        }
        assert(self.wakes@.take(n as int) =~= self.wakes@);
        self.wakes.clear();
        let ghost polled = self.slots();
        self.apply_drops();
        assert(polls(old(self).slots(), polled, old(self).wakes()) && self.slots() == without(
            polled,
            old(self).drops(),
        ));
        true
    }

    /// Takes the oldest idle-waiter for the host to resume, if there is one:
    /// those that the scheduler took in come before those that are still in
    /// the channel.
    pub fn on_idle(&mut self, rc: &mut RequestChannel<W>) -> (waker: Option<W>)
        ensures
            final(self).wakes() == old(self).wakes(),
            final(self).drops() == old(self).drops(),
            final(self).slots() == old(self).slots(),
            waker == (if (old(self).idles() + old(rc)@.idles).len() == 0 {
                None
            } else {
                Some((old(self).idles() + old(rc)@.idles).first())
            }),
            final(self).idles() + final(rc)@.idles == (if (old(self).idles()
                + old(rc)@.idles).len() == 0 {
                old(self).idles() + old(rc)@.idles
            } else {
                (old(self).idles() + old(rc)@.idles).drop_first()
            }),
            final(rc)@.wakes == old(rc)@.wakes,
            final(rc)@.drops == old(rc)@.drops,
    {
        if self.idles.len() > 0 {
            self.idles.pop_front()
        } else {
            rc.pop_on_idle()
        }
    }
}

/// Applying drop requests removes exactly the slots that they name, and
/// leaves every other slot as it was.
pub proof fn lemma_without(slots: Slots, ids: Seq<usize>, id: usize)
    ensures
        without(slots, ids).contains_key(id) <==> slots.contains_key(id) && !ids.contains(id),
        without(slots, ids).contains_key(id) ==> without(slots, ids)[id] == slots[id],
{
}

/// No slot leaks: once the wake object of a task was released, which puts a
/// drop request for its id into the channel, the drain iteration that takes the
/// channel in next leaves no slot under that id. This holds whatever else was
/// put into the channel in between, whatever the scheduler had taken in
/// before, and whatever the polls of the iteration made of the slots.
pub proof fn lemma_released_task_leaves_slab<W>(
    c: Requests<W>,
    id: usize,
    later: Seq<Request<W>>,
    taken: Seq<usize>,
    polled: Slots,
)
    ensures
        c.push(Request::Drop(id)).push_all(later).drops.contains(id),
        !without(polled, taken + c.push(Request::Drop(id)).push_all(later).drops).contains_key(
            id,
        ),
    decreases later.len(),
{
    let released = c.push(Request::Drop(id));
    if later.len() == 0 {
        assert(released.drops[c.drops.len() as int] == id);
    } else {
        lemma_released_task_leaves_slab(c, id, later.drop_last(), taken, polled);
        let before = released.push_all(later.drop_last());
        let j = choose|j: int| 0 <= j < before.drops.len() && before.drops[j] == id;
        assert(before.push(later.last()).drops[j] == id);
    }
    let drops = released.push_all(later).drops;
    let j = choose|j: int| 0 <= j < drops.len() && drops[j] == id;
    assert((taken + drops)[taken.len() + j] == id);
}

/// Adopting one more spawn under an id that was not in use extends what was
/// adopted.
proof fn lemma_adopts_one_more(
    first: Slots,
    before: Slots,
    after: Slots,
    ids: Seq<usize>,
    spawns: Seq<Spawn>,
    id: usize,
    spawn: Spawn,
)
    requires
        adopts(first, before, ids, spawns),
        !before.contains_key(id),
        after.contains_key(id),
        after[id].is_some(),
        adopted(after[id].unwrap(), id, spawn),
        after.remove(id) == before,
    ensures
        adopts(first, after, ids.push(id), spawns.push(spawn)),
{
    let more = ids.push(id);
    let all = spawns.push(spawn);
    assert forall|k: usize| #[trigger] before.contains_key(k) implies after.contains_key(k)
        && after[k] == before[k] by {
        assert(after.remove(id).contains_key(k));
        assert(after.remove(id)[k] == after[k]);
    }
    assert forall|i: int| 0 <= i < more.len() implies !first.contains_key(#[trigger] more[i])
        && after.contains_key(more[i]) && after[more[i]].is_some() && adopted(
        after[more[i]].unwrap(),
        more[i],
        all[i],
    ) by {
        if i < ids.len() {
            assert(more[i] == ids[i]);
            assert(all[i] == spawns[i]);
            assert(before.contains_key(ids[i]));
        }
    }
    assert forall|k: usize| #[trigger] after.contains_key(k) implies first.contains_key(k)
        || more.contains(k) by {
        if k == id {
            assert(more[ids.len() as int] == id);
        } else if !first.contains_key(k) {
            assert(after.remove(id).contains_key(k));
            let j = choose|j: int| 0 <= j < ids.len() && ids[j] == k;
            assert(more[j] == k);
        }
    }
    assert forall|i: int, j: int| 0 <= i < more.len() && 0 <= j < more.len() && i != j implies more[i]
        != more[j] by {
        if i < ids.len() {
            assert(before.contains_key(ids[i]));
        }
        if j < ids.len() {
            assert(before.contains_key(ids[j]));
        }
    }
}

/// Before any request is served the slots are as they were.
proof fn lemma_polls_none(slots: Slots)
    ensures
        polls(slots, slots, Seq::<usize>::empty()),
{
}

/// Serving one more request extends what was polled.
proof fn lemma_polls_one_more(first: Slots, before: Slots, after: Slots, ids: Seq<usize>, id: usize)
    requires
        polls(first, before, ids),
        polls_one(before, after, id),
    ensures
        polls(first, after, ids.push(id)),
{
    let more = ids.push(id);
    assert(more.drop_last() =~= ids);
    assert forall|k: usize| requests_for(more, k) == requests_for(ids, k) + if k == id {
        1nat
    } else {
        0nat
    } by {}
    assert forall|k: usize| #[trigger] first.contains_key(k) && !more.contains(k) implies after[k]
        == first[k] by {
        assert(more[ids.len() as int] == id);
        if ids.contains(k) {
            let j = choose|j: int| 0 <= j < ids.len() && ids[j] == k;
            assert(more[j] == k);
        }
    }
    assert forall|k: usize| #[trigger]
        first.contains_key(k) && first[k].is_some() && after[k].is_none() implies exists|
        last: Runnable,
    |
        done_after(first[k].unwrap(), last, requests_for(more, k)) by {
        if before[k].is_none() {
            let last = choose|last: Runnable|
                done_after(first[k].unwrap(), last, requests_for(ids, k));
            assert(done_after(first[k].unwrap(), last, requests_for(more, k)));
        } else {
            assert(k == id);
            let last = choose|last: Runnable| done_after(before[k].unwrap(), last, 1);
            assert(done_after(first[k].unwrap(), last, requests_for(more, k)));
        }
    }
}

/// A request for an id is one of the requests for that id.
pub proof fn lemma_requested(ids: Seq<usize>, id: usize)
    requires
        ids.contains(id),
    ensures
        requests_for(ids, id) >= 1,
    decreases ids.len(),
{
    if ids.last() != id {
        let j = choose|j: int| 0 <= j < ids.len() && ids[j] == id;
        assert(ids.drop_last()[j] == id);
        lemma_requested(ids.drop_last(), id);
    }
}

/// Every spawn is polled in the drain iteration that adopts it, and the slot
/// under the j-th new id is that of the j-th spawn: after the polls of the
/// iteration the slot is empty, because the runnable was done, or it holds
/// the runnable made of that spawn, polled once for each request for its id,
/// of which there is at least the one that adoption made.
pub proof fn lemma_adopted_spawn_is_polled(
    before: Slots,
    taken: Slots,
    polled: Slots,
    wakes: Seq<usize>,
    ids: Seq<usize>,
    spawns: Seq<Spawn>,
    j: int,
)
    requires
        adopts(before, taken, ids, spawns),
        ids.is_suffix_of(wakes),
        polls(taken, polled, wakes),
        0 <= j < ids.len(),
    ensures
        requests_for(wakes, ids[j]) >= 1,
        polled.contains_key(ids[j]),
        polled[ids[j]].is_some() ==> polled[ids[j]].unwrap().origin() == spawns[j]
            && polled[ids[j]].unwrap().told() == Some(ids[j]) && polled[ids[j]].unwrap().polls()
            == spawns[j].polls() + requests_for(wakes, ids[j]),
{
    assert(wakes[wakes.len() - ids.len() + j] == ids[j]);
    lemma_requested(wakes, ids[j]);
    assert(taken.contains_key(ids[j]));
}

/// The first drain iteration of a run that found nothing but the wake for the
/// top-level task polls that task once, whether the task is done then or
/// not.
pub proof fn lemma_lone_main_wake_is_one_poll<W>(before: Runner<W>, after: Runner<W>, polls: int)
    requires
        before.wakes() == seq![ID_MAIN],
    ensures
        requests_for(before.wakes(), ID_MAIN) == 1,
        before.ends_with_main(&after, polls) ==> polls == 1,
{
    assert(before.wakes().drop_last() =~= Seq::<usize>::empty());
    assert(before.wakes().take(0) =~= Seq::<usize>::empty());
    reveal_with_fuel(requests_for, 3);
    if before.ends_with_main(&after, polls) {
        let n = choose|n: int| #[trigger]
            before.ends_at(&after, n) && polls == requests_for(before.wakes().take(n), ID_MAIN)
                + 1;
        assert(n == 0);
    }
}

/// The drop requests at hand of a drain iteration free their slots: after
/// the iteration no slot is left under an id that a drop request named, and
/// under every other id there is a slot exactly if there was one.
pub proof fn lemma_iteration_frees_dropped_slots<W>(before: Runner<W>, after: Runner<W>, id: usize)
    requires
        before.drains_to(&after),
    ensures
        before.drops().contains(id) ==> !after.slots().contains_key(id),
        !before.drops().contains(id) ==> (after.slots().contains_key(id)
            <==> before.slots().contains_key(id)),
{
}

} // verus!
