//! What the scheduler polls.

use vstd::prelude::*;

verus! {

/// The embedding's part of a runnable: the future of a task together with
/// the record of the task. What its calls do is the embedding's matter, and
/// nothing is assumed of them.
pub trait TaskFuture {
    /// Takes note of the id under which the scheduler adopted the task.
    fn set_id(&mut self, id: usize);

    /// Polls the future once, unless the task was cancelled. Returns whether
    /// the runnable is to be polled again when it is woken: `false` once the
    /// task has completed or was cancelled.
    fn run(&mut self) -> bool;
}

/// A runnable as the scheduler sees it. The scheduler owns it from adoption
/// until it is torn down.
///
/// Beside its two calls a runnable has a history of them: how often it was
/// polled, what the last poll answered, and which id it was told last. The
/// history is how the contracts of the scheduler say which runnable was
/// polled, how often, and what became of the answer.
pub trait DynRunnable {
    /// How often the runnable was polled.
    spec fn polls(&self) -> nat;

    /// What the last poll answered: whether the runnable is to be polled
    /// again.
    spec fn stayed(&self) -> bool;

    /// The id that the runnable was told last, if it was told one.
    spec fn told(&self) -> Option<usize>;

    /// Tells the runnable the id under which the scheduler adopted it. This
    /// is no poll.
    fn set_id(&mut self, id: usize)
        ensures
            final(self).told() == Some(id),
            final(self).polls() == old(self).polls(),
            final(self).stayed() == old(self).stayed(),
    ;

    /// Polls the runnable once. Returns whether it is to be polled again when
    /// it is woken.
    fn run(&mut self) -> (stays: bool)
        ensures
            final(self).polls() == old(self).polls() + 1,
            final(self).stayed() == stays,
            final(self).told() == old(self).told(),
    ;
}

/// The runnable of a task: the embedding's future, and the history of what
/// the scheduler asked of it.
pub struct RawRunnable<F> {
    future: F,
    polls: Ghost<nat>,
    stayed: Ghost<bool>,
    told: Ghost<Option<usize>>,
}

impl<F: TaskFuture> RawRunnable<F> {
    /// The future that the runnable holds.
    pub closed spec fn future(&self) -> F {
        self.future
    }

    /// The runnable of a task that was just spawned: never polled, and told
    /// no id.
    pub fn new(future: F) -> (r: Self)
        ensures
            r.future() == future,
            r.polls() == 0,
            r.told().is_none(),
    {
        RawRunnable { future, polls: Ghost(0), stayed: Ghost(true), told: Ghost(None) }
    }

    /// The future, to look at.
    pub fn get_ref(&self) -> (future: &F)
        ensures
            *future == self.future(),
    {
        &self.future
    }

    /// The future, to work on. The history of the runnable is not touched.
    pub fn get_mut(&mut self) -> (future: &mut F)
        ensures
            *future == old(self).future(),
            final(self).future() == *final(future),
            final(self).polls() == old(self).polls(),
            final(self).stayed() == old(self).stayed(),
            final(self).told() == old(self).told(),
    {
        &mut self.future
    }

    /// Gives the future back.
    pub fn into_inner(self) -> (future: F)
        ensures
            future == self.future(),
    {
        self.future
    }
}

impl<F: TaskFuture> DynRunnable for RawRunnable<F> {
    closed spec fn polls(&self) -> nat {
        self.polls@
    }

    closed spec fn stayed(&self) -> bool {
        self.stayed@
    }

    closed spec fn told(&self) -> Option<usize> {
        self.told@
    }

    fn set_id(&mut self, id: usize) {
        self.told = Ghost(Some(id));
        self.future.set_id(id);
    }

    fn run(&mut self) -> (stays: bool) {
        let stays = self.future.run();
        self.polls = Ghost(self.polls@ + 1);
        self.stayed = Ghost(stays);
        stays
    }
}

/// A spawned runnable that waits for the scheduler to adopt it.
pub struct Spawn {
    pub r: Box<dyn DynRunnable>,
}

impl Spawn {
    /// How often the runnable was polled.
    pub open spec fn polls(&self) -> nat {
        self.r.polls()
    }

    /// What the last poll answered.
    pub open spec fn stayed(&self) -> bool {
        self.r.stayed()
    }

    /// The id that the runnable was told last, if it was told one.
    pub open spec fn told(&self) -> Option<usize> {
        self.r.told()
    }

    /// Wraps a runnable that was just spawned.
    pub fn new(r: Box<dyn DynRunnable>) -> (spawn: Self)
        ensures
            spawn.r === r,
    {
        Spawn { r }
    }
}

/// An adopted runnable, with the id under which it was adopted: the id of
/// its slot, which is also the id that its wakers ask for.
pub struct Runnable {
    id: usize,
    spawn: Spawn,
    origin: Ghost<Spawn>,
}

impl Runnable {
    pub closed spec fn spec_id(&self) -> usize {
        self.id
    }

    /// The spawn that the runnable was made of.
    pub closed spec fn origin(&self) -> Spawn {
        self.origin@
    }

    /// How often the runnable was polled.
    pub closed spec fn polls(&self) -> nat {
        self.spawn.polls()
    }

    /// What the last poll answered.
    pub closed spec fn stayed(&self) -> bool {
        self.spawn.stayed()
    }

    /// The id that the runnable was told last, if it was told one.
    pub closed spec fn told(&self) -> Option<usize> {
        self.spawn.told()
    }

    /// Adopts `spawn` under `id`: tells the runnable the id, and keeps the id
    /// with it. The runnable is not polled.
    pub fn new(spawn: Spawn, id: usize) -> (runnable: Self)
        ensures
            runnable.id() == id,
            runnable.told() == Some(id),
            runnable.origin() == spawn,
            runnable.polls() == spawn.polls(),
    {
        let mut runnable = Runnable { id, spawn, origin: Ghost(spawn) };
        runnable.spawn.r.set_id(id);
        runnable
    }

    /// The id under which the runnable was adopted.
    #[verifier::when_used_as_spec(spec_id)]
    pub fn id(&self) -> (id: usize)
        ensures
            id == self.id(),
    {
        self.id
    }

    /// Polls the runnable once and returns its answer: `false` says that it
    /// is done. The runnable stays what it was: the same spawn, adopted and
    /// told the same id.
    pub fn run(&mut self) -> (stays: bool)
        ensures
            final(self).polls() == old(self).polls() + 1,
            final(self).stayed() == stays,
            final(self).id() == old(self).id(),
            final(self).told() == old(self).told(),
            final(self).origin() == old(self).origin(),
    {
        self.spawn.r.run()
    }
}

/// What polls can make of a runnable that is still in its slot: it was polled
/// `times` more and answered the last of these polls, if there was one, by
/// asking to stay; and it is the same spawn, adopted and told the same id.
pub open spec fn polled(before: Runnable, after: Runnable, times: nat) -> bool {
    &&& after.polls() == before.polls() + times
    &&& times > 0 ==> after.stayed()
    &&& after.id() == before.id()
    &&& after.told() == before.told()
    &&& after.origin() == before.origin()
}

/// `last` is what a runnable that has left its slot was when it left: polled
/// at least once more and at most `most` times more, with the answer to its
/// last poll that it is done; and the same spawn, adopted and told the same
/// id.
pub open spec fn done_after(before: Runnable, last: Runnable, most: nat) -> bool {
    &&& before.polls() < last.polls() <= before.polls() + most
    &&& !last.stayed()
    &&& last.id() == before.id()
    &&& last.told() == before.told()
    &&& last.origin() == before.origin()
}

/// Empties the slot of a runnable that is done: one that does not stay leaves
/// at once, though the slot keeps its id until the drop request for it is
/// applied.
pub fn retire(r: &mut Option<Runnable>, stays: bool)
    ensures
        *final(r) == (if stays {
            *old(r)
        } else {
            None
        }),
{
    if !stays {
        *r = None;
    }
}

/// Polls the runnable in a slot once, if there is one, and empties the slot
/// exactly when the runnable answers that it is done. An empty slot stays
/// empty and nothing is polled.
pub fn run_item(r: &mut Option<Runnable>)
    ensures
        old(r).is_none() ==> final(r).is_none(),
        old(r).is_some() && final(r).is_some() ==> polled(old(r).unwrap(), final(r).unwrap(), 1),
        old(r).is_some() && final(r).is_none() ==> exists|last: Runnable|
            done_after(old(r).unwrap(), last, 1),
{
    let stays = match r {
        Some(runnable) => runnable.run(),
        None => true,
    };
    proof {
        if old(r).is_some() && !stays {
            assert(done_after(old(r).unwrap(), r.unwrap(), 1));
        }
    }
    retire(r, stays);
}

} // verus!
