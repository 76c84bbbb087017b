//! A single-threaded busy-wait executor.
//!
//! All tasks are cooperatively run on the same thread and no I/O polling is
//! done.  Progress happens only when the executor is explicitly driven
//! through [`Core::turn`], [`Core::run`] or a [`RunFuture`].

pub mod drop_off;
pub mod spawn_future;
pub mod queue;
pub mod store;

use vstd::prelude::*;

use crate::queue::{
    enqueued, lemma_without_not_contains, no_duplicates, queue_entries, queue_new,
    queue_pop_front, queue_push_back, queue_remove, without,
};
use crate::store::{all_vacant, store_room, Slot, Store};

verus! {

/// Outcome of polling a task: either its final value or "not ready yet".
pub enum Async<T> {
    Ready(T),
    NotReady,
}

/// Identifier of a queue entry: `0` is the main task, `n > 0` is the
/// auxiliary task stored at slot `n - 1`.
#[derive(Clone, Copy, PartialEq, Eq, Structural)]
pub struct SpawnId(pub usize);

impl SpawnId {
    /// The entry that goes into the ready queue for the owning task.
    pub fn to_queue_index(self) -> (r: usize)
        ensures
            r == self.0,
    {
        self.0
    }

    /// The identifier that a given queue index stands for.
    pub fn from_queue_index(queue_index: usize) -> (r: SpawnId)
        ensures
            r.0 == queue_index,
    {
        SpawnId(queue_index)
    }

    /// The identifier of the main task.
    pub fn main_id() -> (r: SpawnId)
        ensures
            r.0 == 0,
    {
        SpawnId(0)
    }

    /// The identifier of the auxiliary task at slot `aux_index`.
    pub fn aux(aux_index: usize) -> (r: SpawnId)
        requires
            aux_index < usize::MAX - 1,
        ensures
            r.0 == aux_index + 1,
    {
        SpawnId(aux_index + 1)
    }

    /// The slot index of an auxiliary identifier, or `None` for the main one.
    pub fn to_aux(self) -> (r: Option<usize>)
        ensures
            self.0 == 0 ==> r is None,
            self.0 != 0 ==> r == Some((self.0 - 1) as usize),
    {
        if self.0 == 0 {
            None
        } else {
            Some(self.0 - 1)
        }
    }
}

/// A unit of cooperative background work.  Its poll either finishes with a
/// unit value or reports "not ready"; by construction it cannot fail, which
/// is what the executor demands of every spawned auxiliary task.
pub trait BackgroundTask<A> {
    fn poll(&mut self, cx: &mut Context<A>) -> Async<()>;
}

/// A unit of cooperative work with a result: polling yields the final
/// value, an error, or "not ready yet".  A task that reports "not ready"
/// is polled again only after some wake for it reaches the ready queue
/// through [`Context::wake`].
pub trait Pollable<A, T, E> {
    fn poll(&mut self, cx: &mut Context<A>) -> Result<Async<T>, E>;
}

/// What a successful spawn does, seen at slot `i`: the lowest usable slot
/// is filled with the task (a fresh slot is added at the end when none is
/// vacant), and the matching queue index is queued so that the new task is
/// owed an initial poll.
pub open spec fn spawn_effect<A>(
    pre_slots: Seq<Slot<A>>,
    post_slots: Seq<Slot<A>>,
    pre_queue: Seq<usize>,
    post_queue: Seq<usize>,
    task: A,
    i: int,
) -> bool {
    &&& 0 <= i < usize::MAX - 1
    &&& (forall|j: int| 0 <= j < i ==> !(pre_slots[j] is Vacant))
    &&& if i < pre_slots.len() {
        pre_slots[i] is Vacant && post_slots == pre_slots.update(i, Slot::Occupied(task))
    } else {
        i == pre_slots.len() && post_slots == pre_slots.push(Slot::Occupied(task))
    }
    &&& post_queue == enqueued(pre_queue, (i + 1) as usize)
}

/// What a task sees of the executor while it is being polled: it can learn
/// its own queue index, trigger wakes, and spawn further auxiliary tasks,
/// but it cannot reach its own slot, which is kept reserved for the
/// duration of the poll.
pub struct Context<A> {
    queue: index_queue::IndexQueue,
    tasks: Store<A>,
    current: usize,
}

impl<A> Context<A> {
    /// The entries of the ready queue, front first.
    pub closed spec fn queued(self) -> Seq<usize> {
        queue_entries(self.queue)
    }

    /// The slots of the task store.
    pub closed spec fn slots(self) -> Seq<Slot<A>> {
        self.tasks@
    }

    /// The queue index of the task now being polled.
    pub closed spec fn current_index(self) -> usize {
        self.current
    }

    /// The queue index of the task now being polled: `0` for the main
    /// task, `n > 0` for the auxiliary task at slot `n - 1`.  A task that
    /// wants another poll after reporting "not ready" passes this to
    /// [`Context::wake`], or hands it to whatever will later report its
    /// readiness.
    pub fn current(&self) -> (r: usize)
        ensures
            r == self.current_index(),
    {
        self.current
    }

    /// Trigger the wake with queue index `index`: queue it at the back
    /// unless it is already queued.  Triggers between two polls of one
    /// task thus coalesce into at most one entry.  The sentinel value
    /// `usize::MAX`, which stands for no task, is ignored.
    pub fn wake(&mut self, index: usize)
        ensures
            final(self).slots() == old(self).slots(),
            final(self).current_index() == old(self).current_index(),
            final(self).queued() == (if index == usize::MAX {
                old(self).queued()
            } else {
                enqueued(old(self).queued(), index)
            }),
            index != usize::MAX ==> no_duplicates(final(self).queued()),
    {
        if index != usize::MAX {
            let _ = queue_push_back(&mut self.queue, index);
        }
    }

    /// True when a spawn now would find room for the task.
    pub fn has_room(&self) -> (r: bool)
        ensures
            r == store_room(self.slots()),
    {
        self.tasks.has_room()
    }

    /// Spawn a new auxiliary task: store it in the lowest usable slot and
    /// queue its initial poll.  The task is handed back unspawned when the
    /// auxiliary identifier space is exhausted.
    pub fn spawn(&mut self, task: A) -> (r: Result<(), A>)
        ensures
            final(self).current_index() == old(self).current_index(),
            match r {
                Ok(_) => {
                    &&& no_duplicates(final(self).queued())
                    &&& exists|i: int|
                        spawn_effect(
                            old(self).slots(),
                            final(self).slots(),
                            old(self).queued(),
                            final(self).queued(),
                            task,
                            i,
                        )
                },
                Err(t) => {
                    &&& t == task
                    &&& final(self).slots() == old(self).slots()
                    &&& final(self).queued() == old(self).queued()
                    &&& !store_room(old(self).slots())
                },
            },
    {
        match self.tasks.insert(task) {
            Ok(i) => {
                let _ = queue_push_back(&mut self.queue, i + 1);
                proof {
                    assert(spawn_effect(
                        old(self).slots(),
                        self.slots(),
                        old(self).queued(),
                        self.queued(),
                        task,
                        i as int,
                    ));
                }
                Ok(())
            },
            Err(t) => Err(t),
        }
    }
}

/// The task executor: a ready queue of wake entries and a store of
/// auxiliary tasks.  Driving it polls one queued task per turn.
pub struct Core<A> {
    cx: Context<A>,
}

impl<A> Core<A> {
    /// The entries of the ready queue, front first.
    pub closed spec fn queued(self) -> Seq<usize> {
        self.cx.queued()
    }

    /// The slots of the task store.
    pub closed spec fn slots(self) -> Seq<Slot<A>> {
        self.cx.slots()
    }

    /// A fresh executor: no tasks, empty queue.
    pub fn new() -> (r: Core<A>)
        ensures
            r.queued() == Seq::<usize>::empty(),
            r.slots() == Seq::<Slot<A>>::empty(),
            no_duplicates(r.queued()),
    {
        Core { cx: Context { queue: queue_new(), tasks: Store::empty(), current: 0 } }
    }

    /// Spawn an auxiliary task; it will be polled when the executor is
    /// next driven.  The task is handed back when the identifier space is
    /// exhausted.
    pub fn spawn(&mut self, task: A) -> (r: Result<(), A>)
        ensures
            match r {
                Ok(_) => {
                    &&& no_duplicates(final(self).queued())
                    &&& exists|i: int|
                        spawn_effect(
                            old(self).slots(),
                            final(self).slots(),
                            old(self).queued(),
                            final(self).queued(),
                            task,
                            i,
                        )
                },
                Err(t) => {
                    &&& t == task
                    &&& final(self).slots() == old(self).slots()
                    &&& final(self).queued() == old(self).queued()
                    &&& !store_room(old(self).slots())
                },
            },
    {
        let r = self.cx.spawn(task);
        proof {
            if r is Ok {
                let i = choose|i: int|
                    spawn_effect(
                        old(self).cx.slots(),
                        self.cx.slots(),
                        old(self).cx.queued(),
                        self.cx.queued(),
                        task,
                        i,
                    );
                assert(spawn_effect(
                    old(self).slots(),
                    self.slots(),
                    old(self).queued(),
                    self.queued(),
                    task,
                    i,
                ));
            }
        }
        r
    }

    /// Hand the executor to a caller that drives it by turns while also
    /// holding a main task; see [`Core::run_future`].
    pub fn run_future<T, E, F: Pollable<A, T, E>>(self, task: F) -> (r: RunFuture<A, F>)
        ensures
            r.core_part().queued() == enqueued(without(self.queued(), 0), 0),
            r.core_part().slots() == self.slots(),
            r.main_part() == task,
    {
        let mut core = self;
        // a previously abandoned run may have left a stale entry at the
        // main identifier; a fresh run must not start behind it
        let _ = queue_remove(&mut core.cx.queue, 0);
        let _ = queue_push_back(&mut core.cx.queue, 0);
        RunFuture { core, main_task: task }
    }
}

impl<A> Default for Core<A> {
    fn default() -> (r: Core<A>)
        ensures
            r.queued() == Seq::<usize>::empty(),
            r.slots() == Seq::<Slot<A>>::empty(),
    {
        Core::new()
    }
}

impl<A: BackgroundTask<A>> Core<A> {
    /// Poll the auxiliary task at slot `aux`, if one is there: take it out
    /// of its slot for the duration of the poll, then free the slot when
    /// it finished, or put it back when it did not.  A stale queue entry
    /// whose slot holds no task frees the slot and is otherwise a no-op.
    /// When the task completed, its ticket is withdrawn with its slot: no
    /// queue entry for it remains, so a later occupant of the slot cannot
    /// be reached through a stale wake.
    fn poll_aux(&mut self, aux: usize) -> (completed: bool)
        requires
            aux < usize::MAX,
        ensures
            (aux >= old(self).slots().len() || !(old(self).slots()[aux as int] is Occupied))
                ==> {
                &&& !completed
                &&& final(self).queued() == old(self).queued()
                &&& final(self).slots() == (if aux < old(self).slots().len() {
                    old(self).slots().update(aux as int, Slot::<A>::Vacant)
                } else {
                    old(self).slots()
                })
            },
            completed ==> {
                &&& !final(self).queued().contains((aux + 1) as usize)
                &&& (aux < final(self).slots().len() ==> final(self).slots()[aux as int]
                    is Vacant)
            },
            (!completed && aux < old(self).slots().len() && old(self).slots()[aux as int]
                is Occupied) ==> (aux < final(self).slots().len() ==> final(self).slots()[aux as int]
                is Occupied),
            aux < final(self).slots().len() ==> !(final(self).slots()[aux as int] is Reserved),
    {
        let taken = self.cx.tasks.take_for_poll(aux);
        match taken {
            Some(mut task) => {
                self.cx.current = aux + 1;
                match task.poll(&mut self.cx) {
                    Async::Ready(_) => {
                        // completed: withdraw its wake entry for good and
                        // free the slot for reuse
                        let _ = queue_remove(&mut self.cx.queue, aux + 1);
                        proof {
                            lemma_without_not_contains(
                                queue_entries(self.cx.queue),
                                (aux + 1) as usize,
                            );
                        }
                        self.cx.tasks.free(aux);
                        true
                    },
                    Async::NotReady => {
                        self.cx.tasks.restore(aux, task);
                        false
                    },
                }
            },
            None => {
                self.cx.tasks.free(aux);
                false
            },
        }
    }

    /// One scheduling step with no main task: dequeue the front entry and
    /// poll the auxiliary task it stands for.  Yields `Some(Ready(()))`
    /// when nothing remains to do at all, `None` when all tasks are parked
    /// and no progress could be made, and `Some(NotReady)` otherwise.  A
    /// dequeued main entry with no main task around is discarded.
    pub fn turn(&mut self) -> (r: Option<Async<()>>)
        ensures
            old(self).queued().len() == 0 ==> {
                &&& final(self).queued() == old(self).queued()
                &&& final(self).slots() == old(self).slots()
                &&& r == (if all_vacant(old(self).slots()) {
                    Some(Async::Ready(()))
                } else {
                    None::<Async<()>>
                })
            },
            old(self).queued().len() > 0 ==> {
                &&& r == Some(Async::<()>::NotReady)
                &&& (old(self).queued()[0] == 0 ==> final(self).queued() == old(
                    self,
                ).queued().drop_first() && final(self).slots() == old(self).slots())
                &&& (old(self).queued()[0] != 0 ==> ({
                    let aux = old(self).queued()[0] - 1;
                    &&& (aux < final(self).slots().len() ==> !(final(self).slots()[aux]
                        is Reserved))
                    &&& ((aux < old(self).slots().len() && old(self).slots()[aux] is Occupied
                        && aux < final(self).slots().len()) ==> (final(self).slots()[aux]
                        is Occupied || (final(self).slots()[aux] is Vacant
                        && !final(self).queued().contains(old(self).queued()[0]))))
                    &&& ((aux >= old(self).slots().len() || !(old(self).slots()[aux] is Occupied))
                        ==> {
                        &&& final(self).queued() == old(self).queued().drop_first()
                        &&& final(self).slots() == (if aux < old(self).slots().len() {
                            old(self).slots().update(aux, Slot::<A>::Vacant)
                        } else {
                            old(self).slots()
                        })
                    })
                }))
            },
    {
        let popped = queue_pop_front(&mut self.cx.queue);
        match popped {
            None => {
                if self.cx.tasks.is_empty() {
                    Some(Async::Ready(()))
                } else {
                    None
                }
            },
            Some(id) => {
                match SpawnId::from_queue_index(id).to_aux() {
                    None => {
                        // a bare turn has no main task: the entry is a
                        // leftover and is discarded
                    },
                    Some(aux) => {
                        let _ = self.poll_aux(aux);
                    },
                }
                Some(Async::NotReady)
            },
        }
    }

    /// One scheduling step with `main_task` standing as the main task.
    fn turn_main<T, E, F: Pollable<A, T, E>>(&mut self, main_task: &mut F) -> (r: Option<
        Result<Async<T>, E>,
    >)
        ensures
            old(self).queued().len() == 0 ==> {
                &&& r is None
                &&& final(self).queued() == old(self).queued()
                &&& final(self).slots() == old(self).slots()
                &&& *final(main_task) == *old(main_task)
            },
            old(self).queued().len() > 0 && old(self).queued()[0] == 0 ==> r is Some,
            old(self).queued().len() > 0 && old(self).queued()[0] != 0 ==> ({
                &&& r == Some(Ok::<Async<T>, E>(Async::NotReady))
                &&& *final(main_task) == *old(main_task)
                &&& ({
                    let aux = old(self).queued()[0] - 1;
                    &&& (aux < final(self).slots().len() ==> !(final(self).slots()[aux]
                        is Reserved))
                    &&& ((aux < old(self).slots().len() && old(self).slots()[aux] is Occupied
                        && aux < final(self).slots().len()) ==> (final(self).slots()[aux]
                        is Occupied || (final(self).slots()[aux] is Vacant
                        && !final(self).queued().contains(old(self).queued()[0]))))
                    &&& ((aux >= old(self).slots().len() || !(old(self).slots()[aux] is Occupied))
                        ==> {
                        &&& final(self).queued() == old(self).queued().drop_first()
                        &&& final(self).slots() == (if aux < old(self).slots().len() {
                            old(self).slots().update(aux, Slot::<A>::Vacant)
                        } else {
                            old(self).slots()
                        })
                    })
                })
            }),
            (r matches Some(Ok(p)) && p is Ready) ==> !final(self).queued().contains(0),
    {
        let popped = queue_pop_front(&mut self.cx.queue);
        match popped {
            None => None,
            Some(id) => match SpawnId::from_queue_index(id).to_aux() {
                None => {
                    self.cx.current = 0;
                    let p = main_task.poll(&mut self.cx);
                    let done = match &p {
                        Ok(Async::Ready(_)) => true,
                        _ => false,
                    };
                    if done {
                        // the main task finished: withdraw its wake entry
                        // for good
                        let _ = queue_remove(&mut self.cx.queue, 0);
                        proof {
                            lemma_without_not_contains(queue_entries(self.cx.queue), 0);
                        }
                    }
                    Some(p)
                },
                Some(aux) => {
                    let _ = self.poll_aux(aux);
                    Some(Ok(Async::NotReady))
                },
            },
        }
    }

    /// Run `task` as the main task, returning its value or propagating
    /// its error.  Spawned auxiliary tasks are run concurrently as well,
    /// but may or may not complete.  At most `fuel` turns are driven:
    /// `None` says the budget was spent first, or that every task was
    /// parked with nothing left to wake it.
    pub fn run<T, E, F: Pollable<A, T, E>>(&mut self, task: F, fuel: usize) -> (r: Option<
        Result<T, E>,
    >)
        ensures
            r matches Some(Ok(_)) ==> !final(self).queued().contains(0),
            fuel == 0 ==> r is None,
    {
        let mut main_task = task;
        // a previously abandoned run may have left a stale entry at the
        // main identifier; a fresh run must not start behind it
        let _ = queue_remove(&mut self.cx.queue, 0);
        let _ = queue_push_back(&mut self.cx.queue, 0);
        let mut left = fuel;
        while left > 0
            invariant
                left <= fuel,
            decreases left,
        {
            let step = self.turn_main(&mut main_task);
            match step {
                Some(Ok(Async::Ready(value))) => {
                    return Some(Ok(value));
                },
                Some(Err(err)) => {
                    return Some(Err(err));
                },
                Some(Ok(Async::NotReady)) => {},
                None => {
                    // all tasks are parked and nothing here can wake them
                    return None;
                },
            }
            left = left - 1;
        }
        None
    }
}

/// A combined executor and main task that can be driven by turns.
pub struct RunFuture<A, F> {
    core: Core<A>,
    main_task: F,
}

impl<A, F> RunFuture<A, F> {
    /// The executor half.
    pub closed spec fn core_part(self) -> Core<A> {
        self.core
    }

    /// The main task half.
    pub closed spec fn main_part(self) -> F {
        self.main_task
    }

    /// Give the executor back, abandoning the main task.  Any wake entry
    /// the main task left at the main identifier stays queued; the next
    /// run clears it before starting.
    pub fn into_core(self) -> (r: Core<A>)
        ensures
            r == self.core_part(),
    {
        self.core
    }
}

impl<A: BackgroundTask<A>, F> RunFuture<A, F> {
    /// One scheduling step; see [`Core::turn`].  Yields `None` when all
    /// tasks are parked and no progress could be made.
    pub fn turn<T, E>(&mut self) -> (r: Option<Result<Async<T>, E>>) where F: Pollable<A, T, E>
        ensures
            old(self).core_part().queued().len() == 0 ==> {
                &&& r is None
                &&& final(self).core_part().queued() == old(self).core_part().queued()
                &&& final(self).core_part().slots() == old(self).core_part().slots()
                &&& final(self).main_part() == old(self).main_part()
            },
            old(self).core_part().queued().len() > 0 && old(self).core_part().queued()[0] == 0
                ==> r is Some,
            old(self).core_part().queued().len() > 0 && old(self).core_part().queued()[0] != 0
                ==> r == Some(Ok::<Async<T>, E>(Async::NotReady)) && final(self).main_part()
                == old(self).main_part(),
            old(self).core_part().queued().len() > 0 && old(self).core_part().queued()[0] != 0
                ==> ({
                let aux = old(self).core_part().queued()[0] - 1;
                (aux < old(self).core_part().slots().len() && old(self).core_part().slots()[aux]
                    is Occupied && aux < final(self).core_part().slots().len())
                    ==> (final(self).core_part().slots()[aux] is Occupied
                    || (final(self).core_part().slots()[aux] is Vacant
                    && !final(self).core_part().queued().contains(
                    old(self).core_part().queued()[0])))
            }),
            (r matches Some(Ok(p)) && p is Ready) ==> !final(self).core_part().queued().contains(
                0,
            ),
    {
        self.core.turn_main(&mut self.main_task)
    }

    /// Drive turns until the main task resolves, returning its value or
    /// propagating its error.  At most `fuel` turns are driven: `None`
    /// says the budget was spent first, or that every task was parked
    /// with nothing left to wake it.
    pub fn run<T, E>(&mut self, fuel: usize) -> (r: Option<Result<T, E>>) where
        F: Pollable<A, T, E>

        ensures
            r matches Some(Ok(_)) ==> !final(self).core_part().queued().contains(0),
            fuel == 0 ==> r is None,
    {
        let mut left = fuel;
        while left > 0
            invariant
                left <= fuel,
            decreases left,
        {
            let step = self.turn();
            match step {
                Some(Ok(Async::Ready(value))) => {
                    return Some(Ok(value));
                },
                Some(Err(err)) => {
                    return Some(Err(err));
                },
                Some(Ok(Async::NotReady)) => {},
                None => {
                    // all tasks are parked and nothing here can wake them
                    return None;
                },
            }
            left = left - 1;
        }
        None
    }
}

/// Unpark the current task if `status` reports no apparent progress, so
/// that a nested executor is polled again instead of blocking its host:
/// busy-wait semantics.
fn yield_turn<B, T, E>(cx: &mut Context<B>, status: Option<Result<Async<T>, E>>) -> (r: Result<
    Async<T>,
    E,
>)
    ensures
        r == (match status {
            None => Ok::<Async<T>, E>(Async::NotReady),
            Some(p) => p,
        }),
        final(cx).slots() == old(cx).slots(),
        final(cx).current_index() == old(cx).current_index(),
        r == Ok::<Async<T>, E>(Async::NotReady) ==> final(cx).queued() == (if old(
            cx,
        ).current_index() == usize::MAX {
            old(cx).queued()
        } else {
            enqueued(old(cx).queued(), old(cx).current_index())
        }),
        r != Ok::<Async<T>, E>(Async::NotReady) ==> final(cx).queued() == old(cx).queued(),
{
    match status {
        None => {
            let c = cx.current();
            cx.wake(c);
            Ok(Async::NotReady)
        },
        Some(Ok(Async::NotReady)) => {
            let c = cx.current();
            cx.wake(c);
            Ok(Async::NotReady)
        },
        Some(p) => p,
    }
}

impl<B, A: BackgroundTask<A>> BackgroundTask<B> for Core<A> {
    /// A whole executor is itself background work: each poll performs one
    /// bare turn, re-triggering its own wake whenever that made no
    /// apparent progress, and completes once no task remains.  It never
    /// leaves its host blocked: whenever it does not complete, it has
    /// re-queued its own entry.
    fn poll(&mut self, cx: &mut Context<B>) -> (r: Async<()>)
        ensures
            old(self).queued().len() == 0 && all_vacant(old(self).slots()) ==> r is Ready,
            r is Ready ==> old(self).queued().len() == 0 && all_vacant(old(self).slots()),
            final(cx).slots() == old(cx).slots(),
            final(cx).current_index() == old(cx).current_index(),
            r is NotReady ==> final(cx).queued() == (if old(cx).current_index() == usize::MAX {
                old(cx).queued()
            } else {
                enqueued(old(cx).queued(), old(cx).current_index())
            }),
            r is Ready ==> final(cx).queued() == old(cx).queued(),
    {
        match self.turn() {
            Some(Async::Ready(_)) => Async::Ready(()),
            Some(Async::NotReady) => {
                let c = cx.current();
                cx.wake(c);
                Async::NotReady
            },
            None => {
                let c = cx.current();
                cx.wake(c);
                Async::NotReady
            },
        }
    }
}

impl<B, A: BackgroundTask<A>, T, E, F: Pollable<A, T, E>> Pollable<B, T, E> for RunFuture<A, F> {
    /// An executor bound to a main task can be embedded as a task of
    /// another executor; each poll performs one turn, with busy-wait
    /// re-waking on no progress, so the pair is never left permanently
    /// blocked in its host.  Ready and error outcomes pass through
    /// unchanged and trigger no wake.
    fn poll(&mut self, cx: &mut Context<B>) -> (r: Result<Async<T>, E>)
        ensures
            old(self).core_part().queued().len() == 0 ==> r == Ok::<Async<T>, E>(Async::NotReady),
            (r matches Ok(p) && p is Ready) ==> !final(self).core_part().queued().contains(0),
            final(cx).slots() == old(cx).slots(),
            final(cx).current_index() == old(cx).current_index(),
            r == Ok::<Async<T>, E>(Async::NotReady) ==> final(cx).queued() == (if old(
                cx,
            ).current_index() == usize::MAX {
                old(cx).queued()
            } else {
                enqueued(old(cx).queued(), old(cx).current_index())
            }),
            r != Ok::<Async<T>, E>(Async::NotReady) ==> final(cx).queued() == old(cx).queued(),
    {
        let status = self.turn();
        yield_turn(cx, status)
    }
}

} // verus!
