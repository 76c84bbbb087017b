//! Spawn-and-collect adapter: run a task in the background while the
//! caller that spawned it polls a separate object for its eventual
//! result.

use vstd::prelude::*;

use crate::drop_off;
use crate::queue::{enqueued, lemma_enqueued_contains};
use crate::store::store_room;
use crate::{spawn_effect, Async, BackgroundTask, Context, Pollable};

verus! {

/// The background wrapper around the collected task: once the task
/// resolves, the wrapper delivers the outcome through its channel,
/// triggers the collecting task's wake, and completes with a unit value,
/// as the executor demands of auxiliary tasks.
#[verifier::reject_recursive_types(T)]
#[verifier::reject_recursive_types(E)]
pub struct SpawnedFuture<F, T, E> {
    future: F,
    sender: Option<drop_off::Sender<Result<T, E>>>,
    task: usize,
}

impl<F, T, E> SpawnedFuture<F, T, E> {
    /// True while the outcome has not been delivered yet.
    pub closed spec fn has_sender(self) -> bool {
        self.sender is Some
    }

    /// The queue index woken when the outcome is delivered.
    pub closed spec fn wake_target(self) -> usize {
        self.task
    }
}

impl<A, F: Pollable<A, T, E>, T, E> BackgroundTask<A> for SpawnedFuture<F, T, E> {
    /// Polls the wrapped task.  While it is not ready, nothing is
    /// delivered and the sending half is kept.  Once it resolves, the
    /// outcome goes through the channel, the collecting task's wake is
    /// triggered, and the wrapper completes; no sending half remains, so
    /// the outcome is delivered at most once.  A wrapper polled again
    /// after delivering re-polls the wrapped task first: it reports "not
    /// ready" while that stays pending, and completion, delivering
    /// nothing, if it resolves again — the original would abort there,
    /// which a verified poll cannot do.
    fn poll(&mut self, cx: &mut Context<A>) -> (r: Async<()>)
        ensures
            r is NotReady ==> final(self).has_sender() == old(self).has_sender(),
            r is Ready ==> !final(self).has_sender(),
            final(self).wake_target() == old(self).wake_target(),
            (r is Ready && old(self).has_sender() && old(self).wake_target() != usize::MAX)
                ==> final(cx).queued().contains(old(self).wake_target()),
    {
        let result = match self.future.poll(cx) {
            Ok(Async::NotReady) => {
                return Async::NotReady;
            },
            Ok(Async::Ready(item)) => Ok(item),
            Err(err) => Err(err),
        };
        let mut sender: Option<drop_off::Sender<Result<T, E>>> = None;
        core::mem::swap(&mut self.sender, &mut sender);
        match sender {
            Some(s) => {
                // a failed send only means the collecting side stopped
                // caring about the result
                let _ = s.send(result);
                let t = self.task;
                let ghost before_wake = cx.queued();
                cx.wake(t);
                proof {
                    if t != usize::MAX {
                        lemma_enqueued_contains(before_wake, t);
                    }
                }
                Async::Ready(())
            },
            None => Async::Ready(()),
        }
    }
}

/// Where the adapter stands: still holding the task, waiting on the
/// channel for its outcome, cut off from it for good, or spent.
/// `Invalid` is the transient mid-transition state and is what remains
/// after the outcome came out.
#[verifier::reject_recursive_types(T)]
#[verifier::reject_recursive_types(E)]
enum State<F, T, E> {
    Starting { future: F },
    Waiting { receiver: drop_off::Receiver<Result<T, E>> },
    Orphaned,
    Invalid,
}

/// A pollable object yielding the eventual result of a task that runs in
/// the background.  The task is spawned on the adapter's first poll, into
/// the executor whose context that poll receives.
#[must_use]
#[verifier::reject_recursive_types(T)]
#[verifier::reject_recursive_types(E)]
pub struct SpawnFuture<F, T, E> {
    state: State<F, T, E>,
}

impl<F, T, E> SpawnFuture<F, T, E> {
    /// True while the adapter still holds the not-yet-spawned task `f`.
    pub closed spec fn holds_task(self, f: F) -> bool {
        &&& self.state matches State::Starting { future }
        &&& future == f
    }

    /// True while the adapter still holds its not-yet-spawned task.
    pub closed spec fn is_starting(self) -> bool {
        self.state is Starting
    }

    /// True while the adapter waits on the channel for the outcome.
    pub closed spec fn is_waiting(self) -> bool {
        self.state is Waiting
    }

    /// True once the background wrapper was destroyed before delivering:
    /// no outcome can come any more.
    pub closed spec fn is_orphaned(self) -> bool {
        self.state is Orphaned
    }

    /// True once the outcome came out, or mid-transition.
    pub closed spec fn is_invalid(self) -> bool {
        self.state is Invalid
    }

    /// True once no outcome can come out of this adapter any more:
    /// either it already came out, or the background wrapper was
    /// destroyed before delivering.  A poll in either state reports "not
    /// ready" and requests no wake, exactly like a pending wait, so a
    /// caller that saw "not ready" tests this to tell the two apart and
    /// abort instead of retrying.
    pub fn is_dead(&self) -> (r: bool)
        ensures
            r == (self.is_orphaned() || self.is_invalid()),
    {
        match &self.state {
            State::Orphaned => true,
            State::Invalid => true,
            _ => false,
        }
    }

    /// Wrap `future` for background execution.
    pub fn new(future: F) -> (r: Self)
        ensures
            r.holds_task(future),
            r.is_starting(),
    {
        SpawnFuture { state: State::Starting { future } }
    }
}

impl<B, F, T, E> Pollable<B, T, E> for SpawnFuture<F, T, E> where
    F: Pollable<B, T, E>,
    B: From<SpawnedFuture<F, T, E>>,
 {
    /// From the starting state, a poll builds the channel, spawns the
    /// wrapper into the context's executor, and waits; from the waiting
    /// state, the channel decides: value, error, or not yet.  A value or
    /// an error comes out of the waiting state only, and only once.
    ///
    /// Where the original would abort — a poll after the outcome came
    /// out, or after the wrapper was destroyed without delivering — a
    /// verified poll cannot, and the adapter instead stays in a state
    /// that reports "not ready" forever and requests no wake.  A caller
    /// tells that apart from a pending wait with [`SpawnFuture::is_dead`]
    /// and aborts its operation.
    fn poll(&mut self, cx: &mut Context<B>) -> (r: Result<Async<T>, E>)
        ensures
            old(self).is_starting() && store_room(old(cx).slots()) ==> {
                &&& r == Ok::<Async<T>, E>(Async::NotReady)
                &&& final(self).is_waiting()
                &&& final(cx).current_index() == old(cx).current_index()
                &&& exists|w: B, i: int|
                    spawn_effect(
                        old(cx).slots(),
                        final(cx).slots(),
                        old(cx).queued(),
                        final(cx).queued(),
                        w,
                        i,
                    )
            },
            old(self).is_starting() && !store_room(old(cx).slots()) ==> {
                &&& r == Ok::<Async<T>, E>(Async::NotReady)
                &&& *final(self) == *old(self)
                &&& final(cx).slots() == old(cx).slots()
                &&& final(cx).current_index() == old(cx).current_index()
                &&& final(cx).queued() == (if old(cx).current_index() == usize::MAX {
                    old(cx).queued()
                } else {
                    enqueued(old(cx).queued(), old(cx).current_index())
                })
            },
            old(self).is_waiting() ==> {
                &&& *final(cx) == *old(cx)
                &&& (r == Ok::<Async<T>, E>(Async::NotReady) ==> final(self).is_waiting()
                    || final(self).is_orphaned())
                &&& (final(self).is_waiting() ==> *final(self) == *old(self))
                &&& (r != Ok::<Async<T>, E>(Async::NotReady) ==> final(self).is_invalid())
            },
            old(self).is_orphaned() ==> r == Ok::<Async<T>, E>(Async::NotReady) && *final(self)
                == *old(self) && *final(cx) == *old(cx),
            old(self).is_invalid() ==> r == Ok::<Async<T>, E>(Async::NotReady) && *final(self)
                == *old(self) && *final(cx) == *old(cx),
            r != Ok::<Async<T>, E>(Async::NotReady) ==> old(self).is_waiting(),
    {
        let mut st = State::Invalid;
        core::mem::swap(&mut self.state, &mut st);
        match st {
            State::Starting { future } => {
                if !cx.has_room() {
                    // no slot for the wrapper yet: stay put and retry on
                    // the next poll
                    self.state = State::Starting { future };
                    let c = cx.current();
                    cx.wake(c);
                    return Ok(Async::NotReady);
                }
                let (sender, receiver) = drop_off::new();
                let wrapper = SpawnedFuture { future, sender: Some(sender), task: cx.current() };
                let wrapped = B::from(wrapper);
                match cx.spawn(wrapped) {
                    Ok(_) => {},
                    Err(_) => {
                        // the room was checked just above, and building
                        // the wrapper cannot have taken it
                        return vstd::pervasive::unreached();
                    },
                }
                self.state = State::Waiting { receiver };
                Ok(Async::NotReady)
            },
            State::Waiting { receiver } => match receiver.take() {
                Ok(Ok(item)) => Ok(Async::Ready(item)),
                Ok(Err(err)) => Err(err),
                Err(Some(rx)) => {
                    // spurious wake: the background task has not
                    // delivered yet, so keep waiting
                    self.state = State::Waiting { receiver: rx };
                    Ok(Async::NotReady)
                },
                Err(None) => {
                    // the background wrapper was destroyed before it
                    // could deliver: no result can come any more
                    self.state = State::Orphaned;
                    Ok(Async::NotReady)
                },
            },
            State::Orphaned => {
                self.state = State::Orphaned;
                Ok(Async::NotReady)
            },
            State::Invalid => Ok(Async::NotReady),
        }
    }
}

} // verus!
