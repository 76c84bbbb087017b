use std::cell::RefCell;
use std::convert::Infallible;
use std::rc::Rc;

use synchrotron::{Async, BackgroundTask, Context, Core, Pollable, SpawnId};

enum BgWork {
    /// Counts its polls; on the first poll it triggers its own wake twice.
    DoubleWake { polls: Rc<RefCell<u32>> },
    /// Never resolves and never asks to be woken again.
    Parked { _tracker: Rc<RefCell<()>> },
    /// Completes on its first poll, recording its label.
    Recorder { label: u32, log: Rc<RefCell<Vec<u32>>> },
    /// Spawns a recorder from within its own poll, then completes.
    Spawner { label: u32, log: Rc<RefCell<Vec<u32>>> },
}

impl BackgroundTask<BgWork> for BgWork {
    fn poll(&mut self, cx: &mut Context<BgWork>) -> Async<()> {
        match self {
            BgWork::DoubleWake { polls } => {
                let mut count = polls.borrow_mut();
                *count += 1;
                if *count == 1 {
                    let current = cx.current();
                    cx.wake(current);
                    cx.wake(current);
                }
                Async::NotReady
            }
            BgWork::Parked { _tracker } => Async::NotReady,
            BgWork::Recorder { label, log } => {
                log.borrow_mut().push(*label);
                Async::Ready(())
            }
            BgWork::Spawner { label, log } => {
                let spawned = cx.spawn(BgWork::Recorder { label: *label, log: log.clone() });
                assert!(spawned.is_ok());
                Async::Ready(())
            }
        }
    }
}

struct ReadyNow(i32);

impl Pollable<BgWork, i32, Infallible> for ReadyNow {
    fn poll(&mut self, _cx: &mut Context<BgWork>) -> Result<Async<i32>, Infallible> {
        Ok(Async::Ready(self.0))
    }
}

struct SpinForever;

impl Pollable<BgWork, i32, Infallible> for SpinForever {
    fn poll(&mut self, cx: &mut Context<BgWork>) -> Result<Async<i32>, Infallible> {
        let current = cx.current();
        cx.wake(current);
        Ok(Async::NotReady)
    }
}

struct ParkForever;

impl Pollable<BgWork, i32, Infallible> for ParkForever {
    fn poll(&mut self, _cx: &mut Context<BgWork>) -> Result<Async<i32>, Infallible> {
        Ok(Async::NotReady)
    }
}

/// Triggers its own wake on every poll and resolves on the third one, so
/// that a wake entry for it is still queued at the moment it completes.
struct WakeThenDone {
    polls: u32,
}

impl Pollable<BgWork, i32, Infallible> for WakeThenDone {
    fn poll(&mut self, cx: &mut Context<BgWork>) -> Result<Async<i32>, Infallible> {
        self.polls += 1;
        let current = cx.current();
        cx.wake(current);
        if self.polls == 3 {
            Ok(Async::Ready(42))
        } else {
            Ok(Async::NotReady)
        }
    }
}

struct FailNow;

impl Pollable<BgWork, i32, &'static str> for FailNow {
    fn poll(&mut self, _cx: &mut Context<BgWork>) -> Result<Async<i32>, &'static str> {
        Err("boom")
    }
}

#[test]
fn idle_completion() {
    let mut core: Core<BgWork> = Core::new();
    // a fresh executor with nothing to do completes on its first turn
    assert!(matches!(core.turn(), Some(Async::Ready(()))));
}

#[test]
fn wake_twice_polls_once_more() {
    let mut core: Core<BgWork> = Core::new();
    let polls = Rc::new(RefCell::new(0u32));
    assert!(core.spawn(BgWork::DoubleWake { polls: polls.clone() }).is_ok());
    // initial poll: the task triggers its own wake twice
    assert!(matches!(core.turn(), Some(Async::NotReady)));
    // the two triggers coalesced into one entry: exactly one more poll
    assert!(matches!(core.turn(), Some(Async::NotReady)));
    // no entry is left; the parked task keeps the executor from finishing
    assert!(matches!(core.turn(), None));
    assert_eq!(*polls.borrow(), 2);
}

#[test]
fn fifo_poll_order() {
    let mut core: Core<BgWork> = Core::new();
    let log = Rc::new(RefCell::new(Vec::new()));
    assert!(core.spawn(BgWork::Recorder { label: 1, log: log.clone() }).is_ok());
    assert!(core.spawn(BgWork::Recorder { label: 2, log: log.clone() }).is_ok());
    assert!(matches!(core.turn(), Some(Async::NotReady)));
    assert!(matches!(core.turn(), Some(Async::NotReady)));
    // both completed in spawn order; nothing remains
    assert!(matches!(core.turn(), Some(Async::Ready(()))));
    assert_eq!(*log.borrow(), vec![1, 2]);
}

#[test]
fn reentrant_spawn_from_poll() {
    let mut core: Core<BgWork> = Core::new();
    let log = Rc::new(RefCell::new(Vec::new()));
    assert!(core.spawn(BgWork::Spawner { label: 9, log: log.clone() }).is_ok());
    // first turn runs the spawner, whose poll spawns the recorder
    assert!(matches!(core.turn(), Some(Async::NotReady)));
    // second turn runs the recorder spawned from inside the first poll
    assert!(matches!(core.turn(), Some(Async::NotReady)));
    assert!(matches!(core.turn(), Some(Async::Ready(()))));
    assert_eq!(*log.borrow(), vec![9]);
}

#[test]
fn abandoned_run_reuse() {
    let core: Core<BgWork> = Core::new();
    let mut bound = core.run_future(SpinForever);
    // drive the abandoned main task a little so it re-queues itself
    assert!(matches!(bound.turn(), Some(Ok(Async::NotReady))));
    assert!(matches!(bound.turn(), Some(Ok(Async::NotReady))));
    let mut core = bound.into_core();
    // the stale main entry is discarded by a bare turn, not mistaken for
    // an auxiliary task
    assert!(matches!(core.turn(), Some(Async::NotReady)));
    // a fresh run on the same executor is not blocked or double-queued
    let mut bound = core.run_future(ReadyNow(9));
    assert!(matches!(bound.run(1000), Some(Ok(9))));
    let mut core = bound.into_core();
    assert!(matches!(core.run(ReadyNow(10), 1000), Some(Ok(10))));
}

#[test]
fn outlived_background_task() {
    let tracker = Rc::new(RefCell::new(()));
    let mut core: Core<BgWork> = Core::new();
    assert!(core.spawn(BgWork::Parked { _tracker: tracker.clone() }).is_ok());
    // the main task resolves while the background task is still pending
    assert!(matches!(core.run(ReadyNow(5), 1000), Some(Ok(5))));
    assert_eq!(Rc::strong_count(&tracker), 2);
    // tearing the executor down drops the pending task silently
    drop(core);
    assert_eq!(Rc::strong_count(&tracker), 1);
}

#[test]
fn parked_main_is_reported() {
    let mut core: Core<BgWork> = Core::new();
    // the main task parks without arranging any wake: no progress is
    // possible and the run says so instead of spinning
    assert!(matches!(core.run(ParkForever, 1000), None));
}

#[test]
fn main_wake_withdrawn_on_completion() {
    let mut core: Core<BgWork> = Core::new();
    assert!(matches!(core.run(WakeThenDone { polls: 0 }, 1000), Some(Ok(42))));
    // the completed main task left a wake entry behind; it was withdrawn
    // with its ticket, so an idle executor finishes at once
    assert!(matches!(core.turn(), Some(Async::Ready(()))));
}

#[test]
fn main_error_propagates() {
    let mut core: Core<BgWork> = Core::new();
    assert!(matches!(core.run(FailNow, 1000), Some(Err("boom"))));
}

enum OuterWork {
    Nested(Core<BgWork>),
}

impl BackgroundTask<OuterWork> for OuterWork {
    fn poll(&mut self, cx: &mut Context<OuterWork>) -> Async<()> {
        match self {
            OuterWork::Nested(core) => core.poll(cx),
        }
    }
}

#[test]
fn nested_executor() {
    let log = Rc::new(RefCell::new(Vec::new()));
    let mut inner: Core<BgWork> = Core::new();
    assert!(inner.spawn(BgWork::Recorder { label: 4, log: log.clone() }).is_ok());
    let mut outer: Core<OuterWork> = Core::new();
    assert!(outer.spawn(OuterWork::Nested(inner)).is_ok());
    // the outer executor drives the inner one as one of its tasks
    let mut turns = 0;
    loop {
        match outer.turn() {
            Some(Async::Ready(())) => break,
            _ => {
                turns += 1;
                assert!(turns < 100, "nested executor made no progress");
            }
        }
    }
    assert_eq!(*log.borrow(), vec![4]);
}

#[test]
fn embedded_run_future() {
    let inner: Core<BgWork> = Core::new();
    let bound = inner.run_future(ReadyNow(3));
    let mut outer: Core<BgWork> = Core::new();
    // a whole executor-plus-main-task pair runs as the main task of
    // another executor
    assert!(matches!(outer.run(bound, 1000), Some(Ok(3))));
}

#[test]
fn spawn_id_mapping() {
    assert_eq!(SpawnId::main_id().to_queue_index(), 0);
    assert_eq!(SpawnId::main_id().to_aux(), None);
    assert_eq!(SpawnId::aux(0).to_queue_index(), 1);
    assert_eq!(SpawnId::aux(3).to_aux(), Some(3));
    assert_eq!(SpawnId::from_queue_index(5).to_aux(), Some(4));
    assert_eq!(SpawnId::from_queue_index(7).to_queue_index(), 7);
}
