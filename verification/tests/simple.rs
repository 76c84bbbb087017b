use std::cell::RefCell;
use std::collections::VecDeque;
use std::convert::Infallible;
use std::rc::Rc;

use synchrotron::{Async, BackgroundTask, Context, Core, Pollable};

#[derive(Default)]
struct Inbox {
    messages: VecDeque<&'static str>,
    waiting: Vec<usize>,
}

type SharedInbox = Rc<RefCell<Inbox>>;

fn deliver(cx: &mut Context<ExchangeTask>, inbox: &SharedInbox, message: &'static str) {
    let mut inbox = inbox.borrow_mut();
    inbox.messages.push_back(message);
    for index in inbox.waiting.drain(..) {
        cx.wake(index);
    }
}

fn try_receive(cx: &mut Context<ExchangeTask>, inbox: &SharedInbox) -> Option<&'static str> {
    let mut inbox = inbox.borrow_mut();
    match inbox.messages.pop_front() {
        Some(message) => Some(message),
        None => {
            let current = cx.current();
            inbox.waiting.push(current);
            None
        }
    }
}

struct ExchangeTask {
    own_inbox: SharedInbox,
    peer_inbox: SharedInbox,
    step: u32,
}

impl BackgroundTask<ExchangeTask> for ExchangeTask {
    fn poll(&mut self, cx: &mut Context<ExchangeTask>) -> Async<()> {
        loop {
            match self.step {
                0 => match try_receive(cx, &self.own_inbox) {
                    Some(message) => {
                        assert_eq!(message, "hello");
                        deliver(cx, &self.peer_inbox, "hi");
                        self.step = 1;
                    }
                    None => return Async::NotReady,
                },
                1 => match try_receive(cx, &self.own_inbox) {
                    Some(message) => {
                        assert_eq!(message, "goodbye");
                        deliver(cx, &self.peer_inbox, "bye");
                        self.step = 2;
                    }
                    None => return Async::NotReady,
                },
                _ => return Async::Ready(()),
            }
        }
    }
}

struct MainExchange {
    own_inbox: SharedInbox,
    peer_inbox: SharedInbox,
    step: u32,
}

impl Pollable<ExchangeTask, (), Infallible> for MainExchange {
    fn poll(&mut self, cx: &mut Context<ExchangeTask>) -> Result<Async<()>, Infallible> {
        loop {
            match self.step {
                0 => {
                    deliver(cx, &self.peer_inbox, "hello");
                    self.step = 1;
                }
                1 => match try_receive(cx, &self.own_inbox) {
                    Some(message) => {
                        assert_eq!(message, "hi");
                        deliver(cx, &self.peer_inbox, "goodbye");
                        self.step = 2;
                    }
                    None => return Ok(Async::NotReady),
                },
                2 => match try_receive(cx, &self.own_inbox) {
                    Some(message) => {
                        assert_eq!(message, "bye");
                        self.step = 3;
                    }
                    None => return Ok(Async::NotReady),
                },
                _ => return Ok(Async::Ready(())),
            }
        }
    }
}

#[test]
fn main() {
    let main_inbox: SharedInbox = Default::default();
    let aux_inbox: SharedInbox = Default::default();
    let mut core: Core<ExchangeTask> = Core::default();
    let spawned = core.spawn(ExchangeTask {
        own_inbox: aux_inbox.clone(),
        peer_inbox: main_inbox.clone(),
        step: 0,
    });
    assert!(spawned.is_ok());
    let outcome = core.run(
        MainExchange { own_inbox: main_inbox.clone(), peer_inbox: aux_inbox.clone(), step: 0 },
        1000,
    );
    assert!(matches!(outcome, Some(Ok(()))));
}
