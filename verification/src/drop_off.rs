//! A single-threaded one-shot channel.
//!
//! The pair shares one value slot.  The sending half delivers at most one
//! value into it; the receiving half takes it out at most once.  Each half
//! can tell whether the other is gone: a send after the receiving half was
//! dropped hands the value back, and a take after the sending half was
//! dropped without sending reports that no value can come any more.

use vstd::prelude::*;

use core::cell::RefCell;
use std::rc::Rc;

verus! {

#[verifier::external_type_specification]
#[verifier::external_body]
#[verifier::reject_recursive_types(T)]
pub struct ExRefCell<T: ?Sized>(RefCell<T>);

/// Relies on Rc::strong_count: the number of strong handles now sharing
/// the allocation.  Nothing is assumed of the result: it depends on how
/// many handles are alive at the call.
#[verifier::external_body]
fn strong_count<T>(cell: &Rc<RefCell<Option<T>>>) -> usize {
    Rc::strong_count(cell)
}

/// Relies on Rc::clone: a clone is another handle to the same value.
#[verifier::external_body]
fn share<T>(cell: &Rc<RefCell<Option<T>>>) -> (r: Rc<RefCell<Option<T>>>)
    ensures
        r == *cell,
{
    cell.clone()
}

/// Relies on RefCell::new: builds the shared value slot, initially empty.
#[verifier::external_body]
fn cell_new<T>() -> (r: RefCell<Option<T>>) {
    RefCell::new(None)
}

/// Relies on RefCell::replace, reached through the shared handle: swaps
/// the stored value for `value`, yielding what was stored before.
#[verifier::external_body]
fn cell_replace<T>(cell: &Rc<RefCell<Option<T>>>, value: Option<T>) -> (r: Option<T>) {
    cell.replace(value)
}

/// Sending half of the channel.
#[derive(Debug)]
#[verifier::reject_recursive_types(T)]
pub struct Sender<T> {
    cell: Rc<RefCell<Option<T>>>,
}

/// Receiving half of the channel.
#[derive(Debug)]
#[verifier::reject_recursive_types(T)]
pub struct Receiver<T> {
    cell: Rc<RefCell<Option<T>>>,
}

impl<T> Sender<T> {
    /// If the receiving half is still alive, the value is stored for it
    /// and `Ok(())` comes back.  Otherwise the very same value is handed
    /// back as `Err`: it is never silently dropped.
    pub fn send(self, value: T) -> (r: Result<(), T>)
        ensures
            r matches Err(v) ==> v == value,
    {
        if strong_count(&self.cell) == 1 {
            // this half holds the only handle: the receiving half is gone
            Err(value)
        } else {
            let _ = cell_replace(&self.cell, Some(value));
            Ok(())
        }
    }
}

impl<T> Receiver<T> {
    /// If a value has been delivered, take it out and return `Ok`.  If
    /// none has and the sending half still exists, `Err(Some(self))`
    /// comes back so that the take can be retried later.  If none has and
    /// the sending half is gone, `Err(None)` says no value can come any
    /// more.
    pub fn take(self) -> (r: Result<T, Option<Receiver<T>>>)
        ensures
            r matches Err(Some(rx)) ==> rx == self,
    {
        let taken = cell_replace(&self.cell, None);
        match taken {
            Some(value) => Ok(value),
            None => {
                if strong_count(&self.cell) == 1 {
                    // this half holds the only handle: the sending half
                    // is gone, and it never delivered
                    Err(None)
                } else {
                    Err(Some(self))
                }
            },
        }
    }
}

/// True when the two halves share one value slot.
pub closed spec fn connected<T>(sender: Sender<T>, receiver: Receiver<T>) -> bool {
    sender.cell == receiver.cell
}

/// Create a single-threaded one-shot channel.
pub fn new<T>() -> (r: (Sender<T>, Receiver<T>))
    ensures
        connected(r.0, r.1),
{
    let cell: Rc<RefCell<Option<T>>> = Rc::new(cell_new());
    let other = share(&cell);
    (Sender { cell: other }, Receiver { cell })
}

} // verus!
