//! Slot-reusing storage for auxiliary tasks.
//!
//! Indices are stable for the lifetime of a slot occupancy and are recycled
//! after a slot is freed, lowest vacant slot first.

use vstd::prelude::*;

verus! {

/// One slot of the task store.
pub enum Slot<A> {
    /// Nothing here; a later insert may reuse the slot.
    Vacant,
    /// A task lives here but is temporarily out while it is being polled,
    /// so that it cannot reach its own slot from inside its poll.
    Reserved,
    /// A stored task.
    Occupied(A),
}

/// True when every slot of `s` is vacant, that is, no auxiliary task
/// remains, not even one that is temporarily out for polling.
pub open spec fn all_vacant<A>(s: Seq<Slot<A>>) -> bool {
    forall|j: int| 0 <= j < s.len() ==> s[j] is Vacant
}

/// True when a later insert would find a usable slot: a vacant one to
/// reuse, or room for a fresh slot at the end.
pub open spec fn store_room<A>(s: Seq<Slot<A>>) -> bool {
    s.len() < usize::MAX - 1 || exists|j: int|
        0 <= j < s.len() && j < usize::MAX - 1 && s[j] is Vacant
}

/// The task store: a flat arena of slots addressed by index.
pub struct Store<A> {
    slots: Vec<Slot<A>>,
}

impl<A> View for Store<A> {
    type V = Seq<Slot<A>>;

    closed spec fn view(&self) -> Seq<Slot<A>> {
        self.slots@
    }
}

impl<A> Store<A> {
    /// A store with no slots at all.
    pub fn empty() -> (r: Store<A>)
        ensures
            r@ =~= Seq::<Slot<A>>::empty(),
    {
        Store { slots: Vec::new() }
    }

    /// Put `task` into the lowest vacant slot, or into a fresh slot at the
    /// end when none is vacant.  The task is handed back when the index
    /// space is exhausted.
    pub fn insert(&mut self, task: A) -> (r: Result<usize, A>)
        ensures
            match r {
                Ok(i) => {
                    &&& i < usize::MAX - 1
                    &&& forall|j: int| 0 <= j < i ==> !(old(self)@[j] is Vacant)
                    &&& if i < old(self)@.len() {
                        old(self)@[i as int] is Vacant
                            && final(self)@ =~= old(self)@.update(i as int, Slot::Occupied(task))
                    } else {
                        i == old(self)@.len()
                            && final(self)@ =~= old(self)@.push(Slot::Occupied(task))
                    }
                },
                Err(t) => {
                    &&& t == task
                    &&& final(self)@ =~= old(self)@
                    &&& old(self)@.len() >= usize::MAX - 1
                    &&& forall|j: int|
                        0 <= j < old(self)@.len() && j < usize::MAX - 1 ==> !(old(self)@[j]
                            is Vacant)
                },
            },
    {
        let n = self.slots.len();
        let limit = if n < usize::MAX - 1 {
            n
        } else {
            usize::MAX - 1
        };
        let mut i: usize = 0;
        while i < limit
            invariant
                n == self.slots.len(),
                limit <= n,
                limit <= usize::MAX - 1,
                i <= limit,
                self.slots@ == old(self)@,
                forall|j: int| 0 <= j < i ==> !(self.slots@[j] is Vacant),
            decreases limit - i,
        {
            let vacant = match &self.slots[i] {
                Slot::Vacant => true,
                _ => false,
            };
            if vacant {
                self.slots[i] = Slot::Occupied(task);
                return Ok(i);
            }
            i = i + 1;
        }
        if n < usize::MAX - 1 {
            self.slots.push(Slot::Occupied(task));
            Ok(n)
        } else {
            Err(task)
        }
    }

    /// Take the task at slot `i` out for polling, leaving the slot
    /// reserved.  Yields nothing when the slot holds no task.
    pub fn take_for_poll(&mut self, i: usize) -> (r: Option<A>)
        ensures
            match r {
                Some(t) => {
                    &&& i < old(self)@.len()
                    &&& old(self)@[i as int] == Slot::Occupied(t)
                    &&& final(self)@ =~= old(self)@.update(i as int, Slot::<A>::Reserved)
                },
                None => {
                    &&& final(self)@ =~= old(self)@
                    &&& (i < old(self)@.len() ==> !(old(self)@[i as int] is Occupied))
                },
            },
    {
        if i >= self.slots.len() {
            return None;
        }
        let occupied = match &self.slots[i] {
            Slot::Occupied(_) => true,
            _ => false,
        };
        if occupied {
            let mut taken = Slot::Reserved;
            self.slots.set_and_swap(i, &mut taken);
            match taken {
                Slot::Occupied(t) => Some(t),
                _ => None,
            }
        } else {
            None
        }
    }

    /// Put a task back into slot `i` after a poll that did not finish it.
    pub fn restore(&mut self, i: usize, task: A)
        ensures
            i < old(self)@.len() ==> final(self)@ =~= old(self)@.update(
                i as int,
                Slot::Occupied(task),
            ),
            i >= old(self)@.len() ==> final(self)@ =~= old(self)@,
    {
        if i < self.slots.len() {
            self.slots[i] = Slot::Occupied(task);
        }
    }

    /// Free slot `i` permanently; a later insert may reuse it.
    pub fn free(&mut self, i: usize)
        ensures
            i < old(self)@.len() ==> final(self)@ =~= old(self)@.update(
                i as int,
                Slot::<A>::Vacant,
            ),
            i >= old(self)@.len() ==> final(self)@ =~= old(self)@,
    {
        if i < self.slots.len() {
            self.slots[i] = Slot::Vacant;
        }
    }

    /// True when an insert now would succeed.
    pub fn has_room(&self) -> (r: bool)
        ensures
            r == store_room(self@),
    {
        let n = self.slots.len();
        if n < usize::MAX - 1 {
            return true;
        }
        let mut i: usize = 0;
        while i < usize::MAX - 1
            invariant
                n == self.slots.len(),
                n >= usize::MAX - 1,
                i <= usize::MAX - 1,
                forall|j: int| 0 <= j < i ==> !(self.slots@[j] is Vacant),
            decreases usize::MAX - 1 - i,
        {
            let vacant = match &self.slots[i] {
                Slot::Vacant => true,
                _ => false,
            };
            if vacant {
                proof {
                    assert(0 <= i < self@.len() && i < usize::MAX - 1 && self@[i as int]
                        is Vacant);
                }
                return true;
            }
            i = i + 1;
        }
        false
    }

    /// True when no auxiliary task remains in the store.
    pub fn is_empty(&self) -> (r: bool)
        ensures
            r == all_vacant(self@),
    {
        let n = self.slots.len();
        let mut i: usize = 0;
        while i < n
            invariant
                n == self.slots.len(),
                i <= n,
                forall|j: int| 0 <= j < i ==> self.slots@[j] is Vacant,
            decreases n - i,
        {
            let vacant = match &self.slots[i] {
                Slot::Vacant => true,
                _ => false,
            };
            if !vacant {
                return false;
            }
            i = i + 1;
        }
        true
    }
}

} // verus!
