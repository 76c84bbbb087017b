//! The ready queue: a first-in-first-out sequence of queue indices with set
//! semantics, kept in an `index_queue::IndexQueue`.
//!
//! An index that is already queued is not queued a second time, so any
//! number of wake triggers between two polls coalesce into one entry.  The
//! queue never holds an entry twice: the structure links each index from a
//! slot of its own, so a duplicate cannot even be represented, and every
//! operation below states that shape of its outcome.

use vstd::prelude::*;

verus! {

#[verifier::external_type_specification]
#[verifier::external_body]
pub struct ExIndexQueue(index_queue::IndexQueue);

/// The entries of the queue, front first.
pub uninterp spec fn queue_entries(q: index_queue::IndexQueue) -> Seq<usize>;

/// True when no entry occurs twice: the queue's standing shape.
pub open spec fn no_duplicates(q: Seq<usize>) -> bool {
    forall|i: int, j: int| 0 <= i < j < q.len() ==> q[i] != q[j]
}

/// What inserting `index` leaves behind: the entry is appended at the back
/// unless it is already queued, in which case nothing changes.
pub open spec fn enqueued(q: Seq<usize>, index: usize) -> Seq<usize> {
    if q.contains(index) {
        q
    } else {
        q.push(index)
    }
}

/// The entries of `q` with every entry equal to `index` taken out.
pub open spec fn without(q: Seq<usize>, index: usize) -> Seq<usize> {
    q.filter(|x: usize| x != index)
}

/// Relies on IndexQueue::default: a freshly built queue has no entries.
#[verifier::external_body]
pub(crate) fn queue_new() -> (r: index_queue::IndexQueue)
    ensures
        queue_entries(r) == Seq::<usize>::empty(),
{
    index_queue::IndexQueue::default()
}

/// Relies on IndexQueue::push_back: appends `index` unless it is already
/// queued, and reports whether it was newly added.  `usize::MAX` is the
/// queue's internal sentinel for an empty link and may not be an entry.
/// The outcome holds each entry once, as every queue does.
#[verifier::external_body]
pub(crate) fn queue_push_back(q: &mut index_queue::IndexQueue, index: usize) -> (r: bool)
    requires
        index != usize::MAX,
    ensures
        queue_entries(*final(q)) == enqueued(queue_entries(*old(q)), index),
        r == !queue_entries(*old(q)).contains(index),
        no_duplicates(queue_entries(*final(q))),
{
    q.push_back(index)
}

/// Relies on IndexQueue::pop_front: takes the front entry out and yields
/// it, or yields nothing when the queue is empty.  The outcome holds each
/// entry once, as every queue does.
#[verifier::external_body]
pub(crate) fn queue_pop_front(q: &mut index_queue::IndexQueue) -> (r: Option<usize>)
    ensures
        match r {
            None => queue_entries(*old(q)).len() == 0 && queue_entries(*final(q)) == queue_entries(
                *old(q),
            ),
            Some(index) => queue_entries(*old(q)).len() > 0 && index == queue_entries(*old(q))[0]
                && queue_entries(*final(q)) == queue_entries(*old(q)).drop_first(),
        },
        no_duplicates(queue_entries(*final(q))),
{
    q.pop_front()
}

/// Relies on IndexQueue::remove: unlinks `index` if it is queued, keeping
/// the remaining entries in order, and reports whether it was there.  The
/// outcome holds each entry once, as every queue does.
#[verifier::external_body]
pub(crate) fn queue_remove(q: &mut index_queue::IndexQueue, index: usize) -> (r: bool)
    ensures
        queue_entries(*final(q)) == without(queue_entries(*old(q)), index),
        r == queue_entries(*old(q)).contains(index),
        no_duplicates(queue_entries(*final(q))),
{
    q.remove(index)
}

/// An entry that was taken out is gone entirely.
pub proof fn lemma_without_not_contains(q: Seq<usize>, index: usize)
    ensures
        !without(q, index).contains(index),
    decreases q.len(),
{
    reveal(Seq::filter);
    if q.len() != 0 {
        lemma_without_not_contains(q.drop_last(), index);
        assert(q.drop_last().push(q.last()) == q);
        if q.last() != index {
            assert forall|i: int| 0 <= i < without(q, index).len() implies without(q, index)[i]
                != index by {
                if i < without(q.drop_last(), index).len() {
                    assert(without(q.drop_last(), index).contains(without(q.drop_last(), index)[i]));
                }
            }
        }
    }
}

/// An entry that was just inserted is queued.
pub proof fn lemma_enqueued_contains(q: Seq<usize>, index: usize)
    ensures
        enqueued(q, index).contains(index),
{
    if !q.contains(index) {
        assert(enqueued(q, index)[q.len() as int] == index);
    }
}

/// Law: triggering a task's wake twice before the task is next polled
/// leaves exactly one queued entry for it, so at least one later poll is
/// owed to it and at most one is queued.  The hypothesis is the queue's
/// standing shape, which the operations above maintain.
pub proof fn lemma_trigger_coalesces(q: Seq<usize>, index: usize)
    requires
        index != usize::MAX,
        no_duplicates(q),
    ensures
        enqueued(enqueued(q, index), index) == enqueued(q, index),
        enqueued(q, index).contains(index),
        no_duplicates(enqueued(q, index)),
{
    lemma_enqueued_contains(q, index);
    if q.contains(index) {
        assert(enqueued(q, index) == q);
    } else {
        let q1 = q.push(index);
        assert(q1[q.len() as int] == index);
        assert(enqueued(q, index) == q1);
        assert forall|i: int, j: int| 0 <= i < j < q1.len() implies q1[i] != q1[j] by {
            if j == q.len() as int {
                assert(!q.contains(q[i]) == false);
            }
        }
    }
}

} // verus!
