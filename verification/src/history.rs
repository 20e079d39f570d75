use vstd::prelude::*;

verus! {

/// What a bounded history holds after `item` is appended to `items`: the item
/// goes at the back and, when that makes the history longer than `capacity`,
/// the oldest entry leaves.
pub open spec fn bounded_push<T>(items: Seq<T>, item: T, capacity: nat) -> Seq<T> {
    let pushed = items.push(item);
    if pushed.len() > capacity {
        pushed.drop_first()
    } else {
        pushed
    }
}

/// The most recent `capacity` entries of `items` (all of them when there are
/// no more than `capacity`).
pub open spec fn most_recent<T>(items: Seq<T>, capacity: nat) -> Seq<T> {
    if items.len() > capacity {
        items.skip(items.len() - capacity)
    } else {
        items
    }
}

/// What a bounded history holds after each of `items` has been appended in
/// turn, starting from `start`.
pub open spec fn bounded_push_all<T>(start: Seq<T>, items: Seq<T>, capacity: nat) -> Seq<T>
    decreases items.len(),
{
    if items.len() == 0 {
        start
    } else {
        bounded_push(bounded_push_all(start, items.drop_last(), capacity), items.last(), capacity)
    }
}

/// Appends `item` to a history that keeps at most `capacity` entries,
/// dropping the oldest entry when the history grows past its capacity.
pub fn push_bounded<T>(history: &mut Vec<T>, item: T, capacity: usize)
    ensures
        final(history)@ == bounded_push(old(history)@, item, capacity as nat),
{
    history.push(item);
    if history.len() > capacity {
        history.remove(0);
        proof {
            assert(final(history)@ =~= bounded_push(old(history)@, item, capacity as nat)) by {
                assert(history@ =~= old(history)@.push(item).drop_first());
            }
        }
    }
}

/// Appending one entry to the most recent entries of a sequence gives the
/// most recent entries of the longer sequence.
pub proof fn lemma_bounded_push_most_recent<T>(all: Seq<T>, item: T, capacity: nat)
    requires
        capacity > 0,
    ensures
        bounded_push(most_recent(all, capacity), item, capacity) == most_recent(all.push(item), capacity),
{
    assert(bounded_push(most_recent(all, capacity), item, capacity) =~= most_recent(all.push(item), capacity));
}

/// A history that never held more than its capacity keeps exactly the most
/// recent `capacity` of everything ever appended to it, in the order in
/// which it came; in particular it never holds more than its capacity.
pub proof fn lemma_history_keeps_most_recent<T>(start: Seq<T>, items: Seq<T>, capacity: nat)
    requires
        capacity > 0,
        start.len() <= capacity,
    ensures
        bounded_push_all(start, items, capacity) == most_recent(start + items, capacity),
        bounded_push_all(start, items, capacity).len() <= capacity,
    decreases items.len(),
{
    if items.len() == 0 {
        assert(start + items =~= start);
    } else {
        lemma_history_keeps_most_recent(start, items.drop_last(), capacity);
        lemma_bounded_push_most_recent(start + items.drop_last(), items.last(), capacity);
        assert((start + items.drop_last()).push(items.last()) =~= start + items);
    }
}

} // verus!
