use vstd::prelude::*;

verus! {

/// The hand-off between the watcher callback and the notifier: it holds at most
/// one item. A new item replaces one that has not been taken yet, so a burst of
/// changes collapses into the latest one and the producer never waits.
#[derive(Debug)]
pub struct HandOff<T> {
    pub slot: Option<T>,
}

/// How many items a slot holds.
pub open spec fn buffered<T>(slot: Option<T>) -> nat {
    if slot is Some { 1 } else { 0 }
}

/// The slot after putting each of `items` in turn, with no take in between.
pub open spec fn put_all<T>(slot: Option<T>, items: Seq<T>) -> Option<T>
    decreases items.len(),
{
    if items.len() == 0 {
        slot
    } else {
        put_all(Some(items[0]), items.drop_first())
    }
}

/// However many items arrive before the consumer takes one, at most one is
/// buffered, and after at least one it is the latest.
pub proof fn lemma_burst_buffers_at_most_one<T>(slot: Option<T>, items: Seq<T>)
    ensures
        buffered(put_all(slot, items)) <= 1,
        items.len() > 0 ==> put_all(slot, items) == Some(items.last()),
    decreases items.len(),
{
    if items.len() > 0 {
        lemma_burst_buffers_at_most_one(Some(items[0]), items.drop_first());
        if items.len() > 1 {
            assert(items.drop_first().last() == items.last());
        }
    }
}

impl<T> HandOff<T> {
    /// An empty hand-off.
    pub fn new() -> (r: HandOff<T>)
        ensures
            r.slot is None,
    {
        HandOff { slot: None }
    }

    /// Puts `item` in the slot and returns the unread item it displaced.
    pub fn put(&mut self, item: T) -> (displaced: Option<T>)
        ensures
            final(self).slot == Some(item),
            displaced == old(self).slot,
    {
        let displaced = self.slot.take();
        self.slot = Some(item);
        displaced
    }

    /// Takes the buffered item, leaving the slot empty.
    pub fn take(&mut self) -> (r: Option<T>)
        ensures
            r == old(self).slot,
            final(self).slot is None,
    {
        self.slot.take()
    }

    /// The number of buffered items, 0 or 1.
    pub fn len(&self) -> (r: usize)
        ensures
            r == buffered(self.slot),
    {
        if self.slot.is_some() { 1 } else { 0 }
    }
}

} // verus!
