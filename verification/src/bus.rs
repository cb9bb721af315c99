//! The process-wide broadcast bus: one logical publisher, many independent
//! receivers. Capacity is bounded; publishing never blocks; a receiver that
//! falls behind the bounded buffer loses the oldest unread items, for that
//! receiver only. A receiver created at publication count `t` is never handed
//! an item published before `t` (no history replay).

use vstd::prelude::*;

use crate::model::UpdateListItem;
use crate::model::UpdateListItemView;

verus! {

/// The bus: a bounded buffer of the most recently published items, together
/// with the (ghost) full publication history that contracts speak of.
pub struct UpdateBus {
    buffer: Vec<UpdateListItem>,
    capacity: usize,
    published: usize,
    history: Ghost<Seq<UpdateListItemView>>,
}

/// One subscription: a cursor into the bus history.
pub struct BusReceiver {
    next: usize,
    created_at: Ghost<int>,
}

impl UpdateBus {
    /// Everything ever published on this bus, in order.
    pub closed spec fn history(&self) -> Seq<UpdateListItemView> {
        self.history@
    }

    /// The bound the bus was created with.
    pub closed spec fn capacity_spec(&self) -> int {
        self.capacity as int
    }

    /// Index of the oldest item the buffer still retains.
    pub closed spec fn oldest_retained(&self) -> int {
        self.history@.len() - self.buffer@.len()
    }

    pub closed spec fn wf(&self) -> bool {
        &&& self.capacity >= 1
        &&& self.published == self.history@.len()
        &&& self.buffer@.len() == if self.history@.len() <= self.capacity {
            self.history@.len() as int
        } else {
            self.capacity as int
        }
        &&& forall|i: int|
            0 <= i < self.buffer@.len() ==> self.buffer@[i]@ == self.history@[self.history@.len()
                - self.buffer@.len() + i]
    }

    /// A fresh bus with the given bound and an empty history.
    pub fn new(capacity: usize) -> (r: UpdateBus)
        requires
            capacity >= 1,
        ensures
            r.wf(),
            r.history() == Seq::<UpdateListItemView>::empty(),
            r.capacity_spec() == capacity,
    {
        UpdateBus { buffer: Vec::new(), capacity, published: 0, history: Ghost(Seq::empty()) }
    }

    /// Publishes an item. This never blocks and never fails: when the buffer
    /// is full the oldest retained item is dropped, which can only affect
    /// receivers that had not read it yet.
    pub fn publish(&mut self, item: UpdateListItem)
        requires
            old(self).wf(),
            old(self).history().len() < usize::MAX,
        ensures
            final(self).wf(),
            final(self).history() == old(self).history().push(item@),
            final(self).capacity_spec() == old(self).capacity_spec(),
    {
        if self.buffer.len() == self.capacity {
            self.buffer.remove(0);
        }
        self.buffer.push(item);
        self.published = self.published + 1;
        proof {
            self.history@ = self.history@.push(item@);
        }
    }

    /// A new subscription. Its cursor starts at the current end of the
    /// history: items already published are never replayed to it.
    pub fn resubscribe(&self) -> (r: BusReceiver)
        requires
            self.wf(),
        ensures
            r.wf(self),
            r.created_at() == self.history().len(),
            r.cursor() == self.history().len(),
    {
        BusReceiver { next: self.published, created_at: Ghost(self.published as int) }
    }

    /// The receiver's next item, or `None` when it has seen everything
    /// published so far. When the receiver lagged behind the buffer, its
    /// cursor jumps forward to the oldest retained item: the skipped items
    /// are lost for this receiver only. The delivered item always comes from
    /// the history at or after both the receiver's cursor and its creation
    /// point — a subscription never receives an item published before it was
    /// created, and items arrive in publication order.
    pub fn recv(&self, rx: &mut BusReceiver) -> (r: Option<UpdateListItem>)
        requires
            self.wf(),
            old(rx).wf(self),
        ensures
            final(rx).wf(self),
            final(rx).created_at() == old(rx).created_at(),
            (r is None) <==> old(rx).cursor() == self.history().len(),
            r is None ==> final(rx).cursor() == old(rx).cursor(),
            r matches Some(item) ==> {
                let j = if old(rx).cursor() >= self.oldest_retained() {
                    old(rx).cursor()
                } else {
                    self.oldest_retained()
                };
                &&& old(rx).created_at() <= j < self.history().len()
                &&& old(rx).cursor() <= j
                &&& item@ == self.history()[j]
                &&& final(rx).cursor() == j + 1
            },
    {
        if rx.next == self.published {
            return Option::None;
        }
        proof {
            assert(rx.next < self.published);
            assert(self.buffer@.len() >= 1);
        }
        let start = self.published - self.buffer.len();
        let j = if rx.next >= start {
            rx.next
        } else {
            start
        };
        proof {
            assert(start <= j < self.published);
            assert(j - start < self.buffer@.len());
        }
        let item = self.buffer[j - start].duplicate();
        rx.next = j + 1;
        Some(item)
    }
}

impl BusReceiver {
    /// The position of the next item this receiver would be handed.
    pub closed spec fn cursor(&self) -> int {
        self.next as int
    }

    /// The bus history length at the moment this subscription was created.
    pub closed spec fn created_at(&self) -> int {
        self.created_at@
    }

    /// A receiver is tied to the bus it was created from: its cursor never
    /// points before its creation point nor past the published history.
    pub open spec fn wf(&self, bus: &UpdateBus) -> bool {
        0 <= self.created_at() <= self.cursor() <= bus.history().len()
    }
}

} // verus!
