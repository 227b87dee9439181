//! An ordered list of items with a cursor that marks the current one.

use vstd::prelude::*;

verus! {

/// The mathematical model of a play queue: the items in the order in which
/// they were appended, and the position of the current one.
pub ghost struct QueueView<T> {
    pub items: Seq<T>,
    pub cursor: Option<int>,
}

impl<T> QueueView<T> {
    /// The cursor is undefined exactly while the queue is empty, and otherwise
    /// it is a position in the queue.
    pub open spec fn wf(self) -> bool {
        match self.cursor {
            Some(i) => 0 <= i < self.items.len(),
            None => self.items.len() == 0,
        }
    }

    /// The queue without items.
    pub open spec fn empty() -> Self {
        QueueView { items: Seq::empty(), cursor: None }
    }

    /// The item under the cursor, if there is one.
    pub open spec fn current(self) -> Option<T> {
        match self.cursor {
            Some(i) => Some(self.items[i]),
            None => None,
        }
    }

    /// The queue with `item` added at its end. The first item of a queue
    /// becomes its current one; a cursor that is defined does not move.
    pub open spec fn append(self, item: T) -> Self {
        QueueView {
            items: self.items.push(item),
            cursor: match self.cursor {
                Some(i) => Some(i),
                None => Some(0),
            },
        }
    }

    /// The queue after all of `items` were appended, first to last.
    pub open spec fn append_all(self, items: Seq<T>) -> Self
        decreases items.len(),
    {
        if items.len() == 0 {
            self
        } else {
            self.append_all(items.drop_last()).append(items.last())
        }
    }

    /// Whether an item follows the current one.
    pub open spec fn has_next(self) -> bool {
        match self.cursor {
            Some(i) => i + 1 < self.items.len(),
            None => false,
        }
    }

    /// Whether an item precedes the current one.
    pub open spec fn has_previous(self) -> bool {
        match self.cursor {
            Some(i) => i > 0,
            None => false,
        }
    }

    /// The queue after a step forward: the cursor moves on by one where an
    /// item follows, and stays where it is otherwise.
    pub open spec fn next(self) -> Self {
        if self.has_next() {
            QueueView { items: self.items, cursor: Some(self.cursor->0 + 1) }
        } else {
            self
        }
    }

    /// What a step forward reports: the new current item where an item
    /// follows, nothing otherwise.
    pub open spec fn next_item(self) -> Option<T> {
        if self.has_next() {
            self.next().current()
        } else {
            None
        }
    }

    /// The queue after `n` steps forward.
    pub open spec fn next_times(self, n: nat) -> Self
        decreases n,
    {
        if n == 0 {
            self
        } else {
            self.next_times((n - 1) as nat).next()
        }
    }

    /// The queue after a step back: the cursor moves back by one where an
    /// item precedes, and stays on the first item otherwise.
    pub open spec fn previous(self) -> Self {
        if self.has_previous() {
            QueueView { items: self.items, cursor: Some(self.cursor->0 - 1) }
        } else {
            self
        }
    }

    /// The queue with the cursor back on the first item.
    pub open spec fn reset(self) -> Self {
        QueueView {
            items: self.items,
            cursor: if self.items.len() > 0 {
                Some(0)
            } else {
                None
            },
        }
    }
}

/// The value that an optional reference stands for.
pub open spec fn referent<T>(r: Option<&T>) -> Option<T> {
    match r {
        Some(item) => Some(*item),
        None => None,
    }
}

/// An ordered, navigable list of items with a single cursor.
///
/// The cursor is undefined exactly while the queue is empty. The first item
/// appended becomes the current one; after that only `next`, `previous` and
/// `reset` move the cursor.
#[derive(Debug)]
pub struct PlayQueue<T> {
    items: Vec<T>,
    cursor: usize,
}

impl<T> View for PlayQueue<T> {
    type V = QueueView<T>;

    closed spec fn view(&self) -> QueueView<T> {
        QueueView {
            items: self.items@,
            cursor: if self.cursor < self.items.len() {
                Some(self.cursor as int)
            } else {
                None
            },
        }
    }
}

impl<T: Clone> Clone for PlayQueue<T> {
    /// A queue of clones of the items, in their order, with the cursor at
    /// the same position.
    fn clone(&self) -> (q: Self)
        ensures
            q@.wf(),
            q@.cursor == self@.cursor,
            q@.items.len() == self@.items.len(),
            forall|i: int|
                0 <= i < self@.items.len() ==> cloned::<T>(
                    #[trigger] self@.items[i],
                    q@.items[i],
                ),
    {
        proof {
            use_type_invariant(self);
        }
        PlayQueue { items: self.items.clone(), cursor: self.cursor }
    }
}

impl<T> PlayQueue<T> {
    #[verifier::type_invariant]
    spec fn inv(self) -> bool {
        self.cursor < self.items.len() || (self.items.len() == 0 && self.cursor == 0)
    }

    /// An empty queue, with an undefined cursor.
    pub fn new() -> (q: Self)
        ensures
            q@ == QueueView::<T>::empty(),
    {
        PlayQueue { items: Vec::new(), cursor: 0 }
    }

    /// The number of items in the queue.
    pub fn len(&self) -> (n: usize)
        ensures
            n == self@.items.len(),
    {
        self.items.len()
    }

    /// Adds `item` at the end of the queue. The order of the items already
    /// there is kept, and a cursor that is defined does not move.
    pub fn append(&mut self, item: T)
        ensures
            final(self)@ == old(self)@.append(item),
            final(self)@.wf(),
    {
        proof {
            use_type_invariant(&*self);
        }
        // The items leave the queue while they grow, so that the queue is
        // well formed at every step.
        let cursor: usize = self.cursor;
        let mut items: Vec<T> = Vec::new();
        self.cursor = 0;
        core::mem::swap(&mut self.items, &mut items);
        items.push(item);
        self.items = items;
        self.cursor = cursor;
    }

    /// The item under the cursor, or `None` while the queue is empty.
    pub fn current(&self) -> (r: Option<&T>)
        ensures
            self@.wf(),
            referent(r) == self@.current(),
    {
        proof {
            use_type_invariant(self);
        }
        if self.cursor < self.items.len() {
            Some(&self.items[self.cursor])
        } else {
            None
        }
    }

    /// Moves the cursor on by one where an item follows the current one, and
    /// returns the new current item. Otherwise the cursor stays where it is,
    /// on the last item or undefined, and the result is `None`.
    pub fn next(&mut self) -> (r: Option<&T>)
        ensures
            final(self)@ == old(self)@.next(),
            final(self)@.wf(),
            referent(r) == old(self)@.next_item(),
    {
        proof {
            use_type_invariant(&*self);
        }
        if self.cursor + 1 < self.items.len() {
            self.cursor = self.cursor + 1;
            Some(&self.items[self.cursor])
        } else {
            None
        }
    }

    /// Moves the cursor back by one where an item precedes the current one.
    /// On the first item the cursor stays. Returns the item that is current
    /// afterwards: `None` only while the queue is empty.
    pub fn previous(&mut self) -> (r: Option<&T>)
        ensures
            final(self)@ == old(self)@.previous(),
            final(self)@.wf(),
            referent(r) == final(self)@.current(),
    {
        proof {
            use_type_invariant(&*self);
        }
        if self.cursor > 0 {
            self.cursor = self.cursor - 1;
        }
        if self.cursor < self.items.len() {
            Some(&self.items[self.cursor])
        } else {
            None
        }
    }

    /// Puts the cursor back on the first item. The items are unchanged.
    pub fn reset(&mut self)
        ensures
            final(self)@ == old(self)@.reset(),
            final(self)@.wf(),
    {
        proof {
            use_type_invariant(&*self);
        }
        self.cursor = 0;
    }
}

/// Every operation of the queue keeps it well formed: the cursor stays
/// undefined on an empty queue and a position in it otherwise.
pub proof fn operations_keep_wf<T>(q: QueueView<T>, item: T)
    requires
        q.wf(),
    ensures
        QueueView::<T>::empty().wf(),
        q.append(item).wf(),
        q.next().wf(),
        q.previous().wf(),
        q.reset().wf(),
{
}

/// Appending any items to a well-formed queue adds them at its end in their
/// order and leaves a defined cursor where it was; on an empty queue the
/// cursor comes to stand on the first of them.
pub proof fn append_all_keeps_cursor<T>(q: QueueView<T>, items: Seq<T>)
    requires
        q.wf(),
    ensures
        q.append_all(items).wf(),
        q.append_all(items).items == q.items + items,
        q.append_all(items).cursor == if q.cursor is Some || items.len() == 0 {
            q.cursor
        } else {
            Some(0int)
        },
    decreases items.len(),
{
    if items.len() == 0 {
        assert(q.items + items =~= q.items);
    } else {
        append_all_keeps_cursor(q, items.drop_last());
        assert(q.items + items =~= (q.items + items.drop_last()).push(items.last()));
    }
}

/// A fresh queue has no current item. Once items were appended to it, in any
/// number, its current item is the first of them.
pub proof fn fresh_queue_starts_at_first<T>(items: Seq<T>)
    ensures
        QueueView::<T>::empty().current() is None,
        QueueView::<T>::empty().append_all(items).items == items,
        QueueView::<T>::empty().append_all(items).current() == if items.len() == 0 {
            None
        } else {
            Some(items[0])
        },
{
    append_all_keeps_cursor(QueueView::<T>::empty(), items);
    assert(Seq::<T>::empty() + items =~= items);
}

/// From the first item, `k` steps forward lead to the item at position `k`,
/// as long as that is a position in the queue.
pub proof fn next_times_reaches<T>(q: QueueView<T>, k: nat)
    requires
        q.wf(),
        q.cursor == Some(0int),
        k < q.items.len(),
    ensures
        q.next_times(k) == (QueueView { items: q.items, cursor: Some(k as int) }),
    decreases k,
{
    if k > 0 {
        next_times_reaches(q, (k - 1) as nat);
    }
}

/// On a queue of `n` items with the cursor on the first, each of the first
/// `n - 1` steps forward returns the item that follows, the `n`-th returns
/// nothing, and the cursor then still stands on the last item.
pub proof fn next_stops_at_last<T>(q: QueueView<T>, n: nat)
    requires
        q.wf(),
        q.cursor == Some(0int),
        n == q.items.len(),
    ensures
        forall|k: nat|
            1 <= k < n ==> (#[trigger] q.next_times((k - 1) as nat)).next_item() == Some(
                q.items[k as int],
            ),
        q.next_times((n - 1) as nat).next_item() is None,
        q.next_times(n) == q.next_times((n - 1) as nat),
        q.next_times(n).current() == Some(q.items.last()),
{
    assert forall|k: nat| 1 <= k < n implies (#[trigger] q.next_times(
        (k - 1) as nat,
    )).next_item() == Some(q.items[k as int]) by {
        next_times_reaches(q, (k - 1) as nat);
    }
    next_times_reaches(q, (n - 1) as nat);
}

/// A step back from the first item leaves the cursor on it: the first item
/// is current again, not the last one and not nothing.
pub proof fn previous_at_first_stays<T>(q: QueueView<T>)
    requires
        q.wf(),
        q.cursor == Some(0int),
    ensures
        q.previous() == q,
        q.previous().current() == Some(q.items[0]),
{
}

/// Wherever the cursor of a queue with items stands, a reset makes the first
/// item the current one, and changes no item.
pub proof fn reset_returns_to_first<T>(q: QueueView<T>)
    requires
        q.wf(),
        q.items.len() > 0,
    ensures
        q.reset().items == q.items,
        q.reset().current() == Some(q.items[0]),
{
}

/// On an empty queue every move leaves the queue as it is and yields nothing.
pub proof fn empty_queue_is_inert<T>(q: QueueView<T>)
    requires
        q.wf(),
        q.items.len() == 0,
    ensures
        q.current() is None,
        q.next() == q,
        q.next_item() is None,
        q.previous() == q,
        q.reset() == q,
{
}

} // verus!
