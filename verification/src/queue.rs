//! A queue that starts as a stack and can be switched to first-in-first-out order.
use vstd::prelude::*;

verus! {

/// What a pop on a queue whose items, oldest first, are `items` gives back and
/// leaves: in circle mode the oldest item leaves first, otherwise the newest.
pub open spec fn spec_pop<T>(circle: bool, items: Seq<T>) -> (Option<T>, Seq<T>) {
    if items.len() == 0 {
        (None, items)
    } else if circle {
        (Some(items[0]), items.drop_first())
    } else {
        (Some(items.last()), items.drop_last())
    }
}

/// The items that popping until the queue is empty gives back, in order.
pub open spec fn spec_drain<T>(circle: bool, items: Seq<T>) -> Seq<T>
    decreases items.len(),
{
    if items.len() == 0 {
        Seq::empty()
    } else {
        seq![spec_pop(circle, items).0.unwrap()] + spec_drain(circle, spec_pop(circle, items).1)
    }
}

/// In stack mode the item pushed last is the one popped next, and popping it
/// gives back the queue as it was before the push.
pub proof fn law_stack_push_pop<T>(items: Seq<T>, x: T)
    ensures
        spec_pop(false, items.push(x)) == (Some(x), items),
{
    assert(items.push(x).drop_last() =~= items);
}

/// In circle mode a push never changes which item is popped next, and into
/// an empty queue the pushed item is the one popped next.
pub proof fn law_circle_push_keeps_front<T>(items: Seq<T>, x: T)
    ensures
        items.len() > 0 ==> spec_pop(true, items.push(x)).0 == spec_pop(true, items).0,
        items.len() == 0 ==> spec_pop(true, items.push(x)) == (Some(x), items),
{
    if items.len() == 0 {
        assert(items.push(x).drop_first() =~= items);
    }
}

/// Popping a circle-mode queue until it is empty gives its items back in
/// the order they were pushed; in stack mode, in the reverse order.
pub proof fn law_drain_order<T>(items: Seq<T>)
    ensures
        spec_drain(true, items) == items,
        spec_drain(false, items) == items.reverse(),
    decreases items.len(),
{
    if items.len() > 0 {
        law_drain_order(items.drop_first());
        law_drain_order(items.drop_last());
        assert(spec_drain(true, items) =~= items);
        assert(items.reverse() =~= seq![items.last()] + items.drop_last().reverse());
        assert(spec_drain(false, items) =~= items.reverse());
    }
}

/// A pop on an empty queue gives nothing back and changes nothing.
pub proof fn law_pop_empty<T>(circle: bool)
    ensures
        spec_pop(circle, Seq::<T>::empty()) == (None::<T>, Seq::<T>::empty()),
{
}

/// Items are pushed onto `newer`; in circle mode `older` holds, newest first,
/// the items that were moved over to be popped in arrival order.
#[derive(Debug)]
pub struct Queue<T> {
    older: Vec<T>,
    newer: Vec<T>,
    is_circle: bool,
}

impl<T> Queue<T> {
    /// The items not yet moved over for popping are never more than the
    /// items the queue holds.
    pub proof fn law_pending_within_held(&self)
        ensures
            self.pending_len() <= self.view().len(),
    {
    }

    /// The items in the queue, oldest first.
    pub closed spec fn view(&self) -> Seq<T> {
        self.older@.reverse() + self.newer@
    }

    /// Whether the queue pops in arrival order.
    pub closed spec fn circle(&self) -> bool {
        self.is_circle
    }

    /// The number of pushed items that have not yet been moved over for popping.
    pub closed spec fn pending_len(&self) -> nat {
        self.newer@.len()
    }

    /// Only a queue in circle mode ever moves items over.
    pub closed spec fn wf(&self) -> bool {
        !self.is_circle ==> self.older@.len() == 0
    }

    pub fn new() -> (q: Queue<T>)
        ensures
            q.wf(),
            q.view() == Seq::<T>::empty(),
            !q.circle(),
            q.pending_len() == 0,
    {
        let q = Self { newer: Vec::new(), older: Vec::new(), is_circle: false };
        assert(q.view() =~= Seq::<T>::empty());
        q
    }

    pub fn enable_circle(&mut self)
        requires
            old(self).wf(),
        ensures
            final(self).wf(),
            final(self).circle(),
            final(self).view() == old(self).view(),
            final(self).pending_len() == old(self).pending_len(),
    {
        self.is_circle = true;
    }

    pub fn push(&mut self, c: T)
        requires
            old(self).wf(),
        ensures
            final(self).wf(),
            final(self).circle() == old(self).circle(),
            final(self).view() == old(self).view().push(c),
            final(self).pending_len() == old(self).pending_len() + 1,
    {
        self.newer.push(c);
        proof {
            assert(self.view() =~= old(self).view().push(c));
        }
    }

    /// Moves every pending item over, so that `older` holds all items newest first.
    fn stage_all(&mut self)
        requires
            old(self).wf(),
            old(self).is_circle,
            old(self).older@.len() == 0,
        ensures
            final(self).wf(),
            final(self).is_circle,
            final(self).view() == old(self).view(),
            final(self).newer@.len() == 0,
            final(self).older@.len() == old(self).newer@.len(),
    {
        let ghost items = self.newer@;
        proof {
            assert(old(self).view() =~= items);
        }
        while self.newer.len() > 0
            invariant
                self.is_circle,
                self.newer@.len() <= items.len(),
                self.newer@ == items.subrange(0, self.newer@.len() as int),
                self.older@.reverse() == items.subrange(self.newer@.len() as int, items.len() as int),
            decreases self.newer@.len(),
        {
            let ghost pre_older = self.older@;
            let ghost pre_newer = self.newer@;
            let x = self.newer.pop().unwrap();
            self.older.push(x);
            proof {
                let k = self.newer@.len() as int;
                assert(pre_newer == self.newer@.push(x));
                assert(x == items[k]);
                assert(self.older@.reverse() =~= seq![x] + pre_older.reverse());
                assert(self.newer@ =~= items.subrange(0, k));
                assert(self.older@.reverse() =~= items.subrange(k, items.len() as int));
            }
        }
        proof {
            assert(self.newer@ =~= Seq::<T>::empty());
            assert(self.older@.reverse() =~= items);
            assert(self.view() =~= items);
        }
    }

    pub fn pop(&mut self) -> (res: Option<T>)
        requires
            old(self).wf(),
        ensures
            final(self).wf(),
            final(self).circle() == old(self).circle(),
            (res, final(self).view()) == spec_pop(old(self).circle(), old(self).view()),
            !old(self).circle() ==> final(self).pending_len() == final(self).view().len(),
    {
        if self.is_circle {
            if self.older.len() == 0 {
                if self.newer.len() == 0 {
                    proof {
                        assert(self.view() =~= Seq::<T>::empty());
                    }
                    return None;
                }
                self.stage_all();
            }
            let ghost pre_older = self.older@;
            let ghost pre_view = self.view();
            let x = self.older.pop();
            proof {
                let o = self.older@;
                assert(pre_older == o.push(x.unwrap()));
                assert(pre_older.reverse() =~= seq![x.unwrap()] + o.reverse());
                assert(pre_view[0] == x.unwrap());
                assert(self.view() =~= pre_view.drop_first());
            }
            return x;
        }
        let ghost pre_view = self.view();
        let x = self.newer.pop();
        proof {
            assert(self.older@.reverse() =~= Seq::<T>::empty());
            assert(pre_view =~= old(self).newer@);
            assert(self.view() =~= self.newer@);
            if pre_view.len() == 0 {
                assert(self.newer@ =~= pre_view);
            }
        }
        x
    }

    pub fn is_empty(&self) -> (res: bool)
        requires
            self.wf(),
        ensures
            res == (self.view().len() == 0),
    {
        if self.is_circle {
            self.older.len() == 0 && self.newer.len() == 0
        } else {
            self.newer.len() == 0
        }
    }

    /// The number of pushed items not yet moved over for popping: never more
    /// than the items held, and in stack mode every item.
    pub fn len(&mut self) -> (res: usize)
        requires
            old(self).wf(),
        ensures
            *final(self) == *old(self),
            res == old(self).pending_len(),
            res <= old(self).view().len(),
            !old(self).circle() ==> res == old(self).view().len(),
    {
        self.newer.len()
    }
}

} // verus!
