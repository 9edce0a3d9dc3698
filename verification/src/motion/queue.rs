//! Bounded FIFO of motion segments between the planner and the step
//! generator.
//!
//! The queue holds segments after kinematics; the look-ahead planner
//! revisits every queued segment on each insertion (through [`MotionQueue::get`]
//! and [`MotionQueue::replace`]), the step generator takes them from the
//! front.
use std::collections::VecDeque;
use vstd::prelude::*;

verus! {

/// Queue of segments with a fixed capacity (`planner_queue_depth` of the
/// motion configuration).
pub struct MotionQueue<T> {
    segments: VecDeque<T>,
    capacity: usize,
}

impl<T> MotionQueue<T> {
    /// Queued segments, oldest first.
    pub closed spec fn items(self) -> Seq<T> {
        self.segments@
    }

    /// Configured capacity.
    pub closed spec fn spec_capacity(self) -> nat {
        self.capacity as nat
    }

    /// The queue never holds more segments than its capacity.
    pub open spec fn within_capacity(self) -> bool {
        self.items().len() <= self.spec_capacity()
    }

    /// An empty queue of the given capacity.
    pub fn new(capacity: usize) -> (q: Self)
        ensures
            q.within_capacity(),
            q.items() == Seq::<T>::empty(),
            q.spec_capacity() == capacity,
    {
        MotionQueue { segments: VecDeque::with_capacity(capacity), capacity }
    }

    /// Appends `segment` at the back; returns `false` and leaves the queue
    /// unchanged when it is full (the caller retries later without
    /// blocking the rest of the firmware).
    pub fn push(&mut self, segment: T) -> (accepted: bool)
        ensures
            accepted == (old(self).items().len() < old(self).spec_capacity()),
            accepted ==> final(self).items() == old(self).items().push(segment),
            !accepted ==> final(self).items() == old(self).items(),
            final(self).spec_capacity() == old(self).spec_capacity(),
            old(self).within_capacity() ==> final(self).within_capacity(),
    {
        if self.segments.len() >= self.capacity {
            return false;
        }
        self.segments.push_back(segment);
        true
    }

    /// Removes and returns the oldest segment (next to execute).
    pub fn pop_front(&mut self) -> (r: Option<T>)
        ensures
            old(self).items().len() == 0 ==> r is None && final(self).items() == old(self).items(),
            old(self).items().len() > 0 ==> r == Some(old(self).items()[0]) && final(self).items()
                == old(self).items().drop_first(),
            final(self).spec_capacity() == old(self).spec_capacity(),
            old(self).within_capacity() ==> final(self).within_capacity(),
    {
        let r = self.segments.pop_front();
        proof {
            if old(self).items().len() > 0 {
                assert(self.segments@ =~= old(self).items().drop_first());
            }
        }
        r
    }

    /// `true` iff no segment is queued.
    pub fn is_empty(&self) -> (b: bool)
        ensures
            b == (self.items().len() == 0),
    {
        self.segments.len() == 0
    }

    /// `true` iff the queue holds as many segments as its capacity.
    pub fn is_full(&self) -> (b: bool)
        ensures
            b == (self.items().len() >= self.spec_capacity()),
    {
        self.segments.len() >= self.capacity
    }

    /// Number of queued segments.
    pub fn len(&self) -> (n: usize)
        ensures
            n == self.items().len(),
    {
        self.segments.len()
    }

    /// Configured capacity.
    pub fn capacity(&self) -> (n: usize)
        ensures
            n == self.spec_capacity(),
    {
        self.capacity
    }

    /// Segment `index` (`0` is the oldest).
    pub fn get(&self, index: usize) -> (s: &T)
        requires
            index < self.items().len(),
        ensures
            *s == self.items()[index as int],
    {
        &self.segments[index]
    }

    /// Replaces segment `index` (used by the look-ahead pass to store the
    /// recomputed speeds) and returns the previous one.
    pub fn replace(&mut self, index: usize, segment: T) -> (previous: T)
        requires
            index < old(self).items().len(),
        ensures
            previous == old(self).items()[index as int],
            final(self).items() == old(self).items().update(index as int, segment),
            final(self).spec_capacity() == old(self).spec_capacity(),
            old(self).within_capacity() ==> final(self).within_capacity(),
    {
        let previous = match self.segments.remove(index) {
            Some(p) => p,
            None => {
                return segment;
            },
        };
        self.segments.insert(index, segment);
        assert(self.segments@ =~= old(self).items().update(index as int, segment));
        previous
    }
}

/// Queue law: a queue hands segments out in the order they were pushed.
/// Pushing onto a non-empty queue leaves its front segment in place and
/// the rest behind it, and pushing onto an empty queue puts the new
/// segment in front.
pub proof fn lemma_queue_fifo<T>(items: Seq<T>, segment: T)
    ensures
        items.len() > 0 ==> items.push(segment)[0] == items[0] && items.push(segment).drop_first()
            == items.drop_first().push(segment),
        items.len() == 0 ==> items.push(segment)[0] == segment && items.push(segment).drop_first()
            =~= Seq::<T>::empty(),
{
    if items.len() > 0 {
        assert(items.push(segment).drop_first() =~= items.drop_first().push(segment));
    }
}

} // verus!
