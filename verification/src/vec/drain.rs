//! Iterators over items removed from a `Vec`.
use std::collections::VecDeque;
use vstd::prelude::*;

verus! {

/// Move the items of `v` into a double-ended queue, in order.
pub(crate) fn deque_from_vec<T>(v: std::vec::Vec<T>) -> (r: VecDeque<T>)
    ensures
        r@ == v@,
{
    let ghost orig = v@;
    let mut v = v;
    let mut d: VecDeque<T> = VecDeque::new();
    while v.len() > 0
        invariant
            v@ + d@ == orig,
        decreases v@.len(),
    {
        let ghost before_v = v@;
        let ghost before_d = d@;
        let x = v.pop().unwrap();
        d.push_front(x);
        proof {
            assert(before_v == v@.push(x));
            assert(v@ + d@ =~= before_v + before_d);
        }
    }
    proof {
        assert(v@ + d@ =~= d@);
    }
    d
}

/// Take the first remaining item of `items`, if any.
fn take_front<T>(items: &mut VecDeque<T>) -> (r: Option<T>)
    ensures
        old(items)@.len() == 0 ==> r is None && final(items)@ == old(items)@,
        old(items)@.len() > 0 ==> r == Some(old(items)@[0]) && final(items)@ == old(items)@.drop_first(),
{
    let r = items.pop_front();
    proof {
        if old(items)@.len() > 0 {
            assert(items@ =~= old(items)@.drop_first());
        }
    }
    r
}

/// Take the last remaining item of `items`, if any.
fn take_back<T>(items: &mut VecDeque<T>) -> (r: Option<T>)
    ensures
        old(items)@.len() == 0 ==> r is None && final(items)@ == old(items)@,
        old(items)@.len() > 0 ==> r == Some(old(items)@.last()) && final(items)@ == old(items)@.drop_last(),
{
    items.pop_back()
}

/// An iterator over the items removed from a range of a `Vec`.
pub struct Drain<T> {
    items: VecDeque<T>,
}

impl<T> View for Drain<T> {
    type V = Seq<T>;

    closed spec fn view(&self) -> Seq<T> {
        self.items@
    }
}

impl<T> Drain<T> {
    pub(crate) fn from_vec(v: std::vec::Vec<T>) -> (r: Self)
        ensures
            r@ == v@,
    {
        Drain { items: deque_from_vec(v) }
    }

    /// Check if there are remaining items in the iterator.
    pub fn is_empty(&self) -> (r: bool)
        ensures
            r == (self@.len() == 0),
    {
        self.items.len() == 0
    }

    /// Get the number of remaining items in the iterator.
    pub fn len(&self) -> (r: usize)
        ensures
            r == self@.len(),
    {
        self.items.len()
    }

    /// Take the next item from the front.
    pub fn next(&mut self) -> (r: Option<T>)
        ensures
            old(self)@.len() == 0 ==> r is None && final(self)@ == old(self)@,
            old(self)@.len() > 0 ==> r == Some(old(self)@[0]) && final(self)@ == old(self)@.drop_first(),
    {
        take_front(&mut self.items)
    }

    /// Take the next item from the back.
    pub fn next_back(&mut self) -> (r: Option<T>)
        ensures
            old(self)@.len() == 0 ==> r is None && final(self)@ == old(self)@,
            old(self)@.len() > 0 ==> r == Some(old(self)@.last()) && final(self)@ == old(self)@.drop_last(),
    {
        take_back(&mut self.items)
    }
}

/// A struct used for extracting all items from a `Vec` as an iterator.
pub struct IntoIter<T> {
    items: VecDeque<T>,
}

impl<T> View for IntoIter<T> {
    type V = Seq<T>;

    closed spec fn view(&self) -> Seq<T> {
        self.items@
    }
}

impl<T> IntoIter<T> {
    pub(crate) fn from_vec(v: std::vec::Vec<T>) -> (r: Self)
        ensures
            r@ == v@,
    {
        IntoIter { items: deque_from_vec(v) }
    }

    /// Check if there are remaining items in the iterator.
    pub fn is_empty(&self) -> (r: bool)
        ensures
            r == (self@.len() == 0),
    {
        self.items.len() == 0
    }

    /// Get the number of remaining items in the iterator.
    pub fn len(&self) -> (r: usize)
        ensures
            r == self@.len(),
    {
        self.items.len()
    }

    /// Take the next item from the front.
    pub fn next(&mut self) -> (r: Option<T>)
        ensures
            old(self)@.len() == 0 ==> r is None && final(self)@ == old(self)@,
            old(self)@.len() > 0 ==> r == Some(old(self)@[0]) && final(self)@ == old(self)@.drop_first(),
    {
        take_front(&mut self.items)
    }

    /// Take the next item from the back.
    pub fn next_back(&mut self) -> (r: Option<T>)
        ensures
            old(self)@.len() == 0 ==> r is None && final(self)@ == old(self)@,
            old(self)@.len() > 0 ==> r == Some(old(self)@.last()) && final(self)@ == old(self)@.drop_last(),
    {
        take_back(&mut self.items)
    }
}

/// An iterator over the items removed by a splice operation on a `Vec`.
pub struct Splice<T> {
    drain: Drain<T>,
}

impl<T> View for Splice<T> {
    type V = Seq<T>;

    closed spec fn view(&self) -> Seq<T> {
        self.drain@
    }
}

impl<T> Splice<T> {
    pub(crate) fn from_vec(v: std::vec::Vec<T>) -> (r: Self)
        ensures
            r@ == v@,
    {
        Splice { drain: Drain::from_vec(v) }
    }

    /// Get the number of remaining removed items.
    pub fn len(&self) -> (r: usize)
        ensures
            r == self@.len(),
    {
        self.drain.len()
    }

    /// Take the next removed item from the front.
    pub fn next(&mut self) -> (r: Option<T>)
        ensures
            old(self)@.len() == 0 ==> r is None && final(self)@ == old(self)@,
            old(self)@.len() > 0 ==> r == Some(old(self)@[0]) && final(self)@ == old(self)@.drop_first(),
    {
        self.drain.next()
    }

    /// Take the next removed item from the back.
    pub fn next_back(&mut self) -> (r: Option<T>)
        ensures
            old(self)@.len() == 0 ==> r is None && final(self)@ == old(self)@,
            old(self)@.len() > 0 ==> r == Some(old(self)@.last()) && final(self)@ == old(self)@.drop_last(),
    {
        self.drain.next_back()
    }
}

} // verus!
