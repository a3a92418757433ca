//! The spare instances of a pool, as a stack.
//!
//! A [`Spares`] is what a pool guards with its lock. It is an ordinary value with
//! exclusive access, so every operation on it has an exact contract over its
//! view: the sequence of spares from the oldest to the newest. The newest spare
//! is the top of the stack, the one handed out next.

use vstd::prelude::*;

verus! {

/// The spare that is handed out next: the newest one, if there is any.
pub open spec fn top<T>(spares: Seq<T>) -> Option<T> {
    if spares.len() > 0 {
        Some(spares.last())
    } else {
        None
    }
}

/// The spares that stay once the top has been handed out.
pub open spec fn below_top<T>(spares: Seq<T>) -> Seq<T> {
    if spares.len() > 0 {
        spares.drop_last()
    } else {
        spares
    }
}

/// The spares once the scope of a handle has ended. `leaving` is what the handle
/// held at that moment: its instance, which becomes the top, or nothing when the
/// instance had been moved out of the handle before.
pub open spec fn at_scope_end<T>(spares: Seq<T>, leaving: Option<T>) -> Seq<T> {
    match leaving {
        Some(item) => spares.push(item),
        None => spares,
    }
}

/// `Vec::push`: `item` becomes the last element and the others keep their
/// places.
///
/// The call is taken not to unwind. `push` panics in one case only: when the
/// vector would outgrow `isize::MAX` bytes, or `usize::MAX` elements where an
/// element has no size. A pool is taken never to hold that many spares. Where
/// memory runs out before, the process aborts, which is no unwinding.
#[verifier::external_body]
fn push_last<T>(items: &mut Vec<T>, item: T)
    ensures
        final(items)@ == old(items)@.push(item),
    opens_invariants none
    no_unwind
{
    items.push(item)
}

/// A stack of spare instances.
pub struct Spares<T> {
    items: Vec<T>,
}

impl<T> View for Spares<T> {
    type V = Seq<T>;

    closed spec fn view(&self) -> Seq<T> {
        self.items@
    }
}

impl<T> Spares<T> {
    /// An empty stack. Nothing is allocated before the first spare arrives.
    pub fn new() -> (spares: Self)
        ensures
            spares@ == Seq::<T>::empty(),
    {
        Spares { items: Vec::new() }
    }

    /// The number of spares.
    pub fn len(&self) -> (count: usize)
        ensures
            count == self@.len(),
    {
        self.items.len()
    }

    /// Whether there is no spare at all.
    pub fn is_empty(&self) -> (empty: bool)
        ensures
            empty <==> self@.len() == 0,
    {
        self.items.len() == 0
    }

    /// Puts `item` on top. The stack has no bound.
    ///
    /// That the call does not unwind holds for a stack below `isize::MAX` bytes,
    /// and below `usize::MAX` spares where an instance has no size: the vector
    /// behind the stack panics when it is to grow beyond that.
    pub fn insert(&mut self, item: T)
        ensures
            final(self)@ == old(self)@.push(item),
        opens_invariants none
        no_unwind
    {
        push_last(&mut self.items, item);
    }

    /// Takes the top off and returns it, or returns `None` and changes nothing
    /// when the stack is empty.
    pub fn remove(&mut self) -> (spare: Option<T>)
        ensures
            spare == top(old(self)@),
            final(self)@ == below_top(old(self)@),
    {
        self.items.pop()
    }

    /// Empties the stack and hands its former content to the caller, who decides
    /// where the spares are released.
    pub fn take_all(&mut self) -> (taken: Spares<T>)
        ensures
            final(self)@ == Seq::<T>::empty(),
            taken@ == old(self)@,
    {
        let mut taken = Spares::new();
        core::mem::swap(&mut self.items, &mut taken.items);
        taken
    }

    /// Takes back what a handle held when its scope ended: the instance goes on
    /// top, as by [`Spares::insert`], and a handle that held nothing changes
    /// nothing.
    pub fn take_back(&mut self, leaving: Option<T>)
        ensures
            final(self)@ == at_scope_end(old(self)@, leaving),
        opens_invariants none
        no_unwind
    {
        match leaving {
            Some(item) => self.insert(item),
            None => {},
        }
    }
}

} // verus!
