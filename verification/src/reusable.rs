//! The handle that owns one instance and brings it back to its pool.
//!
//! A handle is built in three layers. A [`Slot`] is the place of the instance: it
//! is filled or vacated, and its destructor returns what a filled slot holds. A
//! [`Holder`] is a slot with the promise that it is filled, which is what makes
//! reading and writing through a handle total. A [`Reusable`] is the holder of a
//! type that is bound to a pool. Moving the instance out takes the holder apart
//! first, so no handle is ever seen with a vacated slot.

use std::borrow::Borrow;
use std::borrow::BorrowMut;
use std::ops::Deref;
use std::ops::DerefMut;
use vstd::prelude::*;
use vstd::std_specs::convert::FromSpecImpl;

use crate::object_pool::ObjectPool;
use crate::pool::Pool;

verus! {

/// The place of the instance inside a handle, with the pool that the instance
/// returns to.
#[verifier::reject_recursive_types(T)]
struct Slot<T: 'static, G: Fn() -> T + 'static> {
    item: Option<T>,
    home: &'static Pool<T, G>,
}

impl<T: 'static, G: Fn() -> T + 'static> Slot<T, G> {
    /// Moves out what the slot holds and leaves it vacated.
    fn vacate(&mut self) -> (leaving: Option<T>)
        ensures
            leaving == old(self).item,
            final(self).item is None,
            final(self).home == old(self).home,
        opens_invariants none
        no_unwind
    {
        let mut leaving: Option<T> = None;
        core::mem::swap(&mut self.item, &mut leaving);
        leaving
    }
}

impl<T: 'static, G: Fn() -> T + 'static> Drop for Slot<T, G> {
    /// Scope end: whatever the slot still holds goes back to the pool. This
    /// happens once, because the slot is vacated by it, and not at all for a slot
    /// that was vacated before.
    fn drop(&mut self)
        opens_invariants none
        no_unwind
    {
        let leaving = self.vacate();
        self.home.take_back(leaving);
    }
}

/// The instance in a slot that is known to be filled.
fn filled<T>(item: &mut Option<T>) -> (inner: &mut T)
    requires
        *old(item) is Some,
    ensures
        *inner == old(item)->0,
        *final(item) == Some(*final(inner)),
    opens_invariants none
    no_unwind
{
    match item {
        Some(inner) => inner,
        None => vstd::pervasive::unreached(),
    }
}

/// A slot that is filled for as long as anyone can reach it.
#[verifier::reject_recursive_types(T)]
pub(crate) struct Holder<T: 'static, G: Fn() -> T + 'static> {
    slot: Slot<T, G>,
}

impl<T: 'static, G: Fn() -> T + 'static> Holder<T, G> {
    #[verifier::type_invariant]
    spec fn holding(self) -> bool {
        self.slot.item is Some
    }

    /// The instance held.
    pub(crate) closed spec fn payload(&self) -> T {
        self.slot.item->0
    }

    /// Holds `item`, to be brought back to `home`.
    pub(crate) fn new(home: &'static Pool<T, G>, item: T) -> (holder: Self)
        ensures
            holder.payload() == item,
    {
        Holder { slot: Slot { item: Some(item), home } }
    }

    /// Moves the instance out. The slot is vacated by that, so its destructor
    /// returns nothing to the pool.
    pub(crate) fn into_inner(self) -> (item: T)
        ensures
            item == self.payload(),
    {
        proof {
            use_type_invariant(&self);
        }
        let Holder { slot } = self;
        let mut slot = slot;
        match slot.vacate() {
            Some(item) => item,
            None => vstd::pervasive::unreached(),
        }
    }

    /// The instance, to read.
    pub(crate) fn get(&self) -> (item: &T)
        ensures
            *item == self.payload(),
    {
        proof {
            use_type_invariant(self);
        }
        match &self.slot.item {
            Some(item) => item,
            None => vstd::pervasive::unreached(),
        }
    }

    /// The instance, to change in place.
    pub(crate) fn get_mut(&mut self) -> (item: &mut T)
        ensures
            *item == old(self).payload(),
            final(self).payload() == *final(item),
    {
        proof {
            use_type_invariant(&*self);
        }
        filled(&mut self.slot.item)
    }
}

/// A handle that owns one instance of `T` and reads and writes as the instance
/// itself. Its view is the instance. When the handle goes out of scope the
/// instance joins the spares of the pool of `T`; [`Reusable::into_inner`] takes
/// it out for good instead.
#[verifier::reject_recursive_types(T)]
pub struct Reusable<T: ObjectPool> {
    pub(crate) holder: Holder<T, T::Generator>,
}

impl<T: ObjectPool> View for Reusable<T> {
    type V = T;

    closed spec fn view(&self) -> T {
        self.holder.payload()
    }
}

impl<T: ObjectPool> Reusable<T> {
    /// A handle that owns `item` and brings it to the pool of `T`.
    pub fn new(item: T) -> (handle: Self)
        ensures
            handle@ == item,
    {
        Reusable { holder: Holder::new(T::pool(), item) }
    }

    /// A spare that was taken out of a pool, in a handle: a handle that owns the
    /// spare where there is one, and nothing where there is none. This is what
    /// [`Pool::remove_reusable`] returns for the spare that it found.
    pub fn wrap(spare: Option<T>) -> (handle: Option<Self>)
        ensures
            match spare {
                Some(item) => handle is Some && handle->0@ == item,
                None => handle is None,
            },
    {
        match spare {
            Some(item) => Some(Reusable::new(item)),
            None => None,
        }
    }

    /// The instance itself. The handle is used up by this, and nothing brings
    /// the instance to the pool any more.
    pub fn into_inner(self) -> (item: T)
        ensures
            item == self@,
    {
        self.holder.into_inner()
    }
}

impl<T: ObjectPool> Deref for Reusable<T> {
    type Target = T;

    fn deref(&self) -> (item: &T)
        ensures
            *item == self@,
    {
        self.holder.get()
    }
}

impl<T: ObjectPool> DerefMut for Reusable<T> {
    /// What is written through the reference is what the handle holds
    /// afterwards.
    fn deref_mut(&mut self) -> (item: &mut T)
        ensures
            *item == old(self)@,
            final(self)@ == *final(item),
    {
        self.holder.get_mut()
    }
}

impl<T: ObjectPool> Borrow<T> for Reusable<T> {
    fn borrow(&self) -> &T
        returns
            &self@,
    {
        self.holder.get()
    }
}

impl<T: ObjectPool> BorrowMut<T> for Reusable<T> {
    fn borrow_mut(&mut self) -> (item: &mut T)
        ensures
            ({
                let lent: &mut T = item;
                *lent == old(self)@ && final(self)@ == *final(lent)
            }),
    {
        self.holder.get_mut()
    }
}

impl<T: ObjectPool> AsRef<T> for Reusable<T> {
    fn as_ref(&self) -> (item: &T)
        ensures
            *item == self@,
    {
        self.holder.get()
    }
}

impl<T: ObjectPool> AsMut<T> for Reusable<T> {
    fn as_mut(&mut self) -> (item: &mut T)
        ensures
            *item == old(self)@,
            final(self)@ == *final(item),
    {
        self.holder.get_mut()
    }
}

impl<T: ObjectPool> From<T> for Reusable<T> {
    /// A handle that owns `item`, as [`Reusable::new`] makes it.
    fn from(item: T) -> (handle: Self)
        ensures
            handle@ == item,
    {
        Reusable::new(item)
    }
}

/// Which handle `from` returns depends on the pool that the binding of `T` hands
/// out, so it is no function of the instance alone; its view is.
impl<T: ObjectPool> FromSpecImpl<T> for Reusable<T> {
    open spec fn obeys_from_spec() -> bool {
        false
    }

    open spec fn from_spec(item: T) -> Self {
        choose|handle: Reusable<T>| handle@ == item
    }
}

} // verus!
