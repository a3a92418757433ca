//! The pool: spares behind a lock, and the constructor that stands in when there
//! is no spare.

use std::ops::DerefMut;
use std::sync::Mutex;
use std::sync::MutexGuard;
use vstd::prelude::*;

use crate::object_pool::ObjectPool;
use crate::reusable::Reusable;
use crate::spares::Spares;

verus! {

/// `std::sync::Mutex`, carried as an opaque value.
#[verifier::external_type_specification]
#[verifier::external_body]
#[verifier::reject_recursive_types(T)]
pub struct ExMutex<T: ?Sized>(Mutex<T>);

/// `std::sync::MutexGuard`, carried as an opaque value.
#[verifier::external_type_specification]
#[verifier::external_body]
#[verifier::reject_recursive_types(T)]
pub struct ExMutexGuard<'a, T: ?Sized + 'a>(MutexGuard<'a, T>);

/// `Mutex::new`: a lock around `spares`. Nothing is claimed of the result.
#[verifier::external_body]
fn locked<T>(spares: Spares<T>) -> (lock: Mutex<Spares<T>>) {
    Mutex::new(spares)
}

/// `Mutex::lock`, then `unwrap`: waits until the lock is free and returns its
/// guard. A poisoned lock is fatal to the caller: the `unwrap` panics rather
/// than hand out spares that a holder may have left half changed.
///
/// Nothing is claimed of what the guard protects. The call is taken not to
/// unwind, on these grounds. `lock` fails only on a lock that a holder poisoned
/// by unwinding, and may panic only where the calling thread holds the lock
/// already. The lock is a private field of a [`Pool`] and its guard never leaves
/// the pool's methods. While a method holds the guard it runs no code of the
/// caller, only one step on the [`Spares`], and none of these steps unwinds
/// ([`Spares::insert`] within the bounds named there). So no holder poisons the
/// lock, and none asks for it a second time.
#[verifier::external_body]
fn lock<T>(spares: &Mutex<Spares<T>>) -> (guard: MutexGuard<'_, Spares<T>>)
    opens_invariants none
    no_unwind
{
    spares.lock().unwrap()
}

/// `DerefMut::deref_mut` of a `MutexGuard`: the guarded spares, for as long as
/// the guard is borrowed. What they are depends on every thread that held the
/// lock before, so nothing is claimed of them. The call only forms a reference
/// and cannot unwind.
#[verifier::external_body]
fn guarded<'a, 'b, T>(guard: &'a mut MutexGuard<'b, Spares<T>>) -> (spares: &'a mut Spares<T>)
    opens_invariants none
    no_unwind
{
    guard.deref_mut()
}

/// A thread-safe pool of spare instances of `T`, with the constructor `G` that
/// makes a new instance when no spare is at hand.
///
/// Every method takes the lock for one step on the [`Spares`] behind it and lets
/// go of the lock before it returns. What the step finds there depends on the
/// other threads, so the exact contract of each method is that of the step it
/// takes, stated on [`Spares`]. No method runs code of the caller while it holds
/// the lock: the constructor runs and discarded spares are released only after
/// the lock is free again.
#[verifier::reject_recursive_types(T)]
pub struct Pool<T, G: Fn() -> T> {
    spares: Mutex<Spares<T>>,
    generator: G,
}

impl<T, G: Fn() -> T> Pool<T, G> {
    /// The constructor can be called at any time.
    #[verifier::type_invariant]
    spec fn ready(self) -> bool {
        call_requires(self.generator, ())
    }

    /// The constructor that the pool was made with.
    pub closed spec fn generator(&self) -> G {
        self.generator
    }

    /// An empty pool that makes new instances with `generator`, which must be
    /// callable without any condition.
    #[must_use]
    pub fn new(generator: G) -> (pool: Self)
        requires
            call_requires(generator, ()),
        ensures
            pool.generator() == generator,
    {
        Pool { spares: locked(Spares::new()), generator }
    }

    /// The number of spares at the moment of the call: [`Spares::len`] under the
    /// lock.
    pub fn len(&self) -> usize {
        let mut guard = lock(&self.spares);
        guarded(&mut guard).len()
    }

    /// Whether there was no spare at the moment of the call:
    /// [`Spares::is_empty`] under the lock.
    pub fn is_empty(&self) -> bool {
        let mut guard = lock(&self.spares);
        guarded(&mut guard).is_empty()
    }

    /// Puts `item` among the spares, as the one handed out next:
    /// [`Spares::insert`] under the lock.
    pub fn insert(&self, item: T) {
        let mut guard = lock(&self.spares);
        guarded(&mut guard).insert(item);
    }

    /// Discards all spares: [`Spares::take_all`] under the lock. Handles that are
    /// out are not touched and come back as usual.
    pub fn clear(&self) {
        let _discarded = self.take_all();
    }

    /// All spares, taken out of the pool.
    fn take_all(&self) -> Spares<T> {
        let mut guard = lock(&self.spares);
        guarded(&mut guard).take_all()
    }

    /// Takes the newest spare out of the pool, if there is one:
    /// [`Spares::remove`] under the lock.
    pub fn remove(&self) -> Option<T> {
        let mut guard = lock(&self.spares);
        guarded(&mut guard).remove()
    }

    /// Takes back what a handle held when its scope ended:
    /// [`Spares::take_back`] under the lock. A handle that held nothing does not
    /// ask for the lock.
    pub(crate) fn take_back(&self, leaving: Option<T>)
        opens_invariants none
        no_unwind
    {
        match leaving {
            Some(_) => {
                let mut guard = lock(&self.spares);
                guarded(&mut guard).take_back(leaving);
            },
            None => {},
        }
    }

    /// The instance that an acquisition hands out, given the `spare` that
    /// [`Pool::remove`] found: the spare itself, else a new instance from the
    /// constructor.
    pub fn or_generate(&self, spare: Option<T>) -> (item: T)
        ensures
            match spare {
                Some(reused) => item == reused,
                None => call_ensures(self.generator(), (), item),
            },
    {
        proof {
            use_type_invariant(self);
        }
        match spare {
            Some(reused) => reused,
            None => (self.generator)(),
        }
    }
}

impl<T: ObjectPool> Pool<T, T::Generator> {
    /// Takes the newest spare out of the pool, if there is one, in a handle that
    /// brings it back to the pool of `T`: [`Reusable::wrap`] on [`Pool::remove`].
    pub fn remove_reusable(&self) -> (handle: Option<Reusable<T>>) {
        Reusable::wrap(self.remove())
    }
}

} // verus!
