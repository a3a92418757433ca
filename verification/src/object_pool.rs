//! The binding of a type to its pool.

use vstd::prelude::*;

use crate::pool::Pool;
use crate::reusable::Holder;
use crate::reusable::Reusable;

verus! {

/// A type with a pool of its own.
///
/// An implementor names the type of its constructor and says where its pool is:
/// one pool, the same at every call, that lives as long as the program. Nothing
/// here depends on how the pool comes to be: a static that is filled on first
/// use will do.
pub trait ObjectPool: Sized + 'static {
    /// The type of the constructor that the pool holds.
    type Generator: Fn() -> Self + 'static;

    /// The pool of this type.
    fn pool<'a>() -> &'a Pool<Self, Self::Generator>;

    /// An instance in a handle: the newest spare of the pool, or a new instance
    /// from the pool's constructor when there is no spare. The handle brings the
    /// instance back to the pool when it goes out of scope.
    ///
    /// The pool is locked while the spare is taken, by [`Pool::remove`], and free
    /// again before the constructor runs, in [`Pool::or_generate`].
    #[must_use]
    fn new() -> (handle: Reusable<Self>) {
        let pool = Self::pool();
        let spare = pool.remove();
        Reusable { holder: Holder::new(pool, pool.or_generate(spare)) }
    }
}

} // verus!
