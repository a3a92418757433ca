//! An object pool: a thread-safe store of spare instances of a type, handed out
//! on demand and taken back when the caller lets go of them.
//!
//! A type is bound to its pool by [`ObjectPool`]. `T::new()` hands out an
//! instance in a [`Reusable`] handle: the newest spare of the pool, or a new
//! instance from the pool's constructor when there is none. The handle reads and
//! writes as the instance, and when it goes out of scope the instance becomes
//! the newest spare. [`Reusable::into_inner`] takes the instance out of the
//! pool's hands for good.
//!
//! A [`Pool`] keeps its spares behind a lock. What a pool does while it holds
//! the lock is one step on the [`Spares`](spares::Spares) behind it, and the
//! contracts of those steps are exact. [`lifecycle`] states what follows from
//! them for handles that come and go.

pub mod lifecycle;
pub mod object_pool;
pub mod pool;
pub mod prelude;
pub mod reusable;
pub mod spares;

pub use object_pool::ObjectPool;
pub use pool::Pool;
pub use reusable::Reusable;
