//! The names that a user of the pool needs, in one place.

pub use crate::object_pool::ObjectPool;
pub use crate::pool::Pool;
pub use crate::reusable::Reusable;
