//! A pool of reusable values: idle values wait in a stash, are handed out
//! wrapped in a handle, and go back to the stash, reset, when the handle is
//! dropped.
pub mod pool;
pub mod recycle;
pub mod stash;

pub use pool::{Pool, Recycled};
pub use recycle::{InitializeWith, Recycleable};
pub use stash::Stash;
