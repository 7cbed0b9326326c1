//! Utilities shared by all hooking implementations.

pub mod scoped_remove;
pub use scoped_remove::{Hookable, ScopedRemove};
