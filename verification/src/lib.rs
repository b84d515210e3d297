//! A scoped fixture for temporary database locations.
//!
//! A [`TemporaryDBPath`] stands for one freshly made temporary directory and
//! the path inside it at which a storage engine may create a database. The
//! crate holds the rules of that fixture: how the database path is derived
//! from the directory, and what has to happen, in which order, when the
//! fixture's scope ends. Touching the file system and the storage engine is
//! left to the caller, who reports back how each step went.

pub mod fixture;
pub mod path;
pub mod teardown;

pub use fixture::{TemporaryDBPath, TemporaryDBPathView};
pub use teardown::{Directive, Stage, TeardownStep};

