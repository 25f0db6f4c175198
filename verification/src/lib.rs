//! Configuration files addressed by path: the format is read off the file
//! name, and a container keeps a typed value together with the path and the
//! format it is stored under.
//!
//! The crate performs no I/O of its own. Every operation that touches the
//! file system is split into the decision, which is made here and verified,
//! and the effect, which the caller performs and reports back.

pub mod discover;
pub mod error;
pub mod file;
pub mod format;
pub mod keep;
pub mod path;

pub use error::Error;
