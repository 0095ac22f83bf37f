//! Browse, create and apply the stashes of a git repository.
//!
//! The diff of each stash is read from the backend as raw lines and
//! classified into [`LineDiff`] values; the classification and the
//! bookkeeping around the backend calls are verified.

pub mod error;
pub mod line_diff;

pub use error::{DiffStep, StashError};
pub use line_diff::{LineDiff, RawLine};
pub mod repo;

mod backend;

pub use repo::{Repo, Stash, StashDiff};
