//! A visudo-like safe editor: a file is edited through a hidden working copy,
//! and that copy replaces the real file only once an external checker accepts it
//! (or the user explicitly overrides the check).
//!
//! The library holds the decisions: where the working copy lives, what to do with
//! it at the start and at the end of a session, and the edit/check/prompt state
//! machine. The host program performs the file-system and process work they name.

pub mod working_copy;
pub mod session;
pub mod lifecycle;
pub mod options;
