//! Shell-prompt segment for a git working tree.
//!
//! The library classifies what is currently happening in a repository
//! (rebase, merge, cherry-pick, revert, bisect, mailbox apply) from a
//! snapshot of its metadata directory, and renders the classification
//! together with the current head as a compact textual segment.
//!
//! All filesystem reads and object-database lookups happen outside the
//! library; they hand in plain values (flags and file contents) and take
//! plain values back.

pub mod detect;
pub mod model;
pub mod render;
pub mod text;
