//! Decisions of a directory-scoped checking run: where each input path
//! looks up its policy, which entries a walk skips, how many threads the
//! walk uses, and how the outcomes of all paths combine into an exit status.

pub mod outcome;
pub mod context;
pub mod dispatch;
pub mod exclude;
pub mod run;
