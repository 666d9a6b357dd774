//! Verified core of a git history-splitting tool.
//!
//! The library holds the logic that gates and sequences the destructive git
//! operations of a "split-out" (extract a subtree's history onto its own
//! branch) or "split-in" (inject another project's history into a
//! subdirectory): rule validation for the path-filter arrays, synthesis of
//! the argument vector handed to the history-filtering engine, inference of
//! a short project name from a remote locator, and the pipeline state
//! machine that decides, stage by stage, what the surrounding program must
//! do next.  All repository access, subprocess execution and terminal
//! output stay outside; the library works on plain values and states its
//! behaviour in contracts.

pub mod filter_args;
pub mod repo_file;
pub mod repo_name;
pub mod runner;
pub mod rules;
pub mod strutil;
