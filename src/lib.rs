//! Imports issue-tracker threads into a content-addressed message graph.
//!
//! `authorship` derives the author record of every node, `thread` decides
//! which node to create next for an issue and its comments, `report` renders
//! the human-readable dry-run text and `import` picks between the two modes.
use vstd::prelude::*;

pub mod authorship;
pub mod thread;
pub mod report;
pub mod import;
