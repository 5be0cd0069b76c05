//! Permission management for a single path: three fixed permission patterns,
//! the decomposition of a mode into a grid of flags, and a textual report of
//! that grid.

pub mod permissions;
pub mod command;
pub mod style;
pub mod report;
