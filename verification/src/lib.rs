//! The decision logic of a small `rm`: reading the command line, resolving
//! operands against a base directory, and deciding, for each file, what to do
//! next from what the filesystem and the user answered. Nothing here touches
//! the filesystem or a terminal; a caller does that and reports back.

pub mod args;
pub mod confirm;
pub mod options;
pub mod path;
pub mod remove;
pub mod report;
pub mod run;
