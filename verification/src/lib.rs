//! Configuration resolution and command scaffolding of a dotfile manager.
//!
//! A run starts from two sources of configuration: the command line, and a
//! TOML file that is looked for in the base directory. This library decides
//! what the two amount to and what a command does with them; it never
//! touches the file system itself. What the file system said comes in as
//! plain values, and what is to be done goes out as plain values.
//!
//! - [`config`]: the configuration as each source gives it.
//! - [`loader`]: reading the configuration file.
//! - [`document`]: the model of parsed TOML that the loader is verified
//!   against.
//! - [`links`]: the mapping from link names to link specifications.
//! - [`merge`]: layering the command line over the file.
//! - [`context`]: the merged context of a command and the directories it
//!   works on.
//! - [`pipeline`]: commands, planned actions, and the order they run in.
//! - [`error`]: the ways in which a run fails.

pub mod config;
pub mod context;
pub mod document;
pub mod error;
pub mod links;
pub mod loader;
pub mod merge;
pub mod pipeline;
