//! The ways in which resolving a configuration or running a command fails.

use vstd::prelude::*;

verus! {

/// What is wrong with the contents of a configuration file.
#[derive(Debug, PartialEq, Eq)]
pub enum ConfigFault {
    /// The text is not a TOML document; the parser's own error says why.
    Syntax(toml::de::Error),
    /// `verbosity` is not an integer from 0 to 255.
    Verbosity,
    /// `sync` is not a table.
    SyncSection,
    /// `sync.src` is not a string.
    Source,
    /// `sync.dest` is not a string.
    Destination,
    /// `files` is not a table.
    FilesSection,
    /// An entry of `files` is not a string.
    Link,
}

/// Why a run ended without success.
#[derive(Debug, PartialEq, Eq)]
pub enum SyncError {
    /// No destination was given and no home directory was found.
    NoDestination,
    /// The source path is not a directory.
    SourceNotADirectory(String),
    /// The destination path is not a directory.
    DestinationNotADirectory(String),
    /// The configuration path is not a regular file.
    ConfigPathInvalid(String),
    /// The configuration file was read and its contents refused.
    InvalidConfig(ConfigFault),
    /// The file system refused a read; its own message is carried unchanged.
    Io(String),
}

} // verus!
