//! The configuration as the command line and the configuration file give it.

use vstd::prelude::*;
use crate::links::{FileMap, LinkSpecView};

verus! {

/// The characters of an optional string.
pub open spec fn text_of(text: Option<String>) -> Option<Seq<char>> {
    match text {
        Some(t) => Some(t@),
        None => None,
    }
}

/// A copy of an optional string.
pub(crate) fn copy_text(text: &Option<String>) -> (copy: Option<String>)
    ensures
        copy == *text,
{
    match text {
        Some(t) => Some(t.clone()),
        None => None,
    }
}

/// Where the dotfiles are taken from and where they go.
#[derive(Debug, PartialEq, Eq)]
pub struct SyncConfig {
    /// The source directory, where one is given.
    pub src: Option<String>,
    /// The destination directory, where one is given.
    pub dest: Option<String>,
}

/// The mathematical value of a [`SyncConfig`].
pub struct SyncConfigView {
    pub src: Option<Seq<char>>,
    pub dest: Option<Seq<char>>,
}

impl View for SyncConfig {
    type V = SyncConfigView;

    open spec fn view(&self) -> SyncConfigView {
        SyncConfigView { src: text_of(self.src), dest: text_of(self.dest) }
    }
}

impl Clone for SyncConfig {
    fn clone(&self) -> (copy: SyncConfig)
        ensures
            copy == *self,
    {
        SyncConfig { src: copy_text(&self.src), dest: copy_text(&self.dest) }
    }
}

impl SyncConfig {
    /// The configuration that gives neither directory.
    pub fn empty() -> (config: SyncConfig)
        ensures
            config@ == (SyncConfigView { src: None, dest: None }),
    {
        SyncConfig { src: None, dest: None }
    }
}

/// The command that was asked for.
#[derive(Debug, PartialEq, Eq)]
pub enum SubCommand {
    /// Synchronise the dotfiles.
    SyncConfig(SyncConfig),
}

/// The mathematical value of a [`SubCommand`].
pub enum SubCommandView {
    SyncConfig(SyncConfigView),
}

impl View for SubCommand {
    type V = SubCommandView;

    open spec fn view(&self) -> SubCommandView {
        match self {
            SubCommand::SyncConfig(args) => SubCommandView::SyncConfig(args@),
        }
    }
}

impl Clone for SubCommand {
    fn clone(&self) -> (copy: SubCommand)
        ensures
            copy == *self,
    {
        match self {
            SubCommand::SyncConfig(args) => SubCommand::SyncConfig(args.clone()),
        }
    }
}

impl SubCommandView {
    /// The directories that the command names.
    pub open spec fn sync(self) -> SyncConfigView {
        match self {
            SubCommandView::SyncConfig(args) => args,
        }
    }
}

/// What the command line gave.
#[derive(Debug, PartialEq, Eq)]
pub struct CliConfig {
    /// The command that was asked for.
    pub command: SubCommand,
    /// The path of the configuration file, where one is given.
    pub config: Option<String>,
    /// The base directory, where one is given.
    pub path: Option<String>,
    /// How often verbosity was asked for; 0 where it was not.
    pub verbosity: u8,
}

/// The mathematical value of a [`CliConfig`].
pub struct CliConfigView {
    pub command: SubCommandView,
    pub config: Option<Seq<char>>,
    pub path: Option<Seq<char>>,
    pub verbosity: u8,
}

impl View for CliConfig {
    type V = CliConfigView;

    open spec fn view(&self) -> CliConfigView {
        CliConfigView {
            command: self.command@,
            config: text_of(self.config),
            path: text_of(self.path),
            verbosity: self.verbosity,
        }
    }
}

impl Clone for CliConfig {
    fn clone(&self) -> (copy: CliConfig)
        ensures
            copy == *self,
    {
        CliConfig {
            command: self.command.clone(),
            config: copy_text(&self.config),
            path: copy_text(&self.path),
            verbosity: self.verbosity,
        }
    }
}

/// What the configuration file gave.
#[derive(Debug)]
pub struct FileConfig {
    /// The verbosity, where the file sets it.
    pub verbosity: Option<u8>,
    /// The directories that the file names.
    pub sync: SyncConfig,
    /// The links that the file asks for, by name.
    pub files: FileMap,
}

/// The mathematical value of a [`FileConfig`].
pub struct FileConfigView {
    pub verbosity: Option<u8>,
    pub sync: SyncConfigView,
    pub files: Map<Seq<char>, LinkSpecView>,
}

impl View for FileConfig {
    type V = FileConfigView;

    open spec fn view(&self) -> FileConfigView {
        FileConfigView { verbosity: self.verbosity, sync: self.sync@, files: self.files@ }
    }
}

impl Clone for FileConfig {
    fn clone(&self) -> (copy: FileConfig)
        ensures
            copy@ == self@,
    {
        FileConfig {
            verbosity: self.verbosity,
            sync: self.sync.clone(),
            files: self.files.clone(),
        }
    }
}

/// The value of the configuration that sets nothing.
pub open spec fn empty_file_config() -> FileConfigView {
    FileConfigView {
        verbosity: None,
        sync: SyncConfigView { src: None, dest: None },
        files: Map::empty(),
    }
}

impl FileConfig {
    /// The configuration that sets nothing.
    pub fn empty() -> (config: FileConfig)
        ensures
            config@ == empty_file_config(),
    {
        FileConfig { verbosity: None, sync: SyncConfig::empty(), files: FileMap::new() }
    }
}

} // verus!
