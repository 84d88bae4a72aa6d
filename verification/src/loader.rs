//! Reading a configuration file.
//!
//! A configuration file is a TOML document of this shape, every part of
//! which may be left out:
//!
//! ```toml
//! verbosity = 2
//!
//! [sync]
//! src = "dotfiles"
//! dest = "/home/me"
//!
//! [files]
//! "vimrc" = ".vimrc"
//! ```
//!
//! Keys other than these are passed over. The file system is not touched
//! here: what it said about a path comes in as a [`FileProbe`].

use vstd::prelude::*;
use crate::config::{
    text_of, CliConfig, FileConfig, FileConfigView, SyncConfig, SyncConfigView,
};
use crate::document::{
    parse_table, table_entries, table_get, table_nodes, toml_document, value_node, Node,
};
use crate::error::{ConfigFault, SyncError};
use crate::links::{FileMap, LinkSpec, LinkSpecView};

verus! {

/// The name of the configuration file that is looked for in the base
/// directory when no path is given.
pub const CONFIG_FILE_NAME: &'static str = "punter.toml";

/// The base directory when none is given: the current directory.
pub const CURRENT_DIRECTORY: &'static str = ".";

/// The verbosity that a document sets.
pub open spec fn verbosity_of(doc: Map<Seq<char>, Node>) -> Result<Option<u8>, ConfigFault> {
    if !doc.contains_key("verbosity"@) {
        Ok(None)
    } else {
        match doc["verbosity"@] {
            Node::Integer(n) => if 0 <= n <= 255 {
                Ok(Some(n as u8))
            } else {
                Err(ConfigFault::Verbosity)
            },
            _ => Err(ConfigFault::Verbosity),
        }
    }
}

/// The string under `key`, which may be missing; `fault` where something
/// else stands there.
pub open spec fn text_at(table: Map<Seq<char>, Node>, key: Seq<char>, fault: ConfigFault) -> Result<
    Option<Seq<char>>,
    ConfigFault,
> {
    if !table.contains_key(key) {
        Ok(None)
    } else {
        match table[key] {
            Node::Text(text) => Ok(Some(text)),
            _ => Err(fault),
        }
    }
}

/// The table under `key`, the empty one where the key is missing; `fault`
/// where something else stands there.
pub open spec fn section_at(doc: Map<Seq<char>, Node>, key: Seq<char>, fault: ConfigFault) -> Result<
    Map<Seq<char>, Node>,
    ConfigFault,
> {
    if !doc.contains_key(key) {
        Ok(Map::empty())
    } else {
        match doc[key] {
            Node::Table(section) => Ok(section),
            _ => Err(fault),
        }
    }
}

/// The directories that a document names.
pub open spec fn sync_of(doc: Map<Seq<char>, Node>) -> Result<SyncConfigView, ConfigFault> {
    match section_at(doc, "sync"@, ConfigFault::SyncSection) {
        Err(fault) => Err(fault),
        Ok(section) => match text_at(section, "src"@, ConfigFault::Source) {
            Err(fault) => Err(fault),
            Ok(src) => match text_at(section, "dest"@, ConfigFault::Destination) {
                Err(fault) => Err(fault),
                Ok(dest) => Ok(SyncConfigView { src, dest }),
            },
        },
    }
}

/// Every entry of the table is a string.
pub open spec fn all_text(table: Map<Seq<char>, Node>) -> bool {
    forall|key: Seq<char>| table.contains_key(key) ==> #[trigger] table[key] is Text
}

/// The links that a table of strings asks for.
pub open spec fn links_of(table: Map<Seq<char>, Node>) -> Map<Seq<char>, LinkSpecView> {
    Map::new(
        |key: Seq<char>| table.contains_key(key),
        |key: Seq<char>| LinkSpecView::Simple(table[key]->Text_0),
    )
}

/// The links that a table asks for, if every entry of it is a string.
pub open spec fn links_in(table: Map<Seq<char>, Node>) -> Result<
    Map<Seq<char>, LinkSpecView>,
    ConfigFault,
> {
    if all_text(table) {
        Ok(links_of(table))
    } else {
        Err(ConfigFault::Link)
    }
}

/// The links that a document asks for.
pub open spec fn files_of(doc: Map<Seq<char>, Node>) -> Result<
    Map<Seq<char>, LinkSpecView>,
    ConfigFault,
> {
    match section_at(doc, "files"@, ConfigFault::FilesSection) {
        Err(fault) => Err(fault),
        Ok(section) => links_in(section),
    }
}

/// The configuration that a document stands for, or the first thing that
/// is wrong with it: the verbosity is looked at first, then the
/// directories, then the links.
pub open spec fn decoded(doc: Map<Seq<char>, Node>) -> Result<FileConfigView, ConfigFault> {
    match verbosity_of(doc) {
        Err(fault) => Err(fault),
        Ok(verbosity) => match sync_of(doc) {
            Err(fault) => Err(fault),
            Ok(sync) => match files_of(doc) {
                Err(fault) => Err(fault),
                Ok(files) => Ok(FileConfigView { verbosity, sync, files }),
            },
        },
    }
}

/// `outcome` is what reading a document gives that decodes to `expected`.
pub open spec fn agrees<T: View>(outcome: Result<T, ConfigFault>, expected: Result<
    T::V,
    ConfigFault,
>) -> bool {
    match expected {
        Ok(value) => outcome matches Ok(read) && read@ == value,
        Err(fault) => outcome matches Err(found) && found == fault,
    }
}

/// Reads the verbosity out of a document.
fn read_verbosity(doc: &toml::Table) -> (outcome: Result<Option<u8>, ConfigFault>)
    ensures
        outcome == verbosity_of(table_nodes(*doc)),
{
    match table_get(doc, "verbosity") {
        None => Ok(None),
        Some(value) => match value.as_integer() {
            Some(n) => if 0 <= n && n <= 255 {
                Ok(Some(n as u8))
            } else {
                Err(ConfigFault::Verbosity)
            },
            None => Err(ConfigFault::Verbosity),
        },
    }
}

/// Reads the string under `key`, which may be missing.
fn read_text(table: &toml::Table, key: &str, fault: ConfigFault) -> (outcome: Result<
    Option<String>,
    ConfigFault,
>)
    ensures
        match text_at(table_nodes(*table), key@, fault) {
            Ok(text) => outcome matches Ok(read) && text_of(read) == text,
            Err(expected) => outcome matches Err(found) && found == expected,
        },
{
    match table_get(table, key) {
        None => Ok(None),
        Some(value) => match value.as_str() {
            Some(text) => Ok(Some(text.to_owned())),
            None => Err(fault),
        },
    }
}

/// Reads the directories out of a document.
fn read_sync(doc: &toml::Table) -> (outcome: Result<SyncConfig, ConfigFault>)
    ensures
        agrees(outcome, sync_of(table_nodes(*doc))),
{
    match table_get(doc, "sync") {
        None => Ok(SyncConfig::empty()),
        Some(value) => match value.as_table() {
            None => Err(ConfigFault::SyncSection),
            Some(section) => {
                let src = read_text(section, "src", ConfigFault::Source)?;
                let dest = read_text(section, "dest", ConfigFault::Destination)?;
                Ok(SyncConfig { src, dest })
            },
        },
    }
}

/// Reads the links out of the table that holds them.
fn read_links(section: &toml::Table) -> (outcome: Result<FileMap, ConfigFault>)
    ensures
        agrees(outcome, links_in(table_nodes(*section))),
{
    let ghost nodes = table_nodes(*section);
    let entries = table_entries(section);
    let mut links = FileMap::new();
    let mut i: usize = 0;
    while i < entries.len()
        invariant
            i <= entries@.len(),
            nodes == table_nodes(*section),
            forall|key: Seq<char>|
                nodes.contains_key(key) ==> exists|j: int|
                    0 <= j < entries@.len() && (#[trigger] entries@[j]).0@ == key,
            forall|j: int|
                0 <= j < entries@.len() ==> nodes.contains_key((#[trigger] entries@[j]).0@)
                    && nodes[entries@[j].0@] == value_node(*entries@[j].1),
            forall|j: int| 0 <= j < i ==> nodes[(#[trigger] entries@[j]).0@] is Text,
            forall|key: Seq<char>|
                links@.contains_key(key) <==> exists|j: int|
                    0 <= j < i && (#[trigger] entries@[j]).0@ == key,
            forall|key: Seq<char>|
                links@.contains_key(key) ==> #[trigger] links@[key] == LinkSpecView::Simple(
                    nodes[key]->Text_0,
                ),
        decreases entries@.len() - i,
    {
        let (name, value) = entries[i];
        match value.as_str() {
            None => {
                assert(!(nodes[entries@[i as int].0@] is Text));
                return Err(ConfigFault::Link);
            },
            Some(text) => {
                let ghost before = links@;
                links.insert(name.clone(), LinkSpec::Simple(text.to_owned()));
                assert forall|key: Seq<char>| links@.contains_key(key) implies exists|j: int|
                    0 <= j < i + 1 && (#[trigger] entries@[j]).0@ == key by {
                    if before.contains_key(key) {
                        let j = choose|j: int| 0 <= j < i && (#[trigger] entries@[j]).0@ == key;
                        assert(entries@[j].0@ == key);
                    } else {
                        assert(entries@[i as int].0@ == key);
                    }
                }
            },
        }
        i += 1;
    }
    proof {
        assert forall|key: Seq<char>| nodes.contains_key(key) implies #[trigger] nodes[key] is Text
            && links@.contains_key(key) by {
            let j = choose|j: int| 0 <= j < entries@.len() && (#[trigger] entries@[j]).0@ == key;
            assert(entries@[j].0@ == key);
        }
        assert forall|key: Seq<char>| links@.contains_key(key) implies nodes.contains_key(key) by {
            let j = choose|j: int| 0 <= j < i && (#[trigger] entries@[j]).0@ == key;
            assert(entries@[j].0@ == key);
        }
        assert(links@ =~= links_of(nodes));
    }
    Ok(links)
}

/// Reads the links out of a document.
fn read_files(doc: &toml::Table) -> (outcome: Result<FileMap, ConfigFault>)
    ensures
        agrees(outcome, files_of(table_nodes(*doc))),
{
    match table_get(doc, "files") {
        None => {
            let links = FileMap::new();
            assert(links@ =~= links_of(Map::<Seq<char>, Node>::empty()));
            Ok(links)
        },
        Some(value) => match value.as_table() {
            None => Err(ConfigFault::FilesSection),
            Some(section) => read_links(section),
        },
    }
}

/// `outcome` is what reading `text` as a configuration file gives: the
/// configuration that the document stands for, the first thing wrong with
/// the document, or the parser's refusal where `text` is no document.
pub open spec fn parses_to(text: Seq<char>, outcome: Result<FileConfig, SyncError>) -> bool {
    match toml_document(text) {
        None => outcome matches Err(SyncError::InvalidConfig(ConfigFault::Syntax(_))),
        Some(doc) => match decoded(doc) {
            Ok(config) => outcome matches Ok(read) && read@ == config,
            Err(fault) => outcome matches Err(SyncError::InvalidConfig(found)) && found == fault,
        },
    }
}

/// What the file system said about a path.
#[derive(Debug, PartialEq, Eq)]
pub enum FileProbe {
    /// The path does not lead to a regular file.
    NotAFile,
    /// The path leads to a regular file that could not be read; the file
    /// system's message is carried along.
    Unreadable(String),
    /// The path leads to a regular file with these contents.
    Contents(String),
}

/// `outcome` is what loading from `path` gives when the file system said
/// `probe` about it.
pub open spec fn loads_to(path: Seq<char>, probe: FileProbe, outcome: Result<
    FileConfig,
    SyncError,
>) -> bool {
    match probe {
        FileProbe::NotAFile => outcome matches Err(SyncError::ConfigPathInvalid(refused))
            && refused@ == path,
        FileProbe::Unreadable(message) => outcome matches Err(SyncError::Io(carried)) && carried
            == message,
        FileProbe::Contents(text) => parses_to(text@, outcome),
    }
}

impl FileConfig {
    /// Reads the configuration out of a parsed document.
    pub fn from_table(doc: &toml::Table) -> (outcome: Result<FileConfig, ConfigFault>)
        ensures
            agrees(outcome, decoded(table_nodes(*doc))),
    {
        let verbosity = read_verbosity(doc)?;
        let sync = read_sync(doc)?;
        let files = read_files(doc)?;
        Ok(FileConfig { verbosity, sync, files })
    }

    /// Reads the configuration out of the text of a configuration file.
    pub fn parse(text: &str) -> (outcome: Result<FileConfig, SyncError>)
        ensures
            parses_to(text@, outcome),
    {
        match parse_table(text) {
            Err(error) => Err(SyncError::InvalidConfig(ConfigFault::Syntax(error))),
            Ok(doc) => match FileConfig::from_table(&doc) {
                Ok(config) => Ok(config),
                Err(fault) => Err(SyncError::InvalidConfig(fault)),
            },
        }
    }

    /// Loads the configuration from `path`, of which the file system said
    /// `probe`.
    ///
    /// A path that is no regular file is refused; a file that could not be
    /// read gives the file system's error; contents are parsed.
    pub fn from_path(path: String, probe: FileProbe) -> (outcome: Result<FileConfig, SyncError>)
        ensures
            loads_to(path@, probe, outcome),
    {
        match probe {
            FileProbe::NotAFile => Err(SyncError::ConfigPathInvalid(path)),
            FileProbe::Unreadable(message) => Err(SyncError::Io(message)),
            FileProbe::Contents(text) => FileConfig::parse(text.as_str()),
        }
    }

    /// Loads the configuration from the conventional file, of which the
    /// file system said `probe`: nothing where there is no such file.
    pub fn default(probe: FileProbe) -> (outcome: Option<Result<FileConfig, SyncError>>)
        ensures
            probe is NotAFile <==> outcome is None,
            outcome matches Some(loaded) ==> loads_to(CONFIG_FILE_NAME@, probe, loaded),
    {
        match probe {
            FileProbe::NotAFile => None,
            found => Some(FileConfig::from_path(CONFIG_FILE_NAME.to_owned(), found)),
        }
    }
}

/// The file that a configuration is to be looked for in.
#[derive(Debug, PartialEq, Eq)]
pub enum ConfigTarget {
    /// The path that the command line gave.
    Explicit(String),
    /// The conventional file `name` in the directory `base`.
    Conventional { base: String, name: String },
}

/// The file that the configuration is to be looked for in: the one that
/// the command line names, else the conventional file in the base
/// directory, which is the current directory where none is given.
pub fn config_target(cli: &CliConfig) -> (target: ConfigTarget)
    ensures
        match cli.config {
            Some(path) => target matches ConfigTarget::Explicit(chosen) && chosen@ == path@,
            None => target matches ConfigTarget::Conventional { base, name } && name@
                == CONFIG_FILE_NAME@ && base@ == (match cli.path {
                Some(given) => given@,
                None => CURRENT_DIRECTORY@,
            }),
        },
{
    match &cli.config {
        Some(path) => ConfigTarget::Explicit(path.clone()),
        None => {
            let base = match &cli.path {
                Some(given) => given.clone(),
                None => CURRENT_DIRECTORY.to_owned(),
            };
            ConfigTarget::Conventional { base, name: CONFIG_FILE_NAME.to_owned() }
        },
    }
}

/// `outcome` is what loading the configuration for `cli` gives when the
/// file system said `probe` about the file that [`config_target`] names.
///
/// Only the conventional file may be missing: then no configuration is
/// loaded and nothing has failed. In every other case the outcome is that of
/// loading from the path.
pub open spec fn configured(cli: CliConfig, probe: FileProbe, outcome: Result<
    Option<FileConfig>,
    SyncError,
>) -> bool {
    if cli.config is None && probe is NotAFile {
        outcome matches Ok(None)
    } else {
        let path = match cli.config {
            Some(given) => given@,
            None => CONFIG_FILE_NAME@,
        };
        match outcome {
            Ok(Some(config)) => loads_to(path, probe, Ok(config)),
            Ok(None) => false,
            Err(error) => loads_to(path, probe, Err(error)),
        }
    }
}

/// Loads the configuration file for `cli`, of which the file system said
/// `probe`.
///
/// A file that the command line names has to be there. The conventional
/// file may be missing: then there is no file configuration, and no error.
pub fn load_config(cli: &CliConfig, probe: FileProbe) -> (outcome: Result<
    Option<FileConfig>,
    SyncError,
>)
    ensures
        configured(*cli, probe, outcome),
{
    match &cli.config {
        Some(path) => match FileConfig::from_path(path.clone(), probe) {
            Ok(config) => Ok(Some(config)),
            Err(error) => Err(error),
        },
        None => match FileConfig::default(probe) {
            None => Ok(None),
            Some(Ok(config)) => Ok(Some(config)),
            Some(Err(error)) => Err(error),
        },
    }
}

} // verus!
