//! Layering the command line over the configuration file.
//!
//! A field that the command line sets wins; one that it leaves unset is
//! taken from the file; one that neither sets stays unset.

use vstd::prelude::*;
use crate::config::{
    copy_text, text_of, CliConfig, CliConfigView, FileConfig, FileConfigView, SubCommand,
    SubCommandView, SyncConfig, SyncConfigView,
};

verus! {

/// The first value where it is given, else the second.
pub open spec fn first_given(first: Option<Seq<char>>, second: Option<Seq<char>>) -> Option<
    Seq<char>,
> {
    if first is Some {
        first
    } else {
        second
    }
}

/// The verbosity in effect: the command line's count where it is not zero,
/// else the file's value, else zero.
pub open spec fn merged_verbosity(cli: u8, file: Option<u8>) -> u8 {
    if cli != 0 {
        cli
    } else {
        match file {
            Some(level) => level,
            None => 0,
        }
    }
}

/// The directories in effect.
pub open spec fn merged_sync(cli: SyncConfigView, file: SyncConfigView) -> SyncConfigView {
    SyncConfigView {
        src: first_given(cli.src, file.src),
        dest: first_given(cli.dest, file.dest),
    }
}

/// The configuration in effect when `cli` is layered over `file`.
pub open spec fn merged(cli: CliConfigView, file: Option<FileConfigView>) -> CliConfigView {
    match file {
        None => cli,
        Some(f) => CliConfigView {
            command: SubCommandView::SyncConfig(merged_sync(cli.command.sync(), f.sync)),
            config: cli.config,
            path: cli.path,
            verbosity: merged_verbosity(cli.verbosity, f.verbosity),
        },
    }
}

/// The value of an optional file configuration.
pub open spec fn file_view(file: Option<FileConfig>) -> Option<FileConfigView> {
    match file {
        Some(f) => Some(f@),
        None => None,
    }
}

/// Merging with no file configuration changes nothing.
pub proof fn lemma_merge_identity(cli: CliConfigView)
    ensures
        merged(cli, None) == cli,
{
}

/// A destination given on the command line is the merged destination,
/// whatever the file says.
pub proof fn lemma_merge_keeps_cli_destination(cli: CliConfigView, file: FileConfigView)
    requires
        cli.command.sync().dest is Some,
    ensures
        merged(cli, Some(file)).command.sync().dest == cli.command.sync().dest,
{
}

/// A source given on the command line is the merged source, whatever the
/// file says.
pub proof fn lemma_merge_keeps_cli_source(cli: CliConfigView, file: FileConfigView)
    requires
        cli.command.sync().src is Some,
    ensures
        merged(cli, Some(file)).command.sync().src == cli.command.sync().src,
{
}

/// What the command line leaves unset is the file's.
pub proof fn lemma_merge_falls_back_to_file(cli: CliConfigView, file: FileConfigView)
    ensures
        cli.command.sync().src is None ==> merged(cli, Some(file)).command.sync().src
            == file.sync.src,
        cli.command.sync().dest is None ==> merged(cli, Some(file)).command.sync().dest
            == file.sync.dest,
        cli.verbosity == 0 && file.verbosity is Some ==> merged(cli, Some(file)).verbosity
            == file.verbosity->0,
{
}

/// Merging twice with the same file gives what merging once gives.
pub proof fn lemma_merge_idempotent(cli: CliConfigView, file: FileConfigView)
    ensures
        merged(merged(cli, Some(file)), Some(file)) == merged(cli, Some(file)),
{
}

/// The first text where it is given, else a copy of the second.
fn first_text(first: Option<String>, second: &Option<String>) -> (chosen: Option<String>)
    ensures
        text_of(chosen) == first_given(text_of(first), text_of(*second)),
        first is Some ==> chosen == first,
{
    match first {
        Some(text) => Some(text),
        None => copy_text(second),
    }
}

/// Layers `cli` over `file`, which is left as it is.
pub fn merge_with(cli: CliConfig, file: &FileConfig) -> (merged_config: CliConfig)
    ensures
        merged_config@ == merged(cli@, Some(file@)),
{
    let CliConfig { command, config, path, verbosity } = cli;
    let SubCommand::SyncConfig(args) = command;
    let sync = SyncConfig {
        src: first_text(args.src, &file.sync.src),
        dest: first_text(args.dest, &file.sync.dest),
    };
    let level = if verbosity != 0 {
        verbosity
    } else {
        match file.verbosity {
            Some(level) => level,
            None => 0,
        }
    };
    CliConfig { command: SubCommand::SyncConfig(sync), config, path, verbosity: level }
}

/// Layers the command line's configuration over the file's, where there is
/// one.
pub fn merge_args(cli_config: CliConfig, file_config_o: Option<FileConfig>) -> (merged_config:
    CliConfig)
    ensures
        merged_config@ == merged(cli_config@, file_view(file_config_o)),
        file_config_o is None ==> merged_config == cli_config,
{
    match file_config_o {
        None => cli_config,
        Some(file_config) => merge_with(cli_config, &file_config),
    }
}

} // verus!
