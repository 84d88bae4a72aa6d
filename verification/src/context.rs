//! The context that a command runs in, and the directories it works on.

use vstd::prelude::*;
use crate::config::{
    empty_file_config, text_of, CliConfig, CliConfigView, FileConfig, FileConfigView, SubCommand,
    SyncConfig, SyncConfigView,
};
use crate::error::SyncError;
use crate::loader::CURRENT_DIRECTORY;
use crate::merge::{file_view, first_given, merge_with, merged};

verus! {

/// What a command is handed: the base directory, the command line merged
/// with the configuration file, and the configuration file itself.
#[derive(Debug)]
pub struct Context {
    /// The directory that holds the configuration file and the dotfiles.
    pub base: String,
    /// The command line's configuration, layered over the file's.
    pub cli: CliConfig,
    /// The file's configuration; the empty one where no file was loaded.
    pub file: FileConfig,
}

/// The mathematical value of a [`Context`].
pub struct ContextView {
    pub base: Seq<char>,
    pub cli: CliConfigView,
    pub file: FileConfigView,
}

impl View for Context {
    type V = ContextView;

    open spec fn view(&self) -> ContextView {
        ContextView { base: self.base@, cli: self.cli@, file: self.file@ }
    }
}

/// The context that a command line and an optional file configuration make.
pub open spec fn context_of(cli: CliConfigView, file: Option<FileConfigView>) -> ContextView {
    ContextView {
        base: match cli.path {
            Some(given) => given,
            None => CURRENT_DIRECTORY@,
        },
        cli: merged(cli, file),
        file: match file {
            Some(loaded) => loaded,
            None => empty_file_config(),
        },
    }
}

/// One source directory and one destination directory.
#[derive(Debug, PartialEq, Eq)]
pub struct SyncOp {
    /// Where the dotfiles are taken from.
    pub src: String,
    /// Where they go.
    pub dest: String,
}

/// The mathematical value of a [`SyncOp`].
pub struct SyncOpView {
    pub src: Seq<char>,
    pub dest: Seq<char>,
}

impl View for SyncOp {
    type V = SyncOpView;

    open spec fn view(&self) -> SyncOpView {
        SyncOpView { src: self.src@, dest: self.dest@ }
    }
}

/// The directories to work on: the source that is given, else the base
/// directory; the destination that is given, else the home directory. With
/// neither of the latter there is no destination.
pub open spec fn resolved(args: SyncConfigView, base: Seq<char>, home: Option<Seq<char>>) -> Result<
    SyncOpView,
    SyncError,
> {
    let src = match args.src {
        Some(given) => given,
        None => base,
    };
    match first_given(args.dest, home) {
        Some(dest) => Ok(SyncOpView { src, dest }),
        None => Err(SyncError::NoDestination),
    }
}

/// `outcome` is what `expected` asks for.
pub open spec fn resolves_to(outcome: Result<SyncOp, SyncError>, expected: Result<
    SyncOpView,
    SyncError,
>) -> bool {
    match expected {
        Ok(op) => outcome matches Ok(found) && found@ == op,
        Err(error) => outcome matches Err(found) && found == error,
    }
}

/// `op` with both of its directories tested: the source is looked at
/// first.
pub open spec fn validated(op: SyncOp, src_is_dir: bool, dest_is_dir: bool) -> Result<
    SyncOp,
    SyncError,
> {
    if !src_is_dir {
        Err(SyncError::SourceNotADirectory(op.src))
    } else if !dest_is_dir {
        Err(SyncError::DestinationNotADirectory(op.dest))
    } else {
        Ok(op)
    }
}

/// The three layers, end to end: the source is the command line's, else
/// the file's, else the base directory; the destination is the command
/// line's, else the file's, else the home directory; and there is no
/// destination exactly where none of the three gives one.
pub proof fn lemma_layers(
    cli: CliConfigView,
    file: FileConfigView,
    base: Seq<char>,
    home: Option<Seq<char>>,
)
    ensures
        ({
            let given = cli.command.sync();
            let outcome = resolved(merged(cli, Some(file)).command.sync(), base, home);
            &&& outcome is Err <==> given.dest is None && file.sync.dest is None && home is None
            &&& outcome is Err ==> outcome == Err::<SyncOpView, SyncError>(
                SyncError::NoDestination,
            )
            &&& outcome matches Ok(op) ==> {
                &&& op.src == (if given.src is Some {
                    given.src->0
                } else if file.sync.src is Some {
                    file.sync.src->0
                } else {
                    base
                })
                &&& op.dest == (if given.dest is Some {
                    given.dest->0
                } else if file.sync.dest is Some {
                    file.sync.dest->0
                } else {
                    home->0
                })
            }
        }),
{
}

/// Calls `dirs::home_dir` and turns the path into a string.
///
/// Nothing is claimed of the result: it depends on the user and the
/// machine.
#[verifier::external_body]
fn home_directory() -> Option<String> {
    match dirs::home_dir() {
        Some(path) => Some(path.to_string_lossy().into_owned()),
        None => None,
    }
}

/// The directories to work on, given what the command line and the file
/// name, the base directory and the home directory.
pub fn resolve(args: &SyncConfig, base: &str, home: Option<String>) -> (outcome: Result<
    SyncOp,
    SyncError,
>)
    ensures
        resolves_to(outcome, resolved(args@, base@, text_of(home))),
{
    let src = match &args.src {
        Some(given) => given.clone(),
        None => base.to_owned(),
    };
    let dest = match &args.dest {
        Some(given) => Some(given.clone()),
        None => home,
    };
    match dest {
        Some(dest) => Ok(SyncOp { src, dest }),
        None => Err(SyncError::NoDestination),
    }
}

impl SyncOp {
    /// Lets the operation through if both of its paths are directories.
    pub fn validate(self, src_is_dir: bool, dest_is_dir: bool) -> (outcome: Result<
        SyncOp,
        SyncError,
    >)
        ensures
            outcome == validated(self, src_is_dir, dest_is_dir),
    {
        if !src_is_dir {
            Err(SyncError::SourceNotADirectory(self.src))
        } else if !dest_is_dir {
            Err(SyncError::DestinationNotADirectory(self.dest))
        } else {
            Ok(self)
        }
    }
}

impl Context {
    /// The context for a command line and the file configuration that was
    /// loaded for it, if one was.
    pub fn new(cli: CliConfig, file: Option<FileConfig>) -> (context: Context)
        ensures
            context@ == context_of(cli@, file_view(file)),
    {
        let base = match &cli.path {
            Some(given) => given.clone(),
            None => CURRENT_DIRECTORY.to_owned(),
        };
        match file {
            Some(loaded) => {
                let cli = merge_with(cli, &loaded);
                Context { base, cli, file: loaded }
            },
            None => Context { base, cli, file: FileConfig::empty() },
        }
    }

    /// The directories that the command asks for.
    pub open spec fn args(self) -> SyncConfigView {
        self@.cli.command.sync()
    }

    /// The directories to work on when the home directory is `home`.
    pub fn resolve(&self, home: Option<String>) -> (outcome: Result<SyncOp, SyncError>)
        ensures
            resolves_to(outcome, resolved(self.args(), self.base@, text_of(home))),
    {
        match &self.cli.command {
            SubCommand::SyncConfig(args) => resolve(args, self.base.as_str(), home),
        }
    }

    /// The directories to work on, with the home directory of the user who
    /// runs the program.
    ///
    /// Whatever that directory is, and whether or not there is one, the
    /// outcome is that of [`Context::resolve`] for some home directory; with
    /// a destination given, it does not depend on the home directory at all.
    pub fn sync_op(&self) -> (outcome: Result<SyncOp, SyncError>)
        ensures
            exists|home: Option<Seq<char>>| #[trigger]
                resolves_to(outcome, resolved(self.args(), self.base@, home)),
            self.args().dest is Some ==> resolves_to(
                outcome,
                resolved(self.args(), self.base@, None),
            ),
    {
        let home = home_directory();
        self.resolve(home)
    }
}

} // verus!
