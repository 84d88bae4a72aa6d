//! Commands, the actions they plan, and the order in which actions run.
//!
//! A command is prepared once: it looks at what the file system holds and
//! plans actions. The actions then run one after the other, and the first
//! failure ends the run. Touching the file system is the caller's part: the
//! listing of the source directory comes in as a value, and so does the
//! outcome of each action.

use vstd::prelude::*;
use crate::config::SubCommand;
use crate::context::Context;
use crate::error::SyncError;

verus! {

/// One file of the source directory and the place it is to appear at.
#[derive(Debug, PartialEq, Eq)]
pub struct Link {
    /// The file in the source directory.
    pub src: String,
    /// The path it is to appear at.
    pub dest: String,
}

/// One unit of work that a command has planned.
#[derive(Debug, PartialEq, Eq)]
pub enum Action {
    /// Make the link.
    Link(Link),
}

/// What preparing a command gives: lines to show, and actions to run.
#[derive(Debug, PartialEq, Eq)]
pub struct Plan {
    /// The lines to show to the user, in order.
    pub report: Vec<String>,
    /// The actions to run, in order.
    pub actions: Vec<Action>,
}

/// The commands there are.
#[derive(Debug, PartialEq, Eq)]
pub enum Command {
    /// Synchronise the dotfiles.
    Sync,
}

impl Command {
    /// The command that the command line asks for.
    pub fn of(command: &SubCommand) -> (chosen: Command)
        ensures
            chosen == Command::Sync,
    {
        match command {
            SubCommand::SyncConfig(_) => Command::Sync,
        }
    }

    /// Plans the command's actions from the listing of the source
    /// directory.
    ///
    /// A listing that failed gives that failure. Synchronising reports the
    /// entries of the source directory as they were listed, and plans no
    /// action for any of them; the context has no part in the plan yet.
    pub fn prepare(&self, _context: &Context, listing: Result<Vec<String>, String>) -> (outcome:
        Result<Plan, SyncError>)
        ensures
            match listing {
                Ok(entries) => outcome matches Ok(plan) && plan.report == entries
                    && plan.actions@.len() == 0,
                Err(message) => outcome matches Err(SyncError::Io(carried)) && carried == message,
            },
    {
        match self {
            Command::Sync => match listing {
                Ok(entries) => Ok(Plan { report: entries, actions: Vec::new() }),
                Err(message) => Err(SyncError::Io(message)),
            },
        }
    }
}

/// The state of a run: the actions, how many of them have succeeded, and
/// the failure that ended the run, if one did.
pub struct Progress {
    pub actions: Seq<Action>,
    pub done: nat,
    pub failure: Option<SyncError>,
}

impl Progress {
    /// An action is waiting to run: nothing has failed and not all are done.
    pub open spec fn pending(self) -> bool {
        self.failure is None && self.done < self.actions.len()
    }

    /// The state after the waiting action ended with `outcome`. Where no
    /// action is waiting, nothing changes.
    pub open spec fn after(self, outcome: Result<(), SyncError>) -> Progress {
        if !self.pending() {
            self
        } else {
            match outcome {
                Ok(_) => Progress { done: self.done + 1, ..self },
                Err(error) => Progress { failure: Some(error), ..self },
            }
        }
    }

    /// How the run ended, once no action is waiting.
    pub open spec fn result(self) -> Option<Result<(), SyncError>> {
        if self.pending() {
            None
        } else {
            match self.failure {
                Some(error) => Some(Err(error)),
                None => Some(Ok(())),
            }
        }
    }
}

/// A failure ends the run: no action is waiting after it, the result is
/// that failure, and no later outcome changes the state.
pub proof fn lemma_failure_ends_run(
    state: Progress,
    error: SyncError,
    later: Result<(), SyncError>,
)
    requires
        state.pending(),
    ensures
        !state.after(Err(error)).pending(),
        state.after(Err(error)).result() == Some(Err::<(), SyncError>(error)),
        state.after(Err(error)).after(later) == state.after(Err(error)),
        state.after(Err(error)).done == state.done,
{
}

/// A run that has ended stays as it is, whatever is reported to it.
pub proof fn lemma_ended_run_is_final(state: Progress, later: Result<(), SyncError>)
    requires
        !state.pending(),
    ensures
        state.after(later) == state,
        state.after(later).result() == state.result(),
{
}

/// A success moves the run on by exactly one action and leaves the run
/// without failure.
pub proof fn lemma_success_moves_on(state: Progress)
    requires
        state.pending(),
    ensures
        state.after(Ok(())).done == state.done + 1,
        state.after(Ok(())).failure is None,
        state.after(Ok(())).actions == state.actions,
{
}

/// A run of no actions has ended in success before anything is reported.
pub proof fn lemma_empty_run_succeeds(state: Progress)
    requires
        state.actions.len() == 0,
        state.failure is None,
    ensures
        !state.pending(),
        state.result() == Some(Ok::<(), SyncError>(())),
{
}

/// Runs planned actions in order and stops at the first failure.
#[derive(Debug)]
pub struct Pipeline {
    actions: Vec<Action>,
    done: usize,
    failure: Option<SyncError>,
}

impl View for Pipeline {
    type V = Progress;

    closed spec fn view(&self) -> Progress {
        Progress { actions: self.actions@, done: self.done as nat, failure: self.failure }
    }
}

impl Pipeline {
    #[verifier::type_invariant]
    spec fn well_formed(&self) -> bool {
        self.done <= self.actions@.len()
    }

    /// A run of `actions`, none of which has run yet.
    pub fn new(actions: Vec<Action>) -> (pipeline: Pipeline)
        ensures
            pipeline@ == (Progress { actions: actions@, done: 0, failure: None }),
    {
        Pipeline { actions, done: 0, failure: None }
    }

    /// The action that is to run next; none once the run has ended.
    pub fn next(&self) -> (action: Option<&Action>)
        ensures
            self@.pending() <==> action is Some,
            action matches Some(waiting) ==> *waiting == self@.actions[self@.done as int],
    {
        proof {
            use_type_invariant(self);
        }
        if self.failure.is_none() && self.done < self.actions.len() {
            Some(&self.actions[self.done])
        } else {
            None
        }
    }

    /// Takes note of how the action that [`Pipeline::next`] handed out
    /// ended.
    pub fn record(&mut self, outcome: Result<(), SyncError>)
        ensures
            final(self)@ == old(self)@.after(outcome),
    {
        proof {
            use_type_invariant(&*self);
        }
        if self.failure.is_none() && self.done < self.actions.len() {
            match outcome {
                Ok(_) => {
                    self.done = self.done + 1;
                },
                Err(error) => {
                    self.failure = Some(error);
                },
            }
        }
    }

    /// How the run ended; nothing while an action is waiting.
    pub fn result(self) -> (outcome: Option<Result<(), SyncError>>)
        ensures
            outcome == self@.result(),
    {
        proof {
            use_type_invariant(&self);
        }
        if self.failure.is_none() && self.done < self.actions.len() {
            None
        } else {
            match self.failure {
                Some(error) => Some(Err(error)),
                None => Some(Ok(())),
            }
        }
    }
}

} // verus!
