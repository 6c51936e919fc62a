//! Publishing the content directory through version control: which command
//! to run next, and when the whole has succeeded.
//!
//! The commands are run elsewhere. This module decides, from how one command
//! ended, what follows.

use crate::error::AdminError;
use vstd::prelude::*;
use vstd::string::StringExecFns;

verus! {

/// The commands of a synchronisation, in the order in which they are run.
#[derive(Debug, Clone, Copy, PartialEq, Eq, Structural)]
pub enum SyncStep {
    /// Stage every change.
    Stage,
    /// Commit what is staged, with the message of the request.
    Commit,
    /// Push to the remote.
    Push,
}

/// How a command ended.
#[derive(Debug, Clone, Copy, PartialEq, Eq, Structural)]
pub enum CommandOutcome {
    /// The command could not be started.
    NotRun,
    /// The command ran and exited, successfully or not.
    Exited { success: bool },
}

/// What follows a command.
#[derive(Debug, Clone, Copy, PartialEq, Eq, Structural)]
pub enum SyncNext {
    /// Run this command next.
    Run(SyncStep),
    /// The synchronisation has succeeded.
    Synced,
    /// The synchronisation has failed, with this error.
    Failed(AdminError),
}

/// What follows `step` once it has ended with `outcome`.
///
/// Staging must have run and succeeded. A commit may fail, as it does when
/// there is nothing to commit. The push must have run and succeeded.
pub open spec fn after_step(step: SyncStep, outcome: CommandOutcome) -> SyncNext {
    match step {
        SyncStep::Stage => match outcome {
            CommandOutcome::Exited { success: true } => SyncNext::Run(SyncStep::Commit),
            _ => SyncNext::Failed(AdminError::SyncError),
        },
        SyncStep::Commit => SyncNext::Run(SyncStep::Push),
        SyncStep::Push => match outcome {
            CommandOutcome::Exited { success: true } => SyncNext::Synced,
            _ => SyncNext::Failed(AdminError::SyncError),
        },
    }
}

/// How a synchronisation ends whose commands end as given, each decided by
/// [`after_step`]. The outcome given for a command that is not reached does
/// not enter.
pub open spec fn sync_result(
    staged: CommandOutcome,
    committed: CommandOutcome,
    pushed: CommandOutcome,
) -> Result<(), AdminError> {
    match after_step(SyncStep::Stage, staged) {
        SyncNext::Run(second) => match after_step(second, committed) {
            SyncNext::Run(third) => match after_step(third, pushed) {
                SyncNext::Run(_) => Err(AdminError::SyncError),
                SyncNext::Synced => Ok(()),
                SyncNext::Failed(error) => Err(error),
            },
            SyncNext::Synced => Ok(()),
            SyncNext::Failed(error) => Err(error),
        },
        SyncNext::Synced => Ok(()),
        SyncNext::Failed(error) => Err(error),
    }
}

/// The arguments of `git` for a step.
pub open spec fn arguments_of(step: SyncStep, message: Seq<char>) -> Seq<Seq<char>> {
    match step {
        SyncStep::Stage => seq!["add"@, "."@],
        SyncStep::Commit => seq!["commit"@, "-m"@, message],
        SyncStep::Push => seq!["push"@],
    }
}

/// The command that a synchronisation begins with.
pub fn first_step() -> (step: SyncStep)
    ensures
        step == SyncStep::Stage,
{
    SyncStep::Stage
}

/// Decides what follows `step` once it has ended with `outcome`.
pub fn next_step(step: SyncStep, outcome: CommandOutcome) -> (next: SyncNext)
    ensures
        next == after_step(step, outcome),
{
    match step {
        SyncStep::Stage => match outcome {
            CommandOutcome::Exited { success } => {
                if success {
                    SyncNext::Run(SyncStep::Commit)
                } else {
                    SyncNext::Failed(AdminError::SyncError)
                }
            },
            CommandOutcome::NotRun => SyncNext::Failed(AdminError::SyncError),
        },
        SyncStep::Commit => SyncNext::Run(SyncStep::Push),
        SyncStep::Push => match outcome {
            CommandOutcome::Exited { success } => {
                if success {
                    SyncNext::Synced
                } else {
                    SyncNext::Failed(AdminError::SyncError)
                }
            },
            CommandOutcome::NotRun => SyncNext::Failed(AdminError::SyncError),
        },
    }
}

/// The arguments with which `git` is run for `step`, in the project's root
/// directory.
pub fn git_arguments(step: SyncStep, message: &str) -> (arguments: Vec<String>)
    ensures
        arguments.deep_view() == arguments_of(step, message@),
{
    let mut arguments: Vec<String> = Vec::new();
    match step {
        SyncStep::Stage => {
            arguments.push(String::from_str("add"));
            arguments.push(String::from_str("."));
        },
        SyncStep::Commit => {
            arguments.push(String::from_str("commit"));
            arguments.push(String::from_str("-m"));
            arguments.push(String::from_str(message));
        },
        SyncStep::Push => {
            arguments.push(String::from_str("push"));
        },
    }
    arguments
}

/// A synchronisation succeeds exactly where staging and the push both ran
/// and exited successfully, and fails with [`AdminError::SyncError`]
/// everywhere else. How the commit ends changes nothing.
pub proof fn sync_succeeds_with_staging_and_push(
    staged: CommandOutcome,
    committed: CommandOutcome,
    pushed: CommandOutcome,
)
    ensures
        sync_result(staged, committed, pushed) == if staged == (CommandOutcome::Exited {
            success: true,
        }) && pushed == (CommandOutcome::Exited { success: true }) {
            Ok::<(), AdminError>(())
        } else {
            Err::<(), AdminError>(AdminError::SyncError)
        },
{
}

/// The commands are run in the order staging, commit, push. Staging is
/// followed by the commit where it succeeded, and ends the synchronisation
/// with [`AdminError::SyncError`] where it failed or could not be started.
/// The commit is always followed by the push, and nothing follows the push.
pub proof fn sync_runs_in_order(outcome: CommandOutcome)
    ensures
        after_step(SyncStep::Stage, outcome) == if outcome == (CommandOutcome::Exited {
            success: true,
        }) {
            SyncNext::Run(SyncStep::Commit)
        } else {
            SyncNext::Failed(AdminError::SyncError)
        },
        after_step(SyncStep::Commit, outcome) == SyncNext::Run(SyncStep::Push),
        !(after_step(SyncStep::Push, outcome) is Run),
{
}

} // verus!
