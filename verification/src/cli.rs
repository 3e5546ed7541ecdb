//! The control flow of the CLI tool installation.
//!
//! Installing the tool is a short sequence of steps against the outside
//! world: probe whether the local install directory exists, remove it if it
//! does, create it afresh, then run the package manager into it. The flow is
//! a step function over explicit phases; a caller performs the action each
//! phase asks for and reports how it went. Alongside the phase, a model of
//! the install directory's contents tracks what each outcome means for the
//! directory on disk, and the theorem at the end pins the directory down at
//! every phase: in particular, a failed creation leaves it absent, and a
//! completed run leaves it holding only the freshly installed tool.

use vstd::prelude::*;

verus! {

/// What the install directory on disk is known to hold.
#[derive(Clone, Copy, Debug, PartialEq, Eq)]
pub enum DirState {
    /// Nothing is known: the flow has not probed it yet, or a removal
    /// failed partway through.
    Unknown,
    /// The directory does not exist.
    Missing,
    /// The directory exists and is empty.
    Empty,
    /// The directory exists and holds only the freshly installed tool.
    ToolOnly,
}

/// Which step of the flow went wrong.
#[derive(Clone, Copy, Debug, PartialEq, Eq)]
pub enum CliFailure {
    /// The stale install directory could not be removed.
    RemoveFailed,
    /// The install directory could not be created.
    CreateFailed,
    /// The package manager could not be run.
    InstallerFailed,
    /// The caller reported an outcome that the phase did not ask for.
    MismatchedEvent,
}

/// Where the flow stands.
#[derive(Clone, Copy, Debug, PartialEq, Eq)]
pub enum CliPhase {
    /// About to probe whether the install directory exists.
    Probe,
    /// The directory exists and is about to be removed.
    Remove,
    /// The directory is absent and is about to be created.
    Create,
    /// The directory is freshly created; the package manager is about to
    /// run.
    RunInstaller,
    /// The tool was installed.
    Done,
    /// A step failed; the flow stops.
    Failed(CliFailure),
}

/// The outcome of one step, reported by the caller that performed it.
#[derive(Clone, Copy, Debug, PartialEq, Eq)]
pub enum CliEvent {
    /// Whether the install directory existed.
    Probed(bool),
    /// Whether removing it succeeded.
    Removed(bool),
    /// Whether creating it succeeded.
    Created(bool),
    /// Whether the package manager ran.
    InstallerRan(bool),
}

/// The outside action a phase asks for.
#[derive(Clone, Copy, Debug, PartialEq, Eq)]
pub enum CliAction {
    /// Check whether the install directory exists.
    ProbeDir,
    /// Remove the install directory and everything under it.
    RemoveDir,
    /// Create the install directory.
    CreateDir,
    /// Run the package manager, installing into the install directory.
    RunInstaller,
}

/// The phase the flow moves to when `e` is reported in phase `p`.
pub open spec fn spec_cli_step(p: CliPhase, e: CliEvent) -> CliPhase {
    match (p, e) {
        (CliPhase::Probe, CliEvent::Probed(true)) => CliPhase::Remove,
        (CliPhase::Probe, CliEvent::Probed(false)) => CliPhase::Create,
        (CliPhase::Remove, CliEvent::Removed(true)) => CliPhase::Create,
        (CliPhase::Remove, CliEvent::Removed(false)) => CliPhase::Failed(CliFailure::RemoveFailed),
        (CliPhase::Create, CliEvent::Created(true)) => CliPhase::RunInstaller,
        (CliPhase::Create, CliEvent::Created(false)) => CliPhase::Failed(CliFailure::CreateFailed),
        (CliPhase::RunInstaller, CliEvent::InstallerRan(true)) => CliPhase::Done,
        (CliPhase::RunInstaller, CliEvent::InstallerRan(false)) => CliPhase::Failed(
            CliFailure::InstallerFailed,
        ),
        _ => CliPhase::Failed(CliFailure::MismatchedEvent),
    }
}

/// What the reported outcome means for the install directory on disk. A
/// failed removal may have deleted part of the contents; a failed creation
/// creates nothing; a package manager that could not run changes nothing.
pub open spec fn spec_dir_after(d: DirState, p: CliPhase, e: CliEvent) -> DirState {
    match (p, e) {
        (CliPhase::Probe, CliEvent::Probed(true)) => d,
        (CliPhase::Probe, CliEvent::Probed(false)) => DirState::Missing,
        (CliPhase::Remove, CliEvent::Removed(true)) => DirState::Missing,
        (CliPhase::Remove, CliEvent::Removed(false)) => DirState::Unknown,
        (CliPhase::Create, CliEvent::Created(true)) => DirState::Empty,
        (CliPhase::Create, CliEvent::Created(false)) => d,
        (CliPhase::RunInstaller, CliEvent::InstallerRan(true)) => DirState::ToolOnly,
        (CliPhase::RunInstaller, CliEvent::InstallerRan(false)) => d,
        _ => d,
    }
}

/// Moves the flow one step on.
pub fn cli_step(p: CliPhase, e: CliEvent) -> (r: CliPhase)
    ensures
        r == spec_cli_step(p, e),
{
    match (p, e) {
        (CliPhase::Probe, CliEvent::Probed(true)) => CliPhase::Remove,
        (CliPhase::Probe, CliEvent::Probed(false)) => CliPhase::Create,
        (CliPhase::Remove, CliEvent::Removed(true)) => CliPhase::Create,
        (CliPhase::Remove, CliEvent::Removed(false)) => CliPhase::Failed(CliFailure::RemoveFailed),
        (CliPhase::Create, CliEvent::Created(true)) => CliPhase::RunInstaller,
        (CliPhase::Create, CliEvent::Created(false)) => CliPhase::Failed(CliFailure::CreateFailed),
        (CliPhase::RunInstaller, CliEvent::InstallerRan(true)) => CliPhase::Done,
        (CliPhase::RunInstaller, CliEvent::InstallerRan(false)) => CliPhase::Failed(
            CliFailure::InstallerFailed,
        ),
        _ => CliPhase::Failed(CliFailure::MismatchedEvent),
    }
}

/// The action a phase asks the caller to perform, or `None` once the flow
/// is over.
pub fn cli_action(p: CliPhase) -> (a: Option<CliAction>)
    ensures
        match p {
            CliPhase::Probe => a == Some(CliAction::ProbeDir),
            CliPhase::Remove => a == Some(CliAction::RemoveDir),
            CliPhase::Create => a == Some(CliAction::CreateDir),
            CliPhase::RunInstaller => a == Some(CliAction::RunInstaller),
            CliPhase::Done => a is None,
            CliPhase::Failed(_) => a is None,
        },
{
    match p {
        CliPhase::Probe => Some(CliAction::ProbeDir),
        CliPhase::Remove => Some(CliAction::RemoveDir),
        CliPhase::Create => Some(CliAction::CreateDir),
        CliPhase::RunInstaller => Some(CliAction::RunInstaller),
        CliPhase::Done => None,
        CliPhase::Failed(_) => None,
    }
}

/// The phase and the modelled directory contents after the given step
/// outcomes, starting at the probe with nothing known of the directory.
/// Outcomes reported after the flow is over change nothing.
pub open spec fn run_cli(events: Seq<CliEvent>) -> (CliPhase, DirState)
    decreases events.len(),
{
    if events.len() == 0 {
        (CliPhase::Probe, DirState::Unknown)
    } else {
        let prev = run_cli(events.drop_last());
        if prev.0 is Done || prev.0 is Failed {
            prev
        } else {
            (spec_cli_step(prev.0, events.last()), spec_dir_after(prev.1, prev.0, events.last()))
        }
    }
}

/// However the individual steps turn out, the flow keeps the install
/// directory pinned down at every phase: it is absent whenever the flow is
/// about to create it, and stays absent when that creation fails; it is
/// freshly created and empty while the package manager is about to run, and
/// stays so when the package manager cannot run; and once the flow is done
/// it holds only the newly installed tool.
pub proof fn lemma_cli_install_dir(events: Seq<CliEvent>)
    ensures
        run_cli(events).0 is Create ==> run_cli(events).1 is Missing,
        run_cli(events).0 == CliPhase::Failed(CliFailure::CreateFailed) ==> run_cli(
            events,
        ).1 is Missing,
        run_cli(events).0 is RunInstaller ==> run_cli(events).1 is Empty,
        run_cli(events).0 == CliPhase::Failed(CliFailure::InstallerFailed) ==> run_cli(
            events,
        ).1 is Empty,
        run_cli(events).0 is Done ==> run_cli(events).1 is ToolOnly,
    decreases events.len(),
{
    if events.len() > 0 {
        lemma_cli_install_dir(events.drop_last());
    }
}

} // verus!
