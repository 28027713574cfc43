use vstd::prelude::*;

verus! {

#[verifier::external_type_specification]
#[verifier::external_body]
pub struct ExIoError(std::io::Error);

/// Why building or running a sandbox failed.
#[derive(Debug)]
pub enum SandboxError {
    /// The deadline passed before the child exited.
    Elapsed,
    /// Waiting for the child, or collecting its output, failed.
    IOError(std::io::Error),
    /// The overlay could not be mounted or its scratch directories made.
    MountError(std::io::Error),
    /// A resource group could not be created, limited or joined.
    ResourceGroupError(std::io::Error),
    /// The child could not be started, or could not enter its new root.
    SpawnError(std::io::Error),
}

/// Where a run stands.
#[derive(Clone, Copy, Debug, PartialEq, Eq, Structural)]
pub enum RunState {
    Prepared,
    Running,
    Completed,
    TimedOut,
    Failed,
}

/// What happened to a running child.
#[derive(Clone, Copy, Debug, PartialEq, Eq, Structural)]
pub enum RunEvent {
    /// The child was started.
    Launched,
    /// The wait resolved: the child exited and its result was collected.
    Exited,
    /// The wait resolved with an error.
    WaitFailed,
    /// The deadline fired before the wait resolved.
    DeadlineFired,
}

/// What the driver of a run does next.
#[derive(Clone, Copy, Debug, PartialEq, Eq, Structural)]
pub enum RunAction {
    /// Wait for the child; with a deadline when one is given.
    Wait,
    /// Read the usage counters: the wait is over.
    SampleUsage,
    /// Kill the child and its group members, then read the counters.
    KillThenSample,
    /// Nothing: the event does not apply in this state.
    Ignore,
}

pub open spec fn is_final(s: RunState) -> bool {
    s == RunState::Completed || s == RunState::TimedOut || s == RunState::Failed
}

/// The run's transitions: Prepared, then Running, then one of Completed,
/// TimedOut or Failed. Any other pair leaves the state as it is.
pub open spec fn step_spec(s: RunState, e: RunEvent) -> (RunState, RunAction) {
    match (s, e) {
        (RunState::Prepared, RunEvent::Launched) => (RunState::Running, RunAction::Wait),
        (RunState::Running, RunEvent::Exited) => (RunState::Completed, RunAction::SampleUsage),
        (RunState::Running, RunEvent::WaitFailed) => (RunState::Failed, RunAction::SampleUsage),
        (RunState::Running, RunEvent::DeadlineFired) => (
            RunState::TimedOut,
            RunAction::KillThenSample,
        ),
        _ => (s, RunAction::Ignore),
    }
}

/// Takes one event: the next state and what to do.
pub fn step(s: RunState, e: RunEvent) -> (r: (RunState, RunAction))
    ensures
        r == step_spec(s, e),
{
    match (s, e) {
        (RunState::Prepared, RunEvent::Launched) => (RunState::Running, RunAction::Wait),
        (RunState::Running, RunEvent::Exited) => (RunState::Completed, RunAction::SampleUsage),
        (RunState::Running, RunEvent::WaitFailed) => (RunState::Failed, RunAction::SampleUsage),
        (RunState::Running, RunEvent::DeadlineFired) => (
            RunState::TimedOut,
            RunAction::KillThenSample,
        ),
        _ => (s, RunAction::Ignore),
    }
}

/// A finished run is never left again, and usage is read only once the wait
/// is over: every action that reads the counters ends the run.
pub proof fn lemma_final_states_stay(s: RunState, e: RunEvent)
    ensures
        is_final(s) ==> step_spec(s, e) == (s, RunAction::Ignore),
        (step_spec(s, e).1 == RunAction::SampleUsage || step_spec(s, e).1
            == RunAction::KillThenSample) ==> s == RunState::Running && is_final(
            step_spec(s, e).0,
        ),
{
}

/// What the result of a run is, given how the wait ended: `None` when the
/// deadline fired first, else what the wait returned.
pub fn settle<T>(waited: Option<Result<T, std::io::Error>>) -> (r: Result<T, SandboxError>)
    ensures
        waited.is_none() <==> r == Err::<T, SandboxError>(SandboxError::Elapsed),
        waited matches Some(Ok(v)) ==> r == Ok::<T, SandboxError>(v),
        waited matches Some(Err(e)) ==> r == Err::<T, SandboxError>(SandboxError::IOError(e)),
{
    match waited {
        None => Err(SandboxError::Elapsed),
        Some(Ok(v)) => Ok(v),
        Some(Err(e)) => Err(SandboxError::IOError(e)),
    }
}

} // verus!
