//! Abstract server status and its reconciliation with the runtime's container state.
use vstd::prelude::*;

verus! {

/// The orchestrator's status of a server.
#[derive(Debug, Clone, Copy, PartialEq, Eq, Structural)]
pub enum ServerStatus {
    Stopped,
    Starting,
    Installing,
    Running,
    Stopping,
    Error,
}

/// The state of a container as the runtime reports it on inspection.
#[derive(Debug, Clone, Copy, PartialEq, Eq, Structural)]
pub enum ContainerState {
    Empty,
    Created,
    Running,
    Paused,
    Restarting,
    Removing,
    Exited,
    Dead,
}

/// The status that a reported container state stands for; no report means stopped.
pub open spec fn reconciled(state: Option<ContainerState>) -> ServerStatus {
    match state {
        Some(ContainerState::Running) => ServerStatus::Running,
        Some(ContainerState::Restarting) => ServerStatus::Starting,
        Some(ContainerState::Removing) => ServerStatus::Stopping,
        Some(ContainerState::Dead) => ServerStatus::Error,
        _ => ServerStatus::Stopped,
    }
}

/// Maps a runtime-reported container state to a server status.
pub fn reconcile(state: Option<ContainerState>) -> (r: ServerStatus)
    ensures
        r == reconciled(state),
{
    match state {
        Some(ContainerState::Running) => ServerStatus::Running,
        Some(ContainerState::Created) => ServerStatus::Stopped,
        Some(ContainerState::Restarting) => ServerStatus::Starting,
        Some(ContainerState::Paused) => ServerStatus::Stopped,
        Some(ContainerState::Removing) => ServerStatus::Stopping,
        Some(ContainerState::Exited) => ServerStatus::Stopped,
        Some(ContainerState::Dead) => ServerStatus::Error,
        Some(ContainerState::Empty) | None => ServerStatus::Stopped,
    }
}

/// What the runtime answered when asked about the main container.
#[derive(Debug, Clone, Copy, PartialEq, Eq, Structural)]
pub enum Inspection {
    /// The inspection succeeded; the state may be absent from the answer.
    Found(Option<ContainerState>),
    /// The container could not be inspected (it is gone, or the call failed).
    Failed,
}

/// The status that the runtime's answer stands for: a failed inspection reads as stopped.
pub open spec fn inspected_status(i: Inspection) -> ServerStatus {
    match i {
        Inspection::Found(s) => reconciled(s),
        Inspection::Failed => ServerStatus::Stopped,
    }
}

/// Status of the main container from an inspection, tolerating a missing container.
pub fn status_from_inspection(i: Inspection) -> (r: ServerStatus)
    ensures
        r == inspected_status(i),
{
    match i {
        Inspection::Found(s) => reconcile(s),
        Inspection::Failed => ServerStatus::Stopped,
    }
}

/// The status a query reports: a persisted `Installing` is sticky; otherwise the main
/// container decides, and a server without one is stopped.
pub open spec fn queried_status(persisted: ServerStatus, has_container: bool, runtime: ServerStatus) -> ServerStatus {
    if persisted == ServerStatus::Installing {
        ServerStatus::Installing
    } else if has_container {
        runtime
    } else {
        ServerStatus::Stopped
    }
}

/// Whether a status query must ask the runtime about the main container at all.
pub fn needs_runtime_query(persisted: ServerStatus, has_container: bool) -> (r: bool)
    ensures
        r == (persisted != ServerStatus::Installing && has_container),
{
    persisted != ServerStatus::Installing && has_container
}

/// Resolves a status query from the persisted status and, where it was asked, the runtime.
pub fn query_status(persisted: ServerStatus, has_container: bool, runtime: ServerStatus) -> (r: ServerStatus)
    ensures
        r == queried_status(persisted, has_container, runtime),
{
    if persisted == ServerStatus::Installing {
        ServerStatus::Installing
    } else if has_container {
        runtime
    } else {
        ServerStatus::Stopped
    }
}

/// A persisted `Installing` status is never overwritten by what the runtime reports about
/// the main container, whether it is missing, stopped or anything else.
pub proof fn installing_is_sticky(has_container: bool, runtime: ServerStatus)
    ensures
        queried_status(ServerStatus::Installing, has_container, runtime) == ServerStatus::Installing,
{
}

/// Whether a container in this status is expected to produce logs.
pub open spec fn produces_logs(s: ServerStatus) -> bool {
    s == ServerStatus::Running || s == ServerStatus::Installing
}

} // verus!
