use vstd::prelude::*;
use vstd::string::*;

use crate::handle::SidecarHandle;

verus! {

/// Why the worker could not be started. Either is fatal: startup aborts.
#[derive(Debug, PartialEq, Eq)]
pub enum SpawnError {
    /// The worker's executable could not be resolved into a command.
    Resolve { program: String, reason: String },
    /// The operating system refused to launch the worker.
    Launch { reason: String },
}

impl SpawnError {
    /// The message that startup aborts with.
    pub fn message(&self) -> (r: String)
        ensures
            r@ == match self {
                SpawnError::Resolve { program, reason } => "failed to create "@ + program@
                    + " command: "@ + reason@,
                SpawnError::Launch { reason } => "failed to spawn sidecar: "@ + reason@,
            },
    {
        match self {
            SpawnError::Resolve { program, reason } => String::from_str("failed to create ").concat(
                program.as_str(),
            ).concat(" command: ").concat(reason.as_str()),
            SpawnError::Launch { reason } => String::from_str("failed to spawn sidecar: ").concat(
                reason.as_str(),
            ),
        }
    }
}

/// Takes the outcome of spawning the worker: on success the supervisor holds
/// the worker in its handle; on failure the error is handed back unchanged,
/// and no handle exists.
pub fn start_supervisor<C>(spawned: Result<C, SpawnError>) -> (r: Result<SidecarHandle<C>, SpawnError>)
    ensures
        spawned matches Ok(c) ==> (r matches Ok(h) && h@ == Some(c)),
        spawned matches Err(e) ==> r == Err::<SidecarHandle<C>, SpawnError>(e),
{
    match spawned {
        Ok(c) => Ok(SidecarHandle::holding(c)),
        Err(e) => Err(e),
    }
}

} // verus!
