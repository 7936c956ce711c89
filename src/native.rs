use vstd::prelude::*;

use crate::error::{ErrorView, FridaError};

verus! {

/// How a call into the native instrumentation runtime failed, as the runtime reports it.
#[derive(Debug)]
pub enum NativeError {
    /// The runtime found no process with this identifier.
    ProcessNotFound(u32),
    /// The call did not complete within its deadline.
    Timeout,
    /// The runtime rejected or failed the call; the text is its diagnostic.
    Failed(String),
}

/// The native calls that the service makes.
#[derive(Debug)]
pub enum NativeOp {
    Enumerate,
    Attach,
    Detach,
    LoadScript,
    UnloadScript,
    Spawn,
    Resume,
    Kill,
    Post,
}

/// The error of the service for a failed native call of kind `op`.
pub open spec fn failure_of(op: NativeOp, e: NativeError) -> ErrorView {
    match e {
        NativeError::ProcessNotFound(pid) => ErrorView::ProcessNotFound(pid),
        NativeError::Timeout => ErrorView::Timeout,
        NativeError::Failed(d) => match op {
            NativeOp::Enumerate => ErrorView::Internal(d@),
            NativeOp::Attach => ErrorView::AttachFailed(d@),
            NativeOp::Detach => ErrorView::DetachFailed(d@),
            NativeOp::LoadScript => ErrorView::ScriptLoadFailed(d@),
            NativeOp::UnloadScript => ErrorView::ScriptUnloadFailed(d@),
            NativeOp::Spawn => ErrorView::SpawnFailed(d@),
            NativeOp::Resume => ErrorView::ResumeFailed(d@),
            NativeOp::Kill => ErrorView::KillFailed(d@),
            NativeOp::Post => ErrorView::RpcFailed(d@),
        },
    }
}

/// Converts the failure of a native call into the service's error.
pub fn native_failure(op: NativeOp, e: NativeError) -> (r: FridaError)
    ensures
        r@ == failure_of(op, e),
{
    match e {
        NativeError::ProcessNotFound(pid) => FridaError::ProcessNotFound(pid),
        NativeError::Timeout => FridaError::Timeout,
        NativeError::Failed(d) => match op {
            NativeOp::Enumerate => FridaError::Internal(d),
            NativeOp::Attach => FridaError::AttachFailed(d),
            NativeOp::Detach => FridaError::DetachFailed(d),
            NativeOp::LoadScript => FridaError::ScriptLoadFailed(d),
            NativeOp::UnloadScript => FridaError::ScriptUnloadFailed(d),
            NativeOp::Spawn => FridaError::SpawnFailed(d),
            NativeOp::Resume => FridaError::ResumeFailed(d),
            NativeOp::Kill => FridaError::KillFailed(d),
            NativeOp::Post => FridaError::RpcFailed(d),
        },
    }
}

/// The result of a native call that returns nothing, with its failure converted.
pub open spec fn unit_outcome(op: NativeOp, outcome: Result<(), NativeError>) -> Result<(), ErrorView> {
    match outcome {
        Ok(()) => Ok(()),
        Err(e) => Err(failure_of(op, e)),
    }
}

} // verus!
