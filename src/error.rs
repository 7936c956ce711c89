use vstd::prelude::*;

use crate::decimal::{decimal, decimal_string};

verus! {

/// The failures that the session service reports.
#[derive(Debug)]
pub enum FridaError {
    DeviceNotFound(String),
    ProcessNotFound(u32),
    SessionNotFound(u64),
    ScriptNotFound(u64),
    AttachFailed(String),
    DetachFailed(String),
    ScriptLoadFailed(String),
    ScriptUnloadFailed(String),
    SpawnFailed(String),
    ResumeFailed(String),
    KillFailed(String),
    RpcFailed(String),
    InvalidInput(String),
    Timeout,
    Internal(String),
}

/// The error as the command surface receives it: a code to branch on and a message to show.
#[derive(Debug)]
pub struct ErrorResponse {
    pub code: String,
    pub message: String,
    pub details: Option<String>,
}

/// What an error says, with its text details as character sequences.
pub enum ErrorView {
    DeviceNotFound(Seq<char>),
    ProcessNotFound(u32),
    SessionNotFound(u64),
    ScriptNotFound(u64),
    AttachFailed(Seq<char>),
    DetachFailed(Seq<char>),
    ScriptLoadFailed(Seq<char>),
    ScriptUnloadFailed(Seq<char>),
    SpawnFailed(Seq<char>),
    ResumeFailed(Seq<char>),
    KillFailed(Seq<char>),
    RpcFailed(Seq<char>),
    InvalidInput(Seq<char>),
    Timeout,
    Internal(Seq<char>),
}

impl View for FridaError {
    type V = ErrorView;

    open spec fn view(&self) -> ErrorView {
        match *self {
            FridaError::DeviceNotFound(d) => ErrorView::DeviceNotFound(d@),
            FridaError::ProcessNotFound(pid) => ErrorView::ProcessNotFound(pid),
            FridaError::SessionNotFound(id) => ErrorView::SessionNotFound(id),
            FridaError::ScriptNotFound(id) => ErrorView::ScriptNotFound(id),
            FridaError::AttachFailed(d) => ErrorView::AttachFailed(d@),
            FridaError::DetachFailed(d) => ErrorView::DetachFailed(d@),
            FridaError::ScriptLoadFailed(d) => ErrorView::ScriptLoadFailed(d@),
            FridaError::ScriptUnloadFailed(d) => ErrorView::ScriptUnloadFailed(d@),
            FridaError::SpawnFailed(d) => ErrorView::SpawnFailed(d@),
            FridaError::ResumeFailed(d) => ErrorView::ResumeFailed(d@),
            FridaError::KillFailed(d) => ErrorView::KillFailed(d@),
            FridaError::RpcFailed(d) => ErrorView::RpcFailed(d@),
            FridaError::InvalidInput(d) => ErrorView::InvalidInput(d@),
            FridaError::Timeout => ErrorView::Timeout,
            FridaError::Internal(d) => ErrorView::Internal(d@),
        }
    }
}

/// A result with its error seen through the error's view.
pub open spec fn result_view<T>(r: Result<T, FridaError>) -> Result<T, ErrorView> {
    match r {
        Ok(v) => Ok(v),
        Err(e) => Err(e@),
    }
}

/// The machine-readable code of each error kind.
pub open spec fn code_of(e: FridaError) -> Seq<char> {
    match e {
        FridaError::DeviceNotFound(_) => "DEVICE_NOT_FOUND"@,
        FridaError::ProcessNotFound(_) => "PROCESS_NOT_FOUND"@,
        FridaError::SessionNotFound(_) => "SESSION_NOT_FOUND"@,
        FridaError::ScriptNotFound(_) => "SCRIPT_NOT_FOUND"@,
        FridaError::AttachFailed(_) => "ATTACH_FAILED"@,
        FridaError::DetachFailed(_) => "DETACH_FAILED"@,
        FridaError::ScriptLoadFailed(_) => "SCRIPT_LOAD_FAILED"@,
        FridaError::ScriptUnloadFailed(_) => "SCRIPT_UNLOAD_FAILED"@,
        FridaError::SpawnFailed(_) => "SPAWN_FAILED"@,
        FridaError::ResumeFailed(_) => "RESUME_FAILED"@,
        FridaError::KillFailed(_) => "KILL_FAILED"@,
        FridaError::RpcFailed(_) => "RPC_FAILED"@,
        FridaError::InvalidInput(_) => "INVALID_INPUT"@,
        FridaError::Timeout => "TIMEOUT"@,
        FridaError::Internal(_) => "INTERNAL_ERROR"@,
    }
}

/// The human-readable message of an error: a fixed prefix, then its detail.
pub open spec fn message_of(e: FridaError) -> Seq<char> {
    match e {
        FridaError::DeviceNotFound(d) => "Device not found: "@ + d@,
        FridaError::ProcessNotFound(pid) => "Process not found: "@ + decimal(pid as nat),
        FridaError::SessionNotFound(id) => "Session not found: "@ + decimal(id as nat),
        FridaError::ScriptNotFound(id) => "Script not found: "@ + decimal(id as nat),
        FridaError::AttachFailed(d) => "Attach failed: "@ + d@,
        FridaError::DetachFailed(d) => "Detach failed: "@ + d@,
        FridaError::ScriptLoadFailed(d) => "Script load failed: "@ + d@,
        FridaError::ScriptUnloadFailed(d) => "Script unload failed: "@ + d@,
        FridaError::SpawnFailed(d) => "Spawn failed: "@ + d@,
        FridaError::ResumeFailed(d) => "Resume failed: "@ + d@,
        FridaError::KillFailed(d) => "Kill failed: "@ + d@,
        FridaError::RpcFailed(d) => "RPC call failed: "@ + d@,
        FridaError::InvalidInput(d) => "Invalid input: "@ + d@,
        FridaError::Timeout => "Operation timed out"@,
        FridaError::Internal(d) => "Internal error: "@ + d@,
    }
}

/// Whether `s` holds the NUL character anywhere.
pub open spec fn has_nul(s: Seq<char>) -> bool {
    exists|i: int| 0 <= i < s.len() && s[i] == '\0'
}

/// The detail of the error that rejects a field holding NUL.
pub open spec fn nul_detail(field: Seq<char>) -> Seq<char> {
    field + " cannot contain NUL bytes"@
}

impl FridaError {
    /// The code of this error, as `code_of` gives it.
    pub fn code(&self) -> (r: String)
        ensures
            r@ == code_of(*self),
    {
        let s = match self {
            FridaError::DeviceNotFound(_) => "DEVICE_NOT_FOUND",
            FridaError::ProcessNotFound(_) => "PROCESS_NOT_FOUND",
            FridaError::SessionNotFound(_) => "SESSION_NOT_FOUND",
            FridaError::ScriptNotFound(_) => "SCRIPT_NOT_FOUND",
            FridaError::AttachFailed(_) => "ATTACH_FAILED",
            FridaError::DetachFailed(_) => "DETACH_FAILED",
            FridaError::ScriptLoadFailed(_) => "SCRIPT_LOAD_FAILED",
            FridaError::ScriptUnloadFailed(_) => "SCRIPT_UNLOAD_FAILED",
            FridaError::SpawnFailed(_) => "SPAWN_FAILED",
            FridaError::ResumeFailed(_) => "RESUME_FAILED",
            FridaError::KillFailed(_) => "KILL_FAILED",
            FridaError::RpcFailed(_) => "RPC_FAILED",
            FridaError::InvalidInput(_) => "INVALID_INPUT",
            FridaError::Timeout => "TIMEOUT",
            FridaError::Internal(_) => "INTERNAL_ERROR",
        };
        String::from_str(s)
    }

    /// The message of this error, as `message_of` gives it.
    pub fn message(&self) -> (r: String)
        ensures
            r@ == message_of(*self),
    {
        match self {
            FridaError::DeviceNotFound(d) => String::from_str("Device not found: ").concat(d.as_str()),
            FridaError::ProcessNotFound(pid) => {
                let n = decimal_string(*pid as u64);
                String::from_str("Process not found: ").concat(n.as_str())
            },
            FridaError::SessionNotFound(id) => {
                let n = decimal_string(*id);
                String::from_str("Session not found: ").concat(n.as_str())
            },
            FridaError::ScriptNotFound(id) => {
                let n = decimal_string(*id);
                String::from_str("Script not found: ").concat(n.as_str())
            },
            FridaError::AttachFailed(d) => String::from_str("Attach failed: ").concat(d.as_str()),
            FridaError::DetachFailed(d) => String::from_str("Detach failed: ").concat(d.as_str()),
            FridaError::ScriptLoadFailed(d) => String::from_str("Script load failed: ").concat(
                d.as_str(),
            ),
            FridaError::ScriptUnloadFailed(d) => String::from_str("Script unload failed: ").concat(
                d.as_str(),
            ),
            FridaError::SpawnFailed(d) => String::from_str("Spawn failed: ").concat(d.as_str()),
            FridaError::ResumeFailed(d) => String::from_str("Resume failed: ").concat(d.as_str()),
            FridaError::KillFailed(d) => String::from_str("Kill failed: ").concat(d.as_str()),
            FridaError::RpcFailed(d) => String::from_str("RPC call failed: ").concat(d.as_str()),
            FridaError::InvalidInput(d) => String::from_str("Invalid input: ").concat(d.as_str()),
            FridaError::Timeout => String::from_str("Operation timed out"),
            FridaError::Internal(d) => String::from_str("Internal error: ").concat(d.as_str()),
        }
    }
}

impl ErrorResponse {
    /// The response for `err`: its code, its message, and no details.
    pub fn from(err: FridaError) -> (r: ErrorResponse)
        ensures
            r.code@ == code_of(err),
            r.message@ == message_of(err),
            r.details is None,
    {
        let code = err.code();
        let message = err.message();
        ErrorResponse { code, message, details: None }
    }
}

/// True when `value` holds no NUL character.
fn contains_no_nul(value: &str) -> (r: bool)
    ensures
        r == !has_nul(value@),
{
    let n = value.unicode_len();
    let mut i: usize = 0;
    while i < n
        invariant
            n == value@.len(),
            i <= n,
            forall|j: int| 0 <= j < i ==> value@[j] != '\0',
        decreases n - i,
    {
        if value.get_char(i) == '\0' {
            return false;
        }
        i = i + 1;
    }
    true
}

/// Checks that `value` can be handed to the native runtime, which ends strings at NUL.
/// `field` names the value in the error.
pub fn validate_no_nul(field: &str, value: &str) -> (r: Result<(), FridaError>)
    ensures
        r is Ok <==> !has_nul(value@),
        r matches Err(e) ==> e@ == ErrorView::InvalidInput(nul_detail(field@)),
{
    if contains_no_nul(value) {
        Ok(())
    } else {
        let d = String::from_str(field).concat(" cannot contain NUL bytes");
        Err(FridaError::InvalidInput(d))
    }
}

} // verus!
