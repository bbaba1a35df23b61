use vstd::prelude::*;

verus! {

/// Why a run of the external `tailscale` binary failed.
#[derive(Debug, Clone, PartialEq, Eq)]
pub enum InvocationError {
    /// The process could not be started; holds the system's message.
    LaunchFailed(String),
    /// The process ran and exited unsuccessfully; `None` when it left no exit code
    /// (it was ended by a signal).
    SubprocessFailed(Option<i32>),
    /// The process's output was not valid UTF-8; holds the decoder's message.
    EncodingError(String),
}

/// Why a signing run stopped before every selected node was signed.
#[derive(Debug, Clone, PartialEq, Eq)]
pub enum Error {
    /// The lock status could not be fetched.
    FetchLockStatus(InvocationError),
    /// The status document could not be decoded; holds the decoder's message.
    ParseOutput(String),
    /// The selection found no node to sign.
    NoNodesFound,
    /// Signing the node at `index` of the worklist, with node key `key`, failed.
    SignNode { index: usize, key: String, cause: InvocationError },
}

/// Success of a finished process, from its exit code: only an exit code of 0
/// succeeds.
pub fn check_exit(code: Option<i32>) -> (r: Result<(), InvocationError>)
    ensures
        code == Some(0i32) ==> r == Ok::<(), InvocationError>(()),
        code != Some(0i32) ==> r == Err::<(), InvocationError>(InvocationError::SubprocessFailed(code)),
{
    match code {
        Some(0) => Ok(()),
        _ => Err(InvocationError::SubprocessFailed(code)),
    }
}

} // verus!
