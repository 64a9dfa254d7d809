//! The shutdown context: the owner of the listener's lifecycle.

use vstd::prelude::*;

verus! {

/// `signal_hook_tokio::Handle`, the control handle of a signal stream.
#[verifier::external_type_specification]
#[verifier::external_body]
pub struct ExHandle(signal_hook_tokio::Handle);

/// `tokio::task::JoinError`, the failure of a task that was joined.
#[verifier::external_type_specification]
#[verifier::external_body]
pub struct ExJoinError(tokio::task::JoinError);

/// `tokio::task::JoinHandle`, the owner of a spawned task's result.
#[verifier::external_type_specification]
#[verifier::external_body]
#[verifier::reject_recursive_types(T)]
pub struct ExJoinHandle<T>(tokio::task::JoinHandle<T>);

/// The shutdown context. It owns the handle that closes the signal stream and
/// the join handle of the listener task, and is used up by [`InitContext::stop`].
pub struct InitContext {
    handle: signal_hook_tokio::Handle,
    join: tokio::task::JoinHandle<()>,
}

/// Whether the stream of a handle has been asked to close.
pub uninterp spec fn handle_closed(handle: signal_hook_tokio::Handle) -> bool;

/// `signal_hook_tokio::Handle::close`: trusted to mark the signal stream as
/// closed, for good, and to wake its reader. The handle comes back closed.
#[verifier::external_body]
fn close_handle(handle: signal_hook_tokio::Handle) -> (closed: signal_hook_tokio::Handle)
    ensures
        handle_closed(closed),
{
    handle.close();
    handle
}

/// Why the listener task did not end cleanly.
#[derive(Clone, Copy, Debug, PartialEq, Eq, Structural)]
pub enum StopError {
    /// The task panicked.
    Panicked,
    /// The task was cancelled before it ended.
    Cancelled,
}

/// Whether a join error reports a panic of the task.
pub uninterp spec fn join_error_panicked(error: tokio::task::JoinError) -> bool;

/// `tokio::task::JoinError::is_panic`: whether the task ended in a panic; a
/// join error that is no panic is a cancellation.
#[verifier::external_body]
fn join_error_is_panic(error: &tokio::task::JoinError) -> (r: bool)
    ensures
        r == join_error_panicked(*error),
{
    error.is_panic()
}

/// What stopping amounts to, given what joining the listener task returned:
/// success exactly where the task ended cleanly, else the kind of its failure.
/// The join result stays with the caller, who may hand its error on.
pub fn stop_outcome(joined: &Result<(), tokio::task::JoinError>) -> (r: Result<(), StopError>)
    ensures
        joined.is_ok() <==> r.is_ok(),
        joined.is_err() ==> r == Err::<(), StopError>(
            if join_error_panicked(joined.unwrap_err()) {
                StopError::Panicked
            } else {
                StopError::Cancelled
            },
        ),
{
    match joined {
        Ok(_) => Ok(()),
        Err(error) => if join_error_is_panic(error) {
            Err(StopError::Panicked)
        } else {
            Err(StopError::Cancelled)
        },
    }
}

impl InitContext {
    /// The join handle of the listener task.
    pub closed spec fn task(self) -> tokio::task::JoinHandle<()> {
        self.join
    }

    /// The handle that closes the signal stream.
    pub closed spec fn stream_handle(self) -> signal_hook_tokio::Handle {
        self.handle
    }

    /// The context of a listener task and the handle of the stream it reads.
    pub fn new(handle: signal_hook_tokio::Handle, join: tokio::task::JoinHandle<()>) -> (r: Self)
        ensures
            r.stream_handle() == handle,
            r.task() == join,
    {
        InitContext { handle, join }
    }

    /// Asks the signal stream to close and hands back the closed handle and
    /// the listener task, to be awaited: the task ends once the stream has
    /// drained. The close comes before anything is handed back, and so before
    /// the join. The context is used up, so the listener cannot be stopped
    /// twice.
    pub fn stop(self) -> (r: (signal_hook_tokio::Handle, tokio::task::JoinHandle<()>))
        ensures
            handle_closed(r.0),
            r.1 == self.task(),
    {
        let closed = close_handle(self.handle);
        (closed, self.join)
    }
}

} // verus!
