//! The decisions of a running client: starting the update stream, and what
//! to do with each event while it runs.
use vstd::prelude::*;

verus! {

/// Why a client could not start handling updates.
#[derive(Debug, Clone, Copy, PartialEq, Eq)]
pub enum ClientError {
    /// The stream of updates was taken by a run that is still going.
    StreamAlreadyRunning,
}

impl ClientError {
    /// The message that describes the error.
    pub open spec fn message_spec(self) -> Seq<char> {
        match self {
            ClientError::StreamAlreadyRunning => "Update stream is already running"@,
        }
    }

    /// The message that describes the error.
    pub fn message(&self) -> (r: &'static str)
        ensures
            r@ == self.message_spec(),
    {
        match self {
            ClientError::StreamAlreadyRunning => "Update stream is already running",
        }
    }
}

/// Takes the stream of updates for a run; only one run can have it.
pub fn take_update_stream<R>(slot: &mut Option<R>) -> (r: Result<R, ClientError>)
    ensures
        *old(slot) is None ==> r == Err::<R, ClientError>(ClientError::StreamAlreadyRunning),
        *old(slot) matches Some(s) ==> r == Ok::<R, ClientError>(s),
        *final(slot) is None,
{
    match slot.take() {
        Some(s) => Ok(s),
        None => Err(ClientError::StreamAlreadyRunning),
    }
}

/// What happened while a client waited for the next update.
#[derive(Debug)]
pub enum LoopEvent<U, E> {
    /// The user asked the program to stop (Ctrl+C).
    Interrupted,
    /// The next update arrived, or receiving it failed.
    Received(Result<U, E>),
}

/// What a running client does about an event.
#[derive(Debug)]
pub enum LoopAction<U, E> {
    /// Leave the loop.
    Exit,
    /// Hand the update to the dispatcher in a task of its own, and wait for the next.
    Dispatch(U),
    /// Report that receiving failed, and wait for the next update.
    ReportReceiveError(E),
}

/// The action for an event: stop on an interrupt, dispatch an update,
/// report a failure to receive one.
pub fn loop_action<U, E>(event: LoopEvent<U, E>) -> (r: LoopAction<U, E>)
    ensures
        event is Interrupted ==> r is Exit,
        event matches LoopEvent::Received(Ok(u)) ==> r == LoopAction::<U, E>::Dispatch(u),
        event matches LoopEvent::Received(Err(e)) ==> r == LoopAction::<U, E>::ReportReceiveError(e),
{
    match event {
        LoopEvent::Interrupted => LoopAction::Exit,
        LoopEvent::Received(Ok(u)) => LoopAction::Dispatch(u),
        LoopEvent::Received(Err(e)) => LoopAction::ReportReceiveError(e),
    }
}

} // verus!
