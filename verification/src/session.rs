//! The decision logic of the daemon session: connection bootstrap and
//! the blocking adapter that turns one asynchronous daemon request into
//! a synchronous call.
//!
//! The binary owns the event loop and the connection handle; the
//! library decides, from each observed event, what the loop does next.
//! One step function drives the bootstrap (pump the loop until the
//! connection reaches a terminal state), one drives the per-request
//! wait (pump the loop until the completion callback has filled the
//! result slot), and one settles a finished request against the
//! connection's last reported error code.

use vstd::prelude::*;

verus! {

/// The connection states the daemon reports. `Ready`, `Failed`,
/// `Unconnected` and `Terminated` are terminal; the other three are
/// stages of an ongoing connection attempt.
#[derive(Clone, Copy, PartialEq, Eq, Structural, Debug)]
pub enum ConnectionState {
    Unconnected,
    Connecting,
    Authorizing,
    SettingName,
    Ready,
    Failed,
    Terminated,
}

/// Whether a connection state is terminal: the bootstrap stops pumping
/// the event loop once the connection reaches one of these.
pub open spec fn spec_is_terminal(state: ConnectionState) -> bool {
    match state {
        ConnectionState::Ready => true,
        ConnectionState::Failed => true,
        ConnectionState::Unconnected => true,
        ConnectionState::Terminated => true,
        ConnectionState::Connecting => false,
        ConnectionState::Authorizing => false,
        ConnectionState::SettingName => false,
    }
}

/// Decide whether a connection state is terminal.
pub fn state_is_terminal(state: &ConnectionState) -> (terminal: bool)
    ensures
        terminal == spec_is_terminal(*state),
{
    match state {
        ConnectionState::Ready => true,
        ConnectionState::Failed => true,
        ConnectionState::Unconnected => true,
        ConnectionState::Terminated => true,
        ConnectionState::Connecting => false,
        ConnectionState::Authorizing => false,
        ConnectionState::SettingName => false,
    }
}

/// The outcome of advancing the event loop by one blocking tick: it
/// made progress, it asked the whole process to quit with an exit code,
/// or it failed with a daemon error code.
#[derive(Clone, Copy, PartialEq, Eq, Structural, Debug)]
pub enum LoopTick {
    /// The loop dispatched events normally.
    Success,
    /// The loop demands that the process exit with this code, out of
    /// band of any pending request.
    Quit { code: i32 },
    /// The loop itself failed with this daemon error code.
    Failure { code: i32 },
}

/// What the bootstrap does after one event-loop tick and a look at the
/// connection state.
#[derive(Clone, Copy, PartialEq, Eq, Structural, Debug)]
pub enum BootstrapStep {
    /// The loop demanded termination: exit the process with this code
    /// immediately, bypassing the normal result path.
    Exit { code: i32 },
    /// The loop failed with this daemon error code: the bootstrap is
    /// over and the invocation has failed.
    Error { code: i32 },
    /// The connection is ready for requests.
    Connected,
    /// The connection reached a terminal state other than ready; the
    /// invocation has failed and the daemon's last error code says why.
    Rejected { state: ConnectionState },
    /// Nothing is settled yet: pump the loop again.
    Pending,
}

/// Decide one bootstrap iteration from the tick outcome and the
/// connection state observed after it. A quit demand or a loop failure
/// ends everything at once; otherwise a non-terminal state keeps the
/// bootstrap pumping, and a terminal state settles it as connected or
/// rejected.
pub fn bootstrap_step(tick: &LoopTick, state: &ConnectionState) -> (step: BootstrapStep)
    ensures
        tick matches LoopTick::Quit { code } ==> step == (BootstrapStep::Exit { code: *code }),
        tick matches LoopTick::Failure { code } ==> step == (BootstrapStep::Error { code: *code }),
        *tick == LoopTick::Success && !spec_is_terminal(*state) ==> step == BootstrapStep::Pending,
        *tick == LoopTick::Success && *state == ConnectionState::Ready ==> step
            == BootstrapStep::Connected,
        *tick == LoopTick::Success && spec_is_terminal(*state) && *state != ConnectionState::Ready
            ==> step == (BootstrapStep::Rejected { state: *state }),
{
    match tick {
        LoopTick::Quit { code } => BootstrapStep::Exit { code: *code },
        LoopTick::Failure { code } => BootstrapStep::Error { code: *code },
        LoopTick::Success => {
            if !state_is_terminal(state) {
                BootstrapStep::Pending
            } else {
                match state {
                    ConnectionState::Ready => BootstrapStep::Connected,
                    _ => BootstrapStep::Rejected { state: *state },
                }
            }
        },
    }
}

/// One observation made while waiting for an asynchronous request: the
/// completion callback filled the result slot, or the slot was still
/// empty and the event loop advanced by one tick.
#[derive(PartialEq, Eq, Debug)]
pub enum AdapterEvent<T> {
    /// The completion callback deposited its one value.
    Completed { value: T },
    /// The slot was empty; the loop ticked with this outcome.
    Ticked { tick: LoopTick },
}

/// What the blocking adapter does after one observation.
#[derive(PartialEq, Eq, Debug)]
pub enum AdapterStep<T> {
    /// The request finished: hand its value to the caller.
    Done { value: T },
    /// The loop failed with this daemon error code: the request is
    /// abandoned and the call fails.
    Error { code: i32 },
    /// The loop demanded termination: exit the process with this code
    /// immediately, bypassing the normal result path.
    Exit { code: i32 },
    /// Nothing is settled yet: pump the loop again.
    Pending,
}

/// Decide one iteration of the blocking adapter. A deposited value
/// finishes the call at once; otherwise the tick outcome decides: a
/// failure fails the call, a quit demand ends the process, and ordinary
/// progress means waiting on.
pub fn adapter_step<T>(event: AdapterEvent<T>) -> (step: AdapterStep<T>)
    ensures
        event matches AdapterEvent::Completed { value } ==> step == (AdapterStep::Done::<T> { value }),
        event matches AdapterEvent::Ticked { tick: LoopTick::Failure { code } } ==> step
            == (AdapterStep::Error::<T> { code }),
        event matches AdapterEvent::Ticked { tick: LoopTick::Quit { code } } ==> step
            == (AdapterStep::Exit::<T> { code }),
        event == (AdapterEvent::Ticked::<T> { tick: LoopTick::Success }) ==> step
            == AdapterStep::Pending::<T>,
{
    match event {
        AdapterEvent::Completed { value } => AdapterStep::Done { value },
        AdapterEvent::Ticked { tick: LoopTick::Failure { code } } => AdapterStep::Error { code },
        AdapterEvent::Ticked { tick: LoopTick::Quit { code } } => AdapterStep::Exit { code },
        AdapterEvent::Ticked { tick: LoopTick::Success } => AdapterStep::Pending,
    }
}

/// Settle a finished request. The completion callback only records
/// whether the daemon answered or signalled failure; the error code
/// itself lives in the connection's last-error accessor and is read at
/// the call site. A success keeps its payload; a failure is reported
/// with that last error code.
pub fn finish_operation<T>(outcome: Result<T, ()>, last_error: i32) -> (settled: Result<T, i32>)
    ensures
        outcome matches Ok(value) ==> settled == Ok::<T, i32>(value),
        outcome is Err ==> settled == Err::<T, i32>(last_error),
{
    match outcome {
        Ok(value) => Ok(value),
        Err(()) => Err(last_error),
    }
}

} // verus!
