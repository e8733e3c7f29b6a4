//! How the program answers shutdown requests: the first request starts a
//! graceful shutdown, a second one forces the program to exit at once.

use vstd::prelude::*;

use crate::reconnect::ExitCode;

verus! {

/// The number of the interrupt signal, `libc::SIGINT`. Claimed: it is 2, the value
/// that the libc crate gives it on Linux-like targets.
#[verifier::external_body]
fn sigint_number() -> (n: i32)
    ensures
        n == 2,
{
    libc::SIGINT
}

/// The number of the termination signal, `libc::SIGTERM`. Claimed: it is 15, the
/// value that the libc crate gives it on Linux-like targets.
#[verifier::external_body]
fn sigterm_number() -> (n: i32)
    ensures
        n == 15,
{
    libc::SIGTERM
}

/// A signal that requests a shutdown.
#[derive(Debug, Clone, Copy, PartialEq, Eq)]
pub enum ShutdownSignal {
    /// `SIGINT`
    Interrupt,
    /// `SIGTERM`
    Terminate,
}

/// The exit code for a forced exit on `signal`: 128 plus the signal's number.
pub open spec fn spec_signal_exit_code(signal: ShutdownSignal) -> i32 {
    match signal {
        ShutdownSignal::Interrupt => 130,
        ShutdownSignal::Terminate => 143,
    }
}

/// The exit code for a forced exit on `signal`.
pub fn signal_exit_code(signal: ShutdownSignal) -> (c: ExitCode)
    ensures
        c == ExitCode(spec_signal_exit_code(signal)),
{
    match signal {
        ShutdownSignal::Interrupt => ExitCode(128 + sigint_number()),
        ShutdownSignal::Terminate => ExitCode(128 + sigterm_number()),
    }
}

/// Whether a shutdown was already requested.
#[derive(Debug, Clone, Copy, PartialEq, Eq)]
pub enum ShutdownPhase {
    /// No shutdown request was received yet.
    Running,
    /// A graceful shutdown is under way.
    ShuttingDown,
}

/// The answer to a shutdown request.
#[derive(Debug, Clone, Copy, PartialEq, Eq)]
pub enum ShutdownAction {
    /// Cancel the shutdown token, which starts the graceful shutdown.
    CancelToken,
    /// Exit the program at once with this code.
    ForceExit(ExitCode),
}

/// The answer to `signal` in `phase`, and the phase that follows: the first request
/// cancels the token, any further one forces an exit with the code of that signal.
pub open spec fn spec_on_shutdown_signal(phase: ShutdownPhase, signal: ShutdownSignal) -> (ShutdownPhase, ShutdownAction) {
    match phase {
        ShutdownPhase::Running => (ShutdownPhase::ShuttingDown, ShutdownAction::CancelToken),
        ShutdownPhase::ShuttingDown => (
            ShutdownPhase::ShuttingDown,
            ShutdownAction::ForceExit(ExitCode(spec_signal_exit_code(signal))),
        ),
    }
}

/// Answers the shutdown request `signal` received in `phase`.
pub fn on_shutdown_signal(phase: ShutdownPhase, signal: ShutdownSignal) -> (r: (ShutdownPhase, ShutdownAction))
    ensures
        r == spec_on_shutdown_signal(phase, signal),
{
    match phase {
        ShutdownPhase::Running => (ShutdownPhase::ShuttingDown, ShutdownAction::CancelToken),
        ShutdownPhase::ShuttingDown => (ShutdownPhase::ShuttingDown, ShutdownAction::ForceExit(signal_exit_code(signal))),
    }
}

/// Law: of two shutdown requests in a row, the first starts the graceful shutdown
/// and the second forces an exit with 128 plus the number of the second signal.
pub proof fn law_second_request_forces_exit(first: ShutdownSignal, second: ShutdownSignal)
    ensures
        spec_on_shutdown_signal(ShutdownPhase::Running, first).1 == ShutdownAction::CancelToken,
        spec_on_shutdown_signal(spec_on_shutdown_signal(ShutdownPhase::Running, first).0, second).1
            == ShutdownAction::ForceExit(ExitCode(spec_signal_exit_code(second))),
        spec_signal_exit_code(second) == 128 + (if second is Interrupt { 2int } else { 15int }),
{
}

} // verus!
