//! What the program does after each run of its Wayland session: exit with a code,
//! or reconnect, at once or after a delay, and what it logs on the way.

use vstd::prelude::*;

use crate::decimal::{decimal_text, push_decimal};
use crate::settings::NumberOrInf;
use crate::text::opt_string_view;

verus! {

/// The exit code of the program.
#[derive(Debug, Clone, Copy, PartialEq, Eq)]
pub struct ExitCode(pub i32);

/// Why a run of the Wayland session ended with an error; the connect and IO errors
/// carry the text of the underlying error.
#[derive(Debug, Clone)]
pub enum WaylandError {
    NoDataControlManagerGlobalFound,
    ConnectError(String),
    IoError(String),
    DataControlManagerGlobalRemoved,
}

/// What the reconnect logic remembers between runs of the Wayland session.
#[derive(Debug, Clone, Copy, PartialEq, Eq)]
pub struct ReconnectState {
    /// Whether the next run is a reconnect after an error of an established session.
    pub is_reconnect: bool,
    /// The number of failed reconnect attempts since that error.
    pub connection_tries: u64,
}

/// What to do after a run of the Wayland session.
#[derive(Debug, Clone, Copy, PartialEq, Eq)]
pub enum NextStep {
    /// Exit the program with this code.
    Exit(ExitCode),
    /// Run the session again at once.
    Reconnect,
    /// Run the session again after this many milliseconds, unless a shutdown is
    /// requested meanwhile.
    ReconnectAfterDelay(u64),
}

/// The decision taken after a run of the Wayland session.
#[derive(Debug)]
pub struct RunDecision {
    /// The state for the next run.
    pub state: ReconnectState,
    /// The message to log as an error, if any.
    pub error_message: Option<String>,
    /// What to do next.
    pub next: NextStep,
}

impl ReconnectState {
    /// The state before the first run.
    pub fn new() -> (s: ReconnectState)
        ensures
            s == (ReconnectState { is_reconnect: false, connection_tries: 0 }),
    {
        ReconnectState { is_reconnect: false, connection_tries: 0 }
    }

    /// The invariant of the state under the configured number of reconnect tries:
    /// reconnecting happens only when tries are allowed, and the count of failed
    /// attempts stays below the configured number (it is not kept for infinity).
    pub open spec fn valid(self, tries: NumberOrInf<u64>) -> bool {
        if self.is_reconnect {
            match tries {
                NumberOrInf::Inf => self.connection_tries == 0,
                NumberOrInf::Number(m) => 1 <= m && self.connection_tries < m,
            }
        } else {
            self.connection_tries == 0
        }
    }
}

/// Whether the configured tries allow reconnecting at all.
pub open spec fn reconnect_allowed(tries: NumberOrInf<u64>) -> bool {
    match tries {
        NumberOrInf::Inf => true,
        NumberOrInf::Number(m) => m >= 1,
    }
}

/// The state after a run that ended with `outcome`.
pub open spec fn spec_next_state(
    tries: NumberOrInf<u64>,
    state: ReconnectState,
    outcome: Result<(), WaylandError>,
) -> ReconnectState {
    match outcome {
        Err(WaylandError::ConnectError(_)) => if state.is_reconnect && tries is Number {
            ReconnectState { is_reconnect: true, connection_tries: (state.connection_tries + 1) as u64 }
        } else {
            state
        },
        Err(WaylandError::IoError(_)) | Err(WaylandError::DataControlManagerGlobalRemoved) =>
            if reconnect_allowed(tries) {
                ReconnectState { is_reconnect: true, connection_tries: 0 }
            } else {
                state
            },
        _ => state,
    }
}

/// Whether a failed reconnect attempt used up the last of the configured tries.
pub open spec fn tries_exhausted(tries: NumberOrInf<u64>, state: ReconnectState) -> bool {
    tries == NumberOrInf::Number(state.connection_tries)
}

/// What to do after a run that ended with `outcome`.
pub open spec fn spec_next_step(
    tries: NumberOrInf<u64>,
    delay_ms: u64,
    state: ReconnectState,
    outcome: Result<(), WaylandError>,
) -> NextStep {
    match outcome {
        Ok(()) => NextStep::Exit(ExitCode(0)),
        Err(WaylandError::NoDataControlManagerGlobalFound) => NextStep::Exit(ExitCode(1)),
        Err(WaylandError::ConnectError(_)) => if !state.is_reconnect {
            NextStep::Exit(ExitCode(1))
        } else if tries_exhausted(tries, spec_next_state(tries, state, outcome)) {
            NextStep::Exit(ExitCode(1))
        } else if delay_ms == 0 {
            NextStep::Reconnect
        } else {
            NextStep::ReconnectAfterDelay(delay_ms)
        },
        Err(WaylandError::IoError(_)) | Err(WaylandError::DataControlManagerGlobalRemoved) =>
            if reconnect_allowed(tries) {
                NextStep::Reconnect
            } else {
                NextStep::Exit(ExitCode(1))
            },
    }
}

/// The line that announces the next attempt: which attempt out of how many when the
/// tries are counted, and when it starts.
pub open spec fn attempt_text(tries: NumberOrInf<u64>, attempt: nat, delay_ms: u64) -> Seq<char> {
    let when = if delay_ms == 0 {
        " will start immediately..."@
    } else {
        " in "@ + decimal_text(delay_ms as nat) + " ms..."@
    };
    match tries {
        NumberOrInf::Number(m) => "\nAttempt "@ + decimal_text(attempt) + "/"@ + decimal_text(m as nat)
            + " to reconnect"@ + when,
        NumberOrInf::Inf => "\nAttempt to reconnect"@ + when,
    }
}

/// The error message logged after a run that ended with `outcome`.
pub open spec fn spec_error_message(
    tries: NumberOrInf<u64>,
    delay_ms: u64,
    state: ReconnectState,
    outcome: Result<(), WaylandError>,
) -> Option<Seq<char>> {
    let next = spec_next_state(tries, state, outcome);
    match outcome {
        Ok(()) => None,
        Err(WaylandError::NoDataControlManagerGlobalFound) => None,
        Err(WaylandError::ConnectError(e)) => if !state.is_reconnect {
            Some("Failed to connect to wayland server: "@ + e@)
        } else if tries_exhausted(tries, next) {
            Some("Wayland connect error: "@ + e@)
        } else {
            Some("Wayland connect error: "@ + e@ + attempt_text(tries, (next.connection_tries + 1) as nat, delay_ms))
        },
        Err(WaylandError::IoError(e)) => if reconnect_allowed(tries) {
            Some("Wayland IO error: "@ + e@ + attempt_text(tries, 1, 0))
        } else {
            Some("Wayland IO error: "@ + e@)
        },
        Err(WaylandError::DataControlManagerGlobalRemoved) => if reconnect_allowed(tries) {
            Some("Wayland error: data control manager global was removed"@ + attempt_text(tries, 1, 0))
        } else {
            Some("Wayland error: data control manager global was removed"@)
        },
    }
}

fn append_attempt_text(out: &mut String, tries: NumberOrInf<u64>, attempt: u64, delay_ms: u64)
    ensures
        final(out)@ == old(out)@ + attempt_text(tries, attempt as nat, delay_ms),
{
    match tries {
        NumberOrInf::Number(m) => {
            out.append("\nAttempt ");
            push_decimal(out, attempt);
            out.append("/");
            push_decimal(out, m);
            out.append(" to reconnect");
        },
        NumberOrInf::Inf => {
            out.append("\nAttempt to reconnect");
        },
    }
    if delay_ms == 0 {
        out.append(" will start immediately...");
    } else {
        out.append(" in ");
        push_decimal(out, delay_ms);
        out.append(" ms...");
    }
}

fn text_with(prefix: &str, detail: &String) -> (s: String)
    ensures
        s@ == prefix@ + detail@,
{
    let mut s = String::from_str(prefix);
    s.append(detail.as_str());
    s
}

/// Decides what follows a run of the Wayland session that ended with `outcome`,
/// under the configured reconnect tries and delay (in milliseconds).
pub fn run_step(
    reconnect_tries: NumberOrInf<u64>,
    reconnect_delay_ms: u64,
    state: ReconnectState,
    outcome: &Result<(), WaylandError>,
) -> (d: RunDecision)
    requires
        state.valid(reconnect_tries),
    ensures
        d.state == spec_next_state(reconnect_tries, state, *outcome),
        d.next == spec_next_step(reconnect_tries, reconnect_delay_ms, state, *outcome),
        opt_string_view(d.error_message) == spec_error_message(reconnect_tries, reconnect_delay_ms, state, *outcome),
        !(d.next is Exit) ==> d.state.valid(reconnect_tries),
{
    match outcome {
        Ok(()) => RunDecision { state, error_message: None, next: NextStep::Exit(ExitCode(0)) },
        Err(WaylandError::NoDataControlManagerGlobalFound) => {
            RunDecision { state, error_message: None, next: NextStep::Exit(ExitCode(1)) }
        },
        Err(WaylandError::ConnectError(e)) => {
            if state.is_reconnect {
                let mut connection_tries = state.connection_tries;
                if let NumberOrInf::Number(_) = reconnect_tries {
                    connection_tries = connection_tries + 1;
                }
                let next_state = ReconnectState { is_reconnect: true, connection_tries };
                let exhausted = match reconnect_tries {
                    NumberOrInf::Number(m) => m == connection_tries,
                    NumberOrInf::Inf => false,
                };
                if exhausted {
                    let msg = text_with("Wayland connect error: ", e);
                    RunDecision { state: next_state, error_message: Some(msg), next: NextStep::Exit(ExitCode(1)) }
                } else {
                    let mut msg = text_with("Wayland connect error: ", e);
                    append_attempt_text(&mut msg, reconnect_tries, connection_tries + 1, reconnect_delay_ms);
                    let next = if reconnect_delay_ms == 0 {
                        NextStep::Reconnect
                    } else {
                        NextStep::ReconnectAfterDelay(reconnect_delay_ms)
                    };
                    RunDecision { state: next_state, error_message: Some(msg), next }
                }
            } else {
                let msg = text_with("Failed to connect to wayland server: ", e);
                RunDecision { state, error_message: Some(msg), next: NextStep::Exit(ExitCode(1)) }
            }
        },
        Err(WaylandError::IoError(e)) => {
            let allowed = match reconnect_tries {
                NumberOrInf::Inf => true,
                NumberOrInf::Number(m) => m >= 1,
            };
            let mut msg = text_with("Wayland IO error: ", e);
            if allowed {
                append_attempt_text(&mut msg, reconnect_tries, 1, 0);
                RunDecision {
                    state: ReconnectState { is_reconnect: true, connection_tries: 0 },
                    error_message: Some(msg),
                    next: NextStep::Reconnect,
                }
            } else {
                RunDecision { state, error_message: Some(msg), next: NextStep::Exit(ExitCode(1)) }
            }
        },
        Err(WaylandError::DataControlManagerGlobalRemoved) => {
            let allowed = match reconnect_tries {
                NumberOrInf::Inf => true,
                NumberOrInf::Number(m) => m >= 1,
            };
            let mut msg = String::from_str("Wayland error: data control manager global was removed");
            if allowed {
                append_attempt_text(&mut msg, reconnect_tries, 1, 0);
                RunDecision {
                    state: ReconnectState { is_reconnect: true, connection_tries: 0 },
                    error_message: Some(msg),
                    next: NextStep::Reconnect,
                }
            } else {
                RunDecision { state, error_message: Some(msg), next: NextStep::Exit(ExitCode(1)) }
            }
        },
    }
}

/// Decides what follows the wait before a reconnect: exit with code 0 when a
/// shutdown was requested during the wait, else reconnect.
pub fn after_reconnect_delay(shutdown_requested: bool) -> (next: NextStep)
    ensures
        next == (if shutdown_requested { NextStep::Exit(ExitCode(0)) } else { NextStep::Reconnect }),
{
    if shutdown_requested {
        NextStep::Exit(ExitCode(0))
    } else {
        NextStep::Reconnect
    }
}


/// The state after `k` failed reconnect attempts in a row, starting from the state
/// that an IO error or a removed global leaves.
pub open spec fn state_after_connect_errors(tries: NumberOrInf<u64>, e: String, k: nat) -> ReconnectState
    decreases k,
{
    if k == 0 {
        ReconnectState { is_reconnect: true, connection_tries: 0 }
    } else {
        spec_next_state(tries, state_after_connect_errors(tries, e, (k - 1) as nat), Err(WaylandError::ConnectError(e)))
    }
}

proof fn lemma_counted_connect_errors(m: u64, e: String, k: nat)
    requires
        1 <= k <= m,
    ensures
        state_after_connect_errors(NumberOrInf::Number(m), e, k)
            == (ReconnectState { is_reconnect: true, connection_tries: k as u64 }),
    decreases k,
{
    if k > 1 {
        lemma_counted_connect_errors(m, e, (k - 1) as nat);
    } else {
        assert(state_after_connect_errors(NumberOrInf::Number(m), e, 0)
            == (ReconnectState { is_reconnect: true, connection_tries: 0 }));
    }
}

/// Law: with a number `m` of reconnect tries, once a session is lost, failed
/// reconnect attempts are answered by another attempt, after the configured delay,
/// until the `m`-th, which makes the program exit with code 1.
pub proof fn law_reconnect_tries_are_bounded(m: u64, delay_ms: u64, e: String, k: nat)
    requires
        1 <= k <= m,
    ensures
        ({
            let tries = NumberOrInf::Number(m);
            let before = state_after_connect_errors(tries, e, (k - 1) as nat);
            let step = spec_next_step(tries, delay_ms, before, Err(WaylandError::ConnectError(e)));
            &&& before.valid(tries)
            &&& k < m ==> step == if delay_ms == 0 {
                NextStep::Reconnect
            } else {
                NextStep::ReconnectAfterDelay(delay_ms)
            }
            &&& k == m ==> step == NextStep::Exit(ExitCode(1))
        }),
{
    if k > 1 {
        lemma_counted_connect_errors(m, e, (k - 1) as nat);
    }
    lemma_counted_connect_errors(m, e, k);
}

/// Law: with infinite reconnect tries, a failed reconnect attempt never makes the
/// program exit, and leaves the state as it was.
pub proof fn law_infinite_tries_never_give_up(delay_ms: u64, state: ReconnectState, e: String)
    requires
        state.valid(NumberOrInf::Inf),
        state.is_reconnect,
    ensures
        spec_next_step(NumberOrInf::Inf, delay_ms, state, Err(WaylandError::ConnectError(e))) == if delay_ms == 0 {
            NextStep::Reconnect
        } else {
            NextStep::ReconnectAfterDelay(delay_ms)
        },
        spec_next_state(NumberOrInf::Inf, state, Err(WaylandError::ConnectError(e))) == state,
{
}

/// Law: when reconnecting is allowed, losing an established session (an IO error or
/// a removed global) starts a fresh series of attempts at once, whatever the state.
pub proof fn law_lost_session_restarts_count(
    tries: NumberOrInf<u64>,
    delay_ms: u64,
    state: ReconnectState,
    err: WaylandError,
)
    requires
        reconnect_allowed(tries),
        err is IoError || err is DataControlManagerGlobalRemoved,
    ensures
        spec_next_state(tries, state, Err(err)) == (ReconnectState { is_reconnect: true, connection_tries: 0 }),
        spec_next_step(tries, delay_ms, state, Err(err)) == NextStep::Reconnect,
{
}

/// Law: without reconnect tries, every error ends the program with code 1, and a
/// graceful end of the session ends it with code 0.
pub proof fn law_no_tries_every_error_exits(delay_ms: u64, state: ReconnectState, outcome: Result<(), WaylandError>)
    requires
        state.valid(NumberOrInf::Number(0)),
    ensures
        spec_next_step(NumberOrInf::Number(0), delay_ms, state, outcome)
            == NextStep::Exit(if outcome is Ok { ExitCode(0) } else { ExitCode(1) }),
{
}

/// Law: the outcome of a run alone decides the exit for a graceful shutdown (code 0)
/// and for a missing data control manager (code 1).
pub proof fn law_terminal_outcomes(tries: NumberOrInf<u64>, delay_ms: u64, state: ReconnectState)
    ensures
        spec_next_step(tries, delay_ms, state, Ok(())) == NextStep::Exit(ExitCode(0)),
        spec_next_step(tries, delay_ms, state, Err(WaylandError::NoDataControlManagerGlobalFound))
            == NextStep::Exit(ExitCode(1)),
{
}

/// Law: every step that does not exit leaves a valid state.
pub proof fn law_state_stays_valid(
    tries: NumberOrInf<u64>,
    delay_ms: u64,
    state: ReconnectState,
    outcome: Result<(), WaylandError>,
)
    requires
        state.valid(tries),
        !(spec_next_step(tries, delay_ms, state, outcome) is Exit),
    ensures
        spec_next_state(tries, state, outcome).valid(tries),
{
}

/// Law: a failed first connection is never retried: whatever the configured tries
/// (infinity included) and delay, a connect error before any session was established
/// ends the program with code 1, logging that the connection to the server failed.
pub proof fn law_first_connection_failure_exits(
    tries: NumberOrInf<u64>,
    delay_ms: u64,
    state: ReconnectState,
    e: String,
)
    requires
        !state.is_reconnect,
    ensures
        spec_next_step(tries, delay_ms, state, Err(WaylandError::ConnectError(e))) == NextStep::Exit(ExitCode(1)),
        spec_next_state(tries, state, Err(WaylandError::ConnectError(e))) == state,
        spec_error_message(tries, delay_ms, state, Err(WaylandError::ConnectError(e)))
            == Some("Failed to connect to wayland server: "@ + e@),
{
}

} // verus!
