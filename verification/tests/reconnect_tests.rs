use wl_clip_persist::reconnect::{
    after_reconnect_delay, run_step, ExitCode, NextStep, ReconnectState, WaylandError,
};
use wl_clip_persist::settings::NumberOrInf;

fn connect_error() -> Result<(), WaylandError> {
    Err(WaylandError::ConnectError("refused".to_string()))
}

#[test]
fn graceful_shutdown_exits_zero() {
    let d = run_step(NumberOrInf::Inf, 100, ReconnectState::new(), &Ok(()));
    assert_eq!(d.next, NextStep::Exit(ExitCode(0)));
    assert_eq!(d.error_message, None);
}

#[test]
fn missing_manager_exits_one() {
    let d = run_step(NumberOrInf::Inf, 100, ReconnectState::new(), &Err(WaylandError::NoDataControlManagerGlobalFound));
    assert_eq!(d.next, NextStep::Exit(ExitCode(1)));
    assert_eq!(d.error_message, None);
}

#[test]
fn first_connect_error_exits_one() {
    let d = run_step(NumberOrInf::Number(3), 100, ReconnectState::new(), &connect_error());
    assert_eq!(d.next, NextStep::Exit(ExitCode(1)));
    assert_eq!(d.error_message.as_deref(), Some("Failed to connect to wayland server: refused"));
}

#[test]
fn io_error_without_tries_exits_one() {
    let d = run_step(NumberOrInf::Number(0), 100, ReconnectState::new(), &Err(WaylandError::IoError("broken pipe".to_string())));
    assert_eq!(d.next, NextStep::Exit(ExitCode(1)));
    assert_eq!(d.error_message.as_deref(), Some("Wayland IO error: broken pipe"));
}

#[test]
fn removed_global_without_tries_exits_one() {
    let d = run_step(NumberOrInf::Number(0), 100, ReconnectState::new(), &Err(WaylandError::DataControlManagerGlobalRemoved));
    assert_eq!(d.next, NextStep::Exit(ExitCode(1)));
    assert_eq!(d.error_message.as_deref(), Some("Wayland error: data control manager global was removed"));
}

#[test]
fn io_error_with_tries_reconnects_at_once() {
    let d = run_step(NumberOrInf::Number(2), 250, ReconnectState::new(), &Err(WaylandError::IoError("eof".to_string())));
    assert_eq!(d.next, NextStep::Reconnect);
    assert_eq!(d.state, ReconnectState { is_reconnect: true, connection_tries: 0 });
    assert_eq!(
        d.error_message.as_deref(),
        Some("Wayland IO error: eof\nAttempt 1/2 to reconnect will start immediately...")
    );
}

#[test]
fn removed_global_with_infinite_tries_reconnects() {
    let d = run_step(NumberOrInf::Inf, 250, ReconnectState::new(), &Err(WaylandError::DataControlManagerGlobalRemoved));
    assert_eq!(d.next, NextStep::Reconnect);
    assert_eq!(
        d.error_message.as_deref(),
        Some("Wayland error: data control manager global was removed\nAttempt to reconnect will start immediately...")
    );
}

#[test]
fn counted_reconnects_end_after_the_last_try() {
    let tries = NumberOrInf::Number(3);
    let d = run_step(tries, 250, ReconnectState::new(), &Err(WaylandError::IoError("eof".to_string())));
    let d = run_step(tries, 250, d.state, &connect_error());
    assert_eq!(d.next, NextStep::ReconnectAfterDelay(250));
    assert_eq!(d.state.connection_tries, 1);
    assert_eq!(
        d.error_message.as_deref(),
        Some("Wayland connect error: refused\nAttempt 2/3 to reconnect in 250 ms...")
    );
    let d = run_step(tries, 250, d.state, &connect_error());
    assert_eq!(d.next, NextStep::ReconnectAfterDelay(250));
    assert_eq!(
        d.error_message.as_deref(),
        Some("Wayland connect error: refused\nAttempt 3/3 to reconnect in 250 ms...")
    );
    let d = run_step(tries, 250, d.state, &connect_error());
    assert_eq!(d.next, NextStep::Exit(ExitCode(1)));
    assert_eq!(d.error_message.as_deref(), Some("Wayland connect error: refused"));
}

#[test]
fn single_try_ends_at_first_connect_error() {
    let tries = NumberOrInf::Number(1);
    let d = run_step(tries, 0, ReconnectState::new(), &Err(WaylandError::DataControlManagerGlobalRemoved));
    assert_eq!(d.next, NextStep::Reconnect);
    let d = run_step(tries, 0, d.state, &connect_error());
    assert_eq!(d.next, NextStep::Exit(ExitCode(1)));
}

#[test]
fn zero_delay_reconnects_at_once() {
    let tries = NumberOrInf::Number(5);
    let d = run_step(tries, 0, ReconnectState::new(), &Err(WaylandError::IoError("eof".to_string())));
    let d = run_step(tries, 0, d.state, &connect_error());
    assert_eq!(d.next, NextStep::Reconnect);
    assert_eq!(
        d.error_message.as_deref(),
        Some("Wayland connect error: refused\nAttempt 2/5 to reconnect will start immediately...")
    );
}

#[test]
fn infinite_tries_keep_reconnecting() {
    let mut state = run_step(NumberOrInf::Inf, 20, ReconnectState::new(), &Err(WaylandError::IoError("eof".to_string()))).state;
    for _ in 0..100 {
        let d = run_step(NumberOrInf::Inf, 20, state, &connect_error());
        assert_eq!(d.next, NextStep::ReconnectAfterDelay(20));
        assert_eq!(
            d.error_message.as_deref(),
            Some("Wayland connect error: refused\nAttempt to reconnect in 20 ms...")
        );
        state = d.state;
    }
    assert_eq!(state, ReconnectState { is_reconnect: true, connection_tries: 0 });
}

#[test]
fn lost_session_resets_count() {
    let tries = NumberOrInf::Number(3);
    let state = ReconnectState { is_reconnect: true, connection_tries: 2 };
    let d = run_step(tries, 10, state, &Err(WaylandError::IoError("eof".to_string())));
    assert_eq!(d.state, ReconnectState { is_reconnect: true, connection_tries: 0 });
    assert_eq!(d.next, NextStep::Reconnect);
}

#[test]
fn shutdown_during_delay_exits_zero() {
    assert_eq!(after_reconnect_delay(true), NextStep::Exit(ExitCode(0)));
    assert_eq!(after_reconnect_delay(false), NextStep::Reconnect);
}
