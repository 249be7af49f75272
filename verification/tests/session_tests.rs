use volume_ctl::session::adapter_step;
use volume_ctl::session::bootstrap_step;
use volume_ctl::session::finish_operation;
use volume_ctl::session::state_is_terminal;
use volume_ctl::session::AdapterEvent;
use volume_ctl::session::AdapterStep;
use volume_ctl::session::BootstrapStep;
use volume_ctl::session::ConnectionState;
use volume_ctl::session::LoopTick;

#[test]
fn terminal_states_are_exactly_the_four() {
    assert!(state_is_terminal(&ConnectionState::Ready));
    assert!(state_is_terminal(&ConnectionState::Failed));
    assert!(state_is_terminal(&ConnectionState::Unconnected));
    assert!(state_is_terminal(&ConnectionState::Terminated));
    assert!(!state_is_terminal(&ConnectionState::Connecting));
    assert!(!state_is_terminal(&ConnectionState::Authorizing));
    assert!(!state_is_terminal(&ConnectionState::SettingName));
}

#[test]
fn bootstrap_rejects_a_failed_connection() {
    // The daemon reports the failed state while the bootstrap pumps the
    // loop: the invocation is over, no request is ever issued, and the
    // binary turns this into exit status 1 without any notification.
    let step = bootstrap_step(&LoopTick::Success, &ConnectionState::Failed);
    assert_eq!(step, BootstrapStep::Rejected { state: ConnectionState::Failed });
}

#[test]
fn bootstrap_connects_on_ready() {
    let step = bootstrap_step(&LoopTick::Success, &ConnectionState::Ready);
    assert_eq!(step, BootstrapStep::Connected);
}

#[test]
fn bootstrap_keeps_pumping_while_connecting() {
    for state in [
        ConnectionState::Connecting,
        ConnectionState::Authorizing,
        ConnectionState::SettingName,
    ] {
        assert_eq!(bootstrap_step(&LoopTick::Success, &state), BootstrapStep::Pending);
    }
}

#[test]
fn bootstrap_obeys_quit_and_failure_before_any_state() {
    let step = bootstrap_step(&LoopTick::Quit { code: 3 }, &ConnectionState::Ready);
    assert_eq!(step, BootstrapStep::Exit { code: 3 });
    let step = bootstrap_step(&LoopTick::Failure { code: -7 }, &ConnectionState::Connecting);
    assert_eq!(step, BootstrapStep::Error { code: -7 });
}

#[test]
fn adapter_finishes_on_a_deposited_value() {
    let step = adapter_step(AdapterEvent::Completed { value: 42u32 });
    assert_eq!(step, AdapterStep::Done { value: 42u32 });
}

#[test]
fn adapter_waits_error_and_exits_by_tick() {
    let step: AdapterStep<u32> = adapter_step(AdapterEvent::Ticked { tick: LoopTick::Success });
    assert_eq!(step, AdapterStep::Pending);
    let step: AdapterStep<u32> =
        adapter_step(AdapterEvent::Ticked { tick: LoopTick::Failure { code: 11 } });
    assert_eq!(step, AdapterStep::Error { code: 11 });
    let step: AdapterStep<u32> =
        adapter_step(AdapterEvent::Ticked { tick: LoopTick::Quit { code: 2 } });
    assert_eq!(step, AdapterStep::Exit { code: 2 });
}

#[test]
fn finish_operation_keeps_payload_and_reports_last_error() {
    let settled: Result<u8, i32> = finish_operation(Ok(5u8), 99);
    assert_eq!(settled, Ok(5));
    let settled: Result<u8, i32> = finish_operation(Err(()), 17);
    assert_eq!(settled, Err(17));
}
