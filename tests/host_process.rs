use st_workspaces::host_process::{
    close_result_from_exit_code, CloseError, CloseResult, SessionWatch, WaitStep,
};

#[test]
fn termination_of_non_running_process_is_not_an_error() {
    assert_eq!(close_result_from_exit_code(Some(128)), Ok(CloseResult::ProcessNotRunning));
}

#[test]
fn exit_code_zero_means_closed() {
    assert_eq!(close_result_from_exit_code(Some(0)), Ok(CloseResult::Closed));
}

#[test]
fn other_exit_codes_are_errors() {
    assert_eq!(close_result_from_exit_code(Some(1)), Err(CloseError::UnknownExitCode(1)));
    assert_eq!(close_result_from_exit_code(Some(-1)), Err(CloseError::UnknownExitCode(-1)));
    assert_eq!(close_result_from_exit_code(None), Err(CloseError::NoExitCode));
}

#[test]
fn standard_watch_is_four_seconds_every_fifth_of_a_second() {
    let w = SessionWatch::standard();
    assert_eq!(w.timeout_ms, 4000);
    assert_eq!(w.poll_interval_ms, 200);
}

#[test]
fn wait_polls_until_modification_time_changes() {
    let w = SessionWatch::standard();
    assert_eq!(w.next_step(0, Some(10), Some(10)), WaitStep::Sleep(200));
    assert_eq!(w.next_step(600, Some(10), None), WaitStep::Sleep(200));
    assert_eq!(w.next_step(800, Some(10), Some(11)), WaitStep::Finish);
}

#[test]
fn wait_stops_after_timeout() {
    let w = SessionWatch::standard();
    assert_eq!(w.next_step(4000, Some(10), Some(10)), WaitStep::Sleep(200));
    assert_eq!(w.next_step(4001, Some(10), Some(10)), WaitStep::Finish);
}

#[test]
fn wait_without_initial_time_sleeps_out_the_timeout() {
    let w = SessionWatch::standard();
    assert_eq!(w.next_step(0, None, Some(3)), WaitStep::Sleep(4000));
    assert_eq!(w.next_step(1500, None, None), WaitStep::Sleep(2500));
    assert_eq!(w.next_step(4000, None, None), WaitStep::Finish);
}
