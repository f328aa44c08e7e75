use std::sync::mpsc;

use mc_server_wrapper::bridge::restart_may_proceed;
use mc_server_wrapper::bridge::BridgeState;
use mc_server_wrapper::bridge::Wrapper;
use mc_server_wrapper::errors::WrapperError;

const BUDGET: u64 = 1_000_000;

fn bridge_with_lines(lines: &[&str]) -> (mpsc::Sender<String>, Wrapper) {
    let (tx, rx) = mpsc::channel::<String>();
    for line in lines {
        tx.send((*line).to_string()).unwrap();
    }
    (tx, Wrapper::new(rx, "server.jar"))
}

#[test]
fn new_bridge_starts_in_starting_state() {
    let (_tx, w) = bridge_with_lines(&[]);
    assert_eq!(w.current_state(), BridgeState::Starting);
    assert_eq!(w.jar_path_str(), "server.jar");
}

#[test]
fn lines_are_delivered_in_emission_order() {
    let (_tx, mut w) = bridge_with_lines(&["query: alice", "query: bob", "query: carl"]);
    assert_eq!(w.receive_player_list().unwrap(), vec!["alice".to_string()]);
    assert_eq!(w.receive_player_list().unwrap(), vec!["bob".to_string()]);
    assert_eq!(w.receive_player_list().unwrap(), vec!["carl".to_string()]);
}

#[test]
fn run_command_returns_framed_line_without_blocking() {
    let (_tx, mut w) = bridge_with_lines(&["spontaneous chatter", "more chatter"]);
    let framed = w.run_custom_command("/say hi", BUDGET).unwrap();
    assert_eq!(framed, "/say hi\n");
    assert_eq!(w.current_state(), BridgeState::Starting);
}

#[test]
fn run_command_discards_previously_queued_lines() {
    let (tx, mut w) = bridge_with_lines(&["old: stale", "old: stale2"]);
    let framed = w.run_custom_command("/list", BUDGET).unwrap();
    assert_eq!(framed, "/list\n");
    tx.send("query: fresh".to_string()).unwrap();
    assert_eq!(w.receive_player_list().unwrap(), vec!["fresh".to_string()]);
}

#[test]
fn await_ready_passes_over_non_matching_lines() {
    let (_tx, mut w) = bridge_with_lines(&[
        "[INFO]: Starting minecraft server",
        "[INFO]: Preparing level \"world\"",
        "[INFO]: Done (9.797s)! For help, type \"help\"",
    ]);
    assert_eq!(w.wait_for_server_to_spin_up(BUDGET), Ok(true));
    assert_eq!(w.current_state(), BridgeState::Ready);
}

#[test]
fn await_ready_consumes_exactly_through_the_marker() {
    let (_tx, mut w) = bridge_with_lines(&[
        "[INFO]: Starting minecraft server",
        "[INFO]: Done (9.797s)! For help, type \"help\"",
        "query: carl",
    ]);
    assert_eq!(w.wait_for_server_to_spin_up(BUDGET), Ok(true));
    assert_eq!(w.receive_player_list().unwrap(), vec!["carl".to_string()]);
}

#[test]
fn await_ready_does_not_report_ready_on_non_matching_lines() {
    let (_tx, mut w) = bridge_with_lines(&["one", "two", "three"]);
    assert_eq!(w.wait_for_server_to_spin_up(3), Ok(false));
    assert_eq!(w.current_state(), BridgeState::Starting);
}

#[test]
fn await_ready_reports_broken_pipe_when_channel_closes() {
    let (tx, mut w) = bridge_with_lines(&["still spinning up"]);
    drop(tx);
    assert_eq!(w.wait_for_server_to_spin_up(BUDGET), Err(WrapperError::BrokenPipe));
    assert_eq!(w.current_state(), BridgeState::Dead);
}

#[test]
fn run_command_reports_broken_pipe_when_channel_closes() {
    let (tx, mut w) = bridge_with_lines(&[]);
    drop(tx);
    assert_eq!(w.run_custom_command("/say hi", BUDGET), Err(WrapperError::BrokenPipe));
    assert_eq!(w.current_state(), BridgeState::Dead);
}

#[test]
fn receive_reports_broken_pipe_instead_of_fabricating_a_value() {
    let (tx, mut w) = bridge_with_lines(&[]);
    drop(tx);
    assert_eq!(w.receive_player_list(), Err(WrapperError::BrokenPipe));
    assert_eq!(w.current_state(), BridgeState::Dead);
}

#[test]
fn receive_reports_violation_on_misshapen_response() {
    let (_tx, mut w) = bridge_with_lines(&["no separator here"]);
    assert_eq!(w.receive_player_list(), Err(WrapperError::ProtocolViolation));
}

#[test]
fn begin_stop_moves_bridge_to_stopping() {
    let (_tx, mut w) = bridge_with_lines(&["chatter"]);
    assert_eq!(w.begin_stop(BUDGET), Ok("/stop\n".to_string()));
    assert_eq!(w.current_state(), BridgeState::Stopping);
}

#[test]
fn begin_list_players_frames_the_query() {
    let (_tx, mut w) = bridge_with_lines(&[]);
    assert_eq!(w.begin_list_players(BUDGET), Ok("/list\n".to_string()));
}

#[test]
fn exit_with_code_zero_is_success() {
    let (_tx, mut w) = bridge_with_lines(&[]);
    assert_eq!(w.record_exit(Some(0)), Ok(()));
    assert_eq!(w.current_state(), BridgeState::Stopped);
}

#[test]
fn exit_with_code_one_carries_the_code() {
    let (_tx, mut w) = bridge_with_lines(&[]);
    assert_eq!(w.record_exit(Some(1)), Err(WrapperError::ExitFailure(Some(1))));
}

#[test]
fn signal_termination_is_distinct_from_code_one() {
    let (_tx, mut w) = bridge_with_lines(&[]);
    let by_signal = w.record_exit(None).unwrap_err();
    assert_eq!(by_signal, WrapperError::ExitFailure(None));
    assert_ne!(by_signal, WrapperError::ExitFailure(Some(1)));
}

#[test]
fn adopting_a_new_process_restarts_the_lifecycle() {
    let (tx, mut w) = bridge_with_lines(&[]);
    drop(tx);
    assert_eq!(w.receive_player_list(), Err(WrapperError::BrokenPipe));
    let (tx2, rx2) = mpsc::channel::<String>();
    w.adopt_new_process(rx2);
    assert_eq!(w.current_state(), BridgeState::Starting);
    tx2.send("[INFO]: Done (1.0s)!".to_string()).unwrap();
    assert_eq!(w.wait_for_server_to_spin_up(BUDGET), Ok(true));
    assert_eq!(w.jar_path_str(), "server.jar");
}

#[test]
fn restart_proceeds_unless_both_stop_and_kill_fail_hard() {
    assert!(restart_may_proceed(true, false, false));
    assert!(restart_may_proceed(false, false, false));
    assert!(restart_may_proceed(false, true, true));
    assert!(!restart_may_proceed(false, true, false));
}
