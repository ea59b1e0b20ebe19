use cargo_wasm::harness::Settings;
use cargo_wasm::orchestrator::{advance, Advance, Command, Event, Notice, Phase};
use cargo_wasm::probe::{ProbeError, ProbeValue};

fn answer(exited: bool, status: i64, lines: &[&str]) -> Event {
    let logs = lines.iter().map(|line| ProbeValue::Text(line.to_string())).collect();
    Event::Answered {
        value: ProbeValue::List(vec![
            ProbeValue::Boolean(exited),
            ProbeValue::Signed(status),
            ProbeValue::List(logs),
        ]),
    }
}

fn quiet(phase: Phase, command: Command) -> Advance {
    Advance { phase, lines: vec![], notice: None, command }
}

fn aborted(notice: Notice) -> Advance {
    Advance {
        phase: Phase::Aborted,
        lines: vec![],
        notice: Some(notice),
        command: Command::Exit { code: 1 },
    }
}

#[test]
fn a_run_begins_with_the_server() {
    let settings = Settings::standard(None);
    assert_eq!(
        advance(Phase::Ready, Event::Begin, &settings),
        quiet(Phase::AwaitingServer, Command::StartServer)
    );
}

#[test]
fn a_listening_server_is_followed_by_the_session() {
    let settings = Settings::standard(None);
    assert_eq!(
        advance(Phase::AwaitingServer, Event::ServerReady, &settings),
        quiet(Phase::Connecting, Command::Connect { endpoint: "http://localhost:4444".to_string() })
    );
}

#[test]
fn the_session_is_opened_at_the_configured_endpoint() {
    let settings = Settings::standard(Some("http://10.0.0.5:9515".to_string()));
    assert_eq!(
        advance(Phase::AwaitingServer, Event::ServerReady, &settings).command,
        Command::Connect { endpoint: "http://10.0.0.5:9515".to_string() }
    );
}

#[test]
fn an_open_session_is_sent_to_the_harness_page() {
    let settings = Settings::standard(None);
    assert_eq!(
        advance(Phase::Connecting, Event::Connected, &settings),
        quiet(Phase::Navigating, Command::Navigate { url: "http://localhost:7777/".to_string() })
    );
}

#[test]
fn a_failed_connection_ends_the_run_with_code_one() {
    let settings = Settings::standard(None);
    let step = advance(
        Phase::Connecting,
        Event::ConnectFailed { reason: "connection refused".to_string() },
        &settings,
    );
    assert_eq!(
        step,
        aborted(Notice::ConnectFailed {
            endpoint: "http://localhost:4444".to_string(),
            reason: "connection refused".to_string(),
        })
    );
    assert_eq!(step.phase.exit_code(), 1);
}

#[test]
fn the_first_probe_follows_the_arrival_at_the_page() {
    let settings = Settings::standard(None);
    assert_eq!(
        advance(Phase::Navigating, Event::Navigated, &settings),
        Advance {
            phase: Phase::Polling,
            lines: vec![],
            notice: Some(Notice::Running),
            command: Command::Probe,
        }
    );
}

#[test]
fn a_failed_navigation_ends_the_run() {
    let settings = Settings::standard(None);
    assert_eq!(
        advance(Phase::Navigating, Event::NavigateFailed { reason: "timeout".to_string() }, &settings),
        aborted(Notice::NavigateFailed { reason: "timeout".to_string() })
    );
}

#[test]
fn a_running_answer_is_relayed_and_probed_again() {
    let settings = Settings::standard(None);
    assert_eq!(
        advance(Phase::Polling, answer(false, 0, &["b", "c"]), &settings),
        Advance {
            phase: Phase::Polling,
            lines: vec!["b".to_string(), "c".to_string()],
            notice: None,
            command: Command::Probe,
        }
    );
}

#[test]
fn an_exit_answer_records_the_status_and_closes_the_session() {
    let settings = Settings::standard(None);
    let step = advance(Phase::Polling, answer(true, 7, &["bye"]), &settings);
    assert_eq!(
        step,
        Advance {
            phase: Phase::Closing { code: 7 },
            lines: vec!["bye".to_string()],
            notice: Some(Notice::Finished { status: 7 }),
            command: Command::CloseSession,
        }
    );
    assert_eq!(step.phase.exit_code(), 7);
}

#[test]
fn a_malformed_answer_ends_the_run() {
    let settings = Settings::standard(None);
    assert_eq!(
        advance(Phase::Polling, Event::Answered { value: ProbeValue::Null }, &settings),
        aborted(Notice::Malformed { fault: ProbeError::NotAnArray })
    );
    let value = ProbeValue::List(vec![
        ProbeValue::Boolean(false),
        ProbeValue::Signed(0),
        ProbeValue::List(vec![ProbeValue::Text("kept back".to_string()), ProbeValue::Null]),
    ]);
    assert_eq!(
        advance(Phase::Polling, Event::Answered { value }, &settings),
        aborted(Notice::Malformed { fault: ProbeError::LogLineNotText { index: 1 } })
    );
}

#[test]
fn a_failed_probe_ends_the_run() {
    let settings = Settings::standard(None);
    assert_eq!(
        advance(Phase::Polling, Event::ProbeFailed, &settings),
        aborted(Notice::ProbeFailed)
    );
}

#[test]
fn the_server_is_stopped_once_the_session_is_closed() {
    let settings = Settings::standard(None);
    assert_eq!(
        advance(Phase::Closing { code: 7 }, Event::SessionClosed, &settings),
        quiet(Phase::Stopping { code: 7 }, Command::StopServer)
    );
}

#[test]
fn the_process_exits_once_the_server_is_stopped() {
    let settings = Settings::standard(None);
    assert_eq!(
        advance(Phase::Stopping { code: 7 }, Event::ServerStopped, &settings),
        quiet(Phase::Finished { code: 7 }, Command::Exit { code: 7 })
    );
}

#[test]
fn a_run_that_is_over_repeats_its_exit() {
    let settings = Settings::standard(None);
    assert_eq!(
        advance(Phase::Finished { code: 7 }, Event::Begin, &settings),
        quiet(Phase::Finished { code: 7 }, Command::Exit { code: 7 })
    );
    assert_eq!(
        advance(Phase::Aborted, answer(true, 0, &["x"]), &settings),
        quiet(Phase::Aborted, Command::Exit { code: 1 })
    );
}

#[test]
fn an_event_out_of_turn_ends_the_run() {
    let settings = Settings::standard(None);
    assert_eq!(advance(Phase::Ready, Event::Connected, &settings), aborted(Notice::OutOfTurn));
    assert_eq!(
        advance(Phase::Connecting, answer(true, 0, &["x"]), &settings),
        aborted(Notice::OutOfTurn)
    );
    assert_eq!(
        advance(Phase::Closing { code: 0 }, Event::ServerStopped, &settings),
        aborted(Notice::OutOfTurn)
    );
    assert_eq!(
        advance(Phase::Polling, Event::SessionClosed, &settings),
        aborted(Notice::OutOfTurn)
    );
}

#[test]
fn a_whole_run_exits_with_the_reported_status() {
    let settings = Settings::standard(None);
    let events = vec![
        Event::Begin,
        Event::ServerReady,
        Event::Connected,
        Event::Navigated,
        answer(false, 0, &["a"]),
        answer(false, 0, &["b", "c"]),
        answer(true, 7, &[]),
        Event::SessionClosed,
        Event::ServerStopped,
    ];
    let mut phase = Phase::Ready;
    let mut lines = Vec::new();
    let mut commands = Vec::new();
    for event in events {
        let step = advance(phase, event, &settings);
        phase = step.phase;
        lines.extend(step.lines);
        commands.push(step.command);
    }
    assert_eq!(phase, Phase::Finished { code: 7 });
    assert_eq!(lines, vec!["a".to_string(), "b".to_string(), "c".to_string()]);
    assert_eq!(
        commands,
        vec![
            Command::StartServer,
            Command::Connect { endpoint: "http://localhost:4444".to_string() },
            Command::Navigate { url: "http://localhost:7777/".to_string() },
            Command::Probe,
            Command::Probe,
            Command::Probe,
            Command::CloseSession,
            Command::StopServer,
            Command::Exit { code: 7 },
        ]
    );
}

#[test]
fn the_recorded_code_keeps_the_low_32_bits_of_the_status() {
    let settings = Settings::standard(None);
    let step = advance(Phase::Polling, answer(true, (1i64 << 32) + 2, &[]), &settings);
    assert_eq!(step.phase, Phase::Closing { code: 2 });
    let step = advance(Phase::Polling, answer(true, -1, &[]), &settings);
    assert_eq!(step.phase, Phase::Closing { code: -1 });
}

#[test]
fn phases_before_the_exit_stand_for_failure() {
    for phase in [
        Phase::Ready,
        Phase::AwaitingServer,
        Phase::Connecting,
        Phase::Navigating,
        Phase::Polling,
        Phase::Aborted,
    ] {
        assert_eq!(phase.exit_code(), 1);
    }
    assert_eq!(Phase::Closing { code: 0 }.exit_code(), 0);
    assert_eq!(Phase::Stopping { code: 3 }.exit_code(), 3);
    assert_eq!(Phase::Finished { code: -2 }.exit_code(), -2);
}

#[test]
fn notices_read_as_the_operator_sees_them() {
    assert_eq!(Notice::Running.message(), "Running tests...");
    assert_eq!(Notice::Finished { status: 7 }.message(), "tests finished with status: 7");
    assert_eq!(Notice::Finished { status: -3 }.message(), "tests finished with status: -3");
    assert_eq!(
        Notice::ConnectFailed {
            endpoint: "http://localhost:4444".to_string(),
            reason: "connection refused".to_string(),
        }
        .message(),
        "failed to connect to WebDriver at http://localhost:4444 successfully: connection refused"
    );
    assert_eq!(
        Notice::NavigateFailed { reason: "timeout".to_string() }.message(),
        "failed to reach the test page: timeout"
    );
    assert_eq!(Notice::ProbeFailed.message(), "failed to get web server status");
    assert_eq!(
        Notice::Malformed { fault: ProbeError::NoLogs }.message(),
        "no test log stream found"
    );
    assert_eq!(Notice::OutOfTurn.message(), "the run was driven out of turn");
}
