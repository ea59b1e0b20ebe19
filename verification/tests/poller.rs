use cargo_wasm::poller::{replay, PollCommand, PollStep, Poller, Replay};
use cargo_wasm::probe::ProbeReport;

fn report(exited: bool, status: i64, lines: &[&str]) -> ProbeReport {
    ProbeReport { exited, status, lines: lines.iter().map(|line| line.to_string()).collect() }
}

fn strings(lines: &[&str]) -> Vec<String> {
    lines.iter().map(|line| line.to_string()).collect()
}

#[test]
fn poller_starts_polling() {
    assert_eq!(Poller::start(), Poller::Polling);
    assert!(!Poller::start().is_done());
    assert_eq!(Poller::start().exit_code(), 1);
}

#[test]
fn a_running_report_is_relayed_and_probed_again() {
    let (next, step) = Poller::Polling.observe(report(false, 0, &["a"]));
    assert_eq!(next, Poller::Polling);
    assert_eq!(step, PollStep { lines: strings(&["a"]), command: PollCommand::ProbeAgain });
}

#[test]
fn an_exit_report_is_relayed_and_closes_the_session() {
    let (next, step) = Poller::Polling.observe(report(true, 7, &["last"]));
    assert_eq!(next, Poller::Done { status: 7 });
    assert!(next.is_done());
    assert_eq!(next.exit_code(), 7);
    assert_eq!(step, PollStep { lines: strings(&["last"]), command: PollCommand::CloseSession });
}

#[test]
fn a_report_after_the_exit_changes_nothing() {
    let done = Poller::Done { status: 7 };
    let (next, step) = done.observe(report(true, 9, &["late"]));
    assert_eq!(next, done);
    assert_eq!(step, PollStep { lines: vec![], command: PollCommand::Rest });
}

#[test]
fn three_scripted_answers_give_status_seven_and_three_lines() {
    let script = vec![
        report(false, 0, &["a"]),
        report(false, 0, &["b", "c"]),
        report(true, 7, &[]),
    ];
    assert_eq!(
        replay(&script),
        Replay { poller: Poller::Done { status: 7 }, lines: strings(&["a", "b", "c"]), probes: 3 }
    );
    assert_eq!(replay(&script).poller.exit_code(), 7);
}

#[test]
fn no_probe_follows_the_exit() {
    let script = vec![
        report(false, 0, &["a"]),
        report(false, 0, &["b", "c"]),
        report(true, 7, &[]),
        report(true, 8, &["never seen"]),
        report(false, 0, &["nor this"]),
    ];
    let outcome = replay(&script);
    assert_eq!(outcome.probes, 3);
    assert_eq!(outcome.poller, Poller::Done { status: 7 });
    assert_eq!(outcome.lines, strings(&["a", "b", "c"]));
}

#[test]
fn the_exit_code_is_the_status_of_the_first_exit() {
    let script = vec![report(false, 5, &[]), report(true, 3, &[]), report(true, 4, &[])];
    assert_eq!(replay(&script).poller.exit_code(), 3);
}

#[test]
fn a_script_without_exit_leaves_the_poller_polling() {
    let script = vec![report(false, 0, &["a"]), report(false, 2, &["b"])];
    let outcome = replay(&script);
    assert_eq!(outcome.poller, Poller::Polling);
    assert_eq!(outcome.poller.exit_code(), 1);
    assert_eq!(outcome.lines, strings(&["a", "b"]));
    assert_eq!(outcome.probes, 2);
}

#[test]
fn an_empty_script_relays_nothing() {
    assert_eq!(replay(&vec![]), Replay { poller: Poller::Polling, lines: vec![], probes: 0 });
}

#[test]
fn a_drain_without_new_output_relays_nothing() {
    let script = vec![report(false, 0, &["a", "b"]), report(false, 0, &[]), report(false, 0, &[])];
    assert_eq!(replay(&script).lines, strings(&["a", "b"]));
    let (_, step) = Poller::Polling.observe(report(false, 0, &[]));
    assert_eq!(step.lines, Vec::<String>::new());
}

#[test]
fn equal_lines_are_relayed_as_often_as_they_came() {
    let script = vec![report(false, 0, &["x", "x"]), report(true, 0, &["x"])];
    assert_eq!(replay(&script).lines, strings(&["x", "x", "x"]));
}

#[test]
fn the_exit_code_keeps_the_low_32_bits_of_the_status() {
    assert_eq!(Poller::Done { status: 0 }.exit_code(), 0);
    assert_eq!(Poller::Done { status: -1 }.exit_code(), -1);
    assert_eq!(Poller::Done { status: (1i64 << 32) + 7 }.exit_code(), 7);
    assert_eq!(Poller::Done { status: i32::MAX as i64 + 1 }.exit_code(), i32::MIN);
}
