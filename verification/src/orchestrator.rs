//! The order of a run: start the asset server, open a session, send it to
//! the harness page, poll until the runtime has exited, close the session,
//! stop the server, exit with the reported status.
//!
//! The run is a machine. The program around it performs each [`Command`] and
//! hands back what came of it as an [`Event`].

use vstd::prelude::*;
use vstd::string::*;
use crate::harness::{Settings, FAILURE_CODE};
use crate::text::{decimal, decimal_text};
use crate::poller::{Poller, PollerView};
use crate::probe::{decode, fault, report_of, well_shaped, ProbeError, ProbeValue};

verus! {

/// How far a run has come.
#[derive(Debug, Clone, Copy, PartialEq, Eq, Structural)]
pub enum Phase {
    /// Nothing has been asked for.
    Ready,
    /// The asset server was asked to start.
    AwaitingServer,
    /// A session was asked for.
    Connecting,
    /// The session was sent to the harness page.
    Navigating,
    /// The probe was executed; its answer is awaited.
    Polling,
    /// The runtime has exited with `code`; the session was asked to close.
    Closing { code: i32 },
    /// The session is closed; the server was asked to stop.
    Stopping { code: i32 },
    /// The run is over and the process exits with `code`.
    Finished { code: i32 },
    /// The run has failed and the process exits with [`FAILURE_CODE`].
    Aborted,
}

/// What came of the last command.
#[derive(Debug, PartialEq, Eq)]
pub enum Event {
    /// The run is to begin.
    Begin,
    /// The asset server listens.
    ServerReady,
    /// The session is open.
    Connected,
    /// No session could be opened.
    ConnectFailed { reason: String },
    /// The browser has reached the harness page.
    Navigated,
    /// The browser could not be sent there.
    NavigateFailed { reason: String },
    /// The probe has answered.
    Answered { value: ProbeValue },
    /// The probe could not be executed.
    ProbeFailed,
    /// The session is closed.
    SessionClosed,
    /// The server was told to stop.
    ServerStopped,
}

/// What the program is to do next.
#[derive(Debug, Clone, PartialEq, Eq)]
pub enum Command {
    /// Start the asset server and wait until it listens.
    StartServer,
    /// Open a session at the automation endpoint.
    Connect { endpoint: String },
    /// Send the session to the harness page.
    Navigate { url: String },
    /// Execute the probe script in the page.
    Probe,
    /// Close the session.
    CloseSession,
    /// Tell the asset server to stop.
    StopServer,
    /// Leave the process with this code.
    Exit { code: i32 },
}

/// A message for the operator.
#[derive(Debug, Clone, PartialEq, Eq)]
pub enum Notice {
    /// The tests are running.
    Running,
    /// The tests have finished with this status.
    Finished { status: i32 },
    /// No session could be opened at `endpoint`.
    ConnectFailed { endpoint: String, reason: String },
    /// The browser could not be sent to the harness page.
    NavigateFailed { reason: String },
    /// The probe could not be executed.
    ProbeFailed,
    /// The probe's answer had not the expected shape.
    Malformed { fault: ProbeError },
    /// An event came that the phase did not wait for.
    OutOfTurn,
}

/// The mathematical content of a [`Command`].
pub enum CommandView {
    StartServer,
    Connect { endpoint: Seq<char> },
    Navigate { url: Seq<char> },
    Probe,
    CloseSession,
    StopServer,
    Exit { code: i32 },
}

/// The mathematical content of a [`Notice`].
pub enum NoticeView {
    Running,
    Finished { status: i32 },
    ConnectFailed { endpoint: Seq<char>, reason: Seq<char> },
    NavigateFailed { reason: Seq<char> },
    ProbeFailed,
    Malformed { fault: ProbeError },
    OutOfTurn,
}

impl View for Command {
    type V = CommandView;

    open spec fn view(&self) -> CommandView {
        match *self {
            Command::StartServer => CommandView::StartServer,
            Command::Connect { endpoint } => CommandView::Connect { endpoint: endpoint@ },
            Command::Navigate { url } => CommandView::Navigate { url: url@ },
            Command::Probe => CommandView::Probe,
            Command::CloseSession => CommandView::CloseSession,
            Command::StopServer => CommandView::StopServer,
            Command::Exit { code } => CommandView::Exit { code },
        }
    }
}

impl View for Notice {
    type V = NoticeView;

    open spec fn view(&self) -> NoticeView {
        match *self {
            Notice::Running => NoticeView::Running,
            Notice::Finished { status } => NoticeView::Finished { status },
            Notice::ConnectFailed { endpoint, reason } => NoticeView::ConnectFailed {
                endpoint: endpoint@,
                reason: reason@,
            },
            Notice::NavigateFailed { reason } => NoticeView::NavigateFailed { reason: reason@ },
            Notice::ProbeFailed => NoticeView::ProbeFailed,
            Notice::Malformed { fault } => NoticeView::Malformed { fault },
            Notice::OutOfTurn => NoticeView::OutOfTurn,
        }
    }
}

impl NoticeView {
    /// The message in words.
    pub open spec fn text(self) -> Seq<char> {
        match self {
            NoticeView::Running => "Running tests..."@,
            NoticeView::Finished { status } => "tests finished with status: "@ + decimal(
                status as int,
            ),
            NoticeView::ConnectFailed { endpoint, reason } => "failed to connect to WebDriver at "@
                + endpoint + " successfully: "@ + reason,
            NoticeView::NavigateFailed { reason } => "failed to reach the test page: "@ + reason,
            NoticeView::ProbeFailed => "failed to get web server status"@,
            NoticeView::Malformed { fault } => fault.text(),
            NoticeView::OutOfTurn => "the run was driven out of turn"@,
        }
    }
}

impl Notice {
    /// Writes the message in words.
    pub fn message(&self) -> (message: String)
        ensures
            message@ == self@.text(),
    {
        match self {
            Notice::Running => "Running tests...".to_owned(),
            Notice::Finished { status } => "tests finished with status: ".to_owned().concat(
                decimal_text(*status).as_str(),
            ),
            Notice::ConnectFailed { endpoint, reason } => "failed to connect to WebDriver at "
                .to_owned().concat(endpoint.as_str()).concat(" successfully: ").concat(
                reason.as_str(),
            ),
            Notice::NavigateFailed { reason } => "failed to reach the test page: ".to_owned().concat(
                reason.as_str(),
            ),
            Notice::ProbeFailed => "failed to get web server status".to_owned(),
            Notice::Malformed { fault } => fault.message().to_owned(),
            Notice::OutOfTurn => "the run was driven out of turn".to_owned(),
        }
    }
}

/// What one event leads to.
#[derive(Debug, PartialEq, Eq)]
pub struct Advance {
    /// The phase from now on.
    pub phase: Phase,
    /// The page's lines to write to the error stream, first and in order.
    pub lines: Vec<String>,
    /// The message to show the operator after them.
    pub notice: Option<Notice>,
    /// What to do then.
    pub command: Command,
}

impl Phase {
    /// The event is the one that the phase waits for.
    pub open spec fn awaits(self, event: Event) -> bool {
        match self {
            Phase::Ready => event is Begin,
            Phase::AwaitingServer => event is ServerReady,
            Phase::Connecting => event is Connected || event is ConnectFailed,
            Phase::Navigating => event is Navigated || event is NavigateFailed,
            Phase::Polling => event is Answered || event is ProbeFailed,
            Phase::Closing { .. } => event is SessionClosed,
            Phase::Stopping { .. } => event is ServerStopped,
            Phase::Finished { .. } => true,
            Phase::Aborted => true,
        }
    }

    /// The phase after `event`.
    pub open spec fn next(self, event: Event) -> Phase {
        if !self.awaits(event) {
            Phase::Aborted
        } else {
            match self {
                Phase::Ready => Phase::AwaitingServer,
                Phase::AwaitingServer => Phase::Connecting,
                Phase::Connecting => if event is Connected {
                    Phase::Navigating
                } else {
                    Phase::Aborted
                },
                Phase::Navigating => if event is Navigated {
                    Phase::Polling
                } else {
                    Phase::Aborted
                },
                Phase::Polling => match event {
                    Event::Answered { value } => if !well_shaped(value) {
                        Phase::Aborted
                    } else {
                        match PollerView::Polling.next(report_of(value)) {
                            PollerView::Polling => Phase::Polling,
                            done => Phase::Closing { code: done.exit_code() },
                        }
                    },
                    _ => Phase::Aborted,
                },
                Phase::Closing { code } => Phase::Stopping { code },
                Phase::Stopping { code } => Phase::Finished { code },
                Phase::Finished { code } => Phase::Finished { code },
                Phase::Aborted => Phase::Aborted,
            }
        }
    }

    /// The command that a phase is entered with. A phase that is over
    /// repeats its exit; [`Phase::Ready`] is never entered.
    pub open spec fn entry(self, settings: Settings) -> CommandView {
        match self {
            Phase::Ready => CommandView::Exit { code: FAILURE_CODE },
            Phase::AwaitingServer => CommandView::StartServer,
            Phase::Connecting => CommandView::Connect { endpoint: settings.endpoint@ },
            Phase::Navigating => CommandView::Navigate { url: settings.harness_url@ },
            Phase::Polling => CommandView::Probe,
            Phase::Closing { .. } => CommandView::CloseSession,
            Phase::Stopping { .. } => CommandView::StopServer,
            Phase::Finished { code } => CommandView::Exit { code },
            Phase::Aborted => CommandView::Exit { code: FAILURE_CODE },
        }
    }

    /// The page's lines relayed on `event`: those of a well-shaped answer
    /// that was waited for.
    pub open spec fn relays(self, event: Event) -> Seq<Seq<char>> {
        match event {
            Event::Answered { value } => if self is Polling && well_shaped(value) {
                PollerView::Polling.relays(report_of(value))
            } else {
                Seq::empty()
            },
            _ => Seq::empty(),
        }
    }

    /// The message shown on `event`.
    pub open spec fn notice(self, event: Event, settings: Settings) -> Option<NoticeView> {
        if !self.awaits(event) {
            Some(NoticeView::OutOfTurn)
        } else {
            match self {
                Phase::Connecting => match event {
                    Event::ConnectFailed { reason } => Some(
                        NoticeView::ConnectFailed { endpoint: settings.endpoint@, reason: reason@ },
                    ),
                    _ => None,
                },
                Phase::Navigating => match event {
                    Event::NavigateFailed { reason } => Some(
                        NoticeView::NavigateFailed { reason: reason@ },
                    ),
                    _ => Some(NoticeView::Running),
                },
                Phase::Polling => match event {
                    Event::Answered { value } => if !well_shaped(value) {
                        Some(NoticeView::Malformed { fault: fault(value) })
                    } else if report_of(value).exited {
                        Some(NoticeView::Finished { status: report_of(value).status as i32 })
                    } else {
                        None
                    },
                    _ => Some(NoticeView::ProbeFailed),
                },
                _ => None,
            }
        }
    }

    /// The exit code that the phase stands for: the recorded status from the
    /// moment the runtime has exited, [`FAILURE_CODE`] before and on failure.
    pub open spec fn outcome(self) -> i32 {
        match self {
            Phase::Closing { code } => code,
            Phase::Stopping { code } => code,
            Phase::Finished { code } => code,
            _ => FAILURE_CODE,
        }
    }

    /// Computes [`Self::outcome`].
    pub fn exit_code(&self) -> (code: i32)
        ensures
            code == self.outcome(),
    {
        match self {
            Phase::Closing { code } => *code,
            Phase::Stopping { code } => *code,
            Phase::Finished { code } => *code,
            _ => FAILURE_CODE,
        }
    }
}

/// The view of an optional notice.
pub open spec fn notice_view(notice: Option<Notice>) -> Option<NoticeView> {
    match notice {
        Some(notice) => Some(notice@),
        None => None,
    }
}

/// An abort, with its notice.
fn abort(notice: Notice) -> (advance: Advance)
    ensures
        advance.phase == Phase::Aborted,
        advance.lines.deep_view() == Seq::<Seq<char>>::empty(),
        advance.notice == Some(notice),
        advance.command@ == (CommandView::Exit { code: FAILURE_CODE }),
{
    let lines: Vec<String> = Vec::new();
    assert(lines.deep_view() =~= Seq::<Seq<char>>::empty());
    Advance {
        phase: Phase::Aborted,
        lines,
        notice: Some(notice),
        command: Command::Exit { code: FAILURE_CODE },
    }
}

/// A step that relays nothing.
fn quiet(phase: Phase, notice: Option<Notice>, command: Command) -> (advance: Advance)
    ensures
        advance.phase == phase,
        advance.lines.deep_view() == Seq::<Seq<char>>::empty(),
        advance.notice == notice,
        advance.command == command,
{
    let lines: Vec<String> = Vec::new();
    assert(lines.deep_view() =~= Seq::<Seq<char>>::empty());
    Advance { phase, lines, notice, command }
}

/// Takes one event in: says which phase follows, what is written to the
/// error stream, and what the program is to do next.
pub fn advance(phase: Phase, event: Event, settings: &Settings) -> (advance: Advance)
    ensures
        advance.phase == phase.next(event),
        advance.lines.deep_view() == phase.relays(event),
        notice_view(advance.notice) == phase.notice(event, *settings),
        advance.command@ == phase.next(event).entry(*settings),
{
    match phase {
        Phase::Ready => match event {
            Event::Begin => quiet(Phase::AwaitingServer, None, Command::StartServer),
            _ => abort(Notice::OutOfTurn),
        },
        Phase::AwaitingServer => match event {
            Event::ServerReady => quiet(
                Phase::Connecting,
                None,
                Command::Connect { endpoint: settings.endpoint.clone() },
            ),
            _ => abort(Notice::OutOfTurn),
        },
        Phase::Connecting => match event {
            Event::Connected => quiet(
                Phase::Navigating,
                None,
                Command::Navigate { url: settings.harness_url.clone() },
            ),
            Event::ConnectFailed { reason } => abort(
                Notice::ConnectFailed { endpoint: settings.endpoint.clone(), reason },
            ),
            _ => abort(Notice::OutOfTurn),
        },
        Phase::Navigating => match event {
            Event::Navigated => quiet(Phase::Polling, Some(Notice::Running), Command::Probe),
            Event::NavigateFailed { reason } => abort(Notice::NavigateFailed { reason }),
            _ => abort(Notice::OutOfTurn),
        },
        Phase::Polling => match event {
            Event::Answered { value } => match decode(&value) {
                Ok(report) => {
                    let (poller, step) = Poller::start().observe(report);
                    if poller.is_done() {
                        let code: i32 = poller.exit_code();
                        Advance {
                            phase: Phase::Closing { code },
                            lines: step.lines,
                            notice: Some(Notice::Finished { status: code }),
                            command: Command::CloseSession,
                        }
                    } else {
                        Advance {
                            phase: Phase::Polling,
                            lines: step.lines,
                            notice: None,
                            command: Command::Probe,
                        }
                    }
                },
                Err(fault) => abort(Notice::Malformed { fault }),
            },
            Event::ProbeFailed => abort(Notice::ProbeFailed),
            _ => abort(Notice::OutOfTurn),
        },
        Phase::Closing { code } => match event {
            Event::SessionClosed => quiet(Phase::Stopping { code }, None, Command::StopServer),
            _ => abort(Notice::OutOfTurn),
        },
        Phase::Stopping { code } => match event {
            Event::ServerStopped => quiet(
                Phase::Finished { code },
                None,
                Command::Exit { code },
            ),
            _ => abort(Notice::OutOfTurn),
        },
        Phase::Finished { code } => quiet(Phase::Finished { code }, None, Command::Exit { code }),
        Phase::Aborted => quiet(Phase::Aborted, None, Command::Exit { code: FAILURE_CODE }),
    }
}

/// The phase reached from [`Phase::Ready`] by `events`, in order.
pub open spec fn phase_after(events: Seq<Event>) -> Phase
    decreases events.len(),
{
    if events.len() == 0 {
        Phase::Ready
    } else {
        phase_after(events.drop_last()).next(events.last())
    }
}

/// The page's lines relayed while `events` are taken in, in the order of
/// relay.
pub open spec fn relayed_in_run(events: Seq<Event>) -> Seq<Seq<char>>
    decreases events.len(),
{
    if events.len() == 0 {
        Seq::empty()
    } else {
        relayed_in_run(events.drop_last()) + phase_after(events.drop_last()).relays(events.last())
    }
}

/// How far along a phase is. No event leads to a phase that is less far
/// along.
pub open spec fn rank(phase: Phase) -> nat {
    match phase {
        Phase::Ready => 0,
        Phase::AwaitingServer => 1,
        Phase::Connecting => 2,
        Phase::Navigating => 3,
        Phase::Polling => 4,
        Phase::Closing { .. } => 5,
        Phase::Stopping { .. } => 6,
        Phase::Finished { .. } => 7,
        Phase::Aborted => 8,
    }
}

/// A run never goes back: the phase after a part of the events is no
/// further along than the phase after all of them.
pub proof fn lemma_run_never_goes_back(events: Seq<Event>, part: int)
    requires
        0 <= part <= events.len(),
    ensures
        rank(phase_after(events.take(part))) <= rank(phase_after(events)),
    decreases events.len(),
{
    if part == events.len() {
        assert(events.take(part) =~= events);
    } else {
        let front = events.drop_last();
        assert(front.take(part) =~= events.take(part));
        lemma_run_never_goes_back(front, part);
    }
}

/// The answer `events[at]` came while the run was polling, was well shaped
/// and said that the runtime had exited with a status whose low 32 bits are
/// `code`.
pub open spec fn exit_reported_at(events: Seq<Event>, at: int, code: i32) -> bool {
    &&& 0 <= at < events.len()
    &&& phase_after(events.take(at)) is Polling
    &&& events[at] matches Event::Answered { value }
    &&& well_shaped(value)
    &&& report_of(value).exited
    &&& report_of(value).status as i32 == code
}

/// From the moment the runtime has exited, the run carries the status that
/// the page reported in that answer.
pub proof fn lemma_outcome_was_reported(events: Seq<Event>)
    requires
        5 <= rank(phase_after(events)) <= 7,
    ensures
        exists|at: int| exit_reported_at(events, at, phase_after(events).outcome()),
    decreases events.len(),
{
    let front = events.drop_last();
    let before = phase_after(front);
    let code = phase_after(events).outcome();
    if before is Polling {
        assert(events.take(events.len() - 1) =~= front);
        assert(exit_reported_at(events, events.len() - 1, code));
    } else {
        lemma_outcome_was_reported(front);
        let at = choose|at: int| exit_reported_at(front, at, before.outcome());
        assert(front.take(at) =~= events.take(at));
        assert(exit_reported_at(events, at, code));
    }
}

/// The exit code of a run that finishes is the status that the page
/// reported in the answer that said the runtime had exited.
pub proof fn lemma_exit_code_is_reported_status(events: Seq<Event>, code: i32)
    requires
        phase_after(events) == (Phase::Finished { code }),
    ensures
        exists|at: int| exit_reported_at(events, at, code),
{
    lemma_outcome_was_reported(events);
}

/// There is one such answer in a run at most: once the runtime is said to
/// have exited, no further answer is taken in.
pub proof fn lemma_exit_is_reported_once(
    events: Seq<Event>,
    first: int,
    second: int,
    code: i32,
    other: i32,
)
    requires
        exit_reported_at(events, first, code),
        exit_reported_at(events, second, other),
    ensures
        first == second,
        code == other,
{
    if first < second {
        let upto = events.take(second);
        assert(upto.take(first) =~= events.take(first));
        lemma_one_exit_report(upto, first, code);
    }
    if second < first {
        let upto = events.take(first);
        assert(upto.take(second) =~= events.take(second));
        lemma_one_exit_report(upto, second, other);
    }
}

/// After an answer that says the runtime has exited the run has left
/// polling for good, and carries that answer's status as long as it does
/// not fail.
pub proof fn lemma_one_exit_report(events: Seq<Event>, at: int, code: i32)
    requires
        exit_reported_at(events, at, code),
    ensures
        rank(phase_after(events)) >= 5,
        rank(phase_after(events)) <= 7 ==> phase_after(events).outcome() == code,
    decreases events.len(),
{
    let front = events.drop_last();
    if at == events.len() - 1 {
        assert(events.take(at) =~= front);
    } else {
        assert(front.take(at) =~= events.take(at));
        lemma_one_exit_report(front, at, code);
    }
}

/// The session is asked to close at most once in a run.
pub proof fn lemma_session_closed_once(events: Seq<Event>, first: int, second: int)
    requires
        0 < first < second <= events.len(),
        phase_after(events.take(first)) is Closing,
    ensures
        !(phase_after(events.take(second)) is Closing),
{
    let upto = events.take(second);
    assert(upto.take(first) =~= events.take(first));
    let step = upto.take(first + 1);
    assert(step.drop_last() =~= upto.take(first));
    assert(rank(phase_after(step)) >= 6);
    assert(upto.take(first + 1) == step);
    lemma_run_never_goes_back(upto, first + 1);
}

/// `events[at]` told the run, while it waited for the server, that the
/// server listens.
pub open spec fn server_seen_at(events: Seq<Event>, at: int) -> bool {
    &&& 0 <= at < events.len()
    &&& phase_after(events.take(at)) is AwaitingServer
    &&& events[at] is ServerReady
}

/// No session is opened and no browser is sent to the harness page before
/// the server was seen to listen.
pub proof fn lemma_browser_after_server(events: Seq<Event>)
    requires
        2 <= rank(phase_after(events)) <= 7,
    ensures
        exists|at: int| server_seen_at(events, at),
    decreases events.len(),
{
    let front = events.drop_last();
    if phase_after(front) is AwaitingServer {
        assert(events.take(events.len() - 1) =~= front);
        assert(server_seen_at(events, events.len() - 1));
    } else {
        lemma_browser_after_server(front);
        let at = choose|at: int| server_seen_at(front, at);
        assert(front.take(at) =~= events.take(at));
        assert(server_seen_at(events, at));
    }
}

/// The server is told to stop only when the session has closed, the
/// process leaves with a reported status only when the server was told to
/// stop, and a status, once recorded, is carried unchanged to the end.
pub proof fn lemma_teardown_in_order(phase: Phase, event: Event)
    ensures
        phase.next(event) is Stopping ==> phase is Closing && event is SessionClosed,
        phase.next(event) is Finished && !(phase is Finished) ==> phase is Stopping && event
            is ServerStopped,
        phase.next(event) is Stopping || phase.next(event) is Finished ==> phase.next(
            event,
        ).outcome() == phase.outcome(),
{
}

/// The events of a run in which everything succeeds and the page answers
/// with `answers` in turn.
pub open spec fn smooth_run(answers: Seq<ProbeValue>) -> Seq<Event> {
    seq![Event::Begin, Event::ServerReady, Event::Connected, Event::Navigated] + Seq::new(
        answers.len(),
        |i: int| Event::Answered { value: answers[i] },
    ) + seq![Event::SessionClosed, Event::ServerStopped]
}

/// The last of `answers` is the first that says the runtime has exited, and
/// all are well shaped.
pub open spec fn ends_in_exit(answers: Seq<ProbeValue>) -> bool {
    &&& answers.len() > 0
    &&& forall|i: int| 0 <= i < answers.len() ==> well_shaped(#[trigger] answers[i])
    &&& forall|i: int| 0 <= i < answers.len() - 1 ==> !report_of(#[trigger] answers[i]).exited
    &&& report_of(answers.last()).exited
}

/// All the lines of `answers`, answer after answer.
pub open spec fn lines_of(answers: Seq<ProbeValue>) -> Seq<Seq<char>>
    decreases answers.len(),
{
    if answers.len() == 0 {
        Seq::empty()
    } else {
        lines_of(answers.drop_last()) + report_of(answers.last()).lines
    }
}

/// While the page answers without saying that the runtime has exited, the
/// run stays polling and relays every line.
proof fn lemma_polling_run(answers: Seq<ProbeValue>)
    requires
        forall|i: int| 0 <= i < answers.len() ==> well_shaped(#[trigger] answers[i]),
        forall|i: int| 0 <= i < answers.len() ==> !report_of(#[trigger] answers[i]).exited,
    ensures
        phase_after(smooth_run(answers).take(4 + answers.len() as int)) == Phase::Polling,
        relayed_in_run(smooth_run(answers).take(4 + answers.len() as int)) == lines_of(answers),
    decreases answers.len(),
{
    let events = smooth_run(answers).take(4 + answers.len() as int);
    if answers.len() == 0 {
        reveal_with_fuel(phase_after, 5);
        reveal_with_fuel(relayed_in_run, 5);
        assert(events =~= seq![
            Event::Begin,
            Event::ServerReady,
            Event::Connected,
            Event::Navigated,
        ]);
        let e3 = events.drop_last();
        let e2 = e3.drop_last();
        let e1 = e2.drop_last();
        assert(e1.drop_last().len() == 0);
        assert(phase_after(e1) == Phase::AwaitingServer);
        assert(phase_after(e2) == Phase::Connecting);
        assert(phase_after(e3) == Phase::Navigating);
        assert(relayed_in_run(events) =~= Seq::<Seq<char>>::empty());
    } else {
        let fewer = answers.drop_last();
        lemma_polling_run(fewer);
        assert(events.drop_last() =~= smooth_run(fewer).take(4 + fewer.len() as int));
        assert(events.last() == (Event::Answered { value: answers.last() }));
    }
}

/// A run in which everything succeeds exits with the status of the answer
/// that said the runtime had exited, and has relayed every line of every
/// answer, once and in order.
pub proof fn lemma_smooth_run(answers: Seq<ProbeValue>)
    requires
        ends_in_exit(answers),
    ensures
        phase_after(smooth_run(answers)) == (Phase::Finished {
            code: report_of(answers.last()).status as i32,
        }),
        relayed_in_run(smooth_run(answers)) == lines_of(answers),
{
    let events = smooth_run(answers);
    let polled = answers.drop_last();
    lemma_polling_run(polled);
    let e2 = events.drop_last();
    let e1 = e2.drop_last();
    let e0 = e1.drop_last();
    assert(e0 =~= smooth_run(polled).take(4 + polled.len() as int));
    assert(e1.last() == (Event::Answered { value: answers.last() }));
    assert(e2.last() == Event::SessionClosed);
    assert(events.last() == Event::ServerStopped);
    assert(phase_after(e1) == (Phase::Closing { code: report_of(answers.last()).status as i32 }));
    assert(relayed_in_run(e1) == lines_of(answers));
    assert(relayed_in_run(e2) =~= relayed_in_run(e1));
    assert(relayed_in_run(events) =~= relayed_in_run(e2));
}

} // verus!
