//! The completion poller: a machine of two states that reads one probe
//! report at a time, relays its lines and stops at the first report that
//! says the runtime has exited.

use vstd::prelude::*;
use crate::harness::FAILURE_CODE;
use crate::probe::{ProbeReport, ReportView};

verus! {

/// The state of the poller.
#[derive(Debug, Clone, Copy, PartialEq, Eq, Structural)]
pub enum Poller {
    /// The runtime has not been seen to exit; the next probe is due.
    Polling,
    /// The runtime has exited with `status`; nothing more is probed.
    Done { status: i64 },
}

/// The mathematical content of a [`Poller`].
pub enum PollerView {
    Polling,
    Done { status: int },
}

impl View for Poller {
    type V = PollerView;

    open spec fn view(&self) -> PollerView {
        match *self {
            Poller::Polling => PollerView::Polling,
            Poller::Done { status } => PollerView::Done { status: status as int },
        }
    }
}

/// What is to happen to the remote session after a report.
#[derive(Debug, Clone, Copy, PartialEq, Eq, Structural)]
pub enum PollCommand {
    /// Execute the probe once more, on the same session.
    ProbeAgain,
    /// Close the session: the run is over.
    CloseSession,
    /// Nothing: the poller was done before the report came.
    Rest,
}

/// What one report leads to.
#[derive(Debug, Clone, PartialEq, Eq)]
pub struct PollStep {
    /// The lines to write to the error stream, in this order.
    pub lines: Vec<String>,
    /// What to do with the session afterwards.
    pub command: PollCommand,
}

impl PollerView {
    /// The state after `report`.
    pub open spec fn next(self, report: ReportView) -> PollerView {
        match self {
            PollerView::Polling => if report.exited {
                PollerView::Done { status: report.status }
            } else {
                PollerView::Polling
            },
            PollerView::Done { .. } => self,
        }
    }

    /// The lines relayed for `report`: all of them while polling, none once
    /// done.
    pub open spec fn relays(self, report: ReportView) -> Seq<Seq<char>> {
        match self {
            PollerView::Polling => report.lines,
            PollerView::Done { .. } => Seq::empty(),
        }
    }

    /// The command given after `report`.
    pub open spec fn command(self, report: ReportView) -> PollCommand {
        match self {
            PollerView::Polling => if report.exited {
                PollCommand::CloseSession
            } else {
                PollCommand::ProbeAgain
            },
            PollerView::Done { .. } => PollCommand::Rest,
        }
    }

    /// The exit code that the state stands for: the reported status, cut to
    /// 32 bits, once done; [`FAILURE_CODE`] before.
    pub open spec fn exit_code(self) -> i32 {
        match self {
            PollerView::Polling => FAILURE_CODE,
            PollerView::Done { status } => status as i32,
        }
    }
}

impl Poller {
    /// The poller as it is when the browser has reached the harness page.
    pub fn start() -> (poller: Poller)
        ensures
            poller == Poller::Polling,
    {
        Poller::Polling
    }

    /// Whether the runtime has been seen to exit.
    pub fn is_done(&self) -> (done: bool)
        ensures
            done == (*self is Done),
    {
        match self {
            Poller::Polling => false,
            Poller::Done { .. } => true,
        }
    }

    /// Takes one report in.
    pub fn observe(self, report: ProbeReport) -> (r: (Poller, PollStep))
        ensures
            r.0@ == self@.next(report@),
            r.1.lines.deep_view() == self@.relays(report@),
            r.1.command == self@.command(report@),
    {
        match self {
            Poller::Polling => {
                let next = if report.exited {
                    Poller::Done { status: report.status }
                } else {
                    Poller::Polling
                };
                let command = if report.exited {
                    PollCommand::CloseSession
                } else {
                    PollCommand::ProbeAgain
                };
                (next, PollStep { lines: report.lines, command })
            },
            Poller::Done { .. } => {
                let lines: Vec<String> = Vec::new();
                assert(lines.deep_view() =~= Seq::<Seq<char>>::empty());
                (self, PollStep { lines, command: PollCommand::Rest })
            },
        }
    }

    /// The exit code that the state stands for.
    pub fn exit_code(&self) -> (code: i32)
        ensures
            code == self@.exit_code(),
    {
        match self {
            Poller::Polling => FAILURE_CODE,
            Poller::Done { status } => #[verifier::truncate] (*status as i32),
        }
    }
}

/// The state reached from [`Poller::Polling`] by `reports`, in order.
pub open spec fn after(reports: Seq<ReportView>) -> PollerView
    decreases reports.len(),
{
    if reports.len() == 0 {
        PollerView::Polling
    } else {
        after(reports.drop_last()).next(reports.last())
    }
}

/// The lines relayed while `reports` are taken in, in the order of relay.
pub open spec fn relayed(reports: Seq<ReportView>) -> Seq<Seq<char>>
    decreases reports.len(),
{
    if reports.len() == 0 {
        Seq::empty()
    } else {
        relayed(reports.drop_last()) + after(reports.drop_last()).relays(reports.last())
    }
}

/// All the lines of `reports`, report after report.
pub open spec fn emitted(reports: Seq<ReportView>) -> Seq<Seq<char>>
    decreases reports.len(),
{
    if reports.len() == 0 {
        Seq::empty()
    } else {
        emitted(reports.drop_last()) + reports.last().lines
    }
}

/// None of `reports` says that the runtime has exited.
pub open spec fn none_exited(reports: Seq<ReportView>) -> bool {
    forall|i: int| 0 <= i < reports.len() ==> !reports[i].exited
}

/// `reports[last]` is the first report that says the runtime has exited.
pub open spec fn first_exit(reports: Seq<ReportView>, last: int) -> bool {
    &&& 0 <= last < reports.len()
    &&& reports[last].exited
    &&& none_exited(reports.take(last))
}

/// While no report says that the runtime has exited, the poller keeps
/// polling, stands for the failure code, and has relayed every line of
/// every report, in the order in which the page emitted them.
pub proof fn lemma_polling_relays_all(reports: Seq<ReportView>)
    requires
        none_exited(reports),
    ensures
        after(reports) == PollerView::Polling,
        after(reports).exit_code() == FAILURE_CODE,
        relayed(reports) == emitted(reports),
    decreases reports.len(),
{
    if reports.len() > 0 {
        let front = reports.drop_last();
        assert forall|i: int| 0 <= i < front.len() implies !front[i].exited by {
            assert(front[i] == reports[i]);
        }
        lemma_polling_relays_all(front);
    }
}

/// Once done, the poller stays as it is and relays nothing, whatever else
/// it is handed.
pub proof fn lemma_done_is_final(reports: Seq<ReportView>, more: Seq<ReportView>)
    requires
        after(reports) is Done,
    ensures
        after(reports + more) == after(reports),
        relayed(reports + more) == relayed(reports),
    decreases more.len(),
{
    if more.len() == 0 {
        assert(reports + more =~= reports);
    } else {
        lemma_done_is_final(reports, more.drop_last());
        assert((reports + more).drop_last() =~= reports + more.drop_last());
        assert((reports + more).last() == more.last());
        assert(relayed(reports + more) =~= relayed(reports));
    }
}

/// A report without lines adds nothing to what was relayed: a drain that
/// finds no new output is silent.
pub proof fn lemma_empty_report_is_silent(reports: Seq<ReportView>, report: ReportView)
    requires
        report.lines.len() == 0,
    ensures
        relayed(reports.push(report)) == relayed(reports),
{
    assert(reports.push(report).drop_last() =~= reports);
    assert(relayed(reports.push(report)) =~= relayed(reports));
}

/// The first report that says the runtime has exited decides the run: the
/// poller is done with that report's status, the exit code is that status,
/// and the lines relayed are those of the reports up to and including that
/// one, each once and in order. Reports after it change nothing.
pub proof fn lemma_first_exit_decides(reports: Seq<ReportView>, last: int)
    requires
        first_exit(reports, last),
    ensures
        after(reports) == (PollerView::Done { status: reports[last].status }),
        after(reports).exit_code() == reports[last].status as i32,
        relayed(reports) == emitted(reports.take(last + 1)),
{
    let polled = reports.take(last);
    let decided = reports.take(last + 1);
    let rest = reports.skip(last + 1);
    lemma_polling_relays_all(polled);
    assert(decided.drop_last() =~= polled);
    assert(decided.last() == reports[last]);
    assert(after(decided) == (PollerView::Done { status: reports[last].status }));
    assert(relayed(decided) == emitted(decided));
    lemma_done_is_final(decided, rest);
    assert(decided + rest =~= reports);
}

/// What a scripted sequence of reports leads to.
#[derive(Debug, Clone, PartialEq, Eq)]
pub struct Replay {
    /// The state of the poller at the end.
    pub poller: Poller,
    /// The lines relayed, in order.
    pub lines: Vec<String>,
    /// How many of the reports were asked for.
    pub probes: usize,
}

/// The number of probes executed when the page answers with `reports` in
/// turn: one for each report up to and including the first that says the
/// runtime has exited.
pub open spec fn probes_run(reports: Seq<ReportView>) -> nat
    decreases reports.len(),
{
    if reports.len() == 0 {
        0
    } else if after(reports.drop_last()) is Done {
        probes_run(reports.drop_last())
    } else {
        reports.len()
    }
}

/// No probe is executed after the first report that says the runtime has
/// exited: the probes are that report and those before it.
pub proof fn lemma_probes_stop_at_exit(reports: Seq<ReportView>, last: int)
    requires
        first_exit(reports, last),
    ensures
        probes_run(reports) == last + 1,
    decreases reports.len(),
{
    let front = reports.drop_last();
    if last == reports.len() - 1 {
        assert(front =~= reports.take(last));
        lemma_polling_relays_all(front);
    } else {
        assert(front.take(last) =~= reports.take(last));
        assert(front[last] == reports[last]);
        lemma_first_exit_decides(front, last);
        lemma_probes_stop_at_exit(front, last);
    }
}

/// Without such a report every answer is asked for.
pub proof fn lemma_probes_without_exit(reports: Seq<ReportView>)
    requires
        none_exited(reports),
    ensures
        probes_run(reports) == reports.len(),
{
    if reports.len() > 0 {
        let front = reports.drop_last();
        assert forall|i: int| 0 <= i < front.len() implies !front[i].exited by {
            assert(front[i] == reports[i]);
        }
        lemma_polling_relays_all(front);
    }
}

/// The mathematical content of each report.
pub open spec fn views(reports: Seq<ProbeReport>) -> Seq<ReportView> {
    Seq::new(reports.len(), |i: int| reports[i]@)
}

/// A copy of `lines`.
fn copy_lines(lines: &Vec<String>) -> (copy: Vec<String>)
    ensures
        copy.deep_view() == lines.deep_view(),
{
    let mut copy: Vec<String> = Vec::new();
    let mut i: usize = 0;
    while i < lines.len()
        invariant
            i <= lines@.len(),
            copy@.len() == i,
            forall|j: int| 0 <= j < i ==> (#[trigger] copy@[j])@ == lines@[j]@,
        decreases lines@.len() - i,
    {
        copy.push(lines[i].clone());
        i += 1;
    }
    assert(copy.deep_view() =~= lines.deep_view());
    copy
}

/// Runs the poller against a page that answers with `reports` in turn, and
/// stops asking at the first report that says the runtime has exited.
pub fn replay(reports: &Vec<ProbeReport>) -> (replay: Replay)
    ensures
        replay.poller@ == after(views(reports@)),
        replay.lines.deep_view() == relayed(views(reports@)),
        replay.probes == probes_run(views(reports@)),
{
    let ghost all = views(reports@);
    let mut poller = Poller::start();
    let mut lines: Vec<String> = Vec::new();
    let mut probes: usize = 0;
    assert(lines.deep_view() =~= emitted(all.take(0)));
    while probes < reports.len() && !poller.is_done()
        invariant
            all == views(reports@),
            probes <= reports@.len(),
            poller is Polling ==> none_exited(all.take(probes as int)),
            poller is Done ==> probes > 0 && first_exit(all, probes - 1),
            poller is Done ==> poller@ == (PollerView::Done { status: all[probes - 1].status }),
            lines.deep_view() == emitted(all.take(probes as int)),
        decreases reports@.len() - probes,
    {
        let report = ProbeReport {
            exited: reports[probes].exited,
            status: reports[probes].status,
            lines: copy_lines(&reports[probes].lines),
        };
        assert(report@ == all[probes as int]);
        let (next, step) = poller.observe(report);
        let mut fresh = step.lines;
        proof {
            let seen = all.take(probes as int);
            let grown = all.take(probes + 1);
            assert(grown.drop_last() =~= seen);
            assert(grown.last() == all[probes as int]);
            assert(lines.deep_view() + fresh.deep_view() =~= emitted(grown));
            if !all[probes as int].exited {
                assert forall|i: int| 0 <= i < grown.len() implies !grown[i].exited by {
                    if i < probes {
                        assert(seen[i] == grown[i]);
                    }
                }
            }
        }
        let ghost before = lines.deep_view();
        let ghost added = fresh.deep_view();
        lines.append(&mut fresh);
        assert(lines.deep_view() =~= before + added);
        poller = next;
        probes += 1;
    }
    proof {
        if poller is Done {
            lemma_first_exit_decides(all, probes - 1);
            lemma_probes_stop_at_exit(all, probes - 1);
        } else {
            assert(all.take(probes as int) =~= all);
            lemma_polling_relays_all(all);
            lemma_probes_without_exit(all);
        }
    }
    Replay { poller, lines, probes }
}

} // verus!
