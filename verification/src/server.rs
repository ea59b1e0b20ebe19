//! The asset server's loop: bind, raise the flag, then read the flag, look
//! for a request and answer it or sleep, until the flag is lowered.
//!
//! The loop is a machine. The thread that runs it performs each
//! [`ServerCommand`] and hands back what came of it as a [`ServerEvent`].

use vstd::prelude::*;
use crate::assets::{
    asset_path, asset_path_of, delivery, find_script, first_script, harness_reply, member_path,
    member_path_of, missing_reply, no_script, route, route_of, Reply, ReplyView, Route,
};
use crate::harness::{Settings, IDLE_SLEEP_MILLIS};

verus! {

/// Where the server's loop stands: which command's outcome it waits for.
#[derive(Debug, Clone, Copy, PartialEq, Eq, Structural)]
pub enum ServerPhase {
    /// Nothing has been asked for.
    Unbound,
    /// The socket was asked to be bound.
    Binding,
    /// The flag was asked to be raised.
    Raising,
    /// The flag was asked for.
    Checking,
    /// A request was looked for.
    Receiving,
    /// The build directory was asked to be listed.
    Listing,
    /// A file was asked to be read.
    Reading,
    /// An answer was handed over to be sent.
    Replying,
    /// A sleep was asked for.
    Sleeping,
    /// A failed receive was handed over to be reported.
    Reporting,
    /// The flag was seen lowered: the loop is over.
    Stopped,
    /// The socket could not be bound, or an event came out of turn.
    Failed,
}

/// What came of the last command.
#[derive(Debug, PartialEq, Eq)]
pub enum ServerEvent {
    /// The loop is to begin.
    Begin,
    /// The socket is bound.
    Bound,
    /// The socket could not be bound.
    BindFailed,
    /// The flag, as it was read.
    Flag { raised: bool },
    /// A request came, for this path.
    Request { url: String },
    /// No request was waiting.
    Idle,
    /// Looking for a request failed.
    ReceiveFailed { reason: String },
    /// The file names of the build directory; none where it cannot be read.
    Listed { names: Vec<String> },
    /// The bytes of the file, where it could be opened and read.
    Read { contents: Option<Vec<u8>> },
    /// The command is carried out and has nothing to tell.
    Done,
}

/// What the thread is to do next.
#[derive(Debug, PartialEq, Eq)]
pub enum ServerCommand {
    /// Bind the listening socket.
    Bind { address: String },
    /// Set the flag: the server listens.
    RaiseFlag,
    /// Read the flag.
    ReadFlag,
    /// Look for a request without waiting.
    Receive,
    /// List the file names of the build directory.
    ListDir { dir: String },
    /// Open and read the file.
    ReadFile { path: String },
    /// Send the answer.
    Send { reply: Reply },
    /// Sleep.
    Sleep { millis: u64 },
    /// Tell the operator of a failed receive.
    Report { reason: String },
    /// Leave the loop.
    Halt,
    /// Give the run up.
    Fail,
}

/// The mathematical content of a [`ServerCommand`].
pub enum ServerCommandView {
    Bind { address: Seq<char> },
    RaiseFlag,
    ReadFlag,
    Receive,
    ListDir { dir: Seq<char> },
    ReadFile { path: Seq<char> },
    Send { reply: ReplyView },
    Sleep { millis: int },
    Report { reason: Seq<char> },
    Halt,
    Fail,
}

impl View for ServerCommand {
    type V = ServerCommandView;

    open spec fn view(&self) -> ServerCommandView {
        match *self {
            ServerCommand::Bind { address } => ServerCommandView::Bind { address: address@ },
            ServerCommand::RaiseFlag => ServerCommandView::RaiseFlag,
            ServerCommand::ReadFlag => ServerCommandView::ReadFlag,
            ServerCommand::Receive => ServerCommandView::Receive,
            ServerCommand::ListDir { dir } => ServerCommandView::ListDir { dir: dir@ },
            ServerCommand::ReadFile { path } => ServerCommandView::ReadFile { path: path@ },
            ServerCommand::Send { reply } => ServerCommandView::Send { reply: reply@ },
            ServerCommand::Sleep { millis } => ServerCommandView::Sleep { millis: millis as int },
            ServerCommand::Report { reason } => ServerCommandView::Report { reason: reason@ },
            ServerCommand::Halt => ServerCommandView::Halt,
            ServerCommand::Fail => ServerCommandView::Fail,
        }
    }
}

impl ServerPhase {
    /// The event is one that the phase waits for.
    pub open spec fn awaits(self, event: ServerEvent) -> bool {
        match self {
            ServerPhase::Unbound => event is Begin,
            ServerPhase::Binding => event is Bound || event is BindFailed,
            ServerPhase::Raising => event is Done,
            ServerPhase::Checking => event is Flag,
            ServerPhase::Receiving => event is Request || event is Idle || event is ReceiveFailed,
            ServerPhase::Listing => event is Listed,
            ServerPhase::Reading => event is Read,
            ServerPhase::Replying => event is Done,
            ServerPhase::Sleeping => event is Done,
            ServerPhase::Reporting => event is Done,
            ServerPhase::Stopped => true,
            ServerPhase::Failed => true,
        }
    }

    /// The command given on `event`.
    pub open spec fn command(self, event: ServerEvent, settings: Settings) -> ServerCommandView {
        if !self.awaits(event) {
            ServerCommandView::Fail
        } else {
            match self {
                ServerPhase::Unbound => ServerCommandView::Bind {
                    address: settings.server_address@,
                },
                ServerPhase::Binding => if event is Bound {
                    ServerCommandView::RaiseFlag
                } else {
                    ServerCommandView::Fail
                },
                ServerPhase::Checking => if event->raised {
                    ServerCommandView::Receive
                } else {
                    ServerCommandView::Halt
                },
                ServerPhase::Receiving => match event {
                    ServerEvent::Request { url } => match route_of(url@) {
                        Route::Harness => ServerCommandView::Send { reply: harness_reply() },
                        Route::Loader => ServerCommandView::ListDir { dir: settings.build_dir@ },
                        Route::Asset => ServerCommandView::ReadFile {
                            path: asset_path_of(settings.build_dir@, url@),
                        },
                    },
                    ServerEvent::ReceiveFailed { reason } => ServerCommandView::Report {
                        reason: reason@,
                    },
                    _ => ServerCommandView::Sleep { millis: IDLE_SLEEP_MILLIS as int },
                },
                ServerPhase::Listing => {
                    let names = event->names.deep_view();
                    if no_script(names) {
                        ServerCommandView::Send { reply: missing_reply() }
                    } else {
                        ServerCommandView::ReadFile {
                            path: member_path_of(settings.build_dir@, names[first_script(names)]),
                        }
                    }
                },
                ServerPhase::Reading => ServerCommandView::Send {
                    reply: delivery(event->contents),
                },
                ServerPhase::Stopped => ServerCommandView::Halt,
                ServerPhase::Failed => ServerCommandView::Fail,
                _ => ServerCommandView::ReadFlag,
            }
        }
    }

    /// The phase after `event`: the one that waits for the outcome of the
    /// command given.
    pub open spec fn next(self, event: ServerEvent, settings: Settings) -> ServerPhase {
        match self.command(event, settings) {
            ServerCommandView::Bind { .. } => ServerPhase::Binding,
            ServerCommandView::RaiseFlag => ServerPhase::Raising,
            ServerCommandView::ReadFlag => ServerPhase::Checking,
            ServerCommandView::Receive => ServerPhase::Receiving,
            ServerCommandView::ListDir { .. } => ServerPhase::Listing,
            ServerCommandView::ReadFile { .. } => ServerPhase::Reading,
            ServerCommandView::Send { .. } => ServerPhase::Replying,
            ServerCommandView::Sleep { .. } => ServerPhase::Sleeping,
            ServerCommandView::Report { .. } => ServerPhase::Reporting,
            ServerCommandView::Halt => ServerPhase::Stopped,
            ServerCommandView::Fail => ServerPhase::Failed,
        }
    }
}

/// What one event leads to.
#[derive(Debug, PartialEq, Eq)]
pub struct ServerStep {
    /// The phase from now on.
    pub phase: ServerPhase,
    /// What to do next.
    pub command: ServerCommand,
}

/// The command for a request.
fn dispatch(url: String, settings: &Settings) -> (command: ServerCommand)
    ensures
        command@ == ServerPhase::Receiving.command(ServerEvent::Request { url }, *settings),
{
    match route(url.as_str()) {
        Route::Harness => ServerCommand::Send { reply: Reply::harness() },
        Route::Loader => ServerCommand::ListDir { dir: settings.build_dir.clone() },
        Route::Asset => ServerCommand::ReadFile {
            path: asset_path(settings.build_dir.as_str(), url.as_str()),
        },
    }
}

/// The command for the loader script, once the build directory is listed.
fn load(names: Vec<String>, settings: &Settings) -> (command: ServerCommand)
    ensures
        command@ == ServerPhase::Listing.command(ServerEvent::Listed { names }, *settings),
{
    match find_script(&names) {
        Some(at) => {
            assert(names.deep_view()[at as int] == names@[at as int]@);
            ServerCommand::ReadFile {
                path: member_path(settings.build_dir.as_str(), names[at].as_str()),
            }
        },
        None => ServerCommand::Send { reply: Reply::missing() },
    }
}

/// The phase that waits for the outcome of a command.
fn waiting_for(command: &ServerCommand) -> (phase: ServerPhase)
    ensures
        phase == match command@ {
            ServerCommandView::Bind { .. } => ServerPhase::Binding,
            ServerCommandView::RaiseFlag => ServerPhase::Raising,
            ServerCommandView::ReadFlag => ServerPhase::Checking,
            ServerCommandView::Receive => ServerPhase::Receiving,
            ServerCommandView::ListDir { .. } => ServerPhase::Listing,
            ServerCommandView::ReadFile { .. } => ServerPhase::Reading,
            ServerCommandView::Send { .. } => ServerPhase::Replying,
            ServerCommandView::Sleep { .. } => ServerPhase::Sleeping,
            ServerCommandView::Report { .. } => ServerPhase::Reporting,
            ServerCommandView::Halt => ServerPhase::Stopped,
            ServerCommandView::Fail => ServerPhase::Failed,
        },
{
    match command {
        ServerCommand::Bind { .. } => ServerPhase::Binding,
        ServerCommand::RaiseFlag => ServerPhase::Raising,
        ServerCommand::ReadFlag => ServerPhase::Checking,
        ServerCommand::Receive => ServerPhase::Receiving,
        ServerCommand::ListDir { .. } => ServerPhase::Listing,
        ServerCommand::ReadFile { .. } => ServerPhase::Reading,
        ServerCommand::Send { .. } => ServerPhase::Replying,
        ServerCommand::Sleep { .. } => ServerPhase::Sleeping,
        ServerCommand::Report { .. } => ServerPhase::Reporting,
        ServerCommand::Halt => ServerPhase::Stopped,
        ServerCommand::Fail => ServerPhase::Failed,
    }
}

/// Takes one event in: says what the thread is to do next, and which phase
/// waits for its outcome.
pub fn serve(phase: ServerPhase, event: ServerEvent, settings: &Settings) -> (step: ServerStep)
    ensures
        step.command@ == phase.command(event, *settings),
        step.phase == phase.next(event, *settings),
{
    let command = match phase {
        ServerPhase::Unbound => match event {
            ServerEvent::Begin => ServerCommand::Bind { address: settings.server_address.clone() },
            _ => ServerCommand::Fail,
        },
        ServerPhase::Binding => match event {
            ServerEvent::Bound => ServerCommand::RaiseFlag,
            _ => ServerCommand::Fail,
        },
        ServerPhase::Checking => match event {
            ServerEvent::Flag { raised } => if raised {
                ServerCommand::Receive
            } else {
                ServerCommand::Halt
            },
            _ => ServerCommand::Fail,
        },
        ServerPhase::Receiving => match event {
            ServerEvent::Request { url } => dispatch(url, settings),
            ServerEvent::Idle => ServerCommand::Sleep { millis: IDLE_SLEEP_MILLIS },
            ServerEvent::ReceiveFailed { reason } => ServerCommand::Report { reason },
            _ => ServerCommand::Fail,
        },
        ServerPhase::Listing => match event {
            ServerEvent::Listed { names } => load(names, settings),
            _ => ServerCommand::Fail,
        },
        ServerPhase::Reading => match event {
            ServerEvent::Read { contents } => ServerCommand::Send {
                reply: Reply::deliver(contents),
            },
            _ => ServerCommand::Fail,
        },
        ServerPhase::Raising | ServerPhase::Replying | ServerPhase::Sleeping
        | ServerPhase::Reporting => match event {
            ServerEvent::Done => ServerCommand::ReadFlag,
            _ => ServerCommand::Fail,
        },
        ServerPhase::Stopped => ServerCommand::Halt,
        ServerPhase::Failed => ServerCommand::Fail,
    };
    ServerStep { phase: waiting_for(&command), command }
}

/// What the thread that started the server is to do with the flag as it
/// read it.
#[derive(Debug, Clone, Copy, PartialEq, Eq, Structural)]
pub enum StarterCommand {
    /// The server listens: go on.
    Proceed,
    /// Sleep, then read the flag again.
    Sleep { millis: u64 },
}

/// The starter goes on exactly when it has seen the flag raised; until then
/// it sleeps for [`IDLE_SLEEP_MILLIS`] between two looks.
pub fn await_listening(raised: bool) -> (command: StarterCommand)
    ensures
        command == if raised {
            StarterCommand::Proceed
        } else {
            StarterCommand::Sleep { millis: IDLE_SLEEP_MILLIS }
        },
{
    if raised {
        StarterCommand::Proceed
    } else {
        StarterCommand::Sleep { millis: IDLE_SLEEP_MILLIS }
    }
}

/// The phase reached from [`ServerPhase::Unbound`] by `events`, in order.
pub open spec fn server_after(events: Seq<ServerEvent>, settings: Settings) -> ServerPhase
    decreases events.len(),
{
    if events.len() == 0 {
        ServerPhase::Unbound
    } else {
        server_after(events.drop_last(), settings).next(events.last(), settings)
    }
}

/// The phases of the loop proper: the flag is read, a request is looked
/// for, answered or slept over, or the loop has ended on a lowered flag.
pub open spec fn in_loop(phase: ServerPhase) -> bool {
    !(phase is Unbound || phase is Binding || phase is Raising || phase is Failed)
}

/// After the first `upto` events the socket had just been bound and the
/// flag was being raised.
pub open spec fn raised_at(events: Seq<ServerEvent>, settings: Settings, upto: int) -> bool {
    &&& 0 < upto <= events.len()
    &&& events[upto - 1] is Bound
    &&& server_after(events.take(upto), settings) is Raising
}

/// The server looks for requests and answers them only after it has bound
/// its socket and raised the flag.
pub proof fn lemma_serves_after_raising(events: Seq<ServerEvent>, settings: Settings)
    requires
        in_loop(server_after(events, settings)),
    ensures
        exists|upto: int| raised_at(events, settings, upto) && upto < events.len(),
    decreases events.len(),
{
    let front = events.drop_last();
    let before = server_after(front, settings);
    if before is Raising {
        let earlier = front.drop_last();
        assert(server_after(earlier, settings) is Binding);
        assert(events.take(events.len() - 1) =~= front);
        assert(raised_at(events, settings, events.len() - 1));
    } else {
        lemma_serves_after_raising(front, settings);
        let upto = choose|upto: int| raised_at(front, settings, upto) && upto < front.len();
        assert(front.take(upto) =~= events.take(upto));
        assert(raised_at(events, settings, upto));
    }
}

/// A lowered flag ends the loop at the next look at it, and a loop that has
/// ended serves nothing more.
pub proof fn lemma_lowered_flag_halts(event: ServerEvent, settings: Settings)
    ensures
        ServerPhase::Checking.command(ServerEvent::Flag { raised: false }, settings)
            == ServerCommandView::Halt,
        ServerPhase::Checking.next(ServerEvent::Flag { raised: false }, settings)
            == ServerPhase::Stopped,
        ServerPhase::Stopped.command(event, settings) == ServerCommandView::Halt,
        ServerPhase::Stopped.next(event, settings) == ServerPhase::Stopped,
{
}

/// The server sleeps only when no request was waiting, for
/// [`IDLE_SLEEP_MILLIS`], which is no more than 50 ms, and looks at the flag
/// next.
pub proof fn lemma_sleep_is_short(
    phase: ServerPhase,
    event: ServerEvent,
    then: ServerEvent,
    settings: Settings,
)
    requires
        phase.command(event, settings) is Sleep,
    ensures
        phase is Receiving && event is Idle,
        phase.command(event, settings)->millis == IDLE_SLEEP_MILLIS <= 50,
        phase.next(event, settings).command(then, settings) is ReadFlag || phase.next(
            event,
            settings,
        ).command(then, settings) is Fail,
{
}

/// A request is answered before the flag is read again: after a request,
/// and as long as the events that follow are those waited for, an answer is
/// handed over to be sent with the first, second or third command.
pub proof fn lemma_request_is_answered(
    url: String,
    second: ServerEvent,
    third: ServerEvent,
    settings: Settings,
)
    ensures
        ({
            let request = ServerEvent::Request { url };
            let one = ServerPhase::Receiving.next(request, settings);
            let two = one.next(second, settings);
            ||| ServerPhase::Receiving.command(request, settings) is Send
            ||| !one.awaits(second)
            ||| one.command(second, settings) is Send
            ||| !two.awaits(third)
            ||| two.command(third, settings) is Send
        }),
{
}

/// The loop has come round: the flag is read next, or the loop is over.
pub open spec fn settled(phase: ServerPhase) -> bool {
    phase is Checking || phase is Stopped || phase is Failed
}

/// Between two looks at the flag the server does the work of at most one
/// request: from any phase of the loop, whatever the events are, the flag
/// is read again or the loop is over after four of them at most.
pub proof fn lemma_flag_read_again(
    phase: ServerPhase,
    first: ServerEvent,
    second: ServerEvent,
    third: ServerEvent,
    fourth: ServerEvent,
    settings: Settings,
)
    requires
        in_loop(phase),
        !(phase is Checking),
    ensures
        ({
            let one = phase.next(first, settings);
            let two = one.next(second, settings);
            let three = two.next(third, settings);
            let four = three.next(fourth, settings);
            settled(one) || settled(two) || settled(three) || settled(four)
        }),
{
}

} // verus!
