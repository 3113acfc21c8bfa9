//! One engine session as a state machine.
//!
//! The session does no input or output of its own. At every moment it has
//! one request pending: something for its driver to do with the engine
//! process or the command channel. The driver does it, reports the outcome as
//! an `Input` to `step`, hands on what the session emits, and goes on with the
//! request that comes back. A session therefore never waits on anything but
//! its own engine, and any number of them can run side by side.

use crate::clock::Side;
use crate::engine::{EngineState, UIengine, UIengineView};
use crate::protocol::{
    accepted_marker, bestmove_marker, go_line, go_text, handshake_line, handshake_text,
    is_bestmove_line, outcome_of, parse_result, position_line, position_text, quit_line, quit_text,
    ready_check_line, ready_check_text, ready_marker, texts, Event, EventView,
    FORCED_KILL_TIMEOUT_MS, GRACEFUL_EXIT_TIMEOUT_MS, HANDSHAKE_READ_TIMEOUT_MS,
    THINK_READ_TIMEOUT_MS,
};
use crate::text::{contains, line_contains};
use vstd::prelude::*;

verus! {

/// What the owner of a session asks of it.
#[derive(Clone, Debug, PartialEq, Eq)]
pub enum Command {
    /// Search the position given as a FEN text.
    AnalyzePosition(String),
    /// End the session.
    Stop,
    /// End the session.
    Quit,
}

/// A `Command` with its text as a sequence of characters.
pub enum CommandView {
    AnalyzePosition(Seq<char>),
    Stop,
    Quit,
}

impl View for Command {
    type V = CommandView;

    open spec fn view(&self) -> CommandView {
        match *self {
            Command::AnalyzePosition(fen) => CommandView::AnalyzePosition(fen@),
            Command::Stop => CommandView::Stop,
            Command::Quit => CommandView::Quit,
        }
    }
}

/// Where exactly a session stands: the pending request follows from it.
#[derive(Clone, Copy, Debug, PartialEq, Eq, Structural)]
pub enum Stage {
    /// The process is being spawned.
    Launching,
    /// The line that opens the handshake is being written.
    SendingHandshake,
    /// Lines are read until one accepts the handshake.
    AwaitingAccepted,
    /// The readiness check is being written.
    SendingReadyCheck,
    /// Lines are read until one acknowledges readiness.
    AwaitingReady,
    /// The first position is being written.
    SendingStartPosition,
    /// The next command is awaited.
    Idle,
    /// The position to search is being written.
    SendingPosition,
    /// The line that starts the search is being written.
    SendingGo,
    /// Lines are read until the one that ends the search.
    Collecting,
    /// The request to leave is being written.
    SendingQuit,
    /// The process is given time to leave by itself.
    AwaitingExit,
    /// The process is being killed.
    Killing,
    /// The session is over.
    Terminated,
}

/// The station of the session's life that `stage` belongs to.
pub open spec fn state_of(stage: Stage) -> EngineState {
    match stage {
        Stage::Launching => EngineState::Start,
        Stage::SendingHandshake
        | Stage::AwaitingAccepted
        | Stage::SendingReadyCheck
        | Stage::AwaitingReady
        | Stage::SendingStartPosition => EngineState::Handshaking,
        Stage::Idle => EngineState::Idle,
        Stage::SendingPosition | Stage::SendingGo | Stage::Collecting => EngineState::Thinking,
        Stage::SendingQuit | Stage::AwaitingExit | Stage::Killing => EngineState::ShuttingDown,
        Stage::Terminated => EngineState::Terminated,
    }
}

/// What the driver is to do next.
#[derive(Clone, Debug, PartialEq, Eq)]
pub enum Request {
    /// Spawn the executable at this path, its input and output piped, to be
    /// killed when its handle is dropped.
    Spawn(String),
    /// Write this line to the process and flush.
    Write(String),
    /// Read one line from the process, waiting this many milliseconds at most.
    ReadLine(u64),
    /// Take the next command from the channel.
    NextCommand,
    /// Wait this many milliseconds at most for the process to exit.
    WaitForExit(u64),
    /// Kill the process and wait this many milliseconds at most for that.
    Kill(u64),
    /// Drop the process handle: the session is over.
    Release,
}

/// A `Request` with its text as a sequence of characters.
pub enum RequestView {
    Spawn(Seq<char>),
    Write(Seq<char>),
    ReadLine(u64),
    NextCommand,
    WaitForExit(u64),
    Kill(u64),
    Release,
}

impl View for Request {
    type V = RequestView;

    open spec fn view(&self) -> RequestView {
        match *self {
            Request::Spawn(path) => RequestView::Spawn(path@),
            Request::Write(line) => RequestView::Write(line@),
            Request::ReadLine(ms) => RequestView::ReadLine(ms),
            Request::NextCommand => RequestView::NextCommand,
            Request::WaitForExit(ms) => RequestView::WaitForExit(ms),
            Request::Kill(ms) => RequestView::Kill(ms),
            Request::Release => RequestView::Release,
        }
    }
}

/// What came of a request, or of handing on an event.
#[derive(Clone, Debug, PartialEq, Eq)]
pub enum Input {
    /// The process runs.
    Spawned,
    /// The process could not be started.
    SpawnFailed,
    /// The line is written and flushed.
    Written,
    /// The line could not be written.
    WriteFailed,
    /// A line arrived in time.
    Line(String),
    /// No line arrived in time.
    ReadTimedOut,
    /// Reading failed, or the process closed its output.
    ReadFailed,
    /// The next command of the channel.
    Command(Command),
    /// The channel is closed: no command will ever come.
    ChannelClosed,
    /// The process has exited.
    Exited,
    /// The process has not exited in time, or waiting for it failed.
    StillRunning,
    /// The kill went through in time.
    Killed,
    /// The kill failed or was not confirmed in time.
    KillUnconfirmed,
    /// The owner's channel did not take the event last emitted.
    EventRefused,
}

/// An `Input` with its text as a sequence of characters.
pub enum InputView {
    Spawned,
    SpawnFailed,
    Written,
    WriteFailed,
    Line(Seq<char>),
    ReadTimedOut,
    ReadFailed,
    Command(CommandView),
    ChannelClosed,
    Exited,
    StillRunning,
    Killed,
    KillUnconfirmed,
    EventRefused,
}

impl View for Input {
    type V = InputView;

    open spec fn view(&self) -> InputView {
        match *self {
            Input::Spawned => InputView::Spawned,
            Input::SpawnFailed => InputView::SpawnFailed,
            Input::Written => InputView::Written,
            Input::WriteFailed => InputView::WriteFailed,
            Input::Line(line) => InputView::Line(line@),
            Input::ReadTimedOut => InputView::ReadTimedOut,
            Input::ReadFailed => InputView::ReadFailed,
            Input::Command(command) => InputView::Command(command@),
            Input::ChannelClosed => InputView::ChannelClosed,
            Input::Exited => InputView::Exited,
            Input::StillRunning => InputView::StillRunning,
            Input::Killed => InputView::Killed,
            Input::KillUnconfirmed => InputView::KillUnconfirmed,
            Input::EventRefused => InputView::EventRefused,
        }
    }
}

/// Why a session ended without being asked to.
#[derive(Clone, Copy, Debug, PartialEq, Eq, Structural)]
pub enum Fault {
    /// The process could not be started.
    SpawnFailed,
    /// The engine did not answer the handshake in time.
    HandshakeTimedOut,
    /// Writing or reading failed during the handshake.
    HandshakeIo,
    /// The engine did not go on with its search in time.
    ThinkingTimedOut,
    /// Writing or reading failed during a search.
    ThinkingIo,
    /// The owner's channel did not take an event.
    EventRefused,
}

/// What a step gives the owner: nothing, an event, or the fault that ended
/// the session.
#[derive(Clone, Debug, PartialEq, Eq)]
pub enum Emission {
    Nothing,
    Event(Event),
    Fault(Fault),
}

/// An `Emission` with its texts as sequences of characters.
pub enum EmissionView {
    Nothing,
    Event(EventView),
    Fault(Fault),
}

impl View for Emission {
    type V = EmissionView;

    open spec fn view(&self) -> EmissionView {
        match *self {
            Emission::Nothing => EmissionView::Nothing,
            Emission::Event(event) => EmissionView::Event(event@),
            Emission::Fault(fault) => EmissionView::Fault(fault),
        }
    }
}

/// What a step hands back: something for the owner, and the next request.
#[derive(Clone, Debug, PartialEq, Eq)]
pub struct Reaction {
    pub emission: Emission,
    pub request: Request,
}

/// How far reading has come after one more outcome.
#[derive(Clone, Copy, Debug, PartialEq, Eq, Structural)]
pub enum ReadProgress {
    /// The awaited line has not come yet: read on.
    Pending,
    /// The awaited line has come.
    Complete,
    /// No line came in time.
    TimedOut,
    /// Reading failed.
    Failed,
}

/// A session: the engine's settings, the stage it stands at, and the lines
/// of the search that is under way.
#[derive(Debug)]
pub struct EngineSession {
    engine: UIengine,
    stage: Stage,
    lines: Vec<String>,
}

/// A session as contracts see it.
pub struct SessionView {
    pub engine: UIengineView,
    pub stage: Stage,
    pub lines: Seq<Seq<char>>,
}

impl SessionView {
    /// This session moved to `stage`.
    pub open spec fn at(self, stage: Stage) -> SessionView {
        SessionView { stage, ..self }
    }

    /// This session, over.
    pub open spec fn halted(self) -> SessionView {
        self.at(Stage::Terminated)
    }
}

impl View for EngineSession {
    type V = SessionView;

    closed spec fn view(&self) -> SessionView {
        SessionView { engine: self.engine@, stage: self.stage, lines: texts(self.lines@) }
    }
}

/// The request that is pending in `session`.
pub open spec fn pending(session: SessionView) -> RequestView {
    match session.stage {
        Stage::Launching => RequestView::Spawn(session.engine.engine_path),
        Stage::SendingHandshake => RequestView::Write(handshake_text()),
        Stage::AwaitingAccepted => RequestView::ReadLine(HANDSHAKE_READ_TIMEOUT_MS),
        Stage::SendingReadyCheck => RequestView::Write(ready_check_text()),
        Stage::AwaitingReady => RequestView::ReadLine(HANDSHAKE_READ_TIMEOUT_MS),
        Stage::SendingStartPosition => RequestView::Write(position_text(session.engine.position)),
        Stage::Idle => RequestView::NextCommand,
        Stage::SendingPosition => RequestView::Write(position_text(session.engine.position)),
        Stage::SendingGo => RequestView::Write(
            go_text(
                session.engine.search_up_to,
                session.engine.clock.wtime,
                session.engine.clock.btime,
            ),
        ),
        Stage::Collecting => RequestView::ReadLine(THINK_READ_TIMEOUT_MS),
        Stage::SendingQuit => RequestView::Write(quit_text()),
        Stage::AwaitingExit => RequestView::WaitForExit(GRACEFUL_EXIT_TIMEOUT_MS),
        Stage::Killing => RequestView::Kill(FORCED_KILL_TIMEOUT_MS),
        Stage::Terminated => RequestView::Release,
    }
}

/// Whether `input` is a stop or quit command.
pub open spec fn is_stop(input: InputView) -> bool {
    input == InputView::Command(CommandView::Stop) || input == InputView::Command(
        CommandView::Quit,
    )
}

/// Whether `input` is one of the outcomes that `request` can have.
pub open spec fn is_outcome(request: RequestView, input: InputView) -> bool {
    match request {
        RequestView::Spawn(_) => input is Spawned || input is SpawnFailed,
        RequestView::Write(_) => input is Written || input is WriteFailed,
        RequestView::ReadLine(_) => input is Line || input is ReadTimedOut || input is ReadFailed,
        RequestView::NextCommand => input is Command || input is ChannelClosed,
        RequestView::WaitForExit(_) => input is Exited || input is StillRunning,
        RequestView::Kill(_) => input is Killed || input is KillUnconfirmed,
        RequestView::Release => false,
    }
}

/// Whether `input` is something that `session` reacts to: an outcome of the
/// request that is pending; or a stop or quit that the driver found in the
/// channel between two lines of a search; or the news that an event was
/// refused, which can come at any time before the session is over.
pub open spec fn answers(session: SessionView, input: InputView) -> bool {
    session.stage != Stage::Terminated && (is_outcome(pending(session), input)
        || input is EventRefused || (session.stage == Stage::Collecting && is_stop(input)))
}

/// How far reading for `marker` has come with `input`.
pub open spec fn setup_progress(input: InputView, marker: Seq<char>) -> ReadProgress {
    match input {
        InputView::Line(line) => if contains(line, marker) {
            ReadProgress::Complete
        } else {
            ReadProgress::Pending
        },
        InputView::ReadTimedOut => ReadProgress::TimedOut,
        InputView::ReadFailed => ReadProgress::Failed,
        _ => ReadProgress::Pending,
    }
}

/// How far collecting the lines of a search has come with `input`.
pub open spec fn moves_progress(input: InputView) -> ReadProgress {
    setup_progress(input, bestmove_marker())
}

/// The lines of a search after `input`: a line that arrived is added.
pub open spec fn collected(lines: Seq<Seq<char>>, input: InputView) -> Seq<Seq<char>> {
    match input {
        InputView::Line(line) => lines.push(line),
        _ => lines,
    }
}

/// One step of starting the engine: what becomes of `pre` on `input` while
/// the process is launched and the handshake runs. At any other stage, and on
/// an input that is no outcome of the pending request, nothing changes.
pub open spec fn start_engine_of(pre: SessionView, input: InputView) -> (SessionView, EmissionView) {
    let ignored = (pre, EmissionView::Nothing);
    let broken = (pre.halted(), EmissionView::Fault(Fault::HandshakeIo));
    match pre.stage {
        Stage::Launching => match input {
            InputView::Spawned => (pre.at(Stage::SendingHandshake), EmissionView::Nothing),
            InputView::SpawnFailed => (pre.halted(), EmissionView::Fault(Fault::SpawnFailed)),
            _ => ignored,
        },
        Stage::SendingHandshake => match input {
            InputView::Written => (pre.at(Stage::AwaitingAccepted), EmissionView::Nothing),
            InputView::WriteFailed => broken,
            _ => ignored,
        },
        Stage::AwaitingAccepted => match setup_progress(input, accepted_marker()) {
            ReadProgress::Complete => (pre.at(Stage::SendingReadyCheck), EmissionView::Nothing),
            ReadProgress::Pending => ignored,
            ReadProgress::TimedOut => (
                pre.halted(),
                EmissionView::Fault(Fault::HandshakeTimedOut),
            ),
            ReadProgress::Failed => broken,
        },
        Stage::SendingReadyCheck => match input {
            InputView::Written => (pre.at(Stage::AwaitingReady), EmissionView::Nothing),
            InputView::WriteFailed => broken,
            _ => ignored,
        },
        Stage::AwaitingReady => match setup_progress(input, ready_marker()) {
            ReadProgress::Complete => (
                pre.at(Stage::SendingStartPosition),
                EmissionView::Nothing,
            ),
            ReadProgress::Pending => ignored,
            ReadProgress::TimedOut => (
                pre.halted(),
                EmissionView::Fault(Fault::HandshakeTimedOut),
            ),
            ReadProgress::Failed => broken,
        },
        Stage::SendingStartPosition => match input {
            InputView::Written => (pre.at(Stage::Idle), EmissionView::Event(EventView::Ready)),
            InputView::WriteFailed => broken,
            _ => ignored,
        },
        _ => ignored,
    }
}

/// One step of serving commands: what becomes of `pre` on `input` while the
/// session is idle, thinking or shutting down. At any other stage, and on an
/// input that is no outcome of the pending request, nothing changes; but
/// between two lines of a search a stop or quit is taken, and the search is
/// given up for it.
pub open spec fn thinking_of(pre: SessionView, input: InputView) -> (SessionView, EmissionView) {
    let ignored = (pre, EmissionView::Nothing);
    let broken = (pre.halted(), EmissionView::Fault(Fault::ThinkingIo));
    let stopped = (pre.halted(), EmissionView::Event(EventView::Stopped));
    match pre.stage {
        Stage::Idle => match input {
            InputView::Command(CommandView::AnalyzePosition(fen)) => (
                SessionView {
                    engine: UIengineView { position: fen, ..pre.engine },
                    stage: Stage::SendingPosition,
                    lines: pre.lines,
                },
                EmissionView::Nothing,
            ),
            InputView::Command(_) | InputView::ChannelClosed => (
                pre.at(Stage::SendingQuit),
                EmissionView::Nothing,
            ),
            _ => ignored,
        },
        Stage::SendingPosition => match input {
            InputView::Written => (pre.at(Stage::SendingGo), EmissionView::Nothing),
            InputView::WriteFailed => broken,
            _ => ignored,
        },
        Stage::SendingGo => match input {
            InputView::Written => (
                SessionView { engine: pre.engine, stage: Stage::Collecting, lines: Seq::empty() },
                EmissionView::Nothing,
            ),
            InputView::WriteFailed => broken,
            _ => ignored,
        },
        Stage::Collecting => if is_stop(input) {
            (
                SessionView { engine: pre.engine, stage: Stage::SendingQuit, lines: Seq::empty() },
                EmissionView::Nothing,
            )
        } else {
            match moves_progress(input) {
                ReadProgress::Complete => (
                    SessionView { engine: pre.engine, stage: Stage::Idle, lines: Seq::empty() },
                    EmissionView::Event(outcome_of(collected(pre.lines, input))),
                ),
                ReadProgress::Pending => (
                    SessionView {
                        engine: pre.engine,
                        stage: Stage::Collecting,
                        lines: collected(pre.lines, input),
                    },
                    EmissionView::Nothing,
                ),
                ReadProgress::TimedOut => (
                    pre.halted(),
                    EmissionView::Fault(Fault::ThinkingTimedOut),
                ),
                ReadProgress::Failed => broken,
            }
        },
        Stage::SendingQuit => match input {
            InputView::Written | InputView::WriteFailed => (
                pre.at(Stage::AwaitingExit),
                EmissionView::Nothing,
            ),
            _ => ignored,
        },
        Stage::AwaitingExit => match input {
            InputView::Exited => stopped,
            InputView::StillRunning => (pre.at(Stage::Killing), EmissionView::Nothing),
            _ => ignored,
        },
        Stage::Killing => match input {
            InputView::Killed | InputView::KillUnconfirmed => stopped,
            _ => ignored,
        },
        _ => ignored,
    }
}

/// One step of a session: what becomes of `pre` on `input`, and what is
/// emitted.
///
/// A session that is over stays as it is. Elsewhere a refused event ends the
/// session with a fault. All else is a step of starting the engine or of
/// serving commands, whichever the stage calls for.
pub open spec fn step_of(pre: SessionView, input: InputView) -> (SessionView, EmissionView) {
    match state_of(pre.stage) {
        EngineState::Terminated => (pre, EmissionView::Nothing),
        EngineState::Start | EngineState::Handshaking => if input is EventRefused {
            (pre.halted(), EmissionView::Fault(Fault::EventRefused))
        } else {
            start_engine_of(pre, input)
        },
        _ => if input is EventRefused {
            (pre.halted(), EmissionView::Fault(Fault::EventRefused))
        } else {
            thinking_of(pre, input)
        },
    }
}

/// One turn of reading during the handshake: whether `input` brings the
/// line that holds `marker`, and if not, whether reading goes on.
pub fn read_setup_from_process(input: &Input, marker: &str) -> (progress: ReadProgress)
    ensures
        progress == setup_progress(input@, marker@),
{
    match input {
        Input::Line(line) => {
            if line_contains(line.as_str(), marker) {
                ReadProgress::Complete
            } else {
                ReadProgress::Pending
            }
        },
        Input::ReadTimedOut => ReadProgress::TimedOut,
        Input::ReadFailed => ReadProgress::Failed,
        _ => ReadProgress::Pending,
    }
}

/// One turn of reading during a search: a line that arrived is added to
/// `lines`, and the line that ends the search completes them.
pub fn read_moves_from_process(lines: &mut Vec<String>, input: Input) -> (progress: ReadProgress)
    ensures
        progress == moves_progress(input@),
        texts(final(lines)@) == collected(texts(old(lines)@), input@),
{
    match input {
        Input::Line(line) => {
            let done = is_bestmove_line(line.as_str());
            lines.push(line);
            assert(texts(lines@) =~= collected(texts(old(lines)@), input@));
            if done {
                ReadProgress::Complete
            } else {
                ReadProgress::Pending
            }
        },
        Input::ReadTimedOut => ReadProgress::TimedOut,
        Input::ReadFailed => ReadProgress::Failed,
        _ => ReadProgress::Pending,
    }
}

/// One step of starting the engine: launch, handshake, first position.
pub fn start_engine(session: &mut EngineSession, input: Input) -> (emission: Emission)
    ensures
        final(session)@ == start_engine_of(old(session)@, input@).0,
        emission@ == start_engine_of(old(session)@, input@).1,
{
    match session.stage {
        Stage::Launching => match input {
            Input::Spawned => {
                session.stage = Stage::SendingHandshake;
                Emission::Nothing
            },
            Input::SpawnFailed => {
                session.stage = Stage::Terminated;
                Emission::Fault(Fault::SpawnFailed)
            },
            _ => Emission::Nothing,
        },
        Stage::SendingHandshake => match input {
            Input::Written => {
                session.stage = Stage::AwaitingAccepted;
                Emission::Nothing
            },
            Input::WriteFailed => {
                session.stage = Stage::Terminated;
                Emission::Fault(Fault::HandshakeIo)
            },
            _ => Emission::Nothing,
        },
        Stage::AwaitingAccepted => match read_setup_from_process(&input, "uciok") {
            ReadProgress::Complete => {
                session.stage = Stage::SendingReadyCheck;
                Emission::Nothing
            },
            ReadProgress::Pending => Emission::Nothing,
            ReadProgress::TimedOut => {
                session.stage = Stage::Terminated;
                Emission::Fault(Fault::HandshakeTimedOut)
            },
            ReadProgress::Failed => {
                session.stage = Stage::Terminated;
                Emission::Fault(Fault::HandshakeIo)
            },
        },
        Stage::SendingReadyCheck => match input {
            Input::Written => {
                session.stage = Stage::AwaitingReady;
                Emission::Nothing
            },
            Input::WriteFailed => {
                session.stage = Stage::Terminated;
                Emission::Fault(Fault::HandshakeIo)
            },
            _ => Emission::Nothing,
        },
        Stage::AwaitingReady => match read_setup_from_process(&input, "readyok") {
            ReadProgress::Complete => {
                session.stage = Stage::SendingStartPosition;
                Emission::Nothing
            },
            ReadProgress::Pending => Emission::Nothing,
            ReadProgress::TimedOut => {
                session.stage = Stage::Terminated;
                Emission::Fault(Fault::HandshakeTimedOut)
            },
            ReadProgress::Failed => {
                session.stage = Stage::Terminated;
                Emission::Fault(Fault::HandshakeIo)
            },
        },
        Stage::SendingStartPosition => match input {
            Input::Written => {
                session.stage = Stage::Idle;
                Emission::Event(Event::Ready)
            },
            Input::WriteFailed => {
                session.stage = Stage::Terminated;
                Emission::Fault(Fault::HandshakeIo)
            },
            _ => Emission::Nothing,
        },
        _ => Emission::Nothing,
    }
}

/// One step of serving commands: take a command, run a search and read its
/// result, or shut the engine down.
pub fn handle_engine_thinking(session: &mut EngineSession, input: Input) -> (emission: Emission)
    ensures
        final(session)@ == thinking_of(old(session)@, input@).0,
        emission@ == thinking_of(old(session)@, input@).1,
{
    match session.stage {
        Stage::Idle => match input {
            Input::Command(Command::AnalyzePosition(fen)) => {
                session.engine.position = fen;
                session.stage = Stage::SendingPosition;
                Emission::Nothing
            },
            Input::Command(_) | Input::ChannelClosed => {
                session.stage = Stage::SendingQuit;
                Emission::Nothing
            },
            _ => Emission::Nothing,
        },
        Stage::SendingPosition => match input {
            Input::Written => {
                session.stage = Stage::SendingGo;
                Emission::Nothing
            },
            Input::WriteFailed => {
                session.stage = Stage::Terminated;
                Emission::Fault(Fault::ThinkingIo)
            },
            _ => Emission::Nothing,
        },
        Stage::SendingGo => match input {
            Input::Written => {
                session.lines = Vec::new();
                session.stage = Stage::Collecting;
                assert(texts(session.lines@) =~= Seq::empty());
                Emission::Nothing
            },
            Input::WriteFailed => {
                session.stage = Stage::Terminated;
                Emission::Fault(Fault::ThinkingIo)
            },
            _ => Emission::Nothing,
        },
        Stage::Collecting => match input {
            Input::Command(Command::Stop) | Input::Command(Command::Quit) => {
                session.lines = Vec::new();
                session.stage = Stage::SendingQuit;
                assert(texts(session.lines@) =~= Seq::empty());
                Emission::Nothing
            },
            other => match read_moves_from_process(&mut session.lines, other) {
                ReadProgress::Complete => {
                    let mut lines: Vec<String> = Vec::new();
                    core::mem::swap(&mut session.lines, &mut lines);
                    session.stage = Stage::Idle;
                    assert(texts(session.lines@) =~= Seq::empty());
                    Emission::Event(parse_result(lines))
                },
                ReadProgress::Pending => Emission::Nothing,
                ReadProgress::TimedOut => {
                    session.stage = Stage::Terminated;
                    Emission::Fault(Fault::ThinkingTimedOut)
                },
                ReadProgress::Failed => {
                    session.stage = Stage::Terminated;
                    Emission::Fault(Fault::ThinkingIo)
                },
            },
        },
        Stage::SendingQuit => match input {
            Input::Written | Input::WriteFailed => {
                session.stage = Stage::AwaitingExit;
                Emission::Nothing
            },
            _ => Emission::Nothing,
        },
        Stage::AwaitingExit => match input {
            Input::Exited => {
                session.stage = Stage::Terminated;
                Emission::Event(Event::Stopped)
            },
            Input::StillRunning => {
                session.stage = Stage::Killing;
                Emission::Nothing
            },
            _ => Emission::Nothing,
        },
        Stage::Killing => match input {
            Input::Killed | Input::KillUnconfirmed => {
                session.stage = Stage::Terminated;
                Emission::Event(Event::Stopped)
            },
            _ => Emission::Nothing,
        },
        _ => Emission::Nothing,
    }
}

impl UIengine {
    /// A session for this engine, about to launch its process.
    pub fn run_engine(self) -> (session: EngineSession)
        ensures
            session@ == (SessionView { engine: self@, stage: Stage::Launching, lines: Seq::empty() }),
    {
        let session = EngineSession { engine: self, stage: Stage::Launching, lines: Vec::new() };
        assert(texts(session.lines@) =~= Seq::empty());
        session
    }
}

impl EngineSession {
    /// The stage the session stands at.
    pub fn stage(&self) -> (stage: Stage)
        ensures
            stage == self@.stage,
    {
        self.stage
    }

    /// The station of its life the session is at.
    pub fn state(&self) -> (state: EngineState)
        ensures
            state == state_of(self@.stage),
    {
        match self.stage {
            Stage::Launching => EngineState::Start,
            Stage::SendingHandshake
            | Stage::AwaitingAccepted
            | Stage::SendingReadyCheck
            | Stage::AwaitingReady
            | Stage::SendingStartPosition => EngineState::Handshaking,
            Stage::Idle => EngineState::Idle,
            Stage::SendingPosition | Stage::SendingGo | Stage::Collecting => EngineState::Thinking,
            Stage::SendingQuit | Stage::AwaitingExit | Stage::Killing => EngineState::ShuttingDown,
            Stage::Terminated => EngineState::Terminated,
        }
    }

    /// The engine's settings as they stand.
    pub fn engine(&self) -> (engine: &UIengine)
        ensures
            engine@ == self@.engine,
    {
        &self.engine
    }

    /// The remaining time of white and of black, as the next search will be
    /// told.
    pub fn snapshot(&self) -> (times: (u128, u128))
        ensures
            times == (self@.engine.clock.wtime, self@.engine.clock.btime),
    {
        self.engine.clock.snapshot()
    }

    /// Ticks the session's clock, unless the session is over: then the clock
    /// stands still.
    pub fn tick(&mut self, now: u128, side_to_move: Side)
        ensures
            final(self)@.stage == old(self)@.stage,
            final(self)@.lines == old(self)@.lines,
            final(self)@.engine == (UIengineView {
                clock: if old(self)@.stage == Stage::Terminated {
                    old(self)@.engine.clock
                } else {
                    old(self)@.engine.clock.ticked(now, side_to_move)
                },
                ..old(self)@.engine
            }),
    {
        match self.stage {
            Stage::Terminated => {},
            _ => {
                self.engine.clock.tick(now, side_to_move);
            },
        }
    }

    /// The request that is pending.
    pub fn pending(&self) -> (request: Request)
        ensures
            request@ == pending(self@),
    {
        match self.stage {
            Stage::Launching => Request::Spawn(self.engine.engine_path.clone()),
            Stage::SendingHandshake => Request::Write(handshake_line()),
            Stage::AwaitingAccepted => Request::ReadLine(HANDSHAKE_READ_TIMEOUT_MS),
            Stage::SendingReadyCheck => Request::Write(ready_check_line()),
            Stage::AwaitingReady => Request::ReadLine(HANDSHAKE_READ_TIMEOUT_MS),
            Stage::SendingStartPosition => Request::Write(
                position_line(self.engine.position.as_str()),
            ),
            Stage::Idle => Request::NextCommand,
            Stage::SendingPosition => Request::Write(position_line(self.engine.position.as_str())),
            Stage::SendingGo => Request::Write(
                go_line(self.engine.search_up_to, self.engine.clock.wtime, self.engine.clock.btime),
            ),
            Stage::Collecting => Request::ReadLine(THINK_READ_TIMEOUT_MS),
            Stage::SendingQuit => Request::Write(quit_line()),
            Stage::AwaitingExit => Request::WaitForExit(GRACEFUL_EXIT_TIMEOUT_MS),
            Stage::Killing => Request::Kill(FORCED_KILL_TIMEOUT_MS),
            Stage::Terminated => Request::Release,
        }
    }

    /// Whether the session reacts to `input` as it stands. A driver that
    /// finds a command in the channel between two lines of a search asks
    /// this, and keeps the command for later where the answer is no.
    pub fn accepts(&self, input: &Input) -> (accepted: bool)
        ensures
            accepted == answers(self@, input@),
    {
        let refused = match input {
            Input::EventRefused => true,
            _ => false,
        };
        match self.stage {
            Stage::Terminated => false,
            Stage::Launching => refused || match input {
                Input::Spawned | Input::SpawnFailed => true,
                _ => false,
            },
            Stage::SendingHandshake
            | Stage::SendingReadyCheck
            | Stage::SendingStartPosition
            | Stage::SendingPosition
            | Stage::SendingGo
            | Stage::SendingQuit => refused || match input {
                Input::Written | Input::WriteFailed => true,
                _ => false,
            },
            Stage::AwaitingAccepted | Stage::AwaitingReady => refused || match input {
                Input::Line(_) | Input::ReadTimedOut | Input::ReadFailed => true,
                _ => false,
            },
            Stage::Collecting => refused || match input {
                Input::Line(_) | Input::ReadTimedOut | Input::ReadFailed => true,
                Input::Command(Command::Stop) | Input::Command(Command::Quit) => true,
                _ => false,
            },
            Stage::Idle => refused || match input {
                Input::Command(_) | Input::ChannelClosed => true,
                _ => false,
            },
            Stage::AwaitingExit => refused || match input {
                Input::Exited | Input::StillRunning => true,
                _ => false,
            },
            Stage::Killing => refused || match input {
                Input::Killed | Input::KillUnconfirmed => true,
                _ => false,
            },
        }
    }

    /// Takes the outcome of the pending request, a stop or quit found
    /// between two lines of a search, or the news that an event was refused,
    /// and says what to emit and what to do next.
    pub fn step(&mut self, input: Input) -> (reaction: Reaction)
        ensures
            final(self)@ == step_of(old(self)@, input@).0,
            reaction.emission@ == step_of(old(self)@, input@).1,
            reaction.request@ == pending(final(self)@),
    {
        let refused = match input {
            Input::EventRefused => true,
            _ => false,
        };
        let emission = match self.state() {
            EngineState::Terminated => Emission::Nothing,
            EngineState::Start | EngineState::Handshaking => {
                if refused {
                    self.stage = Stage::Terminated;
                    Emission::Fault(Fault::EventRefused)
                } else {
                    start_engine(self, input)
                }
            },
            _ => {
                if refused {
                    self.stage = Stage::Terminated;
                    Emission::Fault(Fault::EventRefused)
                } else {
                    handle_engine_thinking(self, input)
                }
            },
        };
        Reaction { emission, request: self.pending() }
    }
}

} // verus!
