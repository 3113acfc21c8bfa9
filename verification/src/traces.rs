//! What holds of a session over many steps.
//!
//! A run feeds a session one input after the other. The statements here are
//! about every run of a kind: every handshake, every search, every shutdown.

use crate::engine::{EngineState, UIengineView};
use crate::protocol::{
    accepted_marker, bestmove_marker, outcome_of, ready_marker, EventView,
    FORCED_KILL_TIMEOUT_MS, GRACEFUL_EXIT_TIMEOUT_MS, HANDSHAKE_READ_TIMEOUT_MS,
    THINK_READ_TIMEOUT_MS,
};
use crate::session::{
    answers, is_outcome, is_stop, pending, state_of, step_of, CommandView, EmissionView, Fault, InputView,
    RequestView, SessionView, Stage,
};
use crate::text::contains;
use vstd::prelude::*;

verus! {

/// The session after `inputs`, and what was emitted on the way, in order
/// and without the steps that emitted nothing.
pub open spec fn run(pre: SessionView, inputs: Seq<InputView>) -> (SessionView, Seq<EmissionView>)
    decreases inputs.len(),
{
    if inputs.len() == 0 {
        (pre, Seq::empty())
    } else {
        let first = step_of(pre, inputs[0]);
        let rest = run(first.0, inputs.drop_first());
        if first.1 is Nothing {
            rest
        } else {
            (rest.0, seq![first.1] + rest.1)
        }
    }
}

/// How long the driver may wait on `request`, in milliseconds. Spawning and
/// writing are not waited on, and a command may take any time to come.
pub open spec fn wait_of(request: RequestView) -> nat {
    match request {
        RequestView::ReadLine(ms) => ms as nat,
        RequestView::WaitForExit(ms) => ms as nat,
        RequestView::Kill(ms) => ms as nat,
        _ => 0,
    }
}

/// The longest that the driver may have waited for `inputs`, all together:
/// for every input that is an outcome of the request pending when it came,
/// the wait of that request.
pub open spec fn waited(pre: SessionView, inputs: Seq<InputView>) -> nat
    decreases inputs.len(),
{
    if inputs.len() == 0 {
        0
    } else {
        let first = if is_outcome(pending(pre), inputs[0]) {
            wait_of(pending(pre))
        } else {
            0
        };
        first + waited(step_of(pre, inputs[0]).0, inputs.drop_first())
    }
}

/// The lines `lines` as they are reported to a session, one input each.
pub open spec fn as_lines(lines: Seq<Seq<char>>) -> Seq<InputView> {
    Seq::new(lines.len(), |i: int| InputView::Line(lines[i]))
}

/// The inputs of one search that goes well: the command, two lines written,
/// and the engine's lines.
pub open spec fn search_inputs(fen: Seq<char>, lines: Seq<Seq<char>>) -> Seq<InputView> {
    seq![
        InputView::Command(CommandView::AnalyzePosition(fen)),
        InputView::Written,
        InputView::Written,
    ] + as_lines(lines)
}

/// Whether `lines` are the lines of one finished search: the last one, and
/// no other, holds the marker that ends a search.
pub open spec fn ends_with_bestmove(lines: Seq<Seq<char>>) -> bool {
    &&& lines.len() >= 1
    &&& contains(lines.last(), bestmove_marker())
    &&& forall|i: int| 0 <= i < lines.len() - 1 ==> !contains(#[trigger] lines[i], bestmove_marker())
}

/// The inputs of the searches `jobs`, one after the other. A job is a
/// position and the lines that the engine answers it with.
pub open spec fn searches_inputs(jobs: Seq<(Seq<char>, Seq<Seq<char>>)>) -> Seq<InputView>
    decreases jobs.len(),
{
    if jobs.len() == 0 {
        Seq::empty()
    } else {
        searches_inputs(jobs.drop_last()) + search_inputs(jobs.last().0, jobs.last().1)
    }
}

/// What the searches `jobs` are answered with, one event each, in order.
pub open spec fn searches_answers(jobs: Seq<(Seq<char>, Seq<Seq<char>>)>) -> Seq<EmissionView> {
    Seq::new(jobs.len(), |i: int| EmissionView::Event(outcome_of(jobs[i].1)))
}

/// Whether `emission` tells the owner that the session is over.
pub open spec fn is_final(emission: EmissionView) -> bool {
    emission is Fault || emission == EmissionView::Event(EventView::Stopped)
}

/// A run in two parts is the run of the first part, then the run of the
/// second from where the first ended.
pub proof fn lemma_run_in_parts(pre: SessionView, a: Seq<InputView>, b: Seq<InputView>)
    ensures
        run(pre, a + b).0 == run(run(pre, a).0, b).0,
        run(pre, a + b).1 == run(pre, a).1 + run(run(pre, a).0, b).1,
        waited(pre, a + b) == waited(pre, a) + waited(run(pre, a).0, b),
    decreases a.len(),
{
    if a.len() == 0 {
        assert(a + b =~= b);
        assert(run(pre, a).1 + run(pre, b).1 =~= run(pre, b).1);
    } else {
        let first = step_of(pre, a[0]);
        assert((a + b)[0] == a[0]);
        assert((a + b).drop_first() =~= a.drop_first() + b);
        lemma_run_in_parts(first.0, a.drop_first(), b);
        let rest_a = run(first.0, a.drop_first());
        let rest_b = run(rest_a.0, b);
        if !(first.1 is Nothing) {
            assert(seq![first.1] + (rest_a.1 + rest_b.1) =~= (seq![first.1] + rest_a.1)
                + rest_b.1);
        }
    }
}

/// Only an outcome of the pending request, a stop or quit between two lines
/// of a search, and the news of a refused event move a session: every other
/// input changes nothing and emits nothing.
pub proof fn lemma_unrequested_input_is_ignored(pre: SessionView, input: InputView)
    requires
        !answers(pre, input),
    ensures
        step_of(pre, input) == (pre, EmissionView::Nothing),
{
}

/// A step changes neither the clock nor the engine's path and depth: the
/// clock moves by ticks alone.
pub proof fn lemma_step_keeps_clock(pre: SessionView, input: InputView)
    ensures
        step_of(pre, input).0.engine.clock == pre.engine.clock,
        step_of(pre, input).0.engine.engine_path == pre.engine.engine_path,
        step_of(pre, input).0.engine.search_up_to == pre.engine.search_up_to,
{
}

/// Over a whole run, too, the clock and the engine's path and depth stay
/// as they were.
pub proof fn lemma_run_keeps_clock(pre: SessionView, inputs: Seq<InputView>)
    ensures
        run(pre, inputs).0.engine.clock == pre.engine.clock,
        run(pre, inputs).0.engine.engine_path == pre.engine.engine_path,
        run(pre, inputs).0.engine.search_up_to == pre.engine.search_up_to,
    decreases inputs.len(),
{
    if inputs.len() > 0 {
        lemma_step_keeps_clock(pre, inputs[0]);
        lemma_run_keeps_clock(step_of(pre, inputs[0]).0, inputs.drop_first());
    }
}

/// A command is asked for exactly when the session is idle. A position that
/// comes at any other time is not taken, nor does the closing of the channel
/// end a session that is not idle; a stop or quit is taken when the session
/// is idle or between two lines of a search, and at no other time.
pub proof fn lemma_commands_wait_for_idle(pre: SessionView, fen: Seq<char>, stop: InputView)
    requires
        is_stop(stop),
    ensures
        pending(pre) is NextCommand <==> state_of(pre.stage) == EngineState::Idle,
        state_of(pre.stage) != EngineState::Idle ==> step_of(
            pre,
            InputView::Command(CommandView::AnalyzePosition(fen)),
        ) == (pre, EmissionView::Nothing),
        state_of(pre.stage) != EngineState::Idle ==> step_of(pre, InputView::ChannelClosed) == (
            pre,
            EmissionView::Nothing,
        ),
        pre.stage != Stage::Idle && pre.stage != Stage::Collecting ==> step_of(pre, stop) == (
            pre,
            EmissionView::Nothing,
        ),
{
}

/// A session ends in the very step that emits a fault or `Stopped`, and in
/// no other.
pub proof fn lemma_final_emission_ends_session(pre: SessionView, input: InputView)
    ensures
        is_final(step_of(pre, input).1) <==> pre.stage != Stage::Terminated && step_of(
            pre,
            input,
        ).0.stage == Stage::Terminated,
{
}

/// A session that is over stays over, whatever comes, and emits nothing more.
pub proof fn lemma_terminated_is_absorbing(pre: SessionView, inputs: Seq<InputView>)
    requires
        pre.stage == Stage::Terminated,
    ensures
        run(pre, inputs) == (pre, Seq::<EmissionView>::empty()),
    decreases inputs.len(),
{
    if inputs.len() > 0 {
        lemma_terminated_is_absorbing(pre, inputs.drop_first());
    }
}

/// Every session that ends tells its owner so exactly once, and with the
/// last thing it emits: a session that has ended emitted one fault or
/// `Stopped`, at the very end, and one that has not ended emitted neither.
pub proof fn lemma_one_final_emission(pre: SessionView, inputs: Seq<InputView>)
    requires
        pre.stage != Stage::Terminated,
    ensures
        ({
            let (post, emitted) = run(pre, inputs);
            &&& post.stage == Stage::Terminated ==> emitted.len() >= 1 && is_final(emitted.last())
            &&& forall|i: int|
                0 <= i < emitted.len() && is_final(#[trigger] emitted[i]) ==> post.stage
                    == Stage::Terminated && i == emitted.len() - 1
        }),
    decreases inputs.len(),
{
    if inputs.len() > 0 {
        let first = step_of(pre, inputs[0]);
        let rest = run(first.0, inputs.drop_first());
        lemma_final_emission_ends_session(pre, inputs[0]);
        if first.0.stage == Stage::Terminated {
            lemma_terminated_is_absorbing(first.0, inputs.drop_first());
            assert(seq![first.1] + rest.1 =~= seq![first.1]);
        } else {
            lemma_one_final_emission(first.0, inputs.drop_first());
            if !(first.1 is Nothing) {
                let emitted = seq![first.1] + rest.1;
                assert(forall|i: int| 1 <= i < emitted.len() ==> emitted[i] == rest.1[i - 1]);
            }
        }
    }
}

/// `Ready` is emitted at most once, and before anything else: a session that
/// starts from the launch and has come past the handshake has emitted
/// `Ready` first, and nothing after the first emission is `Ready`.
pub proof fn lemma_ready_once_and_first(pre: SessionView, inputs: Seq<InputView>)
    ensures
        ({
            let (post, emitted) = run(pre, inputs);
            let starting = state_of(pre.stage) == EngineState::Start || state_of(pre.stage)
                == EngineState::Handshaking;
            let serving = state_of(post.stage) == EngineState::Idle || state_of(post.stage)
                == EngineState::Thinking || state_of(post.stage) == EngineState::ShuttingDown;
            &&& forall|i: int|
                0 <= i < emitted.len() && #[trigger] emitted[i] == EmissionView::Event(
                    EventView::Ready,
                ) ==> starting && i == 0
            &&& starting && serving ==> emitted.len() >= 1 && emitted[0] == EmissionView::Event(
                EventView::Ready,
            )
            &&& starting && emitted.len() == 0 ==> !serving
        }),
    decreases inputs.len(),
{
    if inputs.len() > 0 {
        let first = step_of(pre, inputs[0]);
        let rest = run(first.0, inputs.drop_first());
        lemma_ready_once_and_first(first.0, inputs.drop_first());
        if first.0.stage == Stage::Terminated {
            lemma_terminated_is_absorbing(first.0, inputs.drop_first());
        }
        if !(first.1 is Nothing) {
            let emitted = seq![first.1] + rest.1;
            assert(forall|i: int| 1 <= i < emitted.len() ==> emitted[i] == rest.1[i - 1]);
        }
    }
}

/// While the handshake waits for a line, lines without the awaited marker
/// are passed over: nothing changes and nothing is emitted.
pub proof fn lemma_handshake_skips_other_lines(pre: SessionView, lines: Seq<Seq<char>>)
    requires
        pre.stage == Stage::AwaitingAccepted || pre.stage == Stage::AwaitingReady,
        forall|i: int|
            0 <= i < lines.len() ==> !contains(
                #[trigger] lines[i],
                if pre.stage == Stage::AwaitingAccepted {
                    accepted_marker()
                } else {
                    ready_marker()
                },
            ),
    ensures
        run(pre, as_lines(lines)) == (pre, Seq::<EmissionView>::empty()),
        waited(pre, as_lines(lines)) == lines.len() * HANDSHAKE_READ_TIMEOUT_MS,
    decreases lines.len(),
{
    if lines.len() > 0 {
        assert(as_lines(lines)[0] == InputView::Line(lines[0]));
        assert(as_lines(lines).drop_first() =~= as_lines(lines.drop_first()));
        lemma_handshake_skips_other_lines(pre, lines.drop_first());
        assert(lines.len() * HANDSHAKE_READ_TIMEOUT_MS == HANDSHAKE_READ_TIMEOUT_MS + (lines.len()
            - 1) * HANDSHAKE_READ_TIMEOUT_MS) by (nonlinear_arith);
    }
}

/// An engine that stays silent during the handshake is given up after one
/// wait for a line: the session ends with a fault and without `Ready`,
/// whatever lines without the awaited marker came before.
pub proof fn lemma_silent_engine_is_given_up(pre: SessionView, lines: Seq<Seq<char>>)
    requires
        pre.stage == Stage::AwaitingAccepted || pre.stage == Stage::AwaitingReady,
        forall|i: int|
            0 <= i < lines.len() ==> !contains(
                #[trigger] lines[i],
                if pre.stage == Stage::AwaitingAccepted {
                    accepted_marker()
                } else {
                    ready_marker()
                },
            ),
    ensures
        pending(pre) == RequestView::ReadLine(HANDSHAKE_READ_TIMEOUT_MS),
        run(pre, as_lines(lines).push(InputView::ReadTimedOut)) == (
            pre.halted(),
            seq![EmissionView::Fault(Fault::HandshakeTimedOut)],
        ),
        waited(pre, as_lines(lines).push(InputView::ReadTimedOut)) == (lines.len() + 1)
            * HANDSHAKE_READ_TIMEOUT_MS,
{
    let last = seq![InputView::ReadTimedOut];
    lemma_handshake_skips_other_lines(pre, lines);
    lemma_run_in_parts(pre, as_lines(lines), last);
    assert(as_lines(lines).push(InputView::ReadTimedOut) =~= as_lines(lines) + last);
    reveal_with_fuel(run, 2);
    reveal_with_fuel(waited, 2);
    assert(run(pre, last).1 =~= seq![EmissionView::Fault(Fault::HandshakeTimedOut)]);
    assert(Seq::<EmissionView>::empty() + run(pre, last).1 =~= run(pre, last).1);
    assert((lines.len() + 1) * HANDSHAKE_READ_TIMEOUT_MS == lines.len()
        * HANDSHAKE_READ_TIMEOUT_MS + HANDSHAKE_READ_TIMEOUT_MS) by (nonlinear_arith);
}

/// While a search collects lines, every line without the marker that ends a
/// search is kept, in order, and nothing is emitted.
pub proof fn lemma_collecting_keeps_lines(pre: SessionView, lines: Seq<Seq<char>>)
    requires
        pre.stage == Stage::Collecting,
        forall|i: int| 0 <= i < lines.len() ==> !contains(#[trigger] lines[i], bestmove_marker()),
    ensures
        run(pre, as_lines(lines)) == (
            SessionView { lines: pre.lines + lines, ..pre },
            Seq::<EmissionView>::empty(),
        ),
        waited(pre, as_lines(lines)) == lines.len() * THINK_READ_TIMEOUT_MS,
    decreases lines.len(),
{
    if lines.len() == 0 {
        assert(pre.lines + lines =~= pre.lines);
    } else {
        let next = SessionView { lines: pre.lines.push(lines[0]), ..pre };
        assert(as_lines(lines)[0] == InputView::Line(lines[0]));
        assert(as_lines(lines).drop_first() =~= as_lines(lines.drop_first()));
        lemma_collecting_keeps_lines(next, lines.drop_first());
        assert(next.lines + lines.drop_first() =~= pre.lines + lines);
        assert(lines.len() * THINK_READ_TIMEOUT_MS == THINK_READ_TIMEOUT_MS + (lines.len() - 1)
            * THINK_READ_TIMEOUT_MS) by (nonlinear_arith);
    }
}

/// A search that the engine ends in time is answered with exactly one
/// event: what its lines amount to. The session is idle again, holds the
/// position that was searched, and has forgotten the lines. Every line was
/// waited for no longer than a line of a search may take.
pub proof fn lemma_search_is_answered(pre: SessionView, fen: Seq<char>, lines: Seq<Seq<char>>)
    requires
        pre.stage == Stage::Idle,
        ends_with_bestmove(lines),
    ensures
        run(pre, search_inputs(fen, lines)) == (
            SessionView {
                engine: UIengineView { position: fen, ..pre.engine },
                stage: Stage::Idle,
                lines: Seq::empty(),
            },
            seq![EmissionView::Event(outcome_of(lines))],
        ),
        waited(pre, search_inputs(fen, lines)) == lines.len() * THINK_READ_TIMEOUT_MS,
{
    let opening = seq![
        InputView::Command(CommandView::AnalyzePosition(fen)),
        InputView::Written,
        InputView::Written,
    ];
    let body = as_lines(lines.drop_last());
    let closing = seq![InputView::Line(lines.last())];
    let engine = UIengineView { position: fen, ..pre.engine };
    let collecting = SessionView { engine, stage: Stage::Collecting, lines: Seq::empty() };
    let gathered = SessionView { engine, stage: Stage::Collecting, lines: lines.drop_last() };
    let none = Seq::<EmissionView>::empty();
    assert(run(pre, opening) == (collecting, none) && waited(pre, opening) == 0) by {
        reveal_with_fuel(run, 4);
        reveal_with_fuel(waited, 4);
    }
    assert(run(collecting, body) == (gathered, none) && waited(collecting, body) == (lines.len()
        - 1) * THINK_READ_TIMEOUT_MS) by {
        lemma_collecting_keeps_lines(collecting, lines.drop_last());
        assert(collecting.lines + lines.drop_last() =~= lines.drop_last());
    }
    assert(run(gathered, closing) == (
        SessionView { engine, stage: Stage::Idle, lines: Seq::empty() },
        seq![EmissionView::Event(outcome_of(lines))],
    ) && waited(gathered, closing) == THINK_READ_TIMEOUT_MS) by {
        reveal_with_fuel(run, 2);
        reveal_with_fuel(waited, 2);
        assert(lines.drop_last().push(lines.last()) =~= lines);
        assert(seq![EmissionView::Event(outcome_of(lines))] + none =~= seq![
            EmissionView::Event(outcome_of(lines)),
        ]);
    }
    lemma_run_in_parts(pre, opening, body);
    lemma_run_in_parts(pre, opening + body, closing);
    assert(as_lines(lines) =~= body + closing);
    assert(search_inputs(fen, lines) =~= opening + body + closing);
    assert(none + none =~= none);
    assert(none + seq![EmissionView::Event(outcome_of(lines))] =~= seq![
        EmissionView::Event(outcome_of(lines)),
    ]);
    assert(lines.len() * THINK_READ_TIMEOUT_MS == (lines.len() - 1) * THINK_READ_TIMEOUT_MS
        + THINK_READ_TIMEOUT_MS) by (nonlinear_arith);
}

/// Searches are answered in the order in which they were asked for: one
/// event for each, the first search's event first, none left out and none
/// swapped, and the session is idle again.
pub proof fn lemma_searches_answered_in_order(
    pre: SessionView,
    jobs: Seq<(Seq<char>, Seq<Seq<char>>)>,
)
    requires
        pre.stage == Stage::Idle,
        forall|i: int| 0 <= i < jobs.len() ==> ends_with_bestmove(#[trigger] jobs[i].1),
    ensures
        run(pre, searches_inputs(jobs)).1 == searches_answers(jobs),
        run(pre, searches_inputs(jobs)).0.stage == Stage::Idle,
    decreases jobs.len(),
{
    if jobs.len() == 0 {
        assert(searches_answers(jobs) =~= Seq::<EmissionView>::empty());
    } else {
        let earlier = jobs.drop_last();
        let (fen, lines) = jobs.last();
        lemma_searches_answered_in_order(pre, earlier);
        let mid = run(pre, searches_inputs(earlier)).0;
        assert(ends_with_bestmove(jobs[jobs.len() - 1].1));
        lemma_search_is_answered(mid, fen, lines);
        lemma_run_in_parts(pre, searches_inputs(earlier), search_inputs(fen, lines));
        assert(searches_answers(jobs) =~= searches_answers(earlier) + seq![
            EmissionView::Event(outcome_of(lines)),
        ]);
    }
}

/// A stop or quit that reaches an idle session always ends it with `Stopped`,
/// and so does the closing of the command channel: whether or not the request
/// to leave could be written, whether the process leaves by itself or has to
/// be killed, and whether or not the kill is confirmed. The waits on the way
/// add up to the time given for leaving and, where it comes to that, the time
/// given for the kill.
pub proof fn lemma_stop_when_idle_ends_session(
    pre: SessionView,
    stop: InputView,
    written: InputView,
    killed: InputView,
)
    requires
        pre.stage == Stage::Idle,
        is_stop(stop) || stop is ChannelClosed,
        written is Written || written is WriteFailed,
        killed is Killed || killed is KillUnconfirmed,
    ensures
        run(pre, seq![stop, written, InputView::Exited]) == (
            pre.halted(),
            seq![EmissionView::Event(EventView::Stopped)],
        ),
        waited(pre, seq![stop, written, InputView::Exited])
            == GRACEFUL_EXIT_TIMEOUT_MS,
        run(pre, seq![stop, written, InputView::StillRunning, killed]) == (
            pre.halted(),
            seq![EmissionView::Event(EventView::Stopped)],
        ),
        waited(pre, seq![stop, written, InputView::StillRunning, killed])
            == GRACEFUL_EXIT_TIMEOUT_MS + FORCED_KILL_TIMEOUT_MS,
{
    reveal_with_fuel(run, 5);
    reveal_with_fuel(waited, 5);
    let stopped = seq![EmissionView::Event(EventView::Stopped)];
    assert(stopped + Seq::<EmissionView>::empty() =~= stopped);
}

/// A stop or quit that is found between two lines of a search ends the
/// session with `Stopped` as well: the search is given up, nothing is emitted
/// for it, and the waits add up as they do from idle.
pub proof fn lemma_stop_between_lines_ends_session(
    pre: SessionView,
    stop: InputView,
    written: InputView,
    killed: InputView,
)
    requires
        pre.stage == Stage::Collecting,
        is_stop(stop),
        written is Written || written is WriteFailed,
        killed is Killed || killed is KillUnconfirmed,
    ensures
        run(pre, seq![stop, written, InputView::Exited]) == (
            SessionView { engine: pre.engine, stage: Stage::Terminated, lines: Seq::empty() },
            seq![EmissionView::Event(EventView::Stopped)],
        ),
        run(pre, seq![stop, written, InputView::StillRunning, killed]) == (
            SessionView { engine: pre.engine, stage: Stage::Terminated, lines: Seq::empty() },
            seq![EmissionView::Event(EventView::Stopped)],
        ),
        waited(pre, seq![stop, written, InputView::StillRunning, killed])
            == GRACEFUL_EXIT_TIMEOUT_MS + FORCED_KILL_TIMEOUT_MS,
{
    reveal_with_fuel(run, 5);
    reveal_with_fuel(waited, 5);
    let stopped = seq![EmissionView::Event(EventView::Stopped)];
    assert(stopped + Seq::<EmissionView>::empty() =~= stopped);
}

/// The inputs of a handshake that goes well: the process starts, the
/// opening line is written, lines come until `accepted` accepts, the
/// readiness check is written, lines come until `ready` acknowledges, and the
/// first position is written.
pub open spec fn handshake_inputs(
    before_accepted: Seq<Seq<char>>,
    accepted: Seq<char>,
    before_ready: Seq<Seq<char>>,
    ready: Seq<char>,
) -> Seq<InputView> {
    seq![InputView::Spawned, InputView::Written] + as_lines(before_accepted) + seq![
        InputView::Line(accepted),
        InputView::Written,
    ] + as_lines(before_ready) + seq![InputView::Line(ready), InputView::Written]
}

/// An engine that answers the handshake brings its session to `Idle`, and
/// exactly one thing is emitted on the way: `Ready`. Every line was waited
/// for no longer than a line of the handshake may take.
pub proof fn lemma_handshake_reaches_idle(
    pre: SessionView,
    before_accepted: Seq<Seq<char>>,
    accepted: Seq<char>,
    before_ready: Seq<Seq<char>>,
    ready: Seq<char>,
)
    requires
        pre.stage == Stage::Launching,
        forall|i: int|
            0 <= i < before_accepted.len() ==> !contains(
                #[trigger] before_accepted[i],
                accepted_marker(),
            ),
        contains(accepted, accepted_marker()),
        forall|i: int|
            0 <= i < before_ready.len() ==> !contains(#[trigger] before_ready[i], ready_marker()),
        contains(ready, ready_marker()),
    ensures
        run(pre, handshake_inputs(before_accepted, accepted, before_ready, ready)) == (
            pre.at(Stage::Idle),
            seq![EmissionView::Event(EventView::Ready)],
        ),
        waited(pre, handshake_inputs(before_accepted, accepted, before_ready, ready)) == (
        before_accepted.len() + before_ready.len() + 2) * HANDSHAKE_READ_TIMEOUT_MS,
{
    let a = seq![InputView::Spawned, InputView::Written];
    let b = as_lines(before_accepted);
    let c = seq![InputView::Line(accepted), InputView::Written];
    let d = as_lines(before_ready);
    let e = seq![InputView::Line(ready), InputView::Written];
    let s1 = pre.at(Stage::AwaitingAccepted);
    let s2 = pre.at(Stage::AwaitingReady);
    let none = Seq::<EmissionView>::empty();
    let ready_only = seq![EmissionView::Event(EventView::Ready)];
    assert(run(pre, a) == (s1, none) && waited(pre, a) == 0) by {
        reveal_with_fuel(run, 3);
        reveal_with_fuel(waited, 3);
    }
    lemma_handshake_skips_other_lines(s1, before_accepted);
    assert(run(s1, c) == (s2, none) && waited(s1, c) == HANDSHAKE_READ_TIMEOUT_MS) by {
        reveal_with_fuel(run, 3);
        reveal_with_fuel(waited, 3);
    }
    lemma_handshake_skips_other_lines(s2, before_ready);
    assert(run(s2, e) == (pre.at(Stage::Idle), ready_only) && waited(s2, e)
        == HANDSHAKE_READ_TIMEOUT_MS) by {
        reveal_with_fuel(run, 3);
        reveal_with_fuel(waited, 3);
        assert(ready_only + none =~= ready_only);
    }
    lemma_run_in_parts(pre, a, b);
    lemma_run_in_parts(pre, a + b, c);
    lemma_run_in_parts(pre, a + b + c, d);
    lemma_run_in_parts(pre, a + b + c + d, e);
    assert(none + none =~= none);
    assert(none + ready_only =~= ready_only);
    assert((before_accepted.len() + before_ready.len() + 2) * HANDSHAKE_READ_TIMEOUT_MS
        == before_accepted.len() * HANDSHAKE_READ_TIMEOUT_MS + HANDSHAKE_READ_TIMEOUT_MS
        + before_ready.len() * HANDSHAKE_READ_TIMEOUT_MS + HANDSHAKE_READ_TIMEOUT_MS)
        by (nonlinear_arith);
}

} // verus!
