//! The lines exchanged with the engine: what is sent, what is recognised in
//! what comes back, and how the lines of a finished search are read.

use crate::config::PromotionChoice;
use crate::notation::{move_at, move_of, EngineMove, Square};
use crate::text::{
    chars_of, contains, decimal, find_word, line_contains, parse_small_int, push_decimal,
    range_equals, skip_spaces, skip_word, small_int, word, word_bounds,
};
use vstd::prelude::*;

verus! {

/// Longest wait for one line of the handshake, in milliseconds.
pub const HANDSHAKE_READ_TIMEOUT_MS: u64 = 3000;

/// Longest wait for one line of a search, in milliseconds.
pub const THINK_READ_TIMEOUT_MS: u64 = 7000;

/// Longest wait for the engine to leave by itself, in milliseconds.
pub const GRACEFUL_EXIT_TIMEOUT_MS: u64 = 1000;

/// Longest wait for a forced kill to finish, in milliseconds.
pub const FORCED_KILL_TIMEOUT_MS: u64 = 500;

/// How many commands or events a channel of a session holds.
pub const CHANNEL_CAPACITY: usize = 100;

/// Why a game is over without a move to make.
#[derive(Clone, Copy, Debug, PartialEq, Eq, Structural)]
pub enum EndReason {
    Draw,
    Mate,
}

/// What a session reports to its owner.
#[derive(Clone, Debug, PartialEq, Eq)]
pub enum Event {
    /// The handshake is done; commands are accepted from now on.
    Ready,
    /// The engine's answer to a position.
    Move { from: Square, to: Square, promotion: Option<PromotionChoice> },
    /// The position is already decided.
    GameEnded { reason: EndReason },
    /// The engine's lines could not be read as a move; here they are.
    Unparsed(Vec<String>),
    /// The engine process is gone after a stop or quit.
    Stopped,
}

/// An `Event` with its texts as sequences of characters.
pub enum EventView {
    Ready,
    Move { from: Square, to: Square, promotion: Option<PromotionChoice> },
    GameEnded { reason: EndReason },
    Unparsed(Seq<Seq<char>>),
    Stopped,
}

/// The texts of `lines`, each as its sequence of characters.
pub open spec fn texts(lines: Seq<String>) -> Seq<Seq<char>> {
    Seq::new(lines.len(), |i: int| lines[i]@)
}

impl View for Event {
    type V = EventView;

    open spec fn view(&self) -> EventView {
        match *self {
            Event::Ready => EventView::Ready,
            Event::Move { from, to, promotion } => EventView::Move { from, to, promotion },
            Event::GameEnded { reason } => EventView::GameEnded { reason },
            Event::Unparsed(lines) => EventView::Unparsed(texts(lines@)),
            Event::Stopped => EventView::Stopped,
        }
    }
}

/// The line that opens the handshake.
pub open spec fn handshake_text() -> Seq<char> {
    "uci\n"@
}

/// The line that asks whether the engine is ready.
pub open spec fn ready_check_text() -> Seq<char> {
    "isready\n"@
}

/// The line that asks the engine to leave.
pub open spec fn quit_text() -> Seq<char> {
    "quit\n"@
}

/// The line that hands the engine the position `fen`.
pub open spec fn position_text(fen: Seq<char>) -> Seq<char> {
    "position fen "@ + fen + "\n"@
}

/// The line that starts a search to `depth` with both remaining times.
pub open spec fn go_text(depth: u32, wtime: u128, btime: u128) -> Seq<char> {
    "go depth "@ + decimal(depth as nat) + " wtime "@ + decimal(wtime as nat) + " btime "@
        + decimal(btime as nat) + "\n"@
}

/// What a line holds when the engine accepts the handshake.
pub open spec fn accepted_marker() -> Seq<char> {
    "uciok"@
}

/// What a line holds when the engine says it is ready.
pub open spec fn ready_marker() -> Seq<char> {
    "readyok"@
}

/// What the last line of a search holds.
pub open spec fn bestmove_marker() -> Seq<char> {
    "bestmove"@
}

/// The score tag of a drawn position.
pub open spec fn draw_tag() -> Seq<char> {
    "draw"@
}

/// The score tag of a forced mate.
pub open spec fn mate_tag() -> Seq<char> {
    "mate"@
}

/// What the score line `line` says of a game that is over: a draw where
/// its third word is the draw tag, a mate where its third word is the mate
/// tag and its fourth word writes the integer zero.
pub open spec fn forced_end(line: Seq<char>) -> Option<EndReason> {
    match word(line, 2) {
        Some(tag) => if tag == draw_tag() {
            Some(EndReason::Draw)
        } else if tag == mate_tag() && (match word(line, 3) {
            Some(count) => small_int(count) == Some(0i8),
            None => false,
        }) {
            Some(EndReason::Mate)
        } else {
            None
        },
        None => None,
    }
}

/// The move that the last line of a search names: its second word, read as a move.
pub open spec fn named_move(line: Seq<char>) -> Option<EngineMove> {
    match word(line, 1) {
        Some(text) => move_of(text),
        None => None,
    }
}

/// What the lines of a finished search amount to.
///
/// The line before the last, if there is one, may declare the game over; then
/// no move is read. Otherwise the last line names the move, and lines that
/// name none are handed back as they are.
pub open spec fn outcome_of(lines: Seq<Seq<char>>) -> EventView {
    if lines.len() >= 2 && forced_end(lines[lines.len() - 2]) is Some {
        EventView::GameEnded { reason: forced_end(lines[lines.len() - 2])->0 }
    } else if lines.len() >= 1 && named_move(lines.last()) is Some {
        let m = named_move(lines.last())->0;
        EventView::Move { from: m.from, to: m.to, promotion: m.promotion }
    } else {
        EventView::Unparsed(lines)
    }
}

/// The lines of a search amount to a move between two squares of the board,
/// to the end of the game, or to the lines themselves, handed back.
pub proof fn lemma_outcome_is_a_result(lines: Seq<Seq<char>>)
    ensures
        match outcome_of(lines) {
            EventView::Move { from, to, .. } => from < 64 && to < 64,
            EventView::GameEnded { .. } => true,
            EventView::Unparsed(raw) => raw == lines,
            _ => false,
        },
{
}

/// A score line that declares the game over decides the outcome, whatever
/// the lines before it and whatever the last line names.
pub proof fn lemma_declared_end_decides(earlier: Seq<Seq<char>>, score: Seq<char>, last: Seq<char>)
    requires
        forced_end(score) is Some,
    ensures
        outcome_of(earlier.push(score).push(last)) == (EventView::GameEnded {
            reason: forced_end(score)->0,
        }),
{
}

/// The two score lines that declare a game over: a draw, and a mate with no
/// move left.
pub proof fn lemma_score_lines_that_end_a_game()
    ensures
        forced_end("info score draw"@) == Some(EndReason::Draw),
        forced_end("info score mate 0"@) == Some(EndReason::Mate),
{
    reveal_strlit("info score draw");
    reveal_strlit("info score mate 0");
    reveal_strlit("draw");
    reveal_strlit("mate");
    reveal_with_fuel(skip_spaces, 3);
    reveal_with_fuel(skip_word, 7);
    reveal_with_fuel(word_bounds, 5);
    let draw = "info score draw"@;
    assert(word_bounds(draw, 0, 2) == Some((11int, 15int)));
    assert(draw.subrange(11, 15) =~= "draw"@);
    let mate = "info score mate 0"@;
    assert(word_bounds(mate, 0, 2) == Some((11int, 15int)));
    assert(mate.subrange(11, 15) =~= "mate"@);
    assert(word_bounds(mate, 0, 3) == Some((16int, 17int)));
    assert(mate.subrange(16, 17) =~= seq!['0']);
    assert("draw"@ != "mate"@) by {
        assert("draw"@[0] == 'd');
        assert("mate"@[0] == 'm');
    }
}

/// The line that opens the handshake.
pub fn handshake_line() -> (line: String)
    ensures
        line@ == handshake_text(),
{
    String::from_str("uci\n")
}

/// The line that asks whether the engine is ready.
pub fn ready_check_line() -> (line: String)
    ensures
        line@ == ready_check_text(),
{
    String::from_str("isready\n")
}

/// The line that asks the engine to leave.
pub fn quit_line() -> (line: String)
    ensures
        line@ == quit_text(),
{
    String::from_str("quit\n")
}

/// The line that hands the engine the position `fen`.
pub fn position_line(fen: &str) -> (line: String)
    ensures
        line@ == position_text(fen@),
{
    let mut line = String::from_str("position fen ");
    line.append(fen);
    line.append("\n");
    line
}

/// The line that starts a search to `depth` with both remaining times.
pub fn go_line(depth: u32, wtime: u128, btime: u128) -> (line: String)
    ensures
        line@ == go_text(depth, wtime, btime),
{
    let mut line = String::from_str("go depth ");
    push_decimal(&mut line, depth as u128);
    line.append(" wtime ");
    push_decimal(&mut line, wtime);
    line.append(" btime ");
    push_decimal(&mut line, btime);
    line.append("\n");
    line
}

/// Whether `line` ends a search.
pub fn is_bestmove_line(line: &str) -> (b: bool)
    ensures
        b == contains(line@, bestmove_marker()),
{
    line_contains(line, "bestmove")
}

/// What the score line `line` says of a game that is over.
pub fn read_forced_end(line: &str) -> (end: Option<EndReason>)
    ensures
        end == forced_end(line@),
{
    let chars = chars_of(line);
    let draw = chars_of("draw");
    let mate = chars_of("mate");
    match find_word(chars.as_slice(), 2) {
        None => None,
        Some((begin, end)) => {
            if range_equals(chars.as_slice(), begin, end, draw.as_slice()) {
                Some(EndReason::Draw)
            } else if range_equals(chars.as_slice(), begin, end, mate.as_slice()) {
                match find_word(chars.as_slice(), 3) {
                    None => None,
                    Some((from, to)) => {
                        match parse_small_int(chars.as_slice(), from, to) {
                            Some(0) => Some(EndReason::Mate),
                            _ => None,
                        }
                    },
                }
            } else {
                None
            }
        },
    }
}

/// The move that the last line of a search names.
pub fn read_named_move(line: &str) -> (named: Option<EngineMove>)
    ensures
        named == named_move(line@),
        named matches Some(m) ==> m.from < 64 && m.to < 64,
{
    let chars = chars_of(line);
    match find_word(chars.as_slice(), 1) {
        None => None,
        Some((begin, end)) => move_at(chars.as_slice(), begin, end),
    }
}

/// Reads the lines of a finished search, the last line included.
pub fn parse_result(lines: Vec<String>) -> (event: Event)
    ensures
        event@ == outcome_of(texts(lines@)),
        event matches Event::Move { from, to, .. } ==> from < 64 && to < 64,
{
    let n = lines.len();
    if n >= 2 {
        match read_forced_end(lines[n - 2].as_str()) {
            Some(reason) => {
                return Event::GameEnded { reason };
            },
            None => {},
        }
    }
    if n >= 1 {
        assert(texts(lines@).last() == lines@[n - 1]@);
        match read_named_move(lines[n - 1].as_str()) {
            Some(m) => {
                return Event::Move { from: m.from, to: m.to, promotion: m.promotion };
            },
            None => {},
        }
    }
    Event::Unparsed(lines)
}

} // verus!
