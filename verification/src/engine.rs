//! What a session is started with: the engine's executable, the search
//! depth, the position and the clock.

use crate::clock::Clock;
use vstd::prelude::*;

verus! {

/// Whether the owner wants an engine to run.
#[derive(Clone, Copy, Debug, PartialEq, Eq, Structural)]
pub enum EngineStatus {
    TurnedOff,
    TurnedOn,
}

/// The stations of a session's life, in the order in which they are passed.
/// `Terminated` is final and can follow any of the others.
#[derive(Clone, Copy, Debug, PartialEq, Eq, Structural)]
pub enum EngineState {
    Start,
    Handshaking,
    Idle,
    Thinking,
    ShuttingDown,
    Terminated,
}

/// An engine and what it is asked to do.
#[derive(Clone, Debug, PartialEq, Eq)]
pub struct UIengine {
    /// Path of the engine's executable.
    pub engine_path: String,
    /// Depth to which every search goes.
    pub search_up_to: u32,
    /// The position last handed over, as a FEN text.
    pub position: String,
    /// Remaining time of both sides.
    pub clock: Clock,
}

/// A `UIengine` with its texts as sequences of characters.
pub struct UIengineView {
    pub engine_path: Seq<char>,
    pub search_up_to: u32,
    pub position: Seq<char>,
    pub clock: Clock,
}

impl View for UIengine {
    type V = UIengineView;

    open spec fn view(&self) -> UIengineView {
        UIengineView {
            engine_path: self.engine_path@,
            search_up_to: self.search_up_to,
            position: self.position@,
            clock: self.clock,
        }
    }
}

/// The position in which every game begins.
pub open spec fn start_position() -> Seq<char> {
    "rnbqkbnr/pppppppp/8/8/8/8/PPPPPPPP/RNBQKBNR w KQkq - 0 1"@
}

impl UIengine {
    /// The engine at `path`, searching to `depth`, on the start position,
    /// with a fresh clock last ticked at `now`.
    pub fn new(path: String, depth: u32, now: u128) -> (engine: UIengine)
        ensures
            engine@ == (UIengineView {
                engine_path: path@,
                search_up_to: depth,
                position: start_position(),
                clock: Clock::new_spec(now),
            }),
    {
        UIengine {
            engine_path: path,
            search_up_to: depth,
            position: String::from_str("rnbqkbnr/pppppppp/8/8/8/8/PPPPPPPP/RNBQKBNR w KQkq - 0 1"),
            clock: Clock::new(now),
        }
    }
}

} // verus!
