//! Settings of the program around the engine sessions.

use crate::clock::Side;
use vstd::prelude::*;

verus! {

/// The piece a pawn turns into on the last rank.
#[derive(Clone, Copy, Debug, PartialEq, Eq, Structural)]
pub enum PromotionChoice {
    Queen,
    Rook,
    Bishop,
    Knight,
}

/// Who plays whom.
#[derive(Clone, Copy, Debug, PartialEq, Eq, Structural)]
pub enum GameMode {
    PlayerPlayer,
    PlayerEngine,
    EngineEngine,
}

impl GameMode {
    /// Every mode, in the order in which they are offered.
    pub const ALL: [GameMode; 3] = [
        GameMode::PlayerPlayer,
        GameMode::PlayerEngine,
        GameMode::EngineEngine,
    ];

    /// The mode's name as shown to the user.
    pub fn label(&self) -> (text: &'static str)
        ensures
            text@ == match *self {
                GameMode::PlayerPlayer => "Player vs Player"@,
                GameMode::PlayerEngine => "Player vs Engine"@,
                GameMode::EngineEngine => "Engine vs Engine"@,
            },
    {
        match self {
            GameMode::PlayerPlayer => "Player vs Player",
            GameMode::PlayerEngine => "Player vs Engine",
            GameMode::EngineEngine => "Engine vs Engine",
        }
    }
}

/// What the user has chosen for board display and play.
#[derive(Clone, Copy, Debug, PartialEq, Eq, Structural)]
pub struct UIConfig {
    pub show_coordinates: bool,
    pub flip_board: bool,
    pub search_depth: u32,
    pub game_mode: GameMode,
    pub player_side: u32,
}

impl Default for UIConfig {
    /// Coordinates shown, board not flipped, depth 3, two players, white.
    fn default() -> (config: UIConfig)
        ensures
            config == (UIConfig {
                show_coordinates: true,
                flip_board: false,
                search_depth: 3,
                game_mode: GameMode::PlayerPlayer,
                player_side: 0,
            }),
    {
        UIConfig {
            show_coordinates: true,
            flip_board: false,
            search_depth: 3,
            game_mode: GameMode::PlayerPlayer,
            player_side: 0,
        }
    }
}

/// The state of the prompt that asks which piece a pawn becomes.
#[derive(Clone, Copy, Debug, PartialEq, Eq, Structural)]
pub struct Promotions {
    pub promotion: Option<PromotionChoice>,
    pub show_promotion_prompt: bool,
    pub promotion_square: Option<usize>,
}

impl Promotions {
    /// No choice made, no prompt shown, no square waiting.
    pub fn default() -> (promotions: Promotions)
        ensures
            promotions == (Promotions {
                promotion: None,
                show_promotion_prompt: false,
                promotion_square: None,
            }),
    {
        Promotions { promotion: None, show_promotion_prompt: false, promotion_square: None }
    }
}

/// A message to the game view.
#[derive(Clone, Copy, Debug, PartialEq, Eq, Structural)]
pub enum GameTab {
    /// The clock of this side is to be shown anew.
    UpdateTime(Side),
}

} // verus!
