//! The values that the minesweeper server and its client library exchange:
//! board parameters, positions, cells and game events.
use vstd::prelude::*;

verus! {

/// Width, height and bomb count of a board.
#[derive(Clone, Copy, Debug, PartialEq, Eq, Structural)]
pub struct GameParams {
    pub width: usize,
    pub height: usize,
    pub bombs: usize,
}

impl Default for GameParams {
    /// The parameters of a new game: a 9 by 9 board with 10 bombs.
    fn default() -> (p: Self)
        ensures
            p == (GameParams { width: 9, height: 9, bombs: 10 }),
    {
        GameParams { width: 9, height: 9, bombs: 10 }
    }
}

/// A cell position: column `x`, row `y`.
#[derive(Clone, Copy, Debug, PartialEq, Eq, Structural)]
pub struct Pos {
    pub x: usize,
    pub y: usize,
}

/// What a player sees of one cell of the board.
#[derive(Clone, Copy, Debug, PartialEq, Eq, Structural)]
pub enum Cell {
    Hidden,
    Marked,
    Flagged,
    Revealed { adjacent: u8 },
    Bomb,
}

/// Events that the game client reports.
#[derive(Clone, Debug)]
pub enum GameEvent {
    /// Some cells changed; the board is drawn again.
    BoardUpdated { changed_positions: Vec<Pos> },
    /// The game was won or lost.
    GameStatusChanged { won: bool, lost: bool },
    /// A game was started or restarted with these parameters.
    GameInitialized { width: usize, height: usize, bombs: usize },
    /// The connection to the server is gone.
    ConnectionLost,
}

/// What the interface reads from the game client before it decides:
/// whether a game is joined, and the board's width and height if one is known.
#[derive(Clone, Copy, Debug)]
pub struct GameInfo {
    pub connected: bool,
    pub board: Option<(usize, usize)>,
}

} // verus!
