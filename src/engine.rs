use vstd::prelude::*;

verus! {

/// Identifies a connected player; unique for the lifetime of the connection.
#[derive(Clone, Copy, Debug, PartialEq, Eq, Structural, Hash)]
pub struct PlayerID(pub usize);

/// Identifies a match; issued in increasing order by the matchmaker.
#[derive(Clone, Copy, Debug, PartialEq, Eq, Structural, Hash)]
pub struct GameID(pub usize);

/// One of the two sides of a match.
#[derive(Clone, Copy, Debug, PartialEq, Eq, Structural, Hash)]
pub enum Team {
    Light,
    Dark,
}

/// What the rule engine says of an attempted move.
#[derive(Clone, Copy, Debug, PartialEq, Eq, Structural)]
pub enum JumpResult {
    /// The move was played; it may have taken a piece and crowned the mover.
    Good { captured_piece: Option<usize>, crowned: bool },
    /// The rules refuse the move; the game is as it was.
    Bad,
}

/// The board-game rules as a match consumes them. The matchmaking and
/// turn logic of this crate works for any implementation.
pub trait RuleEngine: Sized {
    /// A snapshot of the board, handed out to both players.
    type Table: Copy;

    /// A game in its initial position.
    fn new() -> Self;

    /// Attempts to move the piece on `from` to `to`.
    fn jump(&mut self, from: usize, to: usize) -> JumpResult;

    /// The side that moves next.
    fn team_on_turn(&self) -> Team;

    /// The side that has won, once the game is over.
    fn winner(&self) -> Option<Team>;

    /// The current board.
    fn table(&self) -> Self::Table;
}

} // verus!
