use vstd::prelude::*;
use crate::engine::{GameID, PlayerID, Team};

verus! {

/// A player's request to be paired, with the channels (`C`) through which
/// the player is reached later.
pub struct Matchup<C> {
    pub player_id: PlayerID,
    pub channels: C,
}

/// Tells a player that a match was made, and who plays which side.
#[derive(Clone, Copy, Debug, PartialEq, Eq, Structural)]
pub struct GameFound {
    pub game_id: GameID,
    pub light_player: PlayerID,
    pub dark_player: PlayerID,
}

/// A player's request to move a piece from `from` to `to`.
#[derive(Clone, Copy, Debug, PartialEq, Eq, Structural)]
pub struct Jump {
    pub player_id: PlayerID,
    pub from: usize,
    pub to: usize,
}

/// A full snapshot of a match: the board, the side on turn and the winner.
#[derive(Clone, Copy, Debug, PartialEq, Eq)]
pub struct GameState<B> {
    pub table: B,
    pub team_on_turn: Team,
    pub winner: Option<Team>,
}

/// The effect of an accepted move, sent to both players.
#[derive(Clone, Copy, Debug, PartialEq, Eq, Structural)]
pub struct GameUpdate {
    pub from: usize,
    pub to: usize,
    pub crowned: bool,
    pub captured_piece: Option<usize>,
    pub team_on_turn: Team,
    pub winner: Option<Team>,
}

/// Tells a player that their move was refused.
#[derive(Clone, Copy, Debug, PartialEq, Eq, Structural)]
pub struct BadJump;

/// A message and the player it must be delivered to.
#[allow(inconsistent_fields)]
#[derive(Clone, Copy, Debug, PartialEq, Eq)]
pub enum Notice<B> {
    Found { to: PlayerID, msg: GameFound },
    State { to: PlayerID, msg: GameState<B> },
    Update { to: PlayerID, msg: GameUpdate },
    Rejected { to: PlayerID, msg: BadJump },
}

/// Why a matchup request was refused.
#[derive(Clone, Copy, Debug, PartialEq, Eq, Structural)]
pub enum MatchupError {
    /// The player waits for a partner already.
    AlreadyWaiting,
    /// The player takes part in a match that is not over.
    AlreadyPlaying,
}

/// Why a move request could not be routed to a match.
#[derive(Clone, Copy, Debug, PartialEq, Eq, Structural)]
pub enum JumpError {
    /// The player is in no match.
    UnknownPlayer,
}

} // verus!
