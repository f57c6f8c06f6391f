use vstd::prelude::*;
use crate::engine::{JumpResult, PlayerID, RuleEngine, Team};
use crate::messages::{BadJump, GameState, GameUpdate, Notice};

verus! {

/// A participant of a match and the channels that reach them.
pub struct Player<C> {
    pub id: PlayerID,
    pub channels: C,
}

/// One match: the rule engine's game, the two participants, and the side
/// on turn and winner as the engine last reported them.
pub struct OngoingGame<G, C> {
    game: G,
    light_player: Player<C>,
    dark_player: Player<C>,
    team_on_turn: Team,
    winner: Option<Team>,
}

/// The side that `player` plays in a match of `light` and `dark`.
pub open spec fn team_spec(light: PlayerID, dark: PlayerID, player: PlayerID) -> Option<Team> {
    if light == player {
        Some(Team::Light)
    } else if dark == player {
        Some(Team::Dark)
    } else {
        None
    }
}

/// The refusal of a move requested by `player` (none for an outsider).
pub open spec fn bad_jump_notices<B>(light: PlayerID, dark: PlayerID, player: PlayerID) -> Seq<
    Notice<B>,
> {
    if team_spec(light, dark, player) is Some {
        seq![Notice::Rejected { to: player, msg: BadJump }]
    } else {
        seq![]
    }
}

/// The same update, sent to the light player and then the dark one.
pub open spec fn update_notices<B>(light: PlayerID, dark: PlayerID, msg: GameUpdate) -> Seq<
    Notice<B>,
> {
    seq![Notice::Update { to: light, msg }, Notice::Update { to: dark, msg }]
}

impl<G, C> OngoingGame<G, C> {
    pub closed spec fn light(&self) -> PlayerID {
        self.light_player.id
    }

    pub closed spec fn dark(&self) -> PlayerID {
        self.dark_player.id
    }

    pub closed spec fn light_channels(&self) -> C {
        self.light_player.channels
    }

    pub closed spec fn dark_channels(&self) -> C {
        self.dark_player.channels
    }

    /// The side on turn, as the engine last reported it.
    pub closed spec fn turn(&self) -> Team {
        self.team_on_turn
    }

    /// The winner, as the engine last reported it.
    pub closed spec fn won_by(&self) -> Option<Team> {
        self.winner
    }

    /// The rule engine's game.
    pub closed spec fn engine(&self) -> G {
        self.game
    }

    /// The participants and their channels are those of `other`.
    pub open spec fn same_players(&self, other: Self) -> bool {
        &&& self.light() == other.light()
        &&& self.dark() == other.dark()
        &&& self.light_channels() == other.light_channels()
        &&& self.dark_channels() == other.dark_channels()
    }

    /// May `player` move now: the match is not over and it is their turn.
    pub open spec fn may_move(&self, player: PlayerID) -> bool {
        &&& self.won_by() is None
        &&& team_spec(self.light(), self.dark(), player) == Some(self.turn())
    }

    /// This match with the engine's game replaced by `game`.
    pub closed spec fn with_engine(self, game: G) -> Self {
        OngoingGame { game, ..self }
    }

    /// What the engine's answer `outcome` to a move of `player` from `from`
    /// to `to` does to the match `pre`, the engine then reporting
    /// `turn_after` on turn and `winner_after` as winner; `post` is the
    /// match after, `r` the notices. An accepted move records the engine's
    /// side on turn and winner and sends both players the same update,
    /// with the engine's captured piece and crowned flag. A refused move
    /// changes nothing and reaches the requester alone.
    pub open spec fn outcome_post<B>(
        pre: Self,
        post: Self,
        player: PlayerID,
        from: usize,
        to: usize,
        outcome: JumpResult,
        turn_after: Team,
        winner_after: Option<Team>,
        r: Seq<Notice<B>>,
    ) -> bool {
        match outcome {
            JumpResult::Good { captured_piece, crowned } => {
                &&& post.same_players(pre)
                &&& post.engine() == pre.engine()
                &&& post.turn() == turn_after
                &&& post.won_by() == winner_after
                &&& r == update_notices::<B>(
                    pre.light(),
                    pre.dark(),
                    GameUpdate {
                        from,
                        to,
                        crowned,
                        captured_piece,
                        team_on_turn: turn_after,
                        winner: winner_after,
                    },
                )
            },
            JumpResult::Bad => {
                &&& post == pre
                &&& r == bad_jump_notices::<B>(pre.light(), pre.dark(), player)
            },
        }
    }

    /// What a move request of `player` from `from` to `to` does to the match
    /// `pre`, giving the match `post` and the notices `r`. A player who may
    /// not move is refused and nothing changes, the engine included. Else
    /// the move goes to the engine, and its answer (and the side on turn
    /// and winner it reports then) is applied as `outcome_post` says.
    pub open spec fn jump_post<B>(
        pre: Self,
        post: Self,
        player: PlayerID,
        from: usize,
        to: usize,
        r: Seq<Notice<B>>,
    ) -> bool {
        &&& post.same_players(pre)
        &&& !pre.may_move(player) ==> post == pre && r == bad_jump_notices::<B>(
            pre.light(),
            pre.dark(),
            player,
        )
        &&& pre.may_move(player) ==> exists|o: JumpResult, t: Team, w: Option<Team>|
            #[trigger] Self::outcome_post(
                pre.with_engine(post.engine()),
                post,
                player,
                from,
                to,
                o,
                t,
                w,
                r,
            )
    }
}

impl<G: RuleEngine, C> OngoingGame<G, C> {
    /// A match in the engine's initial position.
    pub fn new(light_player: Player<C>, dark_player: Player<C>) -> (r: Self)
        ensures
            r.light() == light_player.id,
            r.dark() == dark_player.id,
            r.light_channels() == light_player.channels,
            r.dark_channels() == dark_player.channels,
    {
        let game = G::new();
        let team_on_turn = game.team_on_turn();
        let winner = game.winner();
        OngoingGame { game, light_player, dark_player, team_on_turn, winner }
    }

    /// The side that `player` plays, if they take part.
    pub fn team(&self, player_id: PlayerID) -> (r: Option<Team>)
        ensures
            r == team_spec(self.light(), self.dark(), player_id),
    {
        if self.light_player.id == player_id {
            Some(Team::Light)
        } else if self.dark_player.id == player_id {
            Some(Team::Dark)
        } else {
            None
        }
    }

    /// The channels of `player`, if they take part.
    pub fn recipients(&self, player_id: PlayerID) -> (r: Option<&C>)
        ensures
            self.light() == player_id ==> (r matches Some(c) && *c == self.light_channels()),
            self.light() != player_id && self.dark() == player_id ==> (r matches Some(c) && *c
                == self.dark_channels()),
            team_spec(self.light(), self.dark(), player_id) is None ==> r is None,
    {
        if self.light_player.id == player_id {
            Some(&self.light_player.channels)
        } else if self.dark_player.id == player_id {
            Some(&self.dark_player.channels)
        } else {
            None
        }
    }

    /// Whether the match has a winner.
    pub fn is_finished(&self) -> (r: bool)
        ensures
            r == self.won_by() is Some,
    {
        self.winner.is_some()
    }

    /// Whether `player` may move now.
    pub fn is_on_turn(&self, player_id: PlayerID) -> (r: bool)
        ensures
            r == self.may_move(player_id),
    {
        if self.winner.is_some() {
            return false;
        }
        match self.team(player_id) {
            Some(team) => team == self.team_on_turn,
            None => false,
        }
    }

    /// The snapshot of the match with the board `table`, for both players
    /// alike.
    pub fn game_state_notices(&self, table: G::Table) -> (r: Vec<Notice<G::Table>>)
        ensures
            ({
                let msg = GameState { table, team_on_turn: self.turn(), winner: self.won_by() };
                r@ == seq![
                    Notice::State { to: self.light(), msg },
                    Notice::State { to: self.dark(), msg },
                ]
            }),
    {
        let msg = GameState { table, team_on_turn: self.team_on_turn, winner: self.winner };
        let mut r: Vec<Notice<G::Table>> = Vec::new();
        r.push(Notice::State { to: self.light_player.id, msg });
        r.push(Notice::State { to: self.dark_player.id, msg });
        r
    }

    /// The snapshot of the match, with the board the engine gives, for
    /// both players alike.
    pub fn send_game_state(&self) -> (r: Vec<Notice<G::Table>>)
        ensures
            r@.len() == 2,
            r@[0] matches Notice::State { to, msg } && to == self.light() && msg.team_on_turn
                == self.turn() && msg.winner == self.won_by() && r@[1] == (Notice::State {
                to: self.dark(),
                msg,
            }),
    {
        let table = self.game.table();
        self.game_state_notices(table)
    }

    /// The update for an accepted move, for both players alike.
    pub fn send_updates(&self, from: usize, to: usize, captured_piece: Option<usize>, crowned: bool) -> (r: Vec<Notice<G::Table>>)
        ensures
            r@ == update_notices::<G::Table>(
                self.light(),
                self.dark(),
                GameUpdate {
                    from,
                    to,
                    crowned,
                    captured_piece,
                    team_on_turn: self.turn(),
                    winner: self.won_by(),
                },
            ),
    {
        let msg = GameUpdate {
            from,
            to,
            crowned,
            captured_piece,
            team_on_turn: self.team_on_turn,
            winner: self.winner,
        };
        let mut r: Vec<Notice<G::Table>> = Vec::new();
        r.push(Notice::Update { to: self.light_player.id, msg });
        r.push(Notice::Update { to: self.dark_player.id, msg });
        r
    }

    /// The refusal of a move of `player`, if they take part.
    pub fn send_bad_jump(&self, player_id: PlayerID) -> (r: Vec<Notice<G::Table>>)
        ensures
            r@ == bad_jump_notices::<G::Table>(self.light(), self.dark(), player_id),
    {
        let mut r: Vec<Notice<G::Table>> = Vec::new();
        if self.team(player_id).is_some() {
            r.push(Notice::Rejected { to: player_id, msg: BadJump });
        }
        r
    }

    /// Applies the engine's answer `outcome` to a move of `player` from
    /// `from` to `to`, the engine then reporting `turn_after` on turn and
    /// `winner_after` as winner.
    pub fn apply_outcome(
        &mut self,
        player_id: PlayerID,
        from: usize,
        to: usize,
        outcome: JumpResult,
        turn_after: Team,
        winner_after: Option<Team>,
    ) -> (r: Vec<Notice<G::Table>>)
        requires
            old(self).may_move(player_id),
        ensures
            Self::outcome_post(
                *old(self),
                *final(self),
                player_id,
                from,
                to,
                outcome,
                turn_after,
                winner_after,
                r@,
            ),
    {
        match outcome {
            JumpResult::Good { captured_piece, crowned } => {
                self.team_on_turn = turn_after;
                self.winner = winner_after;
                self.send_updates(from, to, captured_piece, crowned)
            },
            JumpResult::Bad => self.send_bad_jump(player_id),
        }
    }

    /// Handles a move request of `player` from `from` to `to`: refused
    /// unless the player may move and the engine accepts the move.
    pub fn jump(&mut self, player_id: PlayerID, from: usize, to: usize) -> (r: Vec<Notice<G::Table>>)
        ensures
            Self::jump_post(*old(self), *final(self), player_id, from, to, r@),
    {
        if self.is_on_turn(player_id) {
            let outcome = self.game.jump(from, to);
            let turn_after = self.game.team_on_turn();
            let winner_after = self.game.winner();
            let ghost mid = *self;
            let r = self.apply_outcome(player_id, from, to, outcome, turn_after, winner_after);
            proof {
                assert(mid == old(self).with_engine(self.game));
                assert(Self::outcome_post(
                    old(self).with_engine(self.engine()),
                    *self,
                    player_id,
                    from,
                    to,
                    outcome,
                    turn_after,
                    winner_after,
                    r@,
                ));
            }
            r
        } else {
            self.send_bad_jump(player_id)
        }
    }
}

} // verus!
