use vstd::prelude::*;
use std::collections::HashMap;
use crate::coin::coin_flip;
use crate::engine::{GameID, PlayerID, RuleEngine};
use crate::matchmaker::{lemma_consecutive_requests_pair, pair_step, pairings, Matchmaker};
use crate::messages::{BadJump, GameFound, Jump, JumpError, Matchup, MatchupError, Notice};
use crate::session::{team_spec, update_notices, OngoingGame, Player};

verus! {

broadcast use vstd::std_specs::hash::group_hash_axioms;

/// The single authority over matchmaking and all matches: the waiting
/// request, the matches by id, and the match of each player in one.
pub struct GameMaster<G, C> {
    matchmaker: Matchmaker<C>,
    games: HashMap<usize, OngoingGame<G, C>>,
    players_in_games: HashMap<usize, usize>,
}

impl<G, C> GameMaster<G, C> {
    /// The waiting player, if any.
    pub closed spec fn pending(&self) -> Option<PlayerID> {
        self.matchmaker.pending()
    }

    /// The waiting request, with its channels, if any.
    pub closed spec fn waiting(&self) -> Option<Matchup<C>> {
        self.matchmaker.waiting()
    }

    /// The id that the next match gets.
    pub closed spec fn next_id(&self) -> nat {
        self.matchmaker.next_id()
    }

    /// The matches, by id.
    pub closed spec fn games(&self) -> Map<usize, OngoingGame<G, C>> {
        self.games@
    }

    /// The match of each player in one, by player id.
    pub closed spec fn players(&self) -> Map<usize, usize> {
        self.players_in_games@
    }

    /// Whether `p` takes part in a match that is not over.
    pub open spec fn in_play(&self, p: PlayerID) -> bool {
        &&& self.players().contains_key(p.0)
        &&& self.games()[self.players()[p.0]].won_by() is None
    }

    /// The registry is consistent: every match id was issued; every
    /// registered player takes part in the match they are registered to;
    /// both players of a match that is not over are registered to it; and
    /// the waiting player is in no such match.
    pub open spec fn wf(&self) -> bool {
        &&& forall|g: usize| #[trigger] self.games().contains_key(g) ==> g < self.next_id()
        &&& forall|p: usize|
            #[trigger] self.players().contains_key(p) ==> {
                let g = self.players()[p];
                &&& self.games().contains_key(g)
                &&& (self.games()[g].light().0 == p || self.games()[g].dark().0 == p)
            }
        &&& forall|g: usize|
            #[trigger] self.games().contains_key(g) && self.games()[g].won_by() is None ==> {
                let s = self.games()[g];
                &&& self.players().contains_key(s.light().0)
                &&& self.players()[s.light().0] == g
                &&& self.players().contains_key(s.dark().0)
                &&& self.players()[s.dark().0] == g
            }
        &&& self.pending() matches Some(q) ==> !self.in_play(q)
    }

    /// A matchup request of `p` is refused: `p` waits already, or takes
    /// part in a match that is not over.
    pub open spec fn refuses(&self, p: PlayerID) -> Option<MatchupError> {
        if self.pending() == Some(p) {
            Some(MatchupError::AlreadyWaiting)
        } else if self.in_play(p) {
            Some(MatchupError::AlreadyPlaying)
        } else {
            None
        }
    }

    /// What a matchup request of `msg` (with coin flip `swap_sides`) does to
    /// `pre`, giving `post` and the notices `r`. Without a waiting player
    /// the request waits and nothing is sent. Else a match is made under the
    /// next id: both players get the same snapshot, then both get the same
    /// match-found notice, and both are registered to the match.
    pub open spec fn matchup_post<B>(
        pre: Self,
        post: Self,
        msg: Matchup<C>,
        swap_sides: bool,
        r: Seq<Notice<B>>,
    ) -> bool {
        let step = pair_step(pre.pending(), pre.next_id(), msg.player_id, swap_sides);
        &&& post.pending() == step.0
        &&& post.next_id() == step.1
        &&& match step.2 {
            None => {
                &&& r == Seq::<Notice<B>>::empty()
                &&& post.waiting() == Some(msg)
                &&& post.games() == pre.games()
                &&& post.players() == pre.players()
            },
            Some((light, dark, id)) => {
                let g = post.games()[id as usize];
                let found = GameFound {
                    game_id: GameID(id as usize),
                    light_player: light,
                    dark_player: dark,
                };
                &&& post.games().contains_key(id as usize)
                &&& post.games() == pre.games().insert(id as usize, g)
                &&& post.waiting() is None
                &&& g.light() == light
                &&& g.dark() == dark
                &&& g.light_channels() == if swap_sides {
                    pre.waiting()->0.channels
                } else {
                    msg.channels
                }
                &&& g.dark_channels() == if swap_sides {
                    msg.channels
                } else {
                    pre.waiting()->0.channels
                }
                &&& post.players() == pre.players().insert(light.0, id as usize).insert(
                    dark.0,
                    id as usize,
                )
                &&& r.len() == 4
                &&& r[0] matches Notice::State { to, msg } && to == light && msg.team_on_turn
                    == g.turn() && msg.winner == g.won_by() && r[1] == (Notice::State {
                    to: dark,
                    msg,
                })
                &&& r[2] == (Notice::<B>::Found { to: light, msg: found })
                &&& r[3] == (Notice::<B>::Found { to: dark, msg: found })
            },
        }
    }

    /// What a move request `msg` does to `pre`, giving `post` and the
    /// result `r`. A player in no match gets `UnknownPlayer` and nothing
    /// changes. Else the request goes to the player's match alone.
    pub open spec fn jump_handled<B>(
        pre: Self,
        post: Self,
        msg: Jump,
        r: Result<Seq<Notice<B>>, JumpError>,
    ) -> bool {
        &&& post.pending() == pre.pending()
        &&& post.next_id() == pre.next_id()
        &&& post.players() == pre.players()
        &&& !pre.players().contains_key(msg.player_id.0) ==> r == Err::<Seq<Notice<B>>, _>(
            JumpError::UnknownPlayer,
        ) && post.games() == pre.games()
        &&& pre.players().contains_key(msg.player_id.0) ==> {
            let id = pre.players()[msg.player_id.0];
            &&& r is Ok
            &&& post.games().contains_key(id)
            &&& post.games() == pre.games().insert(id, post.games()[id])
            &&& OngoingGame::jump_post(
                pre.games()[id],
                post.games()[id],
                msg.player_id,
                msg.from,
                msg.to,
                r->Ok_0,
            )
        }
    }
}

impl<G: RuleEngine, C> GameMaster<G, C> {
    /// No one waiting, no matches, and the first match id 0.
    pub fn new() -> (r: Self)
        ensures
            r.wf(),
            r.pending() is None,
            r.waiting() is None,
            r.next_id() == 0,
            r.games().is_empty(),
            r.players().is_empty(),
    {
        GameMaster {
            matchmaker: Matchmaker::new(),
            games: HashMap::new(),
            players_in_games: HashMap::new(),
        }
    }

    /// The id that the next match gets.
    pub fn next_game_id(&self) -> (r: GameID)
        ensures
            r.0 == self.next_id(),
    {
        self.matchmaker.next_game_id()
    }

    /// Whether a player waits for a partner.
    pub fn has_pending(&self) -> (r: bool)
        ensures
            r == self.pending() is Some,
    {
        self.matchmaker.has_waiting()
    }

    /// Hands an admissible matchup request to the matchmaker and opens
    /// the match it makes, if any.
    fn pair_request(&mut self, msg: Matchup<C>, swap_sides: bool) -> (r: Vec<Notice<G::Table>>)
        requires
            old(self).wf(),
            old(self).refuses(msg.player_id) is None,
            old(self).pending() is Some ==> old(self).next_id() < usize::MAX,
        ensures
            final(self).wf(),
            Self::matchup_post(*old(self), *final(self), msg, swap_sides, r@),
    {
        let ghost newcomer = msg.player_id;
        match self.matchmaker.matchup_with(msg, swap_sides) {
            Some((light, dark, game_id)) => {
                let light_id = light.player_id;
                let dark_id = dark.player_id;
                let game = OngoingGame::new(
                    Player { id: light_id, channels: light.channels },
                    Player { id: dark_id, channels: dark.channels },
                );
                let mut r = game.send_game_state();
                self.games.insert(game_id.0, game);
                self.players_in_games.insert(light_id.0, game_id.0);
                self.players_in_games.insert(dark_id.0, game_id.0);
                let found = GameFound { game_id, light_player: light_id, dark_player: dark_id };
                proof {
                    assert forall|g: usize| #[trigger]
                        self.games().contains_key(g) implies g < self.next_id() by {
                        if g != game_id.0 {
                            assert(old(self).games().contains_key(g));
                        }
                    }
                    assert forall|p: usize| #[trigger]
                        self.players().contains_key(p) implies {
                        let g = self.players()[p];
                        &&& self.games().contains_key(g)
                        &&& (self.games()[g].light().0 == p || self.games()[g].dark().0 == p)
                    } by {
                        if p != light_id.0 && p != dark_id.0 {
                            assert(old(self).players().contains_key(p));
                            let g = old(self).players()[p];
                            assert(old(self).games().contains_key(g));
                        }
                    }
                    assert forall|g: usize| #[trigger]
                        self.games().contains_key(g) && self.games()[g].won_by() is None implies {
                        let s = self.games()[g];
                        &&& self.players().contains_key(s.light().0)
                        &&& self.players()[s.light().0] == g
                        &&& self.players().contains_key(s.dark().0)
                        &&& self.players()[s.dark().0] == g
                    } by {
                        if g != game_id.0 {
                            let s = old(self).games()[g];
                            assert(old(self).games().contains_key(g));
                            assert(old(self).players()[s.light().0] == g);
                            assert(old(self).players()[s.dark().0] == g);
                            assert(!old(self).in_play(newcomer));
                            assert(!old(self).in_play(old(self).pending()->0));
                            assert(s.light().0 != light_id.0);
                            assert(s.light().0 != dark_id.0);
                            assert(s.dark().0 != light_id.0);
                            assert(s.dark().0 != dark_id.0);
                        }
                    }
                }
                r.push(Notice::Found { to: light_id, msg: found });
                r.push(Notice::Found { to: dark_id, msg: found });
                r
            },
            None => {
                proof {
                    assert(self.games() == old(self).games());
                    assert(self.players() == old(self).players());
                    assert(self.next_id() == old(self).next_id());
                }
                Vec::new()
            },
        }
    }

    /// Handles a matchup request, the sides of a new match being given by
    /// `swap_sides`: with `false` the newcomer plays light. A player who
    /// waits already, or takes part in a match that is not over, is
    /// refused and nothing changes.
    pub fn handle_matchup_with(&mut self, msg: Matchup<C>, swap_sides: bool) -> (r: Result<
        Vec<Notice<G::Table>>,
        MatchupError,
    >)
        requires
            old(self).wf(),
            old(self).pending() is Some ==> old(self).next_id() < usize::MAX,
        ensures
            final(self).wf(),
            match r {
                Ok(v) => old(self).refuses(msg.player_id) is None && Self::matchup_post(
                    *old(self),
                    *final(self),
                    msg,
                    swap_sides,
                    v@,
                ),
                Err(e) => old(self).refuses(msg.player_id) == Some(e) && *final(self) == *old(
                    self,
                ),
            },
    {
        let player = msg.player_id;
        if self.matchmaker.pending_player() == Some(player) {
            return Err(MatchupError::AlreadyWaiting);
        }
        let playing = match self.players_in_games.get(&player.0) {
            Some(game_id) => {
                proof {
                    assert(self.players().contains_key(player.0));
                }
                match self.games.get(game_id) {
                    Some(game) => !game.is_finished(),
                    None => false,
                }
            },
            None => false,
        };
        if playing {
            return Err(MatchupError::AlreadyPlaying);
        }
        Ok(self.pair_request(msg, swap_sides))
    }

    /// Handles a matchup request as `handle_matchup_with` does; the sides of
    /// a new match are drawn at random, each player being as likely to
    /// play light.
    pub fn handle_matchup(&mut self, msg: Matchup<C>) -> (r: Result<
        Vec<Notice<G::Table>>,
        MatchupError,
    >)
        requires
            old(self).wf(),
            old(self).pending() is Some ==> old(self).next_id() < usize::MAX,
        ensures
            final(self).wf(),
            match r {
                Ok(v) => old(self).refuses(msg.player_id) is None && (Self::matchup_post(
                    *old(self),
                    *final(self),
                    msg,
                    false,
                    v@,
                ) || Self::matchup_post(*old(self), *final(self), msg, true, v@)),
                Err(e) => old(self).refuses(msg.player_id) == Some(e) && *final(self) == *old(
                    self,
                ),
            },
    {
        let swap_sides = coin_flip();
        self.handle_matchup_with(msg, swap_sides)
    }

    /// The channels of `player`, found through the match they are in.
    pub fn recipients(&self, player_id: PlayerID) -> (r: Option<&C>)
        requires
            self.wf(),
        ensures
            !self.players().contains_key(player_id.0) ==> r is None,
            self.players().contains_key(player_id.0) ==> {
                let g = self.games()[self.players()[player_id.0]];
                &&& r matches Some(c)
                &&& *c == if g.light() == player_id {
                    g.light_channels()
                } else {
                    g.dark_channels()
                }
            },
    {
        match self.players_in_games.get(&player_id.0) {
            Some(game_id) => {
                proof {
                    assert(self.players().contains_key(player_id.0));
                }
                match self.games.get(game_id) {
                    Some(game) => game.recipients(player_id),
                    None => None,
                }
            },
            None => None,
        }
    }

    /// Routes a move request to the requesting player's match.
    pub fn handle_jump(&mut self, msg: Jump) -> (r: Result<Vec<Notice<G::Table>>, JumpError>)
        requires
            old(self).wf(),
        ensures
            final(self).wf(),
            Self::jump_handled(
                *old(self),
                *final(self),
                msg,
                match r {
                    Ok(v) => Ok(v@),
                    Err(e) => Err(e),
                },
            ),
    {
        let game_id = match self.players_in_games.get(&msg.player_id.0) {
            Some(id) => *id,
            None => {
                return Err(JumpError::UnknownPlayer);
            },
        };
        proof {
            assert(self.players().contains_key(msg.player_id.0));
        }
        match self.games.remove(&game_id) {
            Some(mut game) => {
                let r = game.jump(msg.player_id, msg.from, msg.to);
                self.games.insert(game_id, game);
                proof {
                    assert(self.games() =~= old(self).games().insert(game_id, game));
                    assert forall|g: usize| #[trigger]
                        self.games().contains_key(g) implies g < self.next_id() by {
                        assert(old(self).games().contains_key(g));
                    }
                    assert forall|p: usize| #[trigger]
                        self.players().contains_key(p) implies {
                        let g = self.players()[p];
                        &&& self.games().contains_key(g)
                        &&& (self.games()[g].light().0 == p || self.games()[g].dark().0 == p)
                    } by {
                        assert(old(self).players().contains_key(p));
                    }
                }
                Ok(r)
            },
            None => {
                proof {
                    assert(false);
                }
                Err(JumpError::UnknownPlayer)
            },
        }
    }
}

/// The players of a sequence of matchup requests.
pub open spec fn player_ids<C>(msgs: Seq<Matchup<C>>) -> Seq<PlayerID> {
    msgs.map_values(|m: Matchup<C>| m.player_id)
}

/// A run of matchup requests handled from a registry where nobody waits
/// and no match id was issued follows the pairing model: the waiting
/// player and the next id at the end are those of `pairings`, a request
/// that makes no pairing sends nothing, and one that makes a pairing
/// announces exactly that pairing to its light player.
pub proof fn lemma_matchup_run<G, C, B>(
    states: Seq<GameMaster<G, C>>,
    msgs: Seq<Matchup<C>>,
    swaps: Seq<bool>,
    rs: Seq<Seq<Notice<B>>>,
)
    requires
        states.len() == msgs.len() + 1,
        swaps.len() == msgs.len(),
        rs.len() == msgs.len(),
        states[0].pending() is None,
        states[0].next_id() == 0,
        forall|i: int|
            0 <= i < msgs.len() ==> #[trigger] GameMaster::matchup_post(
                states[i],
                states[i + 1],
                msgs[i],
                swaps[i],
                rs[i],
            ),
    ensures
        states.last().pending() == pairings(player_ids(msgs), swaps).0,
        states.last().next_id() == pairings(player_ids(msgs), swaps).1,
        forall|i: int|
            0 <= i < msgs.len() ==> match #[trigger] pairings(player_ids(msgs), swaps).2[i] {
                None => rs[i].len() == 0,
                Some((light, dark, id)) => rs[i].len() == 4 && rs[i][2] == (Notice::<B>::Found {
                    to: light,
                    msg: GameFound { game_id: GameID(id as usize), light_player: light, dark_player: dark },
                }),
            },
    decreases msgs.len(),
{
    let ids = player_ids(msgs);
    if msgs.len() > 0 {
        let n = msgs.len() - 1;
        let m0 = msgs.drop_last();
        let st0 = states.drop_last();
        let sw0 = swaps.drop_last();
        let rs0 = rs.drop_last();
        assert forall|i: int| 0 <= i < m0.len() implies #[trigger] GameMaster::matchup_post(
            st0[i],
            st0[i + 1],
            m0[i],
            sw0[i],
            rs0[i],
        ) by {
            assert(GameMaster::matchup_post(states[i], states[i + 1], msgs[i], swaps[i], rs[i]));
        }
        lemma_matchup_run(st0, m0, sw0, rs0);
        assert(player_ids(m0) =~= ids.drop_last());
        assert(GameMaster::matchup_post(states[n], states[n + 1], msgs[n], swaps[n], rs[n]));
        let prev = pairings(ids.drop_last(), sw0);
        let cur = pairings(ids, swaps);
        lemma_consecutive_requests_pair(ids.drop_last(), sw0);
        let step = pair_step(prev.0, prev.1, ids.last(), swaps.last());
        assert(ids.len() == msgs.len());
        assert(cur == (step.0, step.1, prev.2.push(step.2)));
        assert(ids.last() == msgs[n].player_id);
        assert(st0.last() == states[n]);
        assert forall|i: int| 0 <= i < msgs.len() implies match #[trigger] cur.2[i] {
            None => rs[i].len() == 0,
            Some((light, dark, id)) => rs[i].len() == 4 && rs[i][2] == (Notice::<B>::Found {
                to: light,
                msg: GameFound { game_id: GameID(id as usize), light_player: light, dark_player: dark },
            }),
        } by {
            if i < n {
                assert(cur.2[i] == prev.2[i]);
                assert(pairings(player_ids(m0), sw0).2[i] == prev.2[i]);
            }
        }
    }
}

/// A move requested by a registered player who is not on turn leaves every
/// match as it was, and only that player hears of it: a rejection.
pub proof fn lemma_off_turn_jump_rejected<G, C, B>(
    pre: GameMaster<G, C>,
    post: GameMaster<G, C>,
    msg: Jump,
    r: Result<Seq<Notice<B>>, JumpError>,
)
    requires
        pre.wf(),
        GameMaster::jump_handled(pre, post, msg, r),
        pre.players().contains_key(msg.player_id.0),
        ({
            let s = pre.games()[pre.players()[msg.player_id.0]];
            team_spec(s.light(), s.dark(), msg.player_id) != Some(s.turn())
        }),
    ensures
        post.games() == pre.games(),
        r == Ok::<Seq<Notice<B>>, JumpError>(
            seq![Notice::Rejected { to: msg.player_id, msg: BadJump }],
        ),
{
    let id = pre.players()[msg.player_id.0];
    assert(post.games() =~= pre.games());
}

/// A move that the engine accepted is sent to both players as one and the
/// same update, whose side on turn and winner are those that the engine
/// reports after the move.
pub proof fn lemma_accepted_jump_broadcast<G, C, B>(
    pre: GameMaster<G, C>,
    post: GameMaster<G, C>,
    msg: Jump,
    r: Result<Seq<Notice<B>>, JumpError>,
)
    requires
        pre.wf(),
        GameMaster::jump_handled(pre, post, msg, r),
        r matches Ok(v) && v.len() > 0 && v[0] is Update,
    ensures
        ({
            let id = pre.players()[msg.player_id.0];
            let s = post.games()[id];
            let u = r->Ok_0[0]->Update_msg;
            &&& r->Ok_0 == update_notices::<B>(s.light(), s.dark(), u)
            &&& u.from == msg.from
            &&& u.to == msg.to
            &&& u.team_on_turn == s.turn()
            &&& u.winner == s.won_by()
        }),
{
    let id = pre.players()[msg.player_id.0];
    let s0 = pre.games()[id];
    assert(team_spec(s0.light(), s0.dark(), msg.player_id) is Some);
}

/// Once a match has a winner, no move changes it any more: every request
/// is rejected to the requester alone.
pub proof fn lemma_finished_game_frozen<G, C, B>(
    pre: GameMaster<G, C>,
    post: GameMaster<G, C>,
    msg: Jump,
    r: Result<Seq<Notice<B>>, JumpError>,
)
    requires
        pre.wf(),
        GameMaster::jump_handled(pre, post, msg, r),
        pre.players().contains_key(msg.player_id.0),
        pre.games()[pre.players()[msg.player_id.0]].won_by() is Some,
    ensures
        post.games() == pre.games(),
        r == Ok::<Seq<Notice<B>>, JumpError>(
            seq![Notice::Rejected { to: msg.player_id, msg: BadJump }],
        ),
{
    assert(post.games() =~= pre.games());
}

} // verus!
