use game_master::engine::{GameID, JumpResult, PlayerID, RuleEngine, Team};
use game_master::master::GameMaster;
use game_master::session::{OngoingGame, Player};
use game_master::messages::{
    BadJump, GameFound, GameState, GameUpdate, Jump, JumpError, Matchup, MatchupError, Notice,
};

/// A small stand-in for the board rules: a step of one square is a plain
/// move, a step of two takes the piece in between, a move to square 31
/// crowns, and a move to square 100 wins the game.
struct Toy {
    moves: u32,
    on_turn: Team,
    winner: Option<Team>,
}

impl RuleEngine for Toy {
    type Table = u32;

    fn new() -> Self {
        Toy { moves: 0, on_turn: Team::Light, winner: None }
    }

    fn jump(&mut self, from: usize, to: usize) -> JumpResult {
        let r = if to == from + 1 || to == 31 || to == 100 {
            JumpResult::Good { captured_piece: None, crowned: to == 31 }
        } else if to == from + 2 {
            JumpResult::Good { captured_piece: Some(from + 1), crowned: false }
        } else {
            return JumpResult::Bad;
        };
        if to == 100 {
            self.winner = Some(self.on_turn);
        }
        self.moves += 1;
        self.on_turn = match self.on_turn {
            Team::Light => Team::Dark,
            Team::Dark => Team::Light,
        };
        r
    }

    fn team_on_turn(&self) -> Team {
        self.on_turn
    }

    fn winner(&self) -> Option<Team> {
        self.winner
    }

    fn table(&self) -> u32 {
        self.moves
    }
}

type Master = GameMaster<Toy, ()>;

fn request(id: usize) -> Matchup<()> {
    Matchup { player_id: PlayerID(id), channels: () }
}

fn jump(id: usize, from: usize, to: usize) -> Jump {
    Jump { player_id: PlayerID(id), from, to }
}

/// Pairs player 1 (waiting, dark) with player 2 (newcomer, light).
fn paired() -> Master {
    let mut gm = Master::new();
    gm.handle_matchup_with(request(1), false).unwrap();
    gm.handle_matchup_with(request(2), false).unwrap();
    gm
}

#[test]
fn first_request_waits_second_makes_match() {
    let mut gm = Master::new();
    assert!(gm.handle_matchup(request(1)).unwrap().is_empty());
    assert!(gm.has_pending());
    let r = gm.handle_matchup(request(2)).unwrap();
    assert!(!gm.has_pending());
    assert_eq!(r.len(), 4);
    let (light, dark) = match r[2] {
        Notice::Found { to, msg } => {
            assert_eq!(to, msg.light_player);
            assert_eq!(msg.game_id, GameID(0));
            (msg.light_player, msg.dark_player)
        }
        _ => panic!("expected a match-found notice"),
    };
    assert!((light, dark) == (PlayerID(1), PlayerID(2)) || (light, dark) == (PlayerID(2), PlayerID(1)));
    let found = GameFound { game_id: GameID(0), light_player: light, dark_player: dark };
    assert_eq!(r[3], Notice::Found { to: dark, msg: found });
    let state = GameState { table: 0u32, team_on_turn: Team::Light, winner: None };
    assert_eq!(r[0], Notice::State { to: light, msg: state });
    assert_eq!(r[1], Notice::State { to: dark, msg: state });
}

#[test]
fn newcomer_plays_light_without_swap() {
    let mut gm = Master::new();
    gm.handle_matchup_with(request(1), false).unwrap();
    let r = gm.handle_matchup_with(request(2), false).unwrap();
    let found = GameFound { game_id: GameID(0), light_player: PlayerID(2), dark_player: PlayerID(1) };
    assert_eq!(r[2], Notice::Found { to: PlayerID(2), msg: found });
    assert_eq!(r[3], Notice::Found { to: PlayerID(1), msg: found });
}

#[test]
fn waiting_player_plays_light_with_swap() {
    let mut gm = Master::new();
    gm.handle_matchup_with(request(1), true).unwrap();
    let r = gm.handle_matchup_with(request(2), true).unwrap();
    let found = GameFound { game_id: GameID(0), light_player: PlayerID(1), dark_player: PlayerID(2) };
    assert_eq!(r[2], Notice::Found { to: PlayerID(1), msg: found });
    assert_eq!(r[3], Notice::Found { to: PlayerID(2), msg: found });
}

#[test]
fn consecutive_requests_pair_with_increasing_ids() {
    let mut gm = Master::new();
    let mut ids = Vec::new();
    for k in 0..6usize {
        let r = gm.handle_matchup(request(10 + k)).unwrap();
        if k % 2 == 0 {
            assert!(r.is_empty());
            assert!(gm.has_pending());
        } else {
            match r[2] {
                Notice::Found { msg, .. } => {
                    let pair = (msg.light_player.0, msg.dark_player.0);
                    assert!(pair == (10 + k, 9 + k) || pair == (9 + k, 10 + k));
                    ids.push(msg.game_id.0);
                }
                _ => panic!("expected a match-found notice"),
            }
        }
    }
    assert_eq!(ids, vec![0, 1, 2]);
    assert_eq!(gm.next_game_id(), GameID(3));
}

#[test]
fn side_assignment_is_unbiased() {
    let mut gm = Master::new();
    let mut first_light = 0u32;
    let rounds = 2000u32;
    for k in 0..rounds as usize {
        gm.handle_matchup(request(2 * k)).unwrap();
        let r = gm.handle_matchup(request(2 * k + 1)).unwrap();
        if let Notice::Found { msg, .. } = r[2] {
            if msg.light_player == PlayerID(2 * k) {
                first_light += 1;
            }
        }
    }
    let share = first_light as f64 / rounds as f64;
    assert!(share > 0.4 && share < 0.6, "share of light for the waiting player: {}", share);
}

#[test]
fn light_plays_legal_move() {
    let mut gm = paired();
    let r = gm.handle_jump(jump(2, 1, 2)).unwrap();
    let update = GameUpdate {
        from: 1,
        to: 2,
        crowned: false,
        captured_piece: None,
        team_on_turn: Team::Dark,
        winner: None,
    };
    assert_eq!(r, vec![Notice::Update { to: PlayerID(2), msg: update }, Notice::Update { to: PlayerID(1), msg: update }]);
}

#[test]
fn dark_moves_out_of_turn() {
    let mut gm = paired();
    let r = gm.handle_jump(jump(1, 5, 6)).unwrap();
    assert_eq!(r, vec![Notice::Rejected { to: PlayerID(1), msg: BadJump }]);
    // Light still moves next: the refused request changed nothing.
    let r = gm.handle_jump(jump(2, 1, 2)).unwrap();
    assert!(matches!(r[0], Notice::Update { msg, .. } if msg.team_on_turn == Team::Dark));
}

#[test]
fn illegal_move_rejected_to_mover_only() {
    let mut gm = paired();
    let r = gm.handle_jump(jump(2, 1, 7)).unwrap();
    assert_eq!(r, vec![Notice::Rejected { to: PlayerID(2), msg: BadJump }]);
}

#[test]
fn capture_and_crown_are_reported() {
    let mut gm = paired();
    let r = gm.handle_jump(jump(2, 3, 5)).unwrap();
    let update = GameUpdate {
        from: 3,
        to: 5,
        crowned: false,
        captured_piece: Some(4),
        team_on_turn: Team::Dark,
        winner: None,
    };
    assert_eq!(r[0], Notice::Update { to: PlayerID(2), msg: update });
    let r = gm.handle_jump(jump(1, 20, 31)).unwrap();
    assert!(matches!(r[1], Notice::Update { to, msg } if to == PlayerID(1) && msg.crowned && msg.team_on_turn == Team::Light));
}

#[test]
fn unknown_player_is_refused() {
    let mut gm = paired();
    assert_eq!(gm.handle_jump(jump(9, 1, 2)), Err(JumpError::UnknownPlayer));
    let mut gm = Master::new();
    gm.handle_matchup_with(request(1), false).unwrap();
    assert_eq!(gm.handle_jump(jump(1, 1, 2)), Err(JumpError::UnknownPlayer));
}

#[test]
fn finished_game_takes_no_moves() {
    let mut gm = paired();
    let r = gm.handle_jump(jump(2, 1, 100)).unwrap();
    assert!(matches!(r[0], Notice::Update { msg, .. } if msg.winner == Some(Team::Light)));
    let r = gm.handle_jump(jump(1, 5, 6)).unwrap();
    assert_eq!(r, vec![Notice::Rejected { to: PlayerID(1), msg: BadJump }]);
    let r = gm.handle_jump(jump(2, 5, 6)).unwrap();
    assert_eq!(r, vec![Notice::Rejected { to: PlayerID(2), msg: BadJump }]);
}

#[test]
fn matches_are_independent() {
    let mut gm = paired();
    gm.handle_matchup_with(request(3), false).unwrap();
    let r = gm.handle_matchup_with(request(4), false).unwrap();
    assert!(matches!(r[2], Notice::Found { msg, .. } if msg.game_id == GameID(1)));
    let r = gm.handle_jump(jump(4, 1, 2)).unwrap();
    assert_eq!(r.len(), 2);
    assert!(matches!(r[1], Notice::Update { to, .. } if to == PlayerID(3)));
    // The first match still has light on turn.
    let r = gm.handle_jump(jump(1, 1, 2)).unwrap();
    assert_eq!(r, vec![Notice::Rejected { to: PlayerID(1), msg: BadJump }]);
}

#[test]
fn recipients_follow_registration() {
    let mut gm: GameMaster<Toy, u8> = GameMaster::new();
    gm.handle_matchup_with(Matchup { player_id: PlayerID(1), channels: 11u8 }, false).unwrap();
    assert_eq!(gm.recipients(PlayerID(1)), None);
    gm.handle_matchup_with(Matchup { player_id: PlayerID(2), channels: 22u8 }, false).unwrap();
    assert_eq!(gm.recipients(PlayerID(1)), Some(&11u8));
    assert_eq!(gm.recipients(PlayerID(2)), Some(&22u8));
    assert_eq!(gm.recipients(PlayerID(3)), None);
}

#[test]
fn waiting_player_cannot_queue_twice() {
    let mut gm = Master::new();
    gm.handle_matchup_with(request(1), false).unwrap();
    assert_eq!(gm.handle_matchup_with(request(1), false).err(), Some(MatchupError::AlreadyWaiting));
    assert!(gm.has_pending());
    let r = gm.handle_matchup_with(request(2), false).unwrap();
    assert_eq!(r.len(), 4);
}

#[test]
fn player_in_running_match_cannot_queue() {
    let mut gm = paired();
    assert_eq!(gm.handle_matchup_with(request(1), false).err(), Some(MatchupError::AlreadyPlaying));
    assert_eq!(gm.handle_matchup_with(request(2), true).err(), Some(MatchupError::AlreadyPlaying));
    assert!(!gm.has_pending());
    // Once the match is over both may queue again.
    gm.handle_jump(jump(2, 1, 100)).unwrap();
    assert!(gm.handle_matchup_with(request(1), false).unwrap().is_empty());
    let r = gm.handle_matchup_with(request(2), false).unwrap();
    assert!(matches!(r[2], Notice::Found { msg, .. } if msg.game_id == GameID(1)));
}

#[test]
fn apply_outcome_follows_engine_answer() {
    let mut s: OngoingGame<Toy, ()> =
        OngoingGame::new(Player { id: PlayerID(5), channels: () }, Player { id: PlayerID(6), channels: () });
    let r = s.apply_outcome(PlayerID(5), 9, 11, JumpResult::Good { captured_piece: Some(10), crowned: true }, Team::Dark, None);
    let update = GameUpdate {
        from: 9,
        to: 11,
        crowned: true,
        captured_piece: Some(10),
        team_on_turn: Team::Dark,
        winner: None,
    };
    assert_eq!(r, vec![Notice::Update { to: PlayerID(5), msg: update }, Notice::Update { to: PlayerID(6), msg: update }]);
    let r = s.apply_outcome(PlayerID(6), 1, 9, JumpResult::Bad, Team::Light, Some(Team::Light));
    assert_eq!(r, vec![Notice::Rejected { to: PlayerID(6), msg: BadJump }]);
    assert!(s.is_on_turn(PlayerID(6)));
    assert!(!s.is_finished());
    let snapshot = s.game_state_notices(7);
    let state = GameState { table: 7u32, team_on_turn: Team::Dark, winner: None };
    assert_eq!(snapshot, vec![Notice::State { to: PlayerID(5), msg: state }, Notice::State { to: PlayerID(6), msg: state }]);
}
