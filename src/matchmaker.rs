use vstd::prelude::*;
use crate::engine::{GameID, PlayerID};
use crate::messages::Matchup;

verus! {

/// A pairing: the light player, the dark player and the match id.
pub type Pairing = (PlayerID, PlayerID, nat);

/// One matchup request against the matchmaker's state (the waiting player
/// and the next match id): the new state and the pairing made, if any.
/// With `swap_sides` false the newcomer plays light, else the waiting one.
pub open spec fn pair_step(pending: Option<PlayerID>, next: nat, p: PlayerID, swap_sides: bool) -> (
    Option<PlayerID>,
    nat,
    Option<Pairing>,
) {
    match pending {
        None => (Some(p), next, None),
        Some(q) => (
            None,
            next + 1,
            Some(if swap_sides { (q, p, next) } else { (p, q, next) }),
        ),
    }
}

/// The match id of a pairing (0 where none was made).
pub open spec fn pairing_id(o: Option<Pairing>) -> nat {
    match o {
        Some((_, _, id)) => id,
        None => 0,
    }
}

/// The requests `reqs` (with their coin flips `swaps`) run in order from a
/// fresh matchmaker: the final state and the pairing made by each request.
pub open spec fn pairings(reqs: Seq<PlayerID>, swaps: Seq<bool>) -> (
    Option<PlayerID>,
    nat,
    Seq<Option<Pairing>>,
)
    decreases reqs.len(),
{
    if reqs.len() == 0 || swaps.len() == 0 {
        (None, 0, seq![])
    } else {
        let prev = pairings(reqs.drop_last(), swaps.drop_last());
        let step = pair_step(prev.0, prev.1, reqs.last(), swaps.last());
        (step.0, step.1, prev.2.push(step.2))
    }
}

/// Pairs players in order of arrival: requests are paired two at a time,
/// the first and second, the third and fourth, and so on; the `k`-th
/// pairing gets match id `k`, so ids strictly increase; and of the two
/// players of a pairing one plays light and the other dark.
pub proof fn lemma_consecutive_requests_pair(reqs: Seq<PlayerID>, swaps: Seq<bool>)
    requires
        reqs.len() == swaps.len(),
    ensures
        pairings(reqs, swaps).2.len() == reqs.len(),
        pairings(reqs, swaps).1 == reqs.len() / 2,
        pairings(reqs, swaps).0 == (if reqs.len() % 2 == 1 {
            Some(reqs.last())
        } else {
            None::<PlayerID>
        }),
        forall|i: int|
            0 <= i < reqs.len() && i % 2 == 0 ==> #[trigger] pairings(reqs, swaps).2[i] is None,
        forall|i: int|
            0 <= i < reqs.len() && i % 2 == 1 ==> {
                &&& #[trigger] pairings(reqs, swaps).2[i] matches Some((light, dark, id))
                &&& id == i / 2
                &&& (light == reqs[i] && dark == reqs[i - 1]) || (light == reqs[i - 1] && dark
                    == reqs[i])
            },
        forall|i: int, j: int|
            0 <= i < j < reqs.len() && i % 2 == 1 && j % 2 == 1 ==> pairing_id(
                #[trigger] pairings(reqs, swaps).2[i],
            ) < pairing_id(#[trigger] pairings(reqs, swaps).2[j]),
    decreases reqs.len(),
{
    if reqs.len() > 0 {
        let r0 = reqs.drop_last();
        let s0 = swaps.drop_last();
        lemma_consecutive_requests_pair(r0, s0);
        let prev = pairings(r0, s0);
        let cur = pairings(reqs, swaps);
        assert forall|i: int| 0 <= i < r0.len() implies cur.2[i] == prev.2[i] by {}
        assert forall|i: int| 0 <= i < r0.len() implies reqs[i] == r0[i] by {}
        if r0.len() % 2 == 1 {
            assert(prev.0 == Some(reqs[reqs.len() - 2]));
        }
    }
}

/// Holds at most one waiting request and issues match ids.
pub struct Matchmaker<C> {
    enqueued: Option<Matchup<C>>,
    next_match_id: GameID,
}

impl<C> Matchmaker<C> {
    /// The waiting player, if any.
    pub closed spec fn pending(&self) -> Option<PlayerID> {
        match self.enqueued {
            Some(m) => Some(m.player_id),
            None => None,
        }
    }

    /// The waiting request, if any.
    pub closed spec fn waiting(&self) -> Option<Matchup<C>> {
        self.enqueued
    }

    /// The id that the next pairing gets.
    pub closed spec fn next_id(&self) -> nat {
        self.next_match_id.0 as nat
    }

    /// A matchmaker with nobody waiting, whose first match id is 0.
    pub fn new() -> (r: Self)
        ensures
            r.waiting() is None,
            r.pending() is None,
            r.next_id() == 0,
    {
        Matchmaker { enqueued: None, next_match_id: GameID(0) }
    }

    /// The id that the next pairing gets.
    pub fn next_game_id(&self) -> (r: GameID)
        ensures
            r.0 == self.next_id(),
    {
        self.next_match_id
    }

    /// The waiting player, if any.
    pub fn pending_player(&self) -> (r: Option<PlayerID>)
        ensures
            r == self.pending(),
    {
        match &self.enqueued {
            Some(m) => Some(m.player_id),
            None => None,
        }
    }

    /// Whether a request waits for a partner.
    pub fn has_waiting(&self) -> (r: bool)
        ensures
            r == self.pending() is Some,
            r == self.waiting() is Some,
    {
        self.enqueued.is_some()
    }

    /// Stores `matchup` when nobody waits; else pairs it with the waiting
    /// request under the next match id. With `swap_sides` false the
    /// newcomer plays light, else the waiting one.
    pub fn matchup_with(&mut self, matchup: Matchup<C>, swap_sides: bool) -> (r: Option<
        (Matchup<C>, Matchup<C>, GameID),
    >)
        requires
            old(self).pending() is Some ==> old(self).next_id() < usize::MAX,
        ensures
            ({
                let step = pair_step(
                    old(self).pending(),
                    old(self).next_id(),
                    matchup.player_id,
                    swap_sides,
                );
                &&& final(self).pending() == step.0
                &&& final(self).next_id() == step.1
                &&& match step.2 {
                    None => r is None && final(self).waiting() == Some(matchup),
                    Some(p) => {
                        &&& final(self).waiting() is None
                        &&& r matches Some((light, dark, id))
                        &&& light.player_id == p.0
                        &&& dark.player_id == p.1
                        &&& id.0 == p.2
                        &&& if swap_sides {
                            light == old(self).waiting()->0 && dark == matchup
                        } else {
                            light == matchup && dark == old(self).waiting()->0
                        }
                    },
                }
            }),
    {
        match self.enqueued.take() {
            Some(enqueued) => {
                let id = self.next_match_id;
                self.next_match_id = GameID(id.0 + 1);
                if swap_sides {
                    Some((enqueued, matchup, id))
                } else {
                    Some((matchup, enqueued, id))
                }
            },
            None => {
                self.enqueued = Some(matchup);
                None
            },
        }
    }
}

} // verus!
