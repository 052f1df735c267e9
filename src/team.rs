//! Teams: an ordered roster of player ids and the index of the active player.
use rand_chacha::ChaCha20Rng;
use vstd::prelude::*;

use crate::player::PlayerId;
use crate::random::{draw_in, random_token, shuffle_ids};
use crate::registry::Data;

verus! {

/// The opaque token under which the registry keeps a team.
#[derive(Clone, Copy, PartialEq, Eq, Structural, Hash, Debug)]
pub struct TeamId {
    pub uuid: u128,
}

pub struct Team {
    name: String,
    players: Vec<PlayerId>,
    current_player: usize,
}

impl TeamId {
    /// A random token drawn from the generator.
    pub fn new(rng: &mut ChaCha20Rng) -> (r: TeamId) {
        TeamId { uuid: random_token(rng) }
    }

    /// The active player of this team, if the registry holds the team and its
    /// roster has an active slot.
    pub fn get_current_player(&self, data: &Data) -> (r: Option<PlayerId>)
        ensures
            r == data.current_of(*self),
    {
        match data.get_team(self) {
            Some(team) => team.get_current_player(),
            None => None,
        }
    }
}

impl TeamId {
    /// The active slot of this team, if the registry holds the team and its
    /// roster has an active slot.
    pub fn get_current_player_mut<'a>(&self, data: &'a mut Data) -> (r: Option<&'a mut PlayerId>)
        ensures
            r is Some <==> old(data).current_of(*self) is Some,
            r is Some ==> *r.unwrap() == old(data).current_of(*self).unwrap()
                && final(data).current_of(*self) == Some(*final(r.unwrap()))
                && final(data).roster_of(*self) == old(data).roster_of(*self).update(
                old(data).active_index(*self),
                *final(r.unwrap()),
            ) && final(data).teams() == old(data).teams().insert(self.uuid, final(data).teams()[self.uuid]),
            r is None ==> final(data).teams().dom() == old(data).teams().dom(),
            final(data).players() == old(data).players(),
    {
        match data.get_team_mut(self) {
            Some(team) => team.get_current_player_mut(),
            None => None,
        }
    }
}

impl Team {
    pub closed spec fn name_view(&self) -> Seq<char> {
        self.name@
    }

    pub closed spec fn roster(&self) -> Seq<PlayerId> {
        self.players@
    }

    /// The index of the active slot.
    pub closed spec fn current(&self) -> nat {
        self.current_player as nat
    }

    /// The id in the active slot, when the roster reaches that far.
    pub open spec fn active(&self) -> Option<PlayerId> {
        if self.current() < self.roster().len() {
            Some(self.roster()[self.current() as int])
        } else {
            None
        }
    }

    /// A team with the given roster, whose first player is active.
    pub fn new(name: String, players: Vec<PlayerId>) -> (r: Team)
        ensures
            r.name_view() == name@,
            r.roster() == players@,
            r.current() == 0,
    {
        Team { name, players, current_player: 0 }
    }

    pub fn get_name(&self) -> (r: &str)
        ensures
            r@ == self.name_view(),
    {
        self.name.as_str()
    }

    pub fn get_players(&self) -> (r: &Vec<PlayerId>)
        ensures
            r@ == self.roster(),
    {
        &self.players
    }

    pub fn get_current_player(&self) -> (r: Option<PlayerId>)
        ensures
            r == self.active(),
    {
        if self.current_player < self.players.len() {
            Some(self.players[self.current_player])
        } else {
            None
        }
    }

    /// The active slot itself, when the roster reaches that far.
    pub fn get_current_player_mut(&mut self) -> (r: Option<&mut PlayerId>)
        ensures
            r is Some <==> old(self).active() is Some,
            r is Some ==> *r.unwrap() == old(self).active().unwrap() && final(self).roster()
                == old(self).roster().update(old(self).current() as int, *final(r.unwrap())),
            r is None ==> final(self).roster() == old(self).roster(),
            final(self).name_view() == old(self).name_view(),
            final(self).current() == old(self).current(),
    {
        if self.current_player < self.players.len() {
            Some(&mut self.players[self.current_player])
        } else {
            None
        }
    }

    /// Puts `id` into the active slot; a roster without one is left as it is.
    pub fn set_current_player(&mut self, id: PlayerId) -> (r: bool)
        ensures
            r == (old(self).active() is Some),
            final(self).name_view() == old(self).name_view(),
            final(self).current() == old(self).current(),
            final(self).roster() == (if r {
                old(self).roster().update(old(self).current() as int, id)
            } else {
                old(self).roster()
            }),
    {
        if self.current_player < self.players.len() {
            self.players.set(self.current_player, id);
            true
        } else {
            false
        }
    }

    /// A team of seven to twelve freshly generated players, the first one active.
    pub fn random_team(name: String, data: &mut Data, rng: &mut ChaCha20Rng) -> (r: Team)
        ensures
            r.name_view() == name@,
            r.current() == 0,
            7 <= r.roster().len() <= 12,
            forall|i: int| 0 <= i < r.roster().len() ==> final(data).has_player(#[trigger] r.roster()[i]),
            forall|i: int|
                0 <= i < r.roster().len() ==> !old(data).has_player(#[trigger] r.roster()[i]),
            forall|i: int, j: int| 0 <= i < j < r.roster().len() ==> r.roster()[i] != r.roster()[j],
            final(data).teams() == old(data).teams(),
            final(data).name_source() == old(data).name_source(),
            forall|k: u128|
                #[trigger] old(data).players().contains_key(k) ==> final(data).players().contains_key(k)
                    && final(data).players()[k] == old(data).players()[k],
    {
        let last = draw_in(rng, 6, 12);
        let mut players: Vec<PlayerId> = Vec::new();
        let mut i: u64 = 0;
        while i <= last
            invariant
                last < 12,
                i <= last + 1,
                players@.len() == i,
                forall|j: int| 0 <= j < players@.len() ==> data.has_player(#[trigger] players@[j]),
                forall|j: int| 0 <= j < players@.len() ==> !old(data).has_player(#[trigger] players@[j]),
                forall|j: int, l: int| 0 <= j < l < players@.len() ==> players@[j] != players@[l],
                data.teams() == old(data).teams(),
                data.name_source() == old(data).name_source(),
                forall|k: u128|
                    #[trigger] old(data).players().contains_key(k) ==> data.players().contains_key(k)
                        && data.players()[k] == old(data).players()[k],
            decreases last + 1 - i,
        {
            let ghost before = *data;
            let id = data.new_player(rng);
            proof {
                assert forall|k: u128| #[trigger] old(data).players().contains_key(k) implies data.players().contains_key(k)
                    && data.players()[k] == old(data).players()[k] by {
                    assert(before.players().contains_key(k));
                    assert(k != id.uuid);
                }
                if old(data).has_player(id) {
                    assert(before.players().contains_key(id.uuid));
                }
                assert forall|j: int| 0 <= j < players@.len() implies players@[j] != id by {
                    assert(before.has_player(players@[j]));
                }
            }
            players.push(id);
            i = i + 1;
        }
        Team { name, players, current_player: 0 }
    }

    /// Reorders the roster at random; the active index stays where it was.
    pub fn shuffle_players(&mut self, rng: &mut ChaCha20Rng)
        ensures
            final(self).name_view() == old(self).name_view(),
            final(self).current() == old(self).current(),
            final(self).roster().len() == old(self).roster().len(),
            final(self).roster().to_multiset() == old(self).roster().to_multiset(),
    {
        shuffle_ids(&mut self.players, rng);
    }
}

} // verus!
