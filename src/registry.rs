//! The registry: owner of every player and team, reached through their ids.
use rand_chacha::ChaCha20Rng;
use std::collections::HashMap;
use vstd::prelude::*;

use crate::player::{Player, PlayerId};
use crate::random::choose_word;
use crate::team::{Team, TeamId};

verus! {

broadcast use vstd::std_specs::hash::group_hash_axioms;

/// Relies on std's `HashMap::get_mut`: the entry under `k`, if there is one,
/// through which the map's value for `k` is changed.
#[verifier::external_body]
fn entry_mut<V>(map: &mut HashMap<u128, V>, k: u128) -> (r: Option<&mut V>)
    ensures
        r is Some <==> old(map)@.contains_key(k),
        r is Some ==> *r.unwrap() == old(map)@[k] && final(map)@ == old(map)@.insert(k, *final(r.unwrap())),
        r is None ==> final(map)@ == old(map)@,
{
    map.get_mut(&k)
}

/// The key `j` places after `c`, counting round past the largest `u128`.
pub open spec fn key_after(c: u128, j: int) -> u128 {
    if c + j <= u128::MAX {
        (c + j) as u128
    } else {
        (c + j - u128::MAX - 1) as u128
    }
}

/// A key that `map` does not hold: `candidate` itself when free, else the
/// first free key after it. One of the `len + 1` keys from `candidate` on is
/// always free.
pub fn free_key<V>(map: &HashMap<u128, V>, candidate: u128) -> (r: u128)
    ensures
        !map@.contains_key(r),
        !map@.contains_key(candidate) ==> r == candidate,
{
    let n = map.len();
    let mut i: u128 = 0;
    let ghost mut seen = Set::<u128>::empty();
    while i <= n as u128
        invariant
            n == map@.len(),
            i <= n + 1,
            seen.finite(),
            seen.len() == i,
            i > 0 ==> map@.contains_key(candidate),
            forall|k: u128| seen.contains(k) ==> map@.contains_key(k),
            forall|k: u128| seen.contains(k) ==> exists|j: int| 0 <= j < i && k == #[trigger] key_after(candidate, j),
        decreases n + 1 - i,
    {
        let k = if candidate <= u128::MAX - i {
            candidate + i
        } else {
            i - (u128::MAX - candidate) - 1
        };
        assert(k == key_after(candidate, i as int));
        if !map.contains_key(&k) {
            return k;
        }
        proof {
            assert(!seen.contains(k));
            seen = seen.insert(k);
        }
        i = i + 1;
    }
    proof {
        assert(map@.dom().finite());
        assert(seen.subset_of(map@.dom()));
        vstd::set_lib::lemma_len_subset(seen, map@.dom());
        assert(false);
    }
    candidate
}

/// Why a lookup through the registry failed.
#[derive(Clone, Copy, PartialEq, Eq, Structural, Debug)]
pub enum LookupError {
    /// No team or player is kept under the id.
    NotFound,
    /// The team has no player in its active slot.
    EmptyRoster,
}

/// Draws "first last" display names from two word lists, neither of them empty.
pub struct NameGenerator {
    names: Vec<String>,
    last_names: Vec<String>,
}

impl NameGenerator {
    #[verifier::type_invariant]
    spec fn lists_non_empty(&self) -> bool {
        self.names@.len() > 0 && self.last_names@.len() > 0
    }

    pub closed spec fn firsts(&self) -> Seq<String> {
        self.names@
    }

    pub closed spec fn lasts(&self) -> Seq<String> {
        self.last_names@
    }

    /// `s` is a first name, a space and a last name of the lists.
    pub open spec fn is_full_name(&self, s: Seq<char>) -> bool {
        exists|i: int, j: int|
            0 <= i < self.firsts().len() && 0 <= j < self.lasts().len() && s == self.firsts()[i]@
                + " "@ + self.lasts()[j]@
    }

    /// A generator over the two lists; `None` when either is empty.
    pub fn new(names: Vec<String>, last_names: Vec<String>) -> (r: Option<NameGenerator>)
        ensures
            r is Some <==> (names@.len() > 0 && last_names@.len() > 0),
            r matches Some(g) ==> g.firsts() == names@ && g.lasts() == last_names@,
    {
        if names.len() > 0 && last_names.len() > 0 {
            Some(NameGenerator { names, last_names })
        } else {
            None
        }
    }

    /// A first and a last name, each drawn independently, joined by a space.
    pub fn generate(&self, rng: &mut ChaCha20Rng) -> (r: String)
        ensures
            self.is_full_name(r@),
    {
        proof {
            use_type_invariant(self);
        }
        let first = choose_word(&self.names, rng).unwrap();
        let last = choose_word(&self.last_names, rng).unwrap();
        let mut name = first.clone();
        name.append(" ");
        name.append(last.as_str());
        proof {
            let i = choose|i: int| 0 <= i < self.names@.len() && self.names@[i] == *first;
            let j = choose|j: int| 0 <= j < self.last_names@.len() && self.last_names@[j] == *last;
            assert(name@ == self.firsts()[i]@ + " "@ + self.lasts()[j]@);
        }
        name
    }
}

pub struct Data {
    teams: HashMap<u128, Team>,
    players: HashMap<u128, Player>,
    name_generator: NameGenerator,
}

impl Data {
    pub closed spec fn teams(&self) -> Map<u128, Team> {
        self.teams@
    }

    pub closed spec fn players(&self) -> Map<u128, Player> {
        self.players@
    }

    pub closed spec fn name_source(&self) -> NameGenerator {
        self.name_generator
    }

    pub open spec fn has_player(&self, p: PlayerId) -> bool {
        self.players().contains_key(p.uuid)
    }

    pub open spec fn name_of(&self, p: PlayerId) -> Seq<char> {
        self.players()[p.uuid].name_view()
    }

    /// The active player of team `t`, if the team is kept and has one.
    pub open spec fn current_of(&self, t: TeamId) -> Option<PlayerId> {
        if self.teams().contains_key(t.uuid) {
            self.teams()[t.uuid].active()
        } else {
            None
        }
    }

    /// Why `current_of(t)` is `None`.
    pub open spec fn current_error(&self, t: TeamId) -> LookupError {
        if self.teams().contains_key(t.uuid) {
            LookupError::EmptyRoster
        } else {
            LookupError::NotFound
        }
    }

    /// What stops team `t` from playing: a missing team, no active player, or a
    /// roster entry that the registry does not hold.
    pub open spec fn team_error(&self, t: TeamId) -> Option<LookupError> {
        if !self.teams().contains_key(t.uuid) {
            Some(LookupError::NotFound)
        } else if self.teams()[t.uuid].active() is None {
            Some(LookupError::EmptyRoster)
        } else if exists|i: int|
            0 <= i < self.teams()[t.uuid].roster().len() && !self.has_player(
                #[trigger] self.teams()[t.uuid].roster()[i],
            ) {
            Some(LookupError::NotFound)
        } else {
            None
        }
    }

    pub open spec fn roster_of(&self, t: TeamId) -> Seq<PlayerId> {
        self.teams()[t.uuid].roster()
    }

    pub open spec fn active_index(&self, t: TeamId) -> int {
        self.teams()[t.uuid].current() as int
    }

    /// Why team `t` has no active player: `NotFound` when the registry does not
    /// hold it, `EmptyRoster` otherwise.
    pub fn lookup_error(&self, t: &TeamId) -> (r: LookupError)
        ensures
            r == self.current_error(*t),
    {
        if self.teams.contains_key(&t.uuid) {
            LookupError::EmptyRoster
        } else {
            LookupError::NotFound
        }
    }

    /// Checks that team `t` can play: kept, with an active player, and with
    /// every roster entry kept.
    pub fn check_team(&self, t: &TeamId) -> (r: std::result::Result<(), LookupError>)
        ensures
            r == (match self.team_error(*t) {
                Some(e) => Err(e),
                None => Ok::<(), LookupError>(()),
            }),
    {
        let team = match self.teams.get(&t.uuid) {
            Some(team) => team,
            None => {
                return Err(LookupError::NotFound);
            },
        };
        if team.get_current_player().is_none() {
            return Err(LookupError::EmptyRoster);
        }
        let roster = team.get_players();
        let mut i: usize = 0;
        while i < roster.len()
            invariant
                i <= roster@.len(),
                roster@ == self.roster_of(*t),
                self.teams().contains_key(t.uuid),
                self.teams()[t.uuid].active() is Some,
                forall|j: int| 0 <= j < i ==> self.has_player(#[trigger] roster@[j]),
            decreases roster.len() - i,
        {
            if !self.players.contains_key(&roster[i].uuid) {
                proof {
                    assert(!self.has_player(self.roster_of(*t)[i as int]));
                }
                return Err(LookupError::NotFound);
            }
            i = i + 1;
        }
        Ok(())
    }

    /// Puts `id` into the active slot of team `t`; `false`, with nothing
    /// changed, when the team has no active player.
    pub fn set_active_player(&mut self, t: &TeamId, id: PlayerId) -> (r: bool)
        ensures
            r == (old(self).current_of(*t) is Some),
            final(self).players() == old(self).players(),
            final(self).name_source() == old(self).name_source(),
            !r ==> final(self).teams() == old(self).teams(),
            r ==> final(self).teams() == old(self).teams().insert(t.uuid, final(self).teams()[t.uuid]),
            r ==> final(self).roster_of(*t) == old(self).roster_of(*t).update(
                old(self).active_index(*t),
                id,
            ),
            r ==> final(self).active_index(*t) == old(self).active_index(*t),
            r ==> final(self).teams()[t.uuid].name_view() == old(self).teams()[t.uuid].name_view(),
            r ==> final(self).current_of(*t) == Some(id),
            forall|u: TeamId|
                old(self).team_error(u) is None && old(self).has_player(id) ==> (#[trigger] final(self).team_error(u)) is None,
    {
        let placeable = match self.teams.get(&t.uuid) {
            Some(team) => team.get_current_player().is_some(),
            None => false,
        };
        if !placeable {
            return false;
        }
        let mut team = self.teams.remove(&t.uuid).unwrap();
        team.set_current_player(id);
        self.teams.insert(t.uuid, team);
        proof {
            assert(final(self).teams() =~= old(self).teams().insert(t.uuid, team));
            assert forall|u: TeamId| old(self).team_error(u) is None && old(self).has_player(id)
                implies (#[trigger] self.team_error(u)) is None by {
                if u.uuid != t.uuid {
                    assert(self.teams()[u.uuid] == old(self).teams()[u.uuid]);
                } else {
                    assert forall|i: int| 0 <= i < self.roster_of(u).len() implies self.has_player(
                        #[trigger] self.roster_of(u)[i],
                    ) by {
                        if i != old(self).active_index(u) {
                            assert(old(self).has_player(old(self).roster_of(u)[i]));
                        }
                    }
                }
            }
        }
        true
    }

    /// Reorders the roster of team `t` at random; `false`, with nothing
    /// changed, when the registry does not hold the team.
    pub fn shuffle_team(&mut self, t: &TeamId, rng: &mut ChaCha20Rng) -> (r: bool)
        ensures
            r == old(self).teams().contains_key(t.uuid),
            final(self).players() == old(self).players(),
            final(self).name_source() == old(self).name_source(),
            !r ==> final(self).teams() == old(self).teams(),
            r ==> final(self).teams() == old(self).teams().insert(t.uuid, final(self).teams()[t.uuid]),
            r ==> final(self).roster_of(*t).to_multiset() == old(self).roster_of(*t).to_multiset(),
            r ==> final(self).roster_of(*t).len() == old(self).roster_of(*t).len(),
            r ==> final(self).active_index(*t) == old(self).active_index(*t),
            r ==> final(self).teams()[t.uuid].name_view() == old(self).teams()[t.uuid].name_view(),
            forall|u: TeamId| old(self).team_error(u) is None ==> (#[trigger] final(self).team_error(u)) is None,
    {
        match self.teams.remove(&t.uuid) {
            Some(mut team) => {
                let ghost before = team;
                team.shuffle_players(rng);
                self.teams.insert(t.uuid, team);
                proof {
                    assert(final(self).teams() =~= old(self).teams().insert(t.uuid, team));
                    assert forall|u: TeamId| old(self).team_error(u) is None
                        implies (#[trigger] self.team_error(u)) is None by {
                        if u.uuid != t.uuid {
                            assert(self.teams()[u.uuid] == old(self).teams()[u.uuid]);
                        } else {
                            assert forall|i: int| 0 <= i < self.roster_of(u).len() implies self.has_player(
                                #[trigger] self.roster_of(u)[i],
                            ) by {
                                let x = self.roster_of(u)[i];
                                assert(self.roster_of(u).contains(x));
                                self.roster_of(u).to_multiset_ensures();
                                before.roster().to_multiset_ensures();
                                assert(self.roster_of(u).to_multiset().count(x) > 0);
                                assert(before.roster().to_multiset().count(x) > 0);
                                assert(before.roster().contains(x));
                                let j = choose|j: int| 0 <= j < before.roster().len() && before.roster()[j] == x;
                                assert(old(self).has_player(old(self).roster_of(u)[j]));
                            }
                        }
                    }
                }
                true
            },
            None => false,
        }
    }

    /// An empty registry whose new players take their names from `name_generator`.
    pub fn new(name_generator: NameGenerator) -> (r: Data)
        ensures
            r.teams() == Map::<u128, Team>::empty(),
            r.players() == Map::<u128, Player>::empty(),
            r.name_source() == name_generator,
    {
        Data { teams: HashMap::new(), players: HashMap::new(), name_generator }
    }

    pub fn get_team(&self, id: &TeamId) -> (r: Option<&Team>)
        ensures
            r is Some <==> self.teams().contains_key(id.uuid),
            r matches Some(t) ==> *t == self.teams()[id.uuid],
    {
        self.teams.get(&id.uuid)
    }

    pub fn get_team_mut(&mut self, id: &TeamId) -> (r: Option<&mut Team>)
        ensures
            r is Some <==> old(self).teams().contains_key(id.uuid),
            r is Some ==> *r.unwrap() == old(self).teams()[id.uuid] && final(self).teams() == old(
                self,
            ).teams().insert(id.uuid, *final(r.unwrap())),
            r is None ==> final(self).teams() == old(self).teams(),
            final(self).players() == old(self).players(),
            final(self).name_source() == old(self).name_source(),
    {
        entry_mut(&mut self.teams, id.uuid)
    }

    pub fn get_player_mut(&mut self, id: &PlayerId) -> (r: Option<&mut Player>)
        ensures
            r is Some <==> old(self).has_player(*id),
            r is Some ==> *r.unwrap() == old(self).players()[id.uuid] && final(self).players() == old(
                self,
            ).players().insert(id.uuid, *final(r.unwrap())),
            r is None ==> final(self).players() == old(self).players(),
            final(self).teams() == old(self).teams(),
            final(self).name_source() == old(self).name_source(),
    {
        entry_mut(&mut self.players, id.uuid)
    }

    pub fn get_player(&self, id: &PlayerId) -> (r: Option<&Player>)
        ensures
            r is Some <==> self.has_player(*id),
            r matches Some(p) ==> *p == self.players()[id.uuid],
    {
        self.players.get(&id.uuid)
    }

    /// The display name of a kept player.
    pub fn player_name(&self, id: &PlayerId) -> (r: std::result::Result<&str, LookupError>)
        ensures
            r is Ok <==> self.has_player(*id),
            r matches Ok(s) ==> s@ == self.name_of(*id),
            r matches Err(e) ==> e == LookupError::NotFound,
    {
        match self.players.get(&id.uuid) {
            Some(p) => Ok(p.get_name()),
            None => Err(LookupError::NotFound),
        }
    }

    /// Generates a player, keeps it under a fresh id and returns that id.
    pub fn new_player(&mut self, rng: &mut ChaCha20Rng) -> (r: PlayerId)
        ensures
            !old(self).has_player(r),
            final(self).players() == old(self).players().insert(r.uuid, final(self).players()[r.uuid]),
            final(self).players()[r.uuid].wf(),
            old(self).name_source().is_full_name(final(self).players()[r.uuid].name_view()),
            final(self).teams() == old(self).teams(),
            final(self).name_source() == old(self).name_source(),
            forall|u: TeamId| old(self).team_error(u) is None ==> (#[trigger] final(self).team_error(u)) is None,
    {
        let (drawn, player) = Player::new(&self.name_generator, rng);
        let id = PlayerId { uuid: free_key(&self.players, drawn.uuid) };
        self.players.insert(id.uuid, player);
        proof {
            assert forall|u: TeamId| old(self).team_error(u) is None
                implies (#[trigger] self.team_error(u)) is None by {
                assert forall|i: int| 0 <= i < self.roster_of(u).len() implies self.has_player(
                    #[trigger] self.roster_of(u)[i],
                ) by {
                    assert(old(self).has_player(old(self).roster_of(u)[i]));
                }
            }
        }
        id
    }

    /// Keeps `team` under a fresh id drawn from the generator and returns that id.
    pub fn insert_team(&mut self, team: Team, rng: &mut ChaCha20Rng) -> (r: TeamId)
        ensures
            !old(self).teams().contains_key(r.uuid),
            final(self).teams() == old(self).teams().insert(r.uuid, team),
            final(self).players() == old(self).players(),
            final(self).name_source() == old(self).name_source(),
    {
        let drawn = TeamId::new(rng);
        let id = TeamId { uuid: free_key(&self.teams, drawn.uuid) };
        self.teams.insert(id.uuid, team);
        id
    }

    /// Generates a team of seven to twelve new players named `name`, keeps it
    /// under a fresh id and returns that id.
    pub fn add_team(&mut self, name: String, rng: &mut ChaCha20Rng) -> (r: TeamId)
        ensures
            !old(self).teams().contains_key(r.uuid),
            forall|i: int|
                0 <= i < final(self).teams()[r.uuid].roster().len() ==> !old(self).has_player(
                    #[trigger] final(self).teams()[r.uuid].roster()[i],
                ),
            forall|i: int, j: int|
                0 <= i < j < final(self).teams()[r.uuid].roster().len() ==> final(self).teams()[r.uuid].roster()[i]
                    != final(self).teams()[r.uuid].roster()[j],
            forall|k: u128|
                #[trigger] old(self).players().contains_key(k) ==> final(self).players().contains_key(k)
                    && final(self).players()[k] == old(self).players()[k],
            final(self).teams() == old(self).teams().insert(r.uuid, final(self).teams()[r.uuid]),
            final(self).teams()[r.uuid].name_view() == name@,
            final(self).teams()[r.uuid].current() == 0,
            7 <= final(self).teams()[r.uuid].roster().len() <= 12,
            forall|i: int|
                0 <= i < final(self).teams()[r.uuid].roster().len() ==> final(self).has_player(
                    #[trigger] final(self).teams()[r.uuid].roster()[i],
                ),
            final(self).name_source() == old(self).name_source(),
    {
        let drawn = TeamId::new(rng);
        let new_team = Team::random_team(name, self, rng);
        let team_key = TeamId { uuid: free_key(&self.teams, drawn.uuid) };
        self.teams.insert(team_key.uuid, new_team);
        team_key
    }
}

} // verus!
