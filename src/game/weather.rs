//! Weather: an effect applied once before every hit.
use rand_chacha::ChaCha20Rng;
use vstd::prelude::*;

use crate::random::draw_in;
use crate::registry::Data;

use super::{lemma_extends_trans, lemma_logged_push, lemma_logged_start, Game, Side};

verus! {

#[derive(Clone, Copy, PartialEq, Eq, Structural, Debug)]
pub enum Weather {
    Clear,
    Feedback,
    Reverb,
    Observation,
    Omni,
    Unpredictable,
}

/// Trigger chances are counted in thousandths.
pub const CHANCE_SCALE: u64 = 1000;

/// The chance that Feedback, Reverb, Observation or Unpredictable acts.
pub const STORM_CHANCE: u64 = 50;

/// The chance that Observation, having not acted, watches the hitter.
pub const WATCH_CHANCE: u64 = 100;

/// How many times Omni and Unpredictable may hand over to another weather
/// within one hit.
pub const DELEGATION_LIMIT: u32 = 4;

/// The weather that a uniform draw over `0..5` picks; Omni is never drawn.
pub open spec fn weather_of(n: int) -> Weather {
    if n == 0 {
        Weather::Clear
    } else if n == 1 {
        Weather::Feedback
    } else if n == 2 {
        Weather::Reverb
    } else if n == 3 {
        Weather::Observation
    } else {
        Weather::Unpredictable
    }
}

/// A draw over `0..CHANCE_SCALE` below `chance` triggers.
pub open spec fn triggers(draw: int, chance: int) -> bool {
    draw < chance
}

/// The engine state that a weather effect leaves alone: both sides, the ball
/// and the phase; the game can still be played, and no pending report is lost.
pub open spec fn keeps_play(before: &Game, after: &Game, data: &Data) -> bool {
    &&& after.ready(data)
    &&& after.side(Side::Home) == before.side(Side::Home)
    &&& after.side(Side::Away) == before.side(Side::Away)
    &&& after.ball() == before.ball()
    &&& after.phase() == before.phase()
    &&& after.extends(before)
}

/// Feedback acted: the two active players changed teams, with one narration.
pub open spec fn fed_back(g0: &Game, d0: &Data, g1: &Game, d1: &Data) -> bool {
    let h = g0.side(Side::Home).team;
    let a = g0.side(Side::Away).team;
    let hid = g0.active(d0, Side::Home);
    let aid = g0.active(d0, Side::Away);
    &&& keeps_play(g0, g1, d1)
    &&& g1.weather_now() == g0.weather_now()
    &&& d1.players() == d0.players()
    &&& d1.current_of(a) == Some(hid)
    &&& h != a ==> {
        &&& d1.current_of(h) == Some(aid)
        &&& d1.roster_of(h) == d0.roster_of(h).update(d0.active_index(h), aid)
        &&& d1.roster_of(a) == d0.roster_of(a).update(d0.active_index(a), hid)
    }
    &&& forall|k: u128|
        k != h.uuid && k != a.uuid ==> #[trigger] d1.teams().contains_key(k) == d0.teams().contains_key(k)
            && d1.teams()[k] == d0.teams()[k]
    &&& g1.logged(
        g0,
        seq![d0.name_of(hid) + " has been feedbacked with "@ + d0.name_of(aid) + "!"@],
    )
}

/// Reverb acted: both rosters were reordered, with one narration.
pub open spec fn reverberated(g0: &Game, d0: &Data, g1: &Game, d1: &Data) -> bool {
    &&& keeps_play(g0, g1, d1)
    &&& g1.weather_now() == g0.weather_now()
    &&& d1.players() == d0.players()
    &&& forall|s: Side|
        {
            let t = #[trigger] g0.side(s).team;
            &&& d1.teams().contains_key(t.uuid)
            &&& d1.roster_of(t).to_multiset() == d0.roster_of(t).to_multiset()
            &&& d1.roster_of(t).len() == d0.roster_of(t).len()
            &&& d1.active_index(t) == d0.active_index(t)
        }
    &&& forall|k: u128|
        k != g0.side(Side::Home).team.uuid && k != g0.side(Side::Away).team.uuid
            ==> #[trigger] d1.teams().contains_key(k) == d0.teams().contains_key(k) && d1.teams()[k]
            == d0.teams()[k]
    &&& g1.logged(g0, seq!["The teams are caught in the reverb!!"@])
}

/// Observation acted: a new player took the active slot of side `hitter`,
/// with two narrations.
pub open spec fn defragged(hitter: Side, g0: &Game, d0: &Data, g1: &Game, d1: &Data) -> bool {
    let t = g0.side(hitter).team;
    let n = d1.current_of(t).unwrap();
    &&& keeps_play(g0, g1, d1)
    &&& g1.weather_now() == g0.weather_now()
    &&& d1.current_of(t) is Some
    &&& d1.players() == d0.players().insert(n.uuid, d1.players()[n.uuid])
    &&& d1.teams() == d0.teams().insert(t.uuid, d1.teams()[t.uuid])
    &&& d1.roster_of(t) == d0.roster_of(t).update(d0.active_index(t), n)
    &&& g1.logged(
        g0,
        seq![
            "The observers have defragged "@ + d1.name_of(g0.active(d0, hitter)) + "."@,
            d1.name_of(n) + " has been created in their place! They don't know what's going on!"@,
        ],
    )
}

/// Observation watched side `hitter`, with one narration and nothing else.
pub open spec fn watched(hitter: Side, g0: &Game, d: &Data, g1: &Game) -> bool {
    &&& g1.same_play(g0)
    &&& g1.logged(g0, seq!["The overseers watch "@ + g0.active_name(d, hitter) + " with intent."@])
}

/// The game `gm` is `g0` with weather `w` in force and announced.
pub open spec fn announced(g0: Game, gm: Game, w: Weather) -> bool {
    &&& gm.side(Side::Home) == g0.side(Side::Home)
    &&& gm.side(Side::Away) == g0.side(Side::Away)
    &&& gm.ball() == g0.ball()
    &&& gm.phase() == g0.phase()
    &&& gm.weather_now() == w
    &&& gm.logged(&g0, seq![w.announcement()])
}

/// Every draw lies in its range: two chances and a weather index.
pub open spec fn draws_in_range(draws: Seq<(int, int, int)>) -> bool {
    forall|i: int|
        0 <= i < draws.len() ==> 0 <= (#[trigger] draws[i]).0 < CHANCE_SCALE && 0 <= draws[i].1
            < CHANCE_SCALE && 0 <= draws[i].2 < 5
}

/// What applying weather `w` before side `hitter` hits does on its draws.
/// Each level of hand-over takes one entry of `draws`: `roll` decides whether
/// the weather acts, `watch` whether Observation, not acting, watches, and
/// `pick` which weather Omni, or Unpredictable when acting, hands over to. An
/// acting Unpredictable first puts the picked weather in force and announces
/// it, which gives the game the next entry of `mids`. At most `depth`
/// hand-overs remain. The game goes from `g0` to `g1`, the registry from `d0`
/// to `d1`, and the outcome is `r`.
pub open spec fn acts_on(
    w: Weather,
    hitter: Side,
    draws: Seq<(int, int, int)>,
    mids: Seq<Game>,
    g0: Game,
    d0: Data,
    g1: Game,
    d1: Data,
    r: WeatherResult,
    depth: nat,
) -> bool
    decreases depth,
{
    let unchanged = g1 == g0 && d1 == d0;
    let roll = draws[0].0;
    let watch = draws[0].1;
    let pick = draws[0].2;
    let storm = triggers(roll, STORM_CHANCE as int);
    draws.len() > 0 && match w {
        Weather::Clear => r == WeatherResult::Nothing && unchanged,
        Weather::Feedback => r == WeatherResult::Nothing && if storm {
            fed_back(&g0, &d0, &g1, &d1)
        } else {
            unchanged
        },
        Weather::Reverb => r == WeatherResult::Nothing && if storm {
            reverberated(&g0, &d0, &g1, &d1)
        } else {
            unchanged
        },
        Weather::Observation => if storm {
            r == WeatherResult::Prevent && defragged(hitter, &g0, &d0, &g1, &d1)
        } else if triggers(watch, WATCH_CHANCE as int) {
            r == WeatherResult::Nothing && d1 == d0 && watched(hitter, &g0, &d0, &g1)
        } else {
            r == WeatherResult::Nothing && unchanged
        },
        Weather::Omni => if depth == 0 {
            r == WeatherResult::Nothing && unchanged
        } else {
            acts_on(weather_of(pick), hitter, draws.drop_first(), mids, g0, d0, g1, d1, r, (depth - 1) as nat)
        },
        Weather::Unpredictable => if !storm {
            r == WeatherResult::Nothing && unchanged
        } else {
            &&& mids.len() > 0
            &&& announced(g0, mids[0], weather_of(pick))
            &&& if depth == 0 {
                r == WeatherResult::Nothing && g1 == mids[0] && d1 == d0
            } else {
                acts_on(
                    weather_of(pick),
                    hitter,
                    draws.drop_first(),
                    mids.drop_first(),
                    mids[0],
                    d0,
                    g1,
                    d1,
                    r,
                    (depth - 1) as nat,
                )
            }
        },
    }
}

/// What applying weather `w` does on the draws `first`, and on some draws of
/// their ranges for the hand-overs.
pub open spec fn acts_first(
    w: Weather,
    hitter: Side,
    first: (int, int, int),
    g0: Game,
    d0: Data,
    g1: Game,
    d1: Data,
    r: WeatherResult,
    depth: nat,
) -> bool {
    exists|draws: Seq<(int, int, int)>, mids: Seq<Game>|
        draws.len() > 0 && draws[0] == first && draws_in_range(draws.drop_first()) && #[trigger] acts_on(
            w,
            hitter,
            draws,
            mids,
            g0,
            d0,
            g1,
            d1,
            r,
            depth,
        )
}

/// Draws whose first entry lies in range, and the rest too, all lie in range.
proof fn lemma_in_range_push_front(rest: Seq<(int, int, int)>)
    requires
        rest.len() > 0,
        0 <= rest[0].0 < CHANCE_SCALE && 0 <= rest[0].1 < CHANCE_SCALE && 0 <= rest[0].2 < 5,
        draws_in_range(rest.drop_first()),
    ensures
        draws_in_range(rest),
{
    assert forall|i: int| 0 <= i < rest.len() implies 0 <= (#[trigger] rest[i]).0 < CHANCE_SCALE && 0
        <= rest[i].1 < CHANCE_SCALE && 0 <= rest[i].2 < 5 by {
        if i > 0 {
            assert(rest[i] == rest.drop_first()[i - 1]);
        }
    }
}

/// What applying weather `w` does on some draws of their ranges.
pub open spec fn acts(w: Weather, hitter: Side, g0: Game, d0: Data, g1: Game, d1: Data, r: WeatherResult, depth: nat) -> bool {
    exists|draws: Seq<(int, int, int)>, mids: Seq<Game>|
        draws_in_range(draws) && #[trigger] acts_on(w, hitter, draws, mids, g0, d0, g1, d1, r, depth)
}

/// Whether the weather stops the hit.
#[derive(Clone, Copy, PartialEq, Eq, Structural, Debug)]
pub enum WeatherResult {
    Prevent,
    Nothing,
}

impl Weather {
    pub open spec fn label(self) -> Seq<char> {
        match self {
            Weather::Clear => "Clear"@,
            Weather::Feedback => "Feedback"@,
            Weather::Reverb => "Reverb"@,
            Weather::Observation => "Observation"@,
            Weather::Unpredictable => "???"@,
            Weather::Omni => "All"@,
        }
    }

    pub open spec fn announcement(self) -> Seq<char> {
        match self {
            Weather::Clear => "It's a sunny day!"@,
            Weather::Feedback => "The feedback gathers around the players."@,
            Weather::Reverb => "The ground tremors with reverb."@,
            Weather::Observation => "The clouds reveal eyes in the sky."@,
            Weather::Omni => "We're experiencing everything."@,
            Weather::Unpredictable => "We don't know what the sky is doing."@,
        }
    }

    pub fn announcement_text(self) -> (r: &'static str)
        ensures
            r@ == self.announcement(),
    {
        match self {
            Weather::Clear => "It's a sunny day!",
            Weather::Feedback => "The feedback gathers around the players.",
            Weather::Reverb => "The ground tremors with reverb.",
            Weather::Observation => "The clouds reveal eyes in the sky.",
            Weather::Omni => "We're experiencing everything.",
            Weather::Unpredictable => "We don't know what the sky is doing.",
        }
    }

    pub fn from_index(n: u64) -> (r: Weather)
        ensures
            r == weather_of(n as int),
    {
        if n == 0 {
            Weather::Clear
        } else if n == 1 {
            Weather::Feedback
        } else if n == 2 {
            Weather::Reverb
        } else if n == 3 {
            Weather::Observation
        } else {
            Weather::Unpredictable
        }
    }

    /// A weather drawn uniformly among all but Omni.
    pub fn random(rng: &mut ChaCha20Rng) -> (r: Weather)
        ensures
            r != Weather::Omni,
    {
        let n = draw_in(rng, 0, 5);
        Weather::from_index(n)
    }

    /// Narrates this weather.
    pub fn announce(self, game: &mut Game, data: &Data)
        requires
            old(game).ready(data),
        ensures
            final(game).same_play(old(game)),
            final(game).logged(old(game), seq![self.announcement()]),
    {
        let comment = String::from_str(self.announcement_text());
        let _ = game.push_report(comment, data);
    }

    /// Feedback acts: the two active players change teams.
    pub fn feedback(game: &mut Game, data: &mut Data)
        requires
            old(game).ready(old(data)),
        ensures
            fed_back(old(game), old(data), final(game), final(data)),
    {
        let home_team = game.home.team;
        let away_team = game.away.team;
        let away_id = away_team.get_current_player(data).unwrap();
        let home_id = home_team.get_current_player(data).unwrap();
        data.set_active_player(&home_team, away_id);
        data.set_active_player(&away_team, home_id);
        let mut comment = String::from_str(data.player_name(&home_id).unwrap());
        comment.append(" has been feedbacked with ");
        comment.append(data.player_name(&away_id).unwrap());
        comment.append("!");
        let _ = game.push_report(comment, data);
    }

    /// Reverb acts: both rosters are reordered at random.
    pub fn reverb(game: &mut Game, data: &mut Data, rng: &mut ChaCha20Rng)
        requires
            old(game).ready(old(data)),
        ensures
            reverberated(old(game), old(data), final(game), final(data)),
    {
        let home_team = game.home.team;
        let away_team = game.away.team;
        data.shuffle_team(&home_team, rng);
        data.shuffle_team(&away_team, rng);
        let comment = String::from_str("The teams are caught in the reverb!!");
        let _ = game.push_report(comment, data);
    }

    /// Observation acts: the hitter's active player is replaced by a newly
    /// generated one, and the hit is prevented.
    pub fn defrag(hitter: Side, game: &mut Game, data: &mut Data, rng: &mut ChaCha20Rng) -> (r: WeatherResult)
        requires
            old(game).ready(old(data)),
        ensures
            r == WeatherResult::Prevent,
            defragged(hitter, old(game), old(data), final(game), final(data)),
    {
        let team = game.get_team(hitter).team;
        let old_player = team.get_current_player(data).unwrap();
        let new_player = data.new_player(rng);
        data.set_active_player(&team, new_player);
        let ghost g0 = *game;
        let mut first = String::from_str("The observers have defragged ");
        first.append(data.player_name(&old_player).unwrap());
        first.append(".");
        let _ = game.push_report(first, data);
        let ghost g1 = *game;
        proof {
            lemma_logged_start(g0);
            lemma_logged_push(g0, g0, g1, seq![], first@);
        }
        let mut second = String::from_str(data.player_name(&new_player).unwrap());
        second.append(" has been created in their place! They don't know what's going on!");
        let _ = game.push_report(second, data);
        proof {
            lemma_logged_push(g0, g1, *game, seq![first@], second@);
            assert(seq![first@].push(second@) =~= seq![first@, second@]);
        }
        WeatherResult::Prevent
    }

    /// Observation watches the hitter without acting.
    pub fn watch(hitter: Side, game: &mut Game, data: &Data)
        requires
            old(game).ready(data),
        ensures
            watched(hitter, old(game), data, final(game)),
    {
        let team = game.get_team(hitter).team;
        let watched = team.get_current_player(data).unwrap();
        let mut comment = String::from_str("The overseers watch ");
        comment.append(data.player_name(&watched).unwrap());
        comment.append(" with intent.");
        let _ = game.push_report(comment, data);
    }

    /// The draws that applying this weather starts with, in the order taken:
    /// whether it acts, then for Observation (not acting) whether it watches,
    /// and for Omni (or Unpredictable, acting) which weather takes over. Draws
    /// that are not needed are not taken and read as zero.
    pub fn draws_for(self, rng: &mut ChaCha20Rng) -> (r: (u64, u64, u64))
        ensures
            r.0 < CHANCE_SCALE,
            r.1 < CHANCE_SCALE,
            r.2 < 5,
            self == Weather::Clear ==> *final(rng) == *old(rng),
    {
        match self {
            Weather::Clear => (0, 0, 0),
            Weather::Feedback | Weather::Reverb => (draw_in(rng, 0, CHANCE_SCALE), 0, 0),
            Weather::Observation => {
                let roll = draw_in(rng, 0, CHANCE_SCALE);
                if roll < STORM_CHANCE {
                    (roll, 0, 0)
                } else {
                    (roll, draw_in(rng, 0, CHANCE_SCALE), 0)
                }
            },
            Weather::Omni => (0, 0, draw_in(rng, 0, 5)),
            Weather::Unpredictable => {
                let roll = draw_in(rng, 0, CHANCE_SCALE);
                if roll < STORM_CHANCE {
                    (roll, 0, draw_in(rng, 0, 5))
                } else {
                    (roll, 0, 0)
                }
            },
        }
    }

    /// Applies this weather before side `hitter` hits: each acting variant
    /// triggers with its own chance, drawn afresh; Omni and Unpredictable hand
    /// over to a drawn weather.
    pub fn pre_hit(self, hitter: Side, game: &mut Game, data: &mut Data, rng: &mut ChaCha20Rng) -> (r: WeatherResult)
        requires
            old(game).ready(old(data)),
        ensures
            keeps_play(old(game), final(game), final(data)),
            acts(self, hitter, *old(game), *old(data), *final(game), *final(data), r, DELEGATION_LIMIT as nat),
            self == Weather::Clear ==> *final(rng) == *old(rng),
    {
        let (roll, watch, pick) = self.draws_for(rng);
        let r = self.pre_hit_on(hitter, roll, watch, pick, game, data, rng, DELEGATION_LIMIT);
        proof {
            let (draws, mids) = choose|draws: Seq<(int, int, int)>, mids: Seq<Game>|
                draws.len() > 0 && draws[0] == (roll as int, watch as int, pick as int) && draws_in_range(
                    draws.drop_first(),
                ) && #[trigger] acts_on(self, hitter, draws, mids, *old(game), *old(data), *game, *data, r, DELEGATION_LIMIT as nat);
            assert forall|i: int| 0 <= i < draws.len() implies 0 <= (#[trigger] draws[i]).0 < CHANCE_SCALE
                && 0 <= draws[i].1 < CHANCE_SCALE && 0 <= draws[i].2 < 5 by {
                if i > 0 {
                    assert(draws[i] == draws.drop_first()[i - 1]);
                }
            }
        }
        r
    }

    /// Applies this weather before side `hitter` hits, on the given draws (see
    /// `draws_for`), with at most `depth` further hand-overs.
    pub fn pre_hit_on(
        self,
        hitter: Side,
        roll: u64,
        watch: u64,
        pick: u64,
        game: &mut Game,
        data: &mut Data,
        rng: &mut ChaCha20Rng,
        depth: u32,
    ) -> (r: WeatherResult)
        requires
            old(game).ready(old(data)),
        ensures
            keeps_play(old(game), final(game), final(data)),
            acts_first(self, hitter, (roll as int, watch as int, pick as int), *old(game), *old(data), *final(game), *final(data), r, depth as nat),
            self != Weather::Omni && (self == Weather::Clear || self == Weather::Feedback || !triggers(
                roll as int,
                STORM_CHANCE as int,
            )) ==> *final(rng) == *old(rng),
        decreases depth,
    {
        let ghost g0 = *game;
        let ghost first = seq![(roll as int, watch as int, pick as int)];
        proof {
            lemma_logged_start(g0);
            assert(first.drop_first() =~= Seq::<(int, int, int)>::empty());
        }
        match self {
            Weather::Clear => {
                proof {
                    assert(acts_on(self, hitter, first, seq![], g0, *old(data), *game, *data, WeatherResult::Nothing, depth as nat));
                }
                WeatherResult::Nothing
            },
            Weather::Feedback => {
                if roll < STORM_CHANCE {
                    Weather::feedback(game, data);
                }
                proof {
                    assert(acts_on(self, hitter, first, seq![], g0, *old(data), *game, *data, WeatherResult::Nothing, depth as nat));
                }
                WeatherResult::Nothing
            },
            Weather::Reverb => {
                if roll < STORM_CHANCE {
                    Weather::reverb(game, data, rng);
                }
                proof {
                    assert(acts_on(self, hitter, first, seq![], g0, *old(data), *game, *data, WeatherResult::Nothing, depth as nat));
                }
                WeatherResult::Nothing
            },
            Weather::Observation => {
                let r = if roll < STORM_CHANCE {
                    Weather::defrag(hitter, game, data, rng)
                } else if watch < WATCH_CHANCE {
                    Weather::watch(hitter, game, data);
                    WeatherResult::Nothing
                } else {
                    WeatherResult::Nothing
                };
                proof {
                    assert(acts_on(self, hitter, first, seq![], g0, *old(data), *game, *data, r, depth as nat));
                }
                r
            },
            Weather::Omni => {
                if depth == 0 {
                    proof {
                        assert(acts_on(self, hitter, first, seq![], g0, *old(data), *game, *data, WeatherResult::Nothing, depth as nat));
                    }
                    WeatherResult::Nothing
                } else {
                    let drawn = Weather::from_index(pick);
                    let (a, b, c) = drawn.draws_for(rng);
                    let r = drawn.pre_hit_on(hitter, a, b, c, game, data, rng, depth - 1);
                    proof {
                        let (rest, mids) = choose|rest: Seq<(int, int, int)>, mids: Seq<Game>|
                            rest.len() > 0 && rest[0] == (a as int, b as int, c as int) && draws_in_range(
                                rest.drop_first(),
                            ) && #[trigger] acts_on(drawn, hitter, rest, mids, g0, *old(data), *game, *data, r, (depth - 1) as nat);
                        let draws = first + rest;
                        assert(draws.drop_first() =~= rest);
                        lemma_in_range_push_front(rest);
                        assert(acts_on(self, hitter, draws, mids, g0, *old(data), *game, *data, r, depth as nat));
                    }
                    r
                }
            },
            Weather::Unpredictable => {
                if roll < STORM_CHANCE {
                    let drawn = Weather::from_index(pick);
                    game.weather = drawn;
                    drawn.announce(game, data);
                    let ghost gm = *game;
                    proof {
                        assert(announced(g0, gm, drawn));
                    }
                    if depth == 0 {
                        proof {
                            assert(acts_on(self, hitter, first, seq![gm], g0, *old(data), *game, *data, WeatherResult::Nothing, depth as nat));
                        }
                        WeatherResult::Nothing
                    } else {
                        let (a, b, c) = drawn.draws_for(rng);
                        let r = drawn.pre_hit_on(hitter, a, b, c, game, data, rng, depth - 1);
                        proof {
                            lemma_extends_trans(g0, gm, *game);
                            let (rest, rest_mids) = choose|rest: Seq<(int, int, int)>, mids: Seq<Game>|
                                rest.len() > 0 && rest[0] == (a as int, b as int, c as int) && draws_in_range(
                                    rest.drop_first(),
                                ) && #[trigger] acts_on(drawn, hitter, rest, mids, gm, *old(data), *game, *data, r, (depth - 1) as nat);
                            let draws = first + rest;
                            let mids = seq![gm] + rest_mids;
                            assert(draws.drop_first() =~= rest);
                            assert(mids.drop_first() =~= rest_mids);
                            lemma_in_range_push_front(rest);
                            assert(acts_on(self, hitter, draws, mids, g0, *old(data), *game, *data, r, depth as nat));
                        }
                        r
                    }
                } else {
                    proof {
                        assert(acts_on(self, hitter, first, seq![], g0, *old(data), *game, *data, WeatherResult::Nothing, depth as nat));
                    }
                    WeatherResult::Nothing
                }
            },
        }
    }

    /// The label that reports show.
    pub fn as_str(self) -> (r: &'static str)
        ensures
            r@ == self.label(),
    {
        match self {
            Weather::Clear => "Clear",
            Weather::Feedback => "Feedback",
            Weather::Reverb => "Reverb",
            Weather::Observation => "Observation",
            Weather::Unpredictable => "???",
            Weather::Omni => "All",
        }
    }
}

} // verus!
