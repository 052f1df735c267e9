//! The engine: a state machine that advances one phase per call.
use rand_chacha::ChaCha20Rng;
use std::collections::VecDeque;
use vstd::prelude::*;

pub mod report;
pub mod states;
pub mod weather;

use crate::player::{PlayerId, SKILL_SCALE};
use crate::random::draw_in;
use crate::registry::{Data, LookupError};
use crate::team::TeamId;
use report::Report;
use states::{PlayerState, Space};
use weather::{acts, Weather, WeatherResult, DELEGATION_LIMIT};

verus! {

/// The operations that every kind of game offers its host.
pub trait Run {
    /// Whether `tick` may be called: no counter of the game is at its limit.
    spec fn can_tick(&self) -> bool;

    /// One tick took the game `self` on `data` to `next` on `next_data`,
    /// returning `r`.
    spec fn ticked(
        &self,
        next: &Self,
        data: &Data,
        next_data: &Data,
        r: std::result::Result<Result, LookupError>,
    ) -> bool;

    /// `next` is `self` with a report narrated `comment` queued, as `r` tells.
    spec fn reported(
        &self,
        next: &Self,
        data: &Data,
        comment: Seq<char>,
        r: std::result::Result<(), LookupError>,
    ) -> bool;

    /// Processes one phase transition.
    fn tick(&mut self, data: &mut Data, rng: &mut ChaCha20Rng) -> (r: std::result::Result<
        Result,
        LookupError,
    >)
        requires
            old(self).can_tick(),
        ensures
            old(self).ticked(final(self), old(data), final(data), r),
    ;

    /// Queues a report of the current state with the given narration.
    fn report(&mut self, comment: String, data: &Data) -> (r: std::result::Result<(), LookupError>)
        ensures
            old(self).reported(final(self), data, comment@, r),
    ;
}

#[derive(Clone, Copy, PartialEq, Eq, Structural, Debug)]
pub enum Side {
    Home,
    Away,
}

impl Side {
    pub open spec fn other(self) -> Side {
        match self {
            Side::Home => Side::Away,
            Side::Away => Side::Home,
        }
    }

    pub fn opposite(self) -> (r: Side)
        ensures
            r == self.other(),
    {
        match self {
            Side::Home => Side::Away,
            Side::Away => Side::Home,
        }
    }
}

/// The phase that the next call of `advance` processes.
#[derive(Clone, Copy, PartialEq, Eq, Structural, Debug)]
pub enum GameState {
    Serving(Side),
    PreHit(Side),
    Hit(Side, WeatherResult),
    Score(Side),
}

/// What a call of `advance` tells the host.
#[derive(Clone, Copy, PartialEq, Eq, Structural, Debug)]
pub enum Result {
    Continue,
    Finished,
}

/// The win condition for a side that just scored: more than four points, and a
/// lead of two once the other side has four or more.
pub open spec fn wins(scorer: int, other: int) -> bool {
    scorer > 4 && (other < 4 || scorer > other + 1)
}

pub fn is_won(scorer: usize, other: usize) -> (r: bool)
    ensures
        r == wins(scorer as int, other as int),
{
    scorer > 4 && (other < 4 || (scorer > other && scorer - other > 1))
}

/// One more report, narrated `c`, after those that `mid` logged since `start`.
proof fn lemma_logged_push(start: Game, mid: Game, next: Game, cs: Seq<Seq<char>>, c: Seq<char>)
    requires
        mid.logged(&start, cs),
        next.pending().len() == mid.pending().len() + 1,
        next.pending().drop_last() == mid.pending(),
        next.pending().last().comment_view() == c,
    ensures
        next.logged(&start, cs.push(c)),
{
    let n = start.pending().len() as int;
    assert(next.pending().subrange(0, n) =~= mid.pending().subrange(0, n));
    assert forall|i: int| 0 <= i < cs.push(c).len() implies (#[trigger] next.pending()[n + i]).comment_view()
        == cs.push(c)[i] by {
        if i < cs.len() {
            assert(next.pending()[n + i] == mid.pending()[n + i]);
        }
    }
}

/// What `mid` logged since `start`, then what `next` logged since `mid`.
proof fn lemma_logged_chain(start: Game, mid: Game, next: Game, cs: Seq<Seq<char>>, ds: Seq<Seq<char>>)
    requires
        mid.logged(&start, cs),
        next.logged(&mid, ds),
    ensures
        next.logged(&start, cs + ds),
{
    let n = start.pending().len() as int;
    let m = mid.pending().len() as int;
    assert(next.pending().subrange(0, n) =~= mid.pending().subrange(0, n));
    assert forall|i: int| 0 <= i < (cs + ds).len() implies (#[trigger] next.pending()[n + i]).comment_view()
        == (cs + ds)[i] by {
        if i < cs.len() {
            assert(next.pending()[n + i] == next.pending().subrange(0, m)[n + i]);
        } else {
            assert(next.pending()[n + i] == next.pending()[m + (i - cs.len())]);
        }
    }
}

/// Nothing logged yet.
proof fn lemma_logged_start(g: Game)
    ensures
        g.logged(&g, seq![]),
{
    assert(g.pending().subrange(0, g.pending().len() as int) =~= g.pending());
}

/// What `with_space` and `with_phase` change, and what they keep.
pub proof fn lemma_game_updates(g: Game, s: Side, space: Space, phase: GameState)
    ensures
        g.with_space(s, space).side(s) == (PlayerState { space, ..g.side(s) }),
        g.with_space(s, space).side(s.other()) == g.side(s.other()),
        g.with_space(s, space).ball() == g.ball(),
        g.with_space(s, space).phase() == g.phase(),
        g.with_space(s, space).weather_now() == g.weather_now(),
        g.with_space(s, space).pending() == g.pending(),
        g.with_phase(phase).phase() == phase,
        g.with_phase(phase).same_play(&g) || g.phase() != phase,
        g.with_phase(phase).side(Side::Home) == g.side(Side::Home),
        g.with_phase(phase).side(Side::Away) == g.side(Side::Away),
        g.with_phase(phase).ball() == g.ball(),
        g.with_phase(phase).weather_now() == g.weather_now(),
        g.with_phase(phase).pending() == g.pending(),
{
}

/// Reports leave in the order they were queued: however many ticks took a game
/// from `before` to `after`, the reports pending before still come first, each
/// at its place, ahead of every report queued since.
pub proof fn lemma_reports_keep_order(before: Game, after: Game, i: int)
    requires
        after.extends(&before),
        0 <= i < before.pending().len(),
    ensures
        after.pending()[i] == before.pending()[i],
{
    assert(after.pending().subrange(0, before.pending().len() as int)[i] == after.pending()[i]);
}

/// A game that extends one that extends `a` extends `a`: a run of ticks
/// keeps the pending reports in their order.
pub proof fn lemma_extends_trans(a: Game, b: Game, c: Game)
    requires
        b.extends(&a),
        c.extends(&b),
    ensures
        c.extends(&a),
{
    assert(c.pending().subrange(0, a.pending().len() as int) =~= a.pending());
}

pub struct Game {
    home: PlayerState,
    away: PlayerState,
    ball_direction: Space,
    state: GameState,
    reports: VecDeque<Report>,
    weather: Weather,
}

impl Game {
    pub closed spec fn side(&self, s: Side) -> PlayerState {
        match s {
            Side::Home => self.home,
            Side::Away => self.away,
        }
    }

    pub closed spec fn ball(&self) -> Space {
        self.ball_direction
    }

    pub closed spec fn phase(&self) -> GameState {
        self.state
    }

    pub closed spec fn weather_now(&self) -> Weather {
        self.weather
    }

    /// The reports not yet taken, oldest first.
    pub closed spec fn pending(&self) -> Seq<Report> {
        self.reports@
    }

    /// This game with side `s` at zone `space`.
    pub closed spec fn with_space(&self, s: Side, space: Space) -> Game {
        match s {
            Side::Home => Game { home: PlayerState { space, ..self.home }, ..*self },
            Side::Away => Game { away: PlayerState { space, ..self.away }, ..*self },
        }
    }

    /// This game in phase `phase`.
    pub closed spec fn with_phase(&self, phase: GameState) -> Game {
        Game { state: phase, ..*self }
    }

    pub open spec fn score(&self, s: Side) -> int {
        self.side(s).score as int
    }

    /// Both sides' states, the ball, the phase and the weather agree.
    pub open spec fn same_play(&self, other: &Game) -> bool {
        &&& self.side(Side::Home) == other.side(Side::Home)
        &&& self.side(Side::Away) == other.side(Side::Away)
        &&& self.ball() == other.ball()
        &&& self.phase() == other.phase()
        &&& self.weather_now() == other.weather_now()
    }

    /// The pending reports are those of `before`, followed by reports whose
    /// narrations are `comments`, in that order.
    pub open spec fn logged(&self, before: &Game, comments: Seq<Seq<char>>) -> bool {
        &&& self.pending().len() == before.pending().len() + comments.len()
        &&& self.pending().subrange(0, before.pending().len() as int) == before.pending()
        &&& forall|i: int|
            0 <= i < comments.len() ==> (#[trigger] self.pending()[before.pending().len() + i]).comment_view()
                == comments[i]
    }

    /// The pending reports of `before` are still pending, first, in their order.
    pub open spec fn extends(&self, before: &Game) -> bool {
        before.pending().is_prefix_of(self.pending())
    }

    /// What stops this game from being played on `data`, home team first.
    pub open spec fn readiness(&self, data: &Data) -> Option<LookupError> {
        match data.team_error(self.side(Side::Home).team) {
            Some(e) => Some(e),
            None => data.team_error(self.side(Side::Away).team),
        }
    }

    pub open spec fn ready(&self, data: &Data) -> bool {
        self.readiness(data) is None
    }

    /// No score is at the largest value a `usize` holds.
    pub open spec fn scores_fit(&self) -> bool {
        self.side(Side::Home).score < usize::MAX && self.side(Side::Away).score < usize::MAX
    }

    /// The active player of side `s`.
    pub open spec fn active(&self, data: &Data, s: Side) -> PlayerId {
        data.current_of(self.side(s).team).unwrap()
    }

    /// The display name of the active player of side `s`.
    pub open spec fn active_name(&self, data: &Data, s: Side) -> Seq<char> {
        data.name_of(self.active(data, s))
    }

    /// A serve by side `s`: both sides back to the middle, one narration, and the
    /// other side to hit next.
    pub open spec fn serve_step(&self, next: &Game, data: &Data, s: Side) -> bool {
        &&& next.phase() == GameState::PreHit(s.other())
        &&& next.side(Side::Home) == PlayerState { space: Space::Middle, ..self.side(Side::Home) }
        &&& next.side(Side::Away) == PlayerState { space: Space::Middle, ..self.side(Side::Away) }
        &&& next.weather_now() == self.weather_now()
        &&& next.logged(self, seq![self.active_name(data, s) + " serves!"@])
    }

    /// Side `s` gets ready to hit: only its own position may move, as its
    /// player's checks on one draw allow; the weather may narrate and change the
    /// registry and itself; then `s` hits with the weather's outcome `w`.
    pub open spec fn pre_hit_step(&self, next: &Game, data: &Data, next_data: &Data, s: Side, w: WeatherResult) -> bool {
        &&& next.phase() == GameState::Hit(s, w)
        &&& exists|check: int, zone: int|
            0 <= check < SKILL_SCALE && 0 <= zone < 3 && next.side(s).space == #[trigger] data.players()[self.active(
                data,
                s,
            ).uuid].position_on(self.side(s).space, self.ball(), check, zone)
        &&& acts(
            self.weather_now(),
            s,
            self.with_space(s, next.side(s).space),
            *data,
            next.with_phase(self.phase()),
            *next_data,
            w,
            DELEGATION_LIMIT as nat,
        )
        &&& next.side(s) == PlayerState { space: next.side(s).space, ..self.side(s) }
        &&& next.side(s.other()) == self.side(s.other())
        &&& next.ball() == self.ball()
        &&& next.extends(self)
    }

    /// Side `s` hits with the weather's outcome `w`.
    pub open spec fn hit_step(&self, next: &Game, data: &Data, s: Side, w: WeatherResult) -> bool {
        let o = s.other();
        let name = self.active_name(data, s);
        &&& next.side(s) == self.side(s)
        &&& next.weather_now() == self.weather_now()
        &&& match w {
            WeatherResult::Prevent => {
                &&& next.phase() == GameState::Score(o)
                &&& next.side(o) == PlayerState { score: (self.side(o).score + 1) as usize, ..self.side(o) }
                &&& next.ball() == self.ball()
                &&& next.logged(self, seq![name + " doesn't manage to hit!"@])
            },
            WeatherResult::Nothing => if self.side(s).space == self.ball() {
                &&& next.phase() == GameState::PreHit(o)
                &&& exists|check: int, pick: int|
                    0 <= check < SKILL_SCALE && 0 <= pick < 3 && next.ball() == #[trigger] data.players()[self.active(
                        data,
                        s,
                    ).uuid].shot_on(self.ball(), check, pick)
                &&& next.side(o) == self.side(o)
                &&& next.logged(self, seq![name + " hits!"@])
            } else {
                &&& next.phase() == GameState::Score(o)
                &&& next.side(o) == PlayerState { score: (self.side(o).score + 1) as usize, ..self.side(o) }
                &&& next.ball() == self.ball()
                &&& next.logged(self, seq![name + " fails to hit it!"@])
            },
        }
    }

    /// Side `s` scores: one narration, a second when it has won, and otherwise
    /// the other side serves next.
    pub open spec fn score_step(&self, next: &Game, data: &Data, s: Side, r: Result) -> bool {
        let name = self.active_name(data, s);
        &&& next.side(Side::Home) == self.side(Side::Home)
        &&& next.side(Side::Away) == self.side(Side::Away)
        &&& next.ball() == self.ball()
        &&& next.weather_now() == self.weather_now()
        &&& if wins(self.score(s), self.score(s.other())) {
            &&& r == Result::Finished
            &&& next.phase() == self.phase()
            &&& next.logged(self, seq![name + " scores!"@, name + " wins!"@])
        } else {
            &&& r == Result::Continue
            &&& next.phase() == GameState::Serving(s.other())
            &&& next.logged(self, seq![name + " scores!"@])
        }
    }

    /// The scores change only on the way into a `Score` phase, from the other
    /// side's hit, by exactly one point for the scoring side.
    pub open spec fn score_moves(&self, next: &Game) -> bool {
        match (self.phase(), next.phase()) {
            (GameState::Hit(h, _), GameState::Score(s)) => {
                &&& s == h.other()
                &&& next.score(s) == self.score(s) + 1
                &&& next.score(h) == self.score(h)
            },
            _ => {
                &&& next.score(Side::Home) == self.score(Side::Home)
                &&& next.score(Side::Away) == self.score(Side::Away)
            },
        }
    }

    /// `next` is this game with one more report, of its state on `data` and
    /// narrated `comment`, as `r` tells; it fails, changing nothing, when either
    /// side has no active player.
    pub open spec fn queued(
        &self,
        next: &Game,
        data: &Data,
        comment: Seq<char>,
        r: std::result::Result<(), LookupError>,
    ) -> bool {
        let home = self.side(Side::Home).team;
        let away = self.side(Side::Away).team;
        &&& next.same_play(self)
        &&& (r is Ok <==> (data.current_of(home) is Some && data.current_of(away) is Some))
        &&& r matches Err(e) ==> next.pending() == self.pending() && e == (if data.current_of(home) is None {
            data.current_error(home)
        } else {
            data.current_error(away)
        })
        &&& r is Ok ==> {
            &&& next.pending().drop_last() == self.pending()
            &&& next.pending().len() == self.pending().len() + 1
            &&& next.pending().last().comment_view() == comment
            &&& next.pending().last().shows(self, data)
        }
    }

    /// No side has won yet, but the side that just scored in a `Score` phase.
    pub open spec fn undecided(&self) -> bool {
        match self.phase() {
            GameState::Score(s) => !wins(self.score(s.other()), self.score(s)),
            _ => !wins(self.score(Side::Home), self.score(Side::Away)) && !wins(
                self.score(Side::Away),
                self.score(Side::Home),
            ),
        }
    }

    /// One tick took this game on `data` to `next` on `next_data` and returned `r`.
    pub open spec fn step(
        &self,
        next: &Game,
        data: &Data,
        next_data: &Data,
        r: std::result::Result<Result, LookupError>,
    ) -> bool {
        &&& self.readiness(data) matches Some(e) ==> r == Err::<Result, LookupError>(e) && *next
            == *self && *next_data == *data
        &&& self.ready(data) ==> r is Ok && next.ready(next_data)
        &&& r is Ok ==> self.score_moves(next)
        &&& r is Ok ==> next.extends(self)
        &&& r is Ok ==> (r == Ok::<Result, LookupError>(Result::Finished) <==> (self.phase() matches GameState::Score(s)
            && wins(self.score(s), self.score(s.other()))))
        &&& self.undecided() && r == Ok::<Result, LookupError>(Result::Continue) ==> next.undecided()
        &&& r is Ok ==> match self.phase() {
            GameState::Serving(s) => {
                &&& r == Ok::<Result, LookupError>(Result::Continue)
                &&& self.serve_step(next, data, s)
                &&& *next_data == *data
            },
            GameState::PreHit(s) => {
                &&& r == Ok::<Result, LookupError>(Result::Continue)
                &&& next.phase() matches GameState::Hit(_, w)
                &&& self.pre_hit_step(next, data, next_data, s, w)
            },
            GameState::Hit(s, w) => {
                &&& r == Ok::<Result, LookupError>(Result::Continue)
                &&& self.hit_step(next, data, s, w)
                &&& *next_data == *data
            },
            GameState::Score(s) => {
                &&& self.score_step(next, data, s, r.unwrap())
                &&& *next_data == *data
            },
        }
    }

    /// A game between two registered teams, home to serve, both sides in the
    /// middle with no points.
    pub fn new(home: TeamId, away: TeamId, weather: Weather) -> (r: Game)
        ensures
            r.side(Side::Home) == (PlayerState { team: home, space: Space::Middle, score: 0 }),
            r.side(Side::Away) == (PlayerState { team: away, space: Space::Middle, score: 0 }),
            r.ball() == Space::Middle,
            r.phase() == GameState::Serving(Side::Home),
            r.weather_now() == weather,
            r.pending() == Seq::<Report>::empty(),
            r.undecided(),
    {
        Game {
            home: PlayerState { team: home, space: Space::Middle, score: 0 },
            away: PlayerState { team: away, space: Space::Middle, score: 0 },
            ball_direction: Space::Middle,
            state: GameState::Serving(Side::Home),
            reports: VecDeque::new(),
            weather,
        }
    }

    pub fn get_team(&self, team: Side) -> (r: &PlayerState)
        ensures
            *r == self.side(team),
    {
        match team {
            Side::Home => &self.home,
            Side::Away => &self.away,
        }
    }

    pub fn get_team_mut(&mut self, team: Side) -> (r: &mut PlayerState)
        ensures
            *r == old(self).side(team),
            final(self).side(team) == *final(r),
            final(self).side(team.other()) == old(self).side(team.other()),
            final(self).ball() == old(self).ball(),
            final(self).phase() == old(self).phase(),
            final(self).weather_now() == old(self).weather_now(),
            final(self).pending() == old(self).pending(),
    {
        match team {
            Side::Home => &mut self.home,
            Side::Away => &mut self.away,
        }
    }

    pub fn get_state(&self) -> (r: GameState)
        ensures
            r == self.phase(),
    {
        self.state
    }

    pub fn get_weather(&self) -> (r: Weather)
        ensures
            r == self.weather_now(),
    {
        self.weather
    }

    pub fn get_ball(&self) -> (r: Space)
        ensures
            r == self.ball(),
    {
        self.ball_direction
    }

    /// Moves side `s` to zone `space`.
    fn set_space(&mut self, s: Side, space: Space)
        ensures
            *final(self) == old(self).with_space(s, space),
            final(self).side(s) == (PlayerState { space, ..old(self).side(s) }),
            final(self).side(s.other()) == old(self).side(s.other()),
            final(self).ball() == old(self).ball(),
            final(self).phase() == old(self).phase(),
            final(self).weather_now() == old(self).weather_now(),
            final(self).pending() == old(self).pending(),
    {
        match s {
            Side::Home => self.home.space = space,
            Side::Away => self.away.space = space,
        }
    }

    /// One point for side `s`.
    fn add_point(&mut self, s: Side)
        requires
            old(self).side(s).score < usize::MAX,
        ensures
            final(self).side(s) == (PlayerState { score: (old(self).side(s).score + 1) as usize, ..old(self).side(s) }),
            final(self).side(s.other()) == old(self).side(s.other()),
            final(self).ball() == old(self).ball(),
            final(self).phase() == old(self).phase(),
            final(self).weather_now() == old(self).weather_now(),
            final(self).pending() == old(self).pending(),
    {
        match s {
            Side::Home => self.home.score = self.home.score + 1,
            Side::Away => self.away.score = self.away.score + 1,
        }
    }

    /// Reports the active player of side `s` followed by `text`.
    fn narrate(&mut self, data: &Data, s: Side, text: &str)
        requires
            old(self).ready(data),
        ensures
            final(self).same_play(old(self)),
            final(self).logged(old(self), seq![old(self).active_name(data, s) + text@]),
    {
        let team = self.get_team(s).team;
        let id = team.get_current_player(data).unwrap();
        let mut comment = String::from_str(data.player_name(&id).unwrap());
        comment.append(text);
        let _ = self.push_report(comment, data);
        proof {
            lemma_logged_start(*old(self));
            lemma_logged_push(*old(self), *old(self), *self, seq![], comment@);
        }
    }

    /// Checks that both teams can play, home first.
    pub fn check_ready(&self, data: &Data) -> (r: std::result::Result<(), LookupError>)
        ensures
            r == (match self.readiness(data) {
                Some(e) => Err(e),
                None => Ok::<(), LookupError>(()),
            }),
    {
        match data.check_team(&self.home.team) {
            Err(e) => Err(e),
            Ok(()) => data.check_team(&self.away.team),
        }
    }

    /// Processes one phase transition; fails, changing nothing, when either
    /// team cannot play.
    pub fn advance(&mut self, data: &mut Data, rng: &mut ChaCha20Rng) -> (r: std::result::Result<
        Result,
        LookupError,
    >)
        requires
            old(self).scores_fit(),
        ensures
            old(self).step(final(self), old(data), final(data), r),
    {
        match self.check_ready(data) {
            Err(e) => {
                return Err(e);
            },
            Ok(()) => {},
        }
        match self.state {
            GameState::Serving(serving_side) => {
                self.home.space = Space::Middle;
                self.away.space = Space::Middle;
                self.ball_direction = Space::random(rng);
                self.narrate(data, serving_side, " serves!");
                self.state = GameState::PreHit(serving_side.opposite());
                Ok(Result::Continue)
            },
            GameState::PreHit(hitting_side) => {
                let team = self.get_team(hitting_side).team;
                let hitting_player = team.get_current_player(data).unwrap();
                let player = data.get_player(&hitting_player).unwrap();
                let from = self.get_team(hitting_side).space;
                let ball = self.ball_direction;
                let check = draw_in(rng, 0, SKILL_SCALE);
                let zone = if player.moves_at_random(from, ball, check) {
                    draw_in(rng, 0, 3)
                } else {
                    0
                };
                let space = player.position_after(from, ball, check, zone);
                self.set_space(hitting_side, space);
                let weather = self.weather;
                let weather_result = weather.pre_hit(hitting_side, self, data, rng);
                let ghost weathered = *self;
                self.state = GameState::Hit(hitting_side, weather_result);
                proof {
                    let p = old(data).players()[old(self).active(old(data), hitting_side).uuid];
                    assert(p == *player);
                    assert(self.side(hitting_side).space == p.position_on(from, ball, check as int, zone as int));
                    assert(self.with_phase(old(self).phase()) == weathered);
                }
                Ok(Result::Continue)
            },
            GameState::Hit(hitting_side, weather_result) => {
                let other = hitting_side.opposite();
                match weather_result {
                    WeatherResult::Prevent => {
                        self.narrate(data, hitting_side, " doesn't manage to hit!");
                        self.add_point(other);
                        self.state = GameState::Score(other);
                    },
                    WeatherResult::Nothing => {
                        if self.get_team(hitting_side).space == self.ball_direction {
                            let team = self.get_team(hitting_side).team;
                            let hitting_player = team.get_current_player(data).unwrap();
                            let player = data.get_player(&hitting_player).unwrap();
                            let ball = self.ball_direction;
                            let check = draw_in(rng, 0, SKILL_SCALE);
                            let pick = if !player.controlled_by(check) {
                                draw_in(rng, 0, 3)
                            } else if ball == Space::Middle {
                                draw_in(rng, 0, 2)
                            } else {
                                0
                            };
                            self.ball_direction = player.shot_after(ball, check, pick);
                            self.narrate(data, hitting_side, " hits!");
                            proof {
                                let p = old(data).players()[old(self).active(old(data), hitting_side).uuid];
                                assert(p == *player);
                                assert(self.ball() == p.shot_on(old(self).ball(), check as int, pick as int));
                            }
                            self.state = GameState::PreHit(other);
                        } else {
                            self.narrate(data, hitting_side, " fails to hit it!");
                            self.add_point(other);
                            self.state = GameState::Score(other);
                        }
                    },
                }
                Ok(Result::Continue)
            },
            GameState::Score(scoring_side) => {
                let other = scoring_side.opposite();
                self.narrate(data, scoring_side, " scores!");
                let ghost g1 = *self;
                let scorer_score = self.get_team(scoring_side).score;
                let other_score = self.get_team(other).score;
                if is_won(scorer_score, other_score) {
                    self.narrate(data, scoring_side, " wins!");
                    proof {
                        let name = old(self).active_name(old(data), scoring_side);
                        lemma_logged_chain(*old(self), g1, *self, seq![name + " scores!"@], seq![name + " wins!"@]);
                        assert(seq![name + " scores!"@] + seq![name + " wins!"@] =~= seq![
                            name + " scores!"@,
                            name + " wins!"@,
                        ]);
                    }
                    return Ok(Result::Finished);
                }
                self.state = GameState::Serving(other);
                Ok(Result::Continue)
            },
        }
    }

    /// Takes the oldest pending report.
    pub fn pop_report(&mut self) -> (r: Option<Report>)
        ensures
            final(self).same_play(old(self)),
            old(self).pending().len() == 0 ==> r is None && final(self).pending() == old(self).pending(),
            old(self).pending().len() > 0 ==> r == Some(old(self).pending()[0]) && final(self).pending()
                == old(self).pending().drop_first(),
    {
        let r = self.reports.pop_front();
        proof {
            if old(self).pending().len() > 0 {
                assert(self.pending() =~= old(self).pending().drop_first());
            }
        }
        r
    }

    /// Queues a report of the current state with the given narration; fails
    /// when either side has no active player.
    pub fn push_report(&mut self, comment: String, data: &Data) -> (r: std::result::Result<
        (),
        LookupError,
    >)
        ensures
            old(self).queued(final(self), data, comment@, r),
    {
        match Report::take_snapshot(self, data) {
            Ok(snapshot) => {
                let report = snapshot.with_comment(comment);
                self.reports.push_back(report);
                proof {
                    assert(self.pending().drop_last() =~= old(self).pending());
                }
                Ok(())
            },
            Err(e) => Err(e),
        }
    }
}

impl Run for Game {
    open spec fn can_tick(&self) -> bool {
        self.scores_fit()
    }

    open spec fn ticked(
        &self,
        next: &Game,
        data: &Data,
        next_data: &Data,
        r: std::result::Result<Result, LookupError>,
    ) -> bool {
        self.step(next, data, next_data, r)
    }

    open spec fn reported(
        &self,
        next: &Game,
        data: &Data,
        comment: Seq<char>,
        r: std::result::Result<(), LookupError>,
    ) -> bool {
        self.queued(next, data, comment, r)
    }

    fn tick(&mut self, data: &mut Data, rng: &mut ChaCha20Rng) -> (r: std::result::Result<
        Result,
        LookupError,
    >) {
        self.advance(data, rng)
    }

    fn report(&mut self, comment: String, data: &Data) -> (r: std::result::Result<(), LookupError>) {
        self.push_report(comment, data)
    }
}

} // verus!
