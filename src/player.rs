//! Players: a display name and three fixed skills.
use rand_chacha::ChaCha20Rng;
use vstd::prelude::*;

use crate::game::states::{space_of, Space};
use crate::random::draw_in;
use crate::registry::NameGenerator;

verus! {

/// Skills and skill-check draws are fractions of this scale: a skill `s` stands
/// for the probability `s / SKILL_SCALE`, and a draw is uniform over `0..SKILL_SCALE`.
pub const SKILL_SCALE: u64 = 1_000_000;

/// The opaque token under which the registry keeps a player.
#[derive(Clone, Copy, PartialEq, Eq, Structural, Hash, Debug)]
pub struct PlayerId {
    pub uuid: u128,
}

pub struct Player {
    name: String,
    control: u64,
    speed: u64,
    distractibility: u64,
}

/// The distractibility that a raw uniform draw `u` gives: its square, scaled back,
/// so that most players are seldom distracted.
pub open spec fn squared_skill(u: int) -> int {
    u * u / (SKILL_SCALE as int)
}

impl Player {
    pub closed spec fn name_view(&self) -> Seq<char> {
        self.name@
    }

    pub closed spec fn control(&self) -> int {
        self.control as int
    }

    pub closed spec fn speed(&self) -> int {
        self.speed as int
    }

    pub closed spec fn distractibility(&self) -> int {
        self.distractibility as int
    }

    /// Every skill is a fraction below one.
    pub open spec fn wf(&self) -> bool {
        &&& 0 <= self.control() < SKILL_SCALE
        &&& 0 <= self.speed() < SKILL_SCALE
        &&& 0 <= self.distractibility() < SKILL_SCALE
    }

    /// A draw below the distractibility means the player got distracted.
    pub open spec fn distracted_on(&self, draw: int) -> bool {
        draw < self.distractibility()
    }

    /// A draw above the speed value means the player reacted in time.
    pub open spec fn in_time_on(&self, draw: int) -> bool {
        draw > self.speed()
    }

    /// A draw above the control value means the player kept control.
    pub open spec fn controlled_on(&self, draw: int) -> bool {
        draw > self.control()
    }

    /// Where a hitter at `from`, with the ball heading to `ball`, stands after
    /// its check on draw `check`; `zone` is the zone drawn when it moves at
    /// random. Standing right, it stays unless distracted; standing wrong, it
    /// reaches the ball when in time.
    pub open spec fn position_on(&self, from: Space, ball: Space, check: int, zone: int) -> Space {
        if from == ball {
            if self.distracted_on(check) {
                space_of(zone)
            } else {
                from
            }
        } else if self.in_time_on(check) {
            ball
        } else {
            space_of(zone)
        }
    }

    /// Where a hit in contact sends the ball from `ball`, on the control check
    /// draw `check`: in control, to the farthest zone (from the middle, the
    /// first end when `pick` is zero, else the third); otherwise to the zone
    /// `pick` draws.
    pub open spec fn shot_on(&self, ball: Space, check: int, pick: int) -> Space {
        if self.controlled_on(check) {
            match ball {
                Space::First => Space::Third,
                Space::Third => Space::First,
                Space::Middle => if pick == 0 {
                    Space::First
                } else {
                    Space::Third
                },
            }
        } else {
            space_of(pick)
        }
    }

    /// Whether the hitter's check on draw `check` leaves it to a random zone.
    pub fn moves_at_random(&self, from: Space, ball: Space, check: u64) -> (r: bool)
        ensures
            r == (if from == ball {
                self.distracted_on(check as int)
            } else {
                !self.in_time_on(check as int)
            }),
    {
        if from == ball {
            self.distracted_by(check)
        } else {
            !self.in_time_by(check)
        }
    }

    pub fn position_after(&self, from: Space, ball: Space, check: u64, zone: u64) -> (r: Space)
        ensures
            r == self.position_on(from, ball, check as int, zone as int),
    {
        if from == ball {
            if self.distracted_by(check) {
                Space::from_index(zone)
            } else {
                from
            }
        } else if self.in_time_by(check) {
            ball
        } else {
            Space::from_index(zone)
        }
    }

    pub fn shot_after(&self, ball: Space, check: u64, pick: u64) -> (r: Space)
        ensures
            r == self.shot_on(ball, check as int, pick as int),
    {
        if self.controlled_by(check) {
            ball.farthest_by(pick == 0)
        } else {
            Space::from_index(pick)
        }
    }

    pub fn get_name(&self) -> (r: &str)
        ensures
            r@ == self.name_view(),
    {
        self.name.as_str()
    }

    /// A player with the given name and skills, each a fraction of `SKILL_SCALE`.
    pub fn with_skills(name: String, speed: u64, control: u64, distractibility: u64) -> (r: Player)
        ensures
            r.name_view() == name@,
            r.speed() == speed,
            r.control() == control,
            r.distractibility() == distractibility,
    {
        Player { name, control, speed, distractibility }
    }

    /// The player whose skills come from three uniform draws: speed and
    /// control as drawn, and distractibility as the square of the third.
    pub open spec fn drawn_as(&self, name: Seq<char>, u1: int, u2: int, u3: int) -> bool {
        &&& self.name_view() == name
        &&& self.speed() == u1
        &&& self.control() == u2
        &&& self.distractibility() == squared_skill(u3)
    }

    /// A freshly generated player: a generated name, uniform speed and control,
    /// and the square of a uniform draw as distractibility.
    pub fn new(name_generator: &NameGenerator, rng: &mut ChaCha20Rng) -> (r: (PlayerId, Player))
        ensures
            r.1.wf(),
            name_generator.is_full_name(r.1.name_view()),
            exists|u1: int, u2: int, u3: int|
                0 <= u1 < SKILL_SCALE && 0 <= u2 < SKILL_SCALE && 0 <= u3 < SKILL_SCALE
                    && #[trigger] r.1.drawn_as(r.1.name_view(), u1, u2, u3),
    {
        let new_id = PlayerId { uuid: crate::random::random_token(rng) };
        let name = name_generator.generate(rng);
        let speed = draw_in(rng, 0, SKILL_SCALE);
        let control = draw_in(rng, 0, SKILL_SCALE);
        let u = draw_in(rng, 0, SKILL_SCALE);
        let ghost drawn_name = name@;
        let player = Player::from_draws(name, speed, control, u);
        proof {
            assert(player.name_view() == drawn_name);
            assert(player.drawn_as(player.name_view(), speed as int, control as int, u as int));
            assert(exists|u1: int, u2: int, u3: int|
                0 <= u1 < SKILL_SCALE && 0 <= u2 < SKILL_SCALE && 0 <= u3 < SKILL_SCALE
                    && #[trigger] player.drawn_as(player.name_view(), u1, u2, u3));
        }
        (new_id, player)
    }

    /// The player named `name` whose three uniform draws were `u1`, `u2`, `u3`.
    pub fn from_draws(name: String, u1: u64, u2: u64, u3: u64) -> (r: Player)
        requires
            u1 < SKILL_SCALE,
            u2 < SKILL_SCALE,
            u3 < SKILL_SCALE,
        ensures
            r.wf(),
            r.drawn_as(name@, u1 as int, u2 as int, u3 as int),
    {
        let u = u3;
        assert((u as int) * (u as int) < (SKILL_SCALE as int) * (SKILL_SCALE as int)) by (nonlinear_arith)
            requires
                u < SKILL_SCALE,
        ;
        let distractibility = u * u / SKILL_SCALE;
        assert(distractibility < SKILL_SCALE) by (nonlinear_arith)
            requires
                distractibility as int == (u as int) * (u as int) / (SKILL_SCALE as int),
                (u as int) * (u as int) < (SKILL_SCALE as int) * (SKILL_SCALE as int),
        ;
        assert(distractibility as int == squared_skill(u as int));
        Player { name, control: u2, speed: u1, distractibility }
    }

    /// The distraction check on a given draw: distracted when the draw falls
    /// below the distractibility.
    pub fn distracted_by(&self, draw: u64) -> (r: bool)
        ensures
            r == self.distracted_on(draw as int),
    {
        draw < self.distractibility
    }

    /// The speed check on a given draw: in time when the draw exceeds the speed
    /// value, so a smaller value is faster.
    pub fn in_time_by(&self, draw: u64) -> (r: bool)
        ensures
            r == self.in_time_on(draw as int),
    {
        draw > self.speed
    }

    /// The control check on a given draw: controlled when the draw exceeds the
    /// control value, so a smaller value controls better.
    pub fn controlled_by(&self, draw: u64) -> (r: bool)
        ensures
            r == self.controlled_on(draw as int),
    {
        draw > self.control
    }

    /// Draws once and reports whether the player got distracted.
    pub fn distraction_check(&self, rng: &mut ChaCha20Rng) -> (r: bool)
        ensures
            exists|d: int| 0 <= d < SKILL_SCALE && r == #[trigger] self.distracted_on(d),
    {
        let draw = draw_in(rng, 0, SKILL_SCALE);
        self.distracted_by(draw)
    }

    /// Draws once and reports whether the player reacted in time.
    pub fn speed_check(&self, rng: &mut ChaCha20Rng) -> (r: bool)
        ensures
            exists|d: int| 0 <= d < SKILL_SCALE && r == #[trigger] self.in_time_on(d),
    {
        let draw = draw_in(rng, 0, SKILL_SCALE);
        self.in_time_by(draw)
    }

    /// Draws once and reports whether the player kept control of the shot.
    pub fn control_check(&self, rng: &mut ChaCha20Rng) -> (r: bool)
        ensures
            exists|d: int| 0 <= d < SKILL_SCALE && r == #[trigger] self.controlled_on(d),
    {
        let draw = draw_in(rng, 0, SKILL_SCALE);
        self.controlled_by(draw)
    }
}

} // verus!
