//! Reports: snapshots of the game taken when a narrated event happens.
use vstd::prelude::*;

use crate::player::PlayerId;
use crate::registry::{Data, LookupError};
use crate::team::TeamId;

use super::states::Space;
use super::weather::Weather;
use super::{Game, Side};

verus! {

pub struct Report {
    home: PlayerStateSnapshot,
    away: PlayerStateSnapshot,
    ball_direction: Option<Space>,
    pub comment: String,
    weather: Weather,
}

/// One side as it stood when a report was taken.
#[derive(Clone, Copy, PartialEq, Eq, Structural, Debug)]
pub struct PlayerStateSnapshot {
    pub team: TeamId,
    pub player: PlayerId,
    pub score: usize,
    pub space: Space,
}

/// The decimal digits of `n`, most significant first.
pub open spec fn decimal(n: nat) -> Seq<char>
    decreases n,
{
    if n < 10 {
        seq![digit_char(n)]
    } else {
        decimal(n / 10) + seq![digit_char(n % 10)]
    }
}

pub open spec fn digit_char(d: nat) -> char {
    if d == 0 {
        '0'
    } else if d == 1 {
        '1'
    } else if d == 2 {
        '2'
    } else if d == 3 {
        '3'
    } else if d == 4 {
        '4'
    } else if d == 5 {
        '5'
    } else if d == 6 {
        '6'
    } else if d == 7 {
        '7'
    } else if d == 8 {
        '8'
    } else {
        '9'
    }
}

fn digit_text(d: usize) -> (r: &'static str)
    requires
        d < 10,
    ensures
        r@ == seq![digit_char(d as nat)],
{
    proof {
        reveal_strlit("0");
        reveal_strlit("1");
        reveal_strlit("2");
        reveal_strlit("3");
        reveal_strlit("4");
        reveal_strlit("5");
        reveal_strlit("6");
        reveal_strlit("7");
        reveal_strlit("8");
        reveal_strlit("9");
    }
    if d == 0 {
        "0"
    } else if d == 1 {
        "1"
    } else if d == 2 {
        "2"
    } else if d == 3 {
        "3"
    } else if d == 4 {
        "4"
    } else if d == 5 {
        "5"
    } else if d == 6 {
        "6"
    } else if d == 7 {
        "7"
    } else if d == 8 {
        "8"
    } else {
        "9"
    }
}

/// `n` written in decimal.
pub fn decimal_text(n: usize) -> (r: String)
    ensures
        r@ == decimal(n as nat),
    decreases n,
{
    if n < 10 {
        String::from_str(digit_text(n))
    } else {
        let mut s = decimal_text(n / 10);
        s.append(digit_text(n % 10));
        s
    }
}

/// The snapshot of side `s` of game `g`, whose active player is `p`.
pub open spec fn snapshot_of(g: &Game, s: Side, p: PlayerId) -> PlayerStateSnapshot {
    PlayerStateSnapshot {
        team: g.side(s).team,
        player: p,
        score: g.side(s).score,
        space: g.side(s).space,
    }
}

impl Report {
    pub closed spec fn home_view(&self) -> PlayerStateSnapshot {
        self.home
    }

    pub closed spec fn away_view(&self) -> PlayerStateSnapshot {
        self.away
    }

    pub closed spec fn ball_view(&self) -> Option<Space> {
        self.ball_direction
    }

    pub closed spec fn weather_view(&self) -> Weather {
        self.weather
    }

    pub closed spec fn comment_view(&self) -> Seq<char> {
        self.comment@
    }

    /// The report holds the state of game `g` on `data`: both sides with their
    /// active players, the ball and the weather.
    pub open spec fn shows(&self, g: &Game, data: &Data) -> bool {
        &&& self.home_view() == snapshot_of(g, Side::Home, g.active(data, Side::Home))
        &&& self.away_view() == snapshot_of(g, Side::Away, g.active(data, Side::Away))
        &&& self.ball_view() == Some(g.ball())
        &&& self.weather_view() == g.weather_now()
    }

    /// The rendered block: a rule tagged with the weather, each side's player
    /// and score, a separator, the narration and a closing rule.
    pub open spec fn text(&self, data: &Data) -> Seq<char> {
        "---------------------["@ + self.weather_view().label() + "]\n"@ + data.name_of(
            self.home_view().player,
        ) + ": "@ + decimal(self.home_view().score as nat) + "\n"@ + data.name_of(
            self.away_view().player,
        ) + ": "@ + decimal(self.away_view().score as nat) + "\n"@ + "\n"@
            + "+++++++++++++++++++++++++\n"@ + "\n"@ + self.comment_view() + "\n"@
            + "-------------------------\n"@
    }

    /// A snapshot of `game` with an empty narration; fails when either side has
    /// no active player.
    pub fn take_snapshot(game: &Game, data: &Data) -> (r: std::result::Result<Report, LookupError>)
        ensures
            r is Ok <==> (data.current_of(game.side(Side::Home).team) is Some && data.current_of(
                game.side(Side::Away).team,
            ) is Some),
            r matches Err(e) ==> e == (if data.current_of(game.side(Side::Home).team) is None {
                data.current_error(game.side(Side::Home).team)
            } else {
                data.current_error(game.side(Side::Away).team)
            }),
            r matches Ok(rep) ==> rep.shows(game, data) && rep.comment_view() == Seq::<char>::empty(),
    {
        let home_player = match game.home.team.get_current_player(data) {
            Some(p) => p,
            None => {
                return Err(data.lookup_error(&game.home.team));
            },
        };
        let away_player = match game.away.team.get_current_player(data) {
            Some(p) => p,
            None => {
                return Err(data.lookup_error(&game.away.team));
            },
        };
        let home = PlayerStateSnapshot {
            team: game.home.team,
            player: home_player,
            score: game.home.score,
            space: game.home.space,
        };
        let away = PlayerStateSnapshot {
            team: game.away.team,
            player: away_player,
            score: game.away.score,
            space: game.away.space,
        };
        Ok(
            Report {
                home,
                away,
                ball_direction: Some(game.ball_direction),
                comment: String::new(),
                weather: game.weather,
            },
        )
    }

    /// The same report with the narration replaced.
    pub fn with_comment(self, comment: String) -> (r: Report)
        ensures
            r.home_view() == self.home_view(),
            r.away_view() == self.away_view(),
            r.ball_view() == self.ball_view(),
            r.weather_view() == self.weather_view(),
            r.comment_view() == comment@,
    {
        let mut report = self;
        report.comment = comment;
        report
    }

    /// The same report without a ball direction.
    pub fn with_no_ball(self) -> (r: Report)
        ensures
            r.home_view() == self.home_view(),
            r.away_view() == self.away_view(),
            r.ball_view() is None,
            r.weather_view() == self.weather_view(),
            r.comment_view() == self.comment_view(),
    {
        let mut report = self;
        report.ball_direction = None;
        report
    }

    pub fn get_home(&self) -> (r: PlayerStateSnapshot)
        ensures
            r == self.home_view(),
    {
        self.home
    }

    pub fn get_away(&self) -> (r: PlayerStateSnapshot)
        ensures
            r == self.away_view(),
    {
        self.away
    }

    pub fn get_ball(&self) -> (r: Option<Space>)
        ensures
            r == self.ball_view(),
    {
        self.ball_direction
    }

    pub fn get_weather(&self) -> (r: Weather)
        ensures
            r == self.weather_view(),
    {
        self.weather
    }

    /// The rendered block; fails when `data` does not hold either side's player.
    pub fn get_text(&self, data: &Data) -> (r: std::result::Result<String, LookupError>)
        ensures
            r is Ok <==> (data.has_player(self.home_view().player) && data.has_player(
                self.away_view().player,
            )),
            r matches Err(e) ==> e == LookupError::NotFound,
            r matches Ok(t) ==> t@ == self.text(data),
    {
        let home_name = match data.player_name(&self.home.player) {
            Ok(n) => n,
            Err(e) => {
                return Err(e);
            },
        };
        let away_name = match data.player_name(&self.away.player) {
            Ok(n) => n,
            Err(e) => {
                return Err(e);
            },
        };
        let mut output = String::from_str("---------------------[");
        output.append(self.weather.as_str());
        output.append("]\n");
        output.append(home_name);
        output.append(": ");
        output.append(decimal_text(self.home.score).as_str());
        output.append("\n");
        output.append(away_name);
        output.append(": ");
        output.append(decimal_text(self.away.score).as_str());
        output.append("\n");
        output.append("\n");
        output.append("+++++++++++++++++++++++++\n");
        output.append("\n");
        output.append(self.comment.as_str());
        output.append("\n");
        output.append("-------------------------\n");
        Ok(output)
    }
}

} // verus!
