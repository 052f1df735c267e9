//! A two-sided, turn-based paddle sport between teams of generated players.
//!
//! The registry (`Data`) owns every player and team; the engine (`Game`) only
//! holds their identifiers and advances one phase per call, queueing a
//! narrative `Report` for each event.
use vstd::prelude::*;

pub mod game;
pub mod player;
pub mod random;
pub mod registry;
pub mod team;

verus! {

pub use game::{Game, GameState, Result, Run, Side};
pub use game::report::{PlayerStateSnapshot, Report};
pub use game::states::{PlayerState, Space};
pub use game::weather::{Weather, WeatherResult};
pub use player::{Player, PlayerId, SKILL_SCALE};
pub use registry::{Data, LookupError, NameGenerator};
pub use team::{Team, TeamId};

} // verus!
