//! Timing and scoring engine for a grappling match scoreboard.
//!
//! The engine tracks two competitors' points, advantages and penalties and a
//! countdown clock that is anchored to wall-clock readings rather than to a
//! tick counter. Nothing here fails: double starts and stops are no-ops,
//! scores floor at zero, the remaining time floors at zero, and a system
//! clock that was set back counts nothing for the segment in progress.
//!
//! Each clock operation comes in two forms. The form that ends in `_at`
//! takes the instant it happens at and says exactly what it does; the form
//! without reads the system clock and hands the reading to the first.

pub mod bjj_match;
pub mod clock;
pub mod clock_laws;
pub mod competitor;
pub mod display;
pub mod match_laws;
pub mod score;
pub mod score_laws;
pub mod units;
pub mod wall_clock;

pub use bjj_match::{BJJMatch, MatchState};
pub use clock::{ClockState, MatchTime};
pub use competitor::{Competitor, Country, MatchInformation};
pub use display::format_millis;
pub use score::{CompetitorNumber, MatchScore, PlayerScore, ScoreField};
pub use wall_clock::Timestamp;
