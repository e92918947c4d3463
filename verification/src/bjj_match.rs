//! The match: who fights, the score, the clock, and the state that follows
//! from the clock.

use crate::clock::{ClockState, MatchTime};
use crate::competitor::{Competitor, Country, MatchInformation};
use crate::score::{CompetitorNumber, MatchScore, ScoreField};
use crate::units::MILLIS_PER_MINUTE;
use crate::wall_clock::Timestamp;
use vstd::prelude::*;

verus! {

/// How far a match has come. It is worked out from the clock whenever it is
/// asked for, and never stored.
#[derive(Clone, Copy, Debug, PartialEq, Eq, Structural)]
pub enum MatchState {
    /// The clock was never started.
    NotStarted,
    /// The clock was started and time is left, whether it runs or pauses.
    InProgress,
    /// The clock was started and no time is left.
    Finished,
}

impl ClockState {
    /// The state of the match once the segment in progress has counted
    /// `segment` milliseconds.
    pub open spec fn state_after(self, segment: nat) -> MatchState {
        if !self.has_started() {
            MatchState::NotStarted
        } else if self.remaining_after(segment) == 0 {
            MatchState::Finished
        } else {
            MatchState::InProgress
        }
    }

    /// The state of the match at `now`.
    pub open spec fn state(self, now: nat) -> MatchState {
        self.state_after(self.current_segment(now))
    }
}

/// A match of `minutes` minutes, in milliseconds.
pub open spec fn minutes_as_millis(minutes: nat) -> nat {
    minutes * (MILLIS_PER_MINUTE as nat)
}

/// One match: its competitors and bookkeeping, its score and its clock.
#[derive(Debug)]
pub struct BJJMatch {
    pub info: MatchInformation,
    pub score: MatchScore,
    pub time: MatchTime,
}

impl BJJMatch {
    /// A match that has not started, with both scores at zero and a clock
    /// set to `match_time_minutes`.
    pub fn new(
        competitor_one: Competitor,
        competitor_two: Competitor,
        match_time_minutes: usize,
        mat_number: usize,
        fight_number: usize,
    ) -> (created: BJJMatch)
        requires
            minutes_as_millis(match_time_minutes as nat) <= usize::MAX,
        ensures
            created.info.competitor_one == competitor_one,
            created.info.competitor_two == competitor_two,
            created.info.match_time_minutes == match_time_minutes,
            created.info.mat_number == mat_number,
            created.info.fight_number == fight_number,
            created.score == MatchScore::zero(),
            created.time@ == ClockState::fresh(minutes_as_millis(match_time_minutes as nat)),
            created.time@.wf(),
    {
        BJJMatch {
            info: MatchInformation {
                competitor_one,
                competitor_two,
                match_time_minutes,
                mat_number,
                fight_number,
            },
            score: MatchScore::default(),
            time: MatchTime::new(match_time_minutes * MILLIS_PER_MINUTE),
        }
    }

    /// The state of the match at `now`.
    pub fn match_state_at(&self, now: Timestamp) -> (state: MatchState)
        ensures
            state == self.time@.state(now@),
    {
        if !self.time.has_started() {
            MatchState::NotStarted
        } else if self.time.remaining_time_milliseconds_at(now) == 0 {
            MatchState::Finished
        } else {
            MatchState::InProgress
        }
    }

    /// The state of the match by the system clock. While the clock is
    /// stopped the answer does not depend on the reading.
    pub fn get_match_state(&self) -> (state: MatchState)
        ensures
            exists|now: nat| state == #[trigger] self.time@.state(now),
            state is NotStarted <==> !self.time@.has_started(),
            !self.time@.running ==> state == self.time@.state_after(0),
            self.time@.state_after(0) is Finished ==> state is Finished,
    {
        self.match_state_at(Timestamp::now())
    }

    /// Gives `competitor` `points` more points.
    pub fn add_points(&mut self, points: usize, competitor: CompetitorNumber)
        requires
            old(self).score.player(competitor).has_room(ScoreField::Points, points as nat),
        ensures
            final(self).score == old(self).score.raised(competitor, ScoreField::Points, points as nat),
            final(self).info == old(self).info,
            final(self).time == old(self).time,
    {
        match competitor {
            CompetitorNumber::One => {
                self.score.competitor_one_score.points += points;
            },
            CompetitorNumber::Two => {
                self.score.competitor_two_score.points += points;
            },
        }
    }

    /// Gives `competitor` one more advantage.
    pub fn add_advantage(&mut self, competitor: CompetitorNumber)
        requires
            old(self).score.player(competitor).has_room(ScoreField::Advantages, 1),
        ensures
            final(self).score == old(self).score.raised(competitor, ScoreField::Advantages, 1),
            final(self).info == old(self).info,
            final(self).time == old(self).time,
    {
        match competitor {
            CompetitorNumber::One => {
                self.score.competitor_one_score.advantages += 1;
            },
            CompetitorNumber::Two => {
                self.score.competitor_two_score.advantages += 1;
            },
        }
    }

    /// Gives `competitor` one more penalty.
    pub fn add_penalty(&mut self, competitor: CompetitorNumber)
        requires
            old(self).score.player(competitor).has_room(ScoreField::Penalties, 1),
        ensures
            final(self).score == old(self).score.raised(competitor, ScoreField::Penalties, 1),
            final(self).info == old(self).info,
            final(self).time == old(self).time,
    {
        match competitor {
            CompetitorNumber::One => {
                self.score.competitor_one_score.penalties += 1;
            },
            CompetitorNumber::Two => {
                self.score.competitor_two_score.penalties += 1;
            },
        }
    }

    /// Takes one point from `competitor`; no points stay no points.
    pub fn subtract_point(&mut self, competitor: CompetitorNumber)
        ensures
            final(self).score == old(self).score.lowered(competitor, ScoreField::Points),
            final(self).info == old(self).info,
            final(self).time == old(self).time,
    {
        match competitor {
            CompetitorNumber::One => self.score.competitor_one_score.subtract(ScoreField::Points),
            CompetitorNumber::Two => self.score.competitor_two_score.subtract(ScoreField::Points),
        }
    }

    /// Takes one advantage from `competitor`; no advantages stay no
    /// advantages.
    pub fn subtract_advantage(&mut self, competitor: CompetitorNumber)
        ensures
            final(self).score == old(self).score.lowered(competitor, ScoreField::Advantages),
            final(self).info == old(self).info,
            final(self).time == old(self).time,
    {
        match competitor {
            CompetitorNumber::One => self.score.competitor_one_score.subtract(ScoreField::Advantages),
            CompetitorNumber::Two => self.score.competitor_two_score.subtract(ScoreField::Advantages),
        }
    }

    /// Takes one penalty from `competitor`; no penalties stay no penalties.
    pub fn subtract_penalty(&mut self, competitor: CompetitorNumber)
        ensures
            final(self).score == old(self).score.lowered(competitor, ScoreField::Penalties),
            final(self).info == old(self).info,
            final(self).time == old(self).time,
    {
        match competitor {
            CompetitorNumber::One => self.score.competitor_one_score.subtract(ScoreField::Penalties),
            CompetitorNumber::Two => self.score.competitor_two_score.subtract(ScoreField::Penalties),
        }
    }

    /// Sets the clock to the configured match length and starts it at
    /// `now`. The length is taken over even if the clock runs already.
    pub fn start_at(&mut self, now: Timestamp)
        requires
            minutes_as_millis(old(self).info.match_time_minutes as nat) <= usize::MAX,
        ensures
            final(self).time@ == old(self).time@.with_duration(
                minutes_as_millis(old(self).info.match_time_minutes as nat),
            ).started(now@),
            final(self).time@.wf(),
            final(self).info == old(self).info,
            final(self).score == old(self).score,
    {
        self.time.set_duration_millis(self.info.match_time_minutes * MILLIS_PER_MINUTE);
        self.time.start_at(now);
    }

    /// Sets the clock to the configured match length and starts it by the
    /// system clock.
    pub fn start(&mut self)
        requires
            minutes_as_millis(old(self).info.match_time_minutes as nat) <= usize::MAX,
        ensures
            exists|now: nat|
                final(self).time@ == #[trigger] old(self).time@.with_duration(
                    minutes_as_millis(old(self).info.match_time_minutes as nat),
                ).started(now),
            final(self).time@.running,
            final(self).time@.duration == minutes_as_millis(old(self).info.match_time_minutes as nat),
            final(self).time@.accumulated == old(self).time@.accumulated,
            final(self).time@.wf(),
            final(self).info == old(self).info,
            final(self).score == old(self).score,
    {
        self.start_at(Timestamp::now());
    }

    /// Pauses the clock at `now` if it runs, resumes it if not.
    pub fn toggle_start_stop_at(&mut self, now: Timestamp)
        ensures
            final(self).time@ == old(self).time@.toggled(now@),
            final(self).time@.wf(),
            final(self).info == old(self).info,
            final(self).score == old(self).score,
    {
        self.time.toggle_start_stop_at(now);
    }

    /// Pauses the clock by the system clock if it runs, resumes it if not.
    pub fn toggle_start_stop(&mut self)
        ensures
            exists|now: nat| final(self).time@ == #[trigger] old(self).time@.toggled(now),
            final(self).time@.running == !old(self).time@.running,
            final(self).time@.wf(),
            final(self).info == old(self).info,
            final(self).score == old(self).score,
    {
        self.toggle_start_stop_at(Timestamp::now());
    }
}

impl Default for BJJMatch {
    /// A match between two placeholder competitors that has not started.
    /// Its clock holds no duration until the match is started.
    fn default() -> (created: BJJMatch)
        ensures
            created.info.competitor_one.has_details("Competitor"@, "One"@, "BJJ Team"@, Country::Australia),
            created.info.competitor_two.has_details("Competitor"@, "Two"@, "BJJ Team"@, Country::Australia),
            created.info.match_time_minutes == 5,
            created.info.mat_number == 1,
            created.info.fight_number == 1,
            created.score == MatchScore::zero(),
            created.time@ == ClockState::fresh(0),
            created.time@.wf(),
    {
        BJJMatch {
            info: MatchInformation::default(),
            score: MatchScore::default(),
            time: MatchTime::default(),
        }
    }
}

} // verus!
