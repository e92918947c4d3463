//! Competitors' scores and the rules for changing them.

use vstd::prelude::*;

verus! {

/// Which of the two competitors an operation is about.
#[derive(Clone, Copy, Debug, PartialEq, Eq, Structural)]
pub enum CompetitorNumber {
    One,
    Two,
}

/// Which of a competitor's three counts an operation is about.
#[derive(Clone, Copy, Debug, PartialEq, Eq, Structural)]
pub enum ScoreField {
    Points,
    Advantages,
    Penalties,
}

/// One competitor's counts. None of them ever goes below zero.
#[derive(Clone, Copy, Debug, PartialEq, Eq, Structural)]
pub struct PlayerScore {
    pub points: usize,
    pub advantages: usize,
    pub penalties: usize,
}

/// Both competitors' counts.
#[derive(Clone, Copy, Debug, PartialEq, Eq, Structural)]
pub struct MatchScore {
    pub competitor_one_score: PlayerScore,
    pub competitor_two_score: PlayerScore,
    pub time_remaining_milliseconds: usize,
}

/// A count after one unit is taken from it: a count of zero stays zero.
pub open spec fn one_less(count: nat) -> nat {
    if count > 0 {
        (count - 1) as nat
    } else {
        0
    }
}

impl PlayerScore {
    /// All three counts at zero.
    pub open spec fn zero() -> PlayerScore {
        PlayerScore { points: 0, advantages: 0, penalties: 0 }
    }

    /// The count that `field` names.
    pub open spec fn count(self, field: ScoreField) -> nat {
        match field {
            ScoreField::Points => self.points as nat,
            ScoreField::Advantages => self.advantages as nat,
            ScoreField::Penalties => self.penalties as nat,
        }
    }

    /// This score with the count that `field` names replaced.
    pub open spec fn with_count(self, field: ScoreField, count: usize) -> PlayerScore {
        match field {
            ScoreField::Points => PlayerScore { points: count, ..self },
            ScoreField::Advantages => PlayerScore { advantages: count, ..self },
            ScoreField::Penalties => PlayerScore { penalties: count, ..self },
        }
    }

    /// Whether `amount` more of `field` still fits the machine's count.
    pub open spec fn has_room(self, field: ScoreField, amount: nat) -> bool {
        self.count(field) + amount <= usize::MAX
    }

    /// This score with `amount` more of `field`.
    pub open spec fn raised(self, field: ScoreField, amount: nat) -> PlayerScore {
        self.with_count(field, (self.count(field) + amount) as usize)
    }

    /// This score with one less of `field`, held at zero.
    pub open spec fn lowered(self, field: ScoreField) -> PlayerScore {
        self.with_count(field, one_less(self.count(field)) as usize)
    }

    /// Takes one from the count that `field` names; a count of zero stays
    /// zero.
    pub fn subtract(&mut self, field: ScoreField)
        ensures
            *final(self) == old(self).lowered(field),
    {
        match field {
            ScoreField::Points => {
                if self.points > 0 {
                    self.points -= 1;
                }
            },
            ScoreField::Advantages => {
                if self.advantages > 0 {
                    self.advantages -= 1;
                }
            },
            ScoreField::Penalties => {
                if self.penalties > 0 {
                    self.penalties -= 1;
                }
            },
        }
    }
}

impl Default for PlayerScore {
    /// All three counts at zero.
    fn default() -> (score: PlayerScore)
        ensures
            score == PlayerScore::zero(),
    {
        PlayerScore { points: 0, advantages: 0, penalties: 0 }
    }
}

impl MatchScore {
    /// Both competitors at zero.
    pub open spec fn zero() -> MatchScore {
        MatchScore {
            competitor_one_score: PlayerScore::zero(),
            competitor_two_score: PlayerScore::zero(),
            time_remaining_milliseconds: 0,
        }
    }

    /// The score of `competitor`.
    pub open spec fn player(self, competitor: CompetitorNumber) -> PlayerScore {
        match competitor {
            CompetitorNumber::One => self.competitor_one_score,
            CompetitorNumber::Two => self.competitor_two_score,
        }
    }

    /// These scores with that of `competitor` replaced.
    pub open spec fn with_player(self, competitor: CompetitorNumber, score: PlayerScore) -> MatchScore {
        match competitor {
            CompetitorNumber::One => MatchScore { competitor_one_score: score, ..self },
            CompetitorNumber::Two => MatchScore { competitor_two_score: score, ..self },
        }
    }

    /// These scores with `amount` more of `field` for `competitor`.
    pub open spec fn raised(self, competitor: CompetitorNumber, field: ScoreField, amount: nat) -> MatchScore {
        self.with_player(competitor, self.player(competitor).raised(field, amount))
    }

    /// These scores with one less of `field` for `competitor`, held at zero.
    pub open spec fn lowered(self, competitor: CompetitorNumber, field: ScoreField) -> MatchScore {
        self.with_player(competitor, self.player(competitor).lowered(field))
    }
}

impl Default for MatchScore {
    /// Both competitors at zero.
    fn default() -> (score: MatchScore)
        ensures
            score == MatchScore::zero(),
    {
        MatchScore {
            competitor_one_score: PlayerScore::default(),
            competitor_two_score: PlayerScore::default(),
            time_remaining_milliseconds: 0,
        }
    }
}

} // verus!
