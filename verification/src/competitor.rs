//! Who is fighting, and the bookkeeping of the match.

use vstd::prelude::*;

verus! {

/// The country a competitor fights for.
#[derive(Clone, Copy, Debug, PartialEq, Eq, Structural)]
pub enum Country {
    Australia,
    Brazil,
    UnitedStates,
}

/// A competitor as the scoreboard shows them.
#[derive(Debug)]
pub struct Competitor {
    pub first_name: String,
    pub last_name: String,
    pub team_name: String,
    pub country: Country,
}

impl Competitor {
    /// Whether this competitor carries exactly the given names and country.
    pub open spec fn has_details(
        self,
        first_name: Seq<char>,
        last_name: Seq<char>,
        team_name: Seq<char>,
        country: Country,
    ) -> bool {
        &&& self.first_name@ == first_name
        &&& self.last_name@ == last_name
        &&& self.team_name@ == team_name
        &&& self.country == country
    }

    /// A competitor with the given names and country.
    pub fn new(first_name: &str, last_name: &str, team_name: &str, country: Country) -> (competitor:
        Competitor)
        ensures
            competitor.has_details(first_name@, last_name@, team_name@, country),
    {
        Competitor {
            first_name: first_name.to_owned(),
            last_name: last_name.to_owned(),
            team_name: team_name.to_owned(),
            country,
        }
    }
}

impl Default for Competitor {
    /// The placeholder shown until a competitor is entered.
    fn default() -> (competitor: Competitor)
        ensures
            competitor.has_details("Competitor"@, "Name"@, "BJJ Team"@, Country::Australia),
    {
        Competitor::new("Competitor", "Name", "BJJ Team", Country::Australia)
    }
}

/// The two competitors and the bookkeeping of one match.
#[derive(Debug)]
pub struct MatchInformation {
    pub competitor_one: Competitor,
    pub competitor_two: Competitor,
    pub match_time_minutes: usize,
    pub mat_number: usize,
    pub fight_number: usize,
}

impl Default for MatchInformation {
    /// Two placeholder competitors, five minutes, mat one, fight one.
    fn default() -> (info: MatchInformation)
        ensures
            info.competitor_one.has_details("Competitor"@, "One"@, "BJJ Team"@, Country::Australia),
            info.competitor_two.has_details("Competitor"@, "Two"@, "BJJ Team"@, Country::Australia),
            info.match_time_minutes == 5,
            info.mat_number == 1,
            info.fight_number == 1,
    {
        MatchInformation {
            competitor_one: Competitor::new("Competitor", "One", "BJJ Team", Country::Australia),
            competitor_two: Competitor::new("Competitor", "Two", "BJJ Team", Country::Australia),
            match_time_minutes: 5,
            mat_number: 1,
            fight_number: 1,
        }
    }
}

} // verus!
