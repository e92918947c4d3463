use bjj_scoreboard::{
    BJJMatch, Competitor, CompetitorNumber, Country, MatchInformation, MatchScore, MatchState, PlayerScore,
    ScoreField, Timestamp,
};

fn at(millis: u64) -> Timestamp {
    Timestamp::from_millis(millis)
}

fn five_minute_match() -> BJJMatch {
    let one = Competitor::new("Shane", "Poppleton", "Fight Club Jiu-Jitsu", Country::Australia);
    let two = Competitor::new("Ronaldo", "Mendes Dos Santos", "Caza BJJ", Country::Brazil);
    BJJMatch::new(one, two, 5, 2, 7)
}

#[test]
fn competitor_carries_its_details() {
    let competitor = Competitor::new("Shane", "Poppleton", "Fight Club Jiu-Jitsu", Country::Australia);
    assert_eq!(competitor.first_name, "Shane");
    assert_eq!(competitor.last_name, "Poppleton");
    assert_eq!(competitor.team_name, "Fight Club Jiu-Jitsu");
    assert_eq!(competitor.country, Country::Australia);
    let other = Competitor::new("", "X", "Y", Country::UnitedStates);
    assert_eq!(other.first_name, "");
    assert_eq!(other.country, Country::UnitedStates);
}

#[test]
fn default_competitor_is_a_placeholder() {
    let competitor = Competitor::default();
    assert_eq!(competitor.first_name, "Competitor");
    assert_eq!(competitor.last_name, "Name");
    assert_eq!(competitor.team_name, "BJJ Team");
    assert_eq!(competitor.country, Country::Australia);
}

#[test]
fn default_match_information() {
    let info = MatchInformation::default();
    assert_eq!(info.competitor_one.first_name, "Competitor");
    assert_eq!(info.competitor_one.last_name, "One");
    assert_eq!(info.competitor_one.team_name, "BJJ Team");
    assert_eq!(info.competitor_two.first_name, "Competitor");
    assert_eq!(info.competitor_two.last_name, "Two");
    assert_eq!(info.competitor_two.country, Country::Australia);
    assert_eq!(info.match_time_minutes, 5);
    assert_eq!(info.mat_number, 1);
    assert_eq!(info.fight_number, 1);
}

#[test]
fn default_scores_are_zero() {
    let zero = PlayerScore { points: 0, advantages: 0, penalties: 0 };
    assert_eq!(PlayerScore::default(), zero);
    let scores = MatchScore::default();
    assert_eq!(scores.competitor_one_score, zero);
    assert_eq!(scores.competitor_two_score, zero);
    assert_eq!(scores.time_remaining_milliseconds, 0);
}

#[test]
fn new_match_is_not_started() {
    let bjj_match = five_minute_match();
    assert_eq!(bjj_match.info.competitor_one.first_name, "Shane");
    assert_eq!(bjj_match.info.competitor_two.last_name, "Mendes Dos Santos");
    assert_eq!(bjj_match.info.competitor_two.country, Country::Brazil);
    assert_eq!(bjj_match.info.match_time_minutes, 5);
    assert_eq!(bjj_match.info.mat_number, 2);
    assert_eq!(bjj_match.info.fight_number, 7);
    assert_eq!(bjj_match.score, MatchScore::default());
    assert_eq!(bjj_match.get_match_state(), MatchState::NotStarted);
    assert_eq!(bjj_match.match_state_at(at(123_456)), MatchState::NotStarted);
    assert_eq!(bjj_match.time.duration_millis(), 300_000);
    assert_eq!(bjj_match.time.get_remaining_time_milliseconds(), 300_000);
    assert!(!bjj_match.time.is_running());
}

#[test]
fn default_match_takes_its_duration_when_started() {
    let mut bjj_match = BJJMatch::default();
    assert_eq!(bjj_match.get_match_state(), MatchState::NotStarted);
    assert_eq!(bjj_match.time.duration_millis(), 0);
    assert_eq!(bjj_match.info.match_time_minutes, 5);
    bjj_match.info.match_time_minutes = 6;
    bjj_match.start_at(at(10));
    assert_eq!(bjj_match.time.duration_millis(), 360_000);
    assert_eq!(bjj_match.match_state_at(at(10)), MatchState::InProgress);
    assert_eq!(bjj_match.time.remaining_time_milliseconds_at(at(10)), 360_000);
}

#[test]
fn five_minute_match_scenario() {
    let mut bjj_match = five_minute_match();
    bjj_match.start();
    assert_eq!(bjj_match.get_match_state(), MatchState::InProgress);
    let remaining = bjj_match.time.get_remaining_time_milliseconds();
    assert!(remaining <= 300_000);
    assert!(remaining > 290_000);

    bjj_match.add_points(2, CompetitorNumber::One);
    bjj_match.add_points(3, CompetitorNumber::Two);
    assert_eq!(bjj_match.score.competitor_one_score.points, 2);
    assert_eq!(bjj_match.score.competitor_two_score.points, 3);

    bjj_match.subtract_point(CompetitorNumber::One);
    assert_eq!(bjj_match.score.competitor_one_score.points, 1);
    bjj_match.subtract_point(CompetitorNumber::One);
    assert_eq!(bjj_match.score.competitor_one_score.points, 0);
    bjj_match.subtract_point(CompetitorNumber::One);
    assert_eq!(bjj_match.score.competitor_one_score.points, 0);
    assert_eq!(bjj_match.score.competitor_two_score.points, 3);
}

#[test]
fn five_minute_match_scenario_at_given_instants() {
    let mut bjj_match = five_minute_match();
    bjj_match.start_at(at(1_000));
    assert_eq!(bjj_match.match_state_at(at(1_000)), MatchState::InProgress);
    assert_eq!(bjj_match.time.remaining_time_milliseconds_at(at(1_000)), 300_000);
    assert_eq!(bjj_match.time.remaining_time_milliseconds_at(at(61_250)), 239_750);
    assert_eq!(bjj_match.match_state_at(at(300_999)), MatchState::InProgress);
    assert_eq!(bjj_match.match_state_at(at(301_000)), MatchState::Finished);
    assert_eq!(bjj_match.match_state_at(at(999_999)), MatchState::Finished);
}

#[test]
fn match_stopped_at_exactly_its_duration_is_finished() {
    let mut bjj_match = five_minute_match();
    bjj_match.start_at(at(50));
    bjj_match.toggle_start_stop_at(at(300_050));
    assert!(!bjj_match.time.is_running());
    assert_eq!(bjj_match.time.elapsed_millis(), bjj_match.time.duration_millis());
    assert_eq!(bjj_match.time.get_remaining_time_milliseconds(), 0);
    assert_eq!(bjj_match.get_match_state(), MatchState::Finished);
    assert_eq!(bjj_match.match_state_at(at(0)), MatchState::Finished);
    bjj_match.toggle_start_stop_at(at(400_000));
    assert_eq!(bjj_match.match_state_at(at(400_000)), MatchState::Finished);
}

#[test]
fn pausing_keeps_the_match_in_progress() {
    let mut bjj_match = five_minute_match();
    bjj_match.start_at(at(0));
    bjj_match.toggle_start_stop_at(at(100_000));
    assert!(!bjj_match.time.is_running());
    assert_eq!(bjj_match.match_state_at(at(100_000)), MatchState::InProgress);
    assert_eq!(bjj_match.match_state_at(at(100_000_000)), MatchState::InProgress);
    assert_eq!(bjj_match.get_match_state(), MatchState::InProgress);
    assert_eq!(bjj_match.time.get_remaining_time_milliseconds(), 200_000);
    bjj_match.toggle_start_stop_at(at(500_000));
    assert!(bjj_match.time.is_running());
    assert_eq!(bjj_match.time.remaining_time_milliseconds_at(at(500_000)), 200_000);
    assert_eq!(bjj_match.time.remaining_time_milliseconds_at(at(600_000)), 100_000);
    assert_eq!(bjj_match.match_state_at(at(700_000)), MatchState::Finished);
}

#[test]
fn toggle_starts_a_match_that_was_never_started() {
    let mut bjj_match = five_minute_match();
    bjj_match.toggle_start_stop_at(at(9));
    assert!(bjj_match.time.is_running());
    assert_eq!(bjj_match.match_state_at(at(9)), MatchState::InProgress);
}

#[test]
fn toggle_by_the_system_clock_turns_the_clock_over() {
    let mut bjj_match = five_minute_match();
    bjj_match.start();
    assert!(bjj_match.time.is_running());
    bjj_match.toggle_start_stop();
    assert!(!bjj_match.time.is_running());
    assert_eq!(bjj_match.get_match_state(), MatchState::InProgress);
    bjj_match.toggle_start_stop();
    assert!(bjj_match.time.is_running());
}

#[test]
fn start_takes_over_an_edited_duration_only_when_called() {
    let mut bjj_match = five_minute_match();
    bjj_match.info.match_time_minutes = 10;
    assert_eq!(bjj_match.time.duration_millis(), 300_000);
    bjj_match.start_at(at(0));
    assert_eq!(bjj_match.time.duration_millis(), 600_000);
    bjj_match.toggle_start_stop_at(at(1_000));
    bjj_match.info.match_time_minutes = 1;
    bjj_match.toggle_start_stop_at(at(2_000));
    assert_eq!(bjj_match.time.duration_millis(), 600_000);
    assert_eq!(bjj_match.time.remaining_time_milliseconds_at(at(2_000)), 599_000);
    bjj_match.start_at(at(3_000));
    assert_eq!(bjj_match.time.duration_millis(), 60_000);
    assert_eq!(bjj_match.time.remaining_time_milliseconds_at(at(3_000)), 58_000);
}

#[test]
fn zero_minute_match_finishes_as_it_starts() {
    let one = Competitor::default();
    let two = Competitor::default();
    let mut bjj_match = BJJMatch::new(one, two, 0, 1, 1);
    assert_eq!(bjj_match.get_match_state(), MatchState::NotStarted);
    bjj_match.start_at(at(77));
    assert_eq!(bjj_match.match_state_at(at(77)), MatchState::Finished);
}

#[test]
fn advantages_and_penalties_go_up_by_one() {
    let mut bjj_match = five_minute_match();
    bjj_match.add_advantage(CompetitorNumber::One);
    bjj_match.add_advantage(CompetitorNumber::One);
    bjj_match.add_advantage(CompetitorNumber::Two);
    bjj_match.add_penalty(CompetitorNumber::Two);
    bjj_match.add_penalty(CompetitorNumber::Two);
    bjj_match.add_penalty(CompetitorNumber::Two);
    bjj_match.add_penalty(CompetitorNumber::One);
    assert_eq!(bjj_match.score.competitor_one_score, PlayerScore { points: 0, advantages: 2, penalties: 1 });
    assert_eq!(bjj_match.score.competitor_two_score, PlayerScore { points: 0, advantages: 1, penalties: 3 });
}

#[test]
fn subtracting_takes_one_and_stops_at_zero() {
    let mut bjj_match = five_minute_match();
    bjj_match.add_points(4, CompetitorNumber::Two);
    bjj_match.add_advantage(CompetitorNumber::Two);
    bjj_match.add_penalty(CompetitorNumber::Two);
    bjj_match.add_penalty(CompetitorNumber::Two);

    bjj_match.subtract_point(CompetitorNumber::Two);
    assert_eq!(bjj_match.score.competitor_two_score, PlayerScore { points: 3, advantages: 1, penalties: 2 });
    bjj_match.subtract_advantage(CompetitorNumber::Two);
    assert_eq!(bjj_match.score.competitor_two_score, PlayerScore { points: 3, advantages: 0, penalties: 2 });
    bjj_match.subtract_advantage(CompetitorNumber::Two);
    assert_eq!(bjj_match.score.competitor_two_score, PlayerScore { points: 3, advantages: 0, penalties: 2 });
    bjj_match.subtract_penalty(CompetitorNumber::Two);
    bjj_match.subtract_penalty(CompetitorNumber::Two);
    bjj_match.subtract_penalty(CompetitorNumber::Two);
    assert_eq!(bjj_match.score.competitor_two_score, PlayerScore { points: 3, advantages: 0, penalties: 0 });

    bjj_match.subtract_point(CompetitorNumber::One);
    bjj_match.subtract_advantage(CompetitorNumber::One);
    bjj_match.subtract_penalty(CompetitorNumber::One);
    assert_eq!(bjj_match.score.competitor_one_score, PlayerScore::default());
}

#[test]
fn more_subtracts_than_adds_end_at_zero() {
    let mut bjj_match = five_minute_match();
    bjj_match.add_points(2, CompetitorNumber::One);
    bjj_match.add_points(3, CompetitorNumber::One);
    bjj_match.add_points(4, CompetitorNumber::One);
    for _ in 0..4 {
        bjj_match.subtract_point(CompetitorNumber::One);
    }
    assert_eq!(bjj_match.score.competitor_one_score.points, 5);
    for _ in 0..20 {
        bjj_match.subtract_point(CompetitorNumber::One);
    }
    assert_eq!(bjj_match.score.competitor_one_score.points, 0);
}

#[test]
fn a_subtract_at_zero_is_not_owed_later() {
    let mut bjj_match = five_minute_match();
    bjj_match.subtract_point(CompetitorNumber::One);
    bjj_match.add_points(2, CompetitorNumber::One);
    assert_eq!(bjj_match.score.competitor_one_score.points, 2);
}

#[test]
fn scoring_is_allowed_in_every_state_and_leaves_the_clock_alone() {
    let mut bjj_match = five_minute_match();
    bjj_match.add_points(2, CompetitorNumber::One);
    assert_eq!(bjj_match.get_match_state(), MatchState::NotStarted);
    bjj_match.start_at(at(0));
    bjj_match.toggle_start_stop_at(at(300_000));
    assert_eq!(bjj_match.get_match_state(), MatchState::Finished);
    bjj_match.add_points(3, CompetitorNumber::One);
    bjj_match.subtract_point(CompetitorNumber::One);
    bjj_match.add_advantage(CompetitorNumber::Two);
    assert_eq!(bjj_match.score.competitor_one_score.points, 4);
    assert_eq!(bjj_match.score.competitor_two_score.advantages, 1);
    assert_eq!(bjj_match.get_match_state(), MatchState::Finished);
    assert_eq!(bjj_match.time.elapsed_millis(), 300_000);
}

#[test]
fn player_score_subtract_names_its_field() {
    let mut score = PlayerScore { points: 1, advantages: 2, penalties: 0 };
    score.subtract(ScoreField::Points);
    assert_eq!(score, PlayerScore { points: 0, advantages: 2, penalties: 0 });
    score.subtract(ScoreField::Points);
    assert_eq!(score, PlayerScore { points: 0, advantages: 2, penalties: 0 });
    score.subtract(ScoreField::Advantages);
    assert_eq!(score, PlayerScore { points: 0, advantages: 1, penalties: 0 });
    score.subtract(ScoreField::Penalties);
    assert_eq!(score, PlayerScore { points: 0, advantages: 1, penalties: 0 });
}

#[test]
fn points_can_reach_the_largest_count() {
    let mut bjj_match = five_minute_match();
    bjj_match.add_points(usize::MAX - 1, CompetitorNumber::Two);
    bjj_match.add_points(1, CompetitorNumber::Two);
    assert_eq!(bjj_match.score.competitor_two_score.points, usize::MAX);
    bjj_match.subtract_point(CompetitorNumber::Two);
    assert_eq!(bjj_match.score.competitor_two_score.points, usize::MAX - 1);
}
