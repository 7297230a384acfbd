use matchday::cache::Cache;
use matchday::leagues::KeySet;
use matchday::models::Address;
use matchday::models::Competition;
use matchday::models::DetailedScore;
use matchday::models::Match;
use matchday::models::Matches;
use matchday::models::Score;
use matchday::models::Team;
use matchday::models::Timestamp;
use matchday::render::answer;
use matchday::render::decimal;
use matchday::render::emblem;
use matchday::render::heading;
use matchday::render::kickoff_text;
use matchday::render::league_fields;
use matchday::render::match_fields;
use matchday::render::match_line;
use matchday::render::match_title;
use matchday::render::pong;
use matchday::render::resolve_score;
use matchday::render::suggestions;
use matchday::render::Answer;
use matchday::render::CREDIT;
use matchday::render::DISPLAY_OFFSET_SECS;
use matchday::render::DISPLAY_PATTERN;
use matchday::render::FOOTBALL_DATA_ICON;
use matchday::render::HELP_NOTE;
use matchday::render::INVALID_LEAGUE;
use matchday::render::LEAGUES_HINT;
use matchday::render::LEAGUES_TITLE;
use matchday::render::NO_MATCHES;

fn goals(home: Option<usize>, away: Option<usize>) -> DetailedScore {
    DetailedScore { home, away }
}

fn score(half_time: DetailedScore, full_time: DetailedScore) -> Score {
    Score { winner: None, duration: "REGULAR".to_string(), half_time, full_time }
}

fn eleven(id: usize, short_name: &str) -> Team {
    Team {
        id,
        name: format!("{short_name} Football Club"),
        short_name: short_name.to_string(),
        tla: short_name.to_uppercase(),
        crest: None,
    }
}

fn meeting(id: usize, matchday: Option<usize>, result: Score, emblem: Option<&str>) -> Match {
    Match {
        competition: Competition {
            id: 2021,
            name: "Premier League".to_string(),
            code: "PL".to_string(),
            competition_type: "LEAGUE".to_string(),
            emblem: emblem.map(|address| Address::parse(address).unwrap()),
        },
        id,
        utc_date: Timestamp { seconds: 1_704_312_000, nanos: 0 },
        status: "FINISHED".to_string(),
        matchday,
        stage: "REGULAR_SEASON".to_string(),
        group: None,
        last_updated: Timestamp { seconds: 1_704_320_000, nanos: 0 },
        home_team: eleven(57, "Arsenal"),
        away_team: eleven(61, "Chelsea"),
        score: result,
    }
}

fn text(name: &str, value: &str) -> (String, String) {
    (name.to_string(), value.to_string())
}

#[test]
fn decimal_writes_digits_without_leading_zeros() {
    assert_eq!(decimal(0), "0");
    assert_eq!(decimal(7), "7");
    assert_eq!(decimal(9), "9");
    assert_eq!(decimal(10), "10");
    assert_eq!(decimal(42), "42");
    assert_eq!(decimal(100), "100");
    assert_eq!(decimal(1_234_567_890), "1234567890");
    assert_eq!(decimal(u64::MAX as u128), u64::MAX.to_string());
    assert_eq!(decimal(u128::MAX), "340282366920938463463374607431768211455");
}

#[test]
fn full_time_score_is_preferred() {
    let both = score(goals(Some(1), Some(0)), goals(Some(3), Some(2)));
    assert_eq!(resolve_score(&both), (3, 2));
    let only_full = score(goals(None, None), goals(Some(0), Some(4)));
    assert_eq!(resolve_score(&only_full), (0, 4));
}

#[test]
fn half_time_score_stands_in_for_a_missing_full_time_score() {
    let at_half = score(goals(Some(1), Some(1)), goals(None, None));
    assert_eq!(resolve_score(&at_half), (1, 1));
    let nil_nil = score(goals(Some(0), Some(0)), goals(None, None));
    assert_eq!(resolve_score(&nil_nil), (0, 0));
}

#[test]
fn missing_scores_show_as_nil_nil() {
    let nothing = score(goals(None, None), goals(None, None));
    assert_eq!(resolve_score(&nothing), (0, 0));
}

#[test]
fn one_sided_scores_count_as_missing() {
    let half_full = score(goals(Some(2), Some(1)), goals(Some(3), None));
    assert_eq!(resolve_score(&half_full), (2, 1));
    let other_half = score(goals(Some(2), Some(1)), goals(None, Some(3)));
    assert_eq!(resolve_score(&other_half), (2, 1));
    let broken = score(goals(Some(2), None), goals(None, Some(3)));
    assert_eq!(resolve_score(&broken), (0, 0));
}

#[test]
fn title_counts_the_match_and_names_the_round() {
    assert_eq!(match_title(1, Some(20)), "Match 1 - Round 20");
    assert_eq!(match_title(12, Some(3)), "Match 12 - Round 3");
    assert_eq!(match_title(1, None), "Match 1");
    assert_eq!(match_title(10, None), "Match 10");
    assert_eq!(match_title(0, Some(0)), "Match 0 - Round 0");
}

#[test]
fn kickoff_is_shown_seven_hours_east_of_utc() {
    let evening = Timestamp { seconds: 1_704_312_000, nanos: 0 };
    assert_eq!(kickoff_text(&evening), Some("04/01/2024 03:00 +07:00".to_string()));
    let epoch = Timestamp { seconds: 0, nanos: 0 };
    assert_eq!(kickoff_text(&epoch), Some("01/01/1970 07:00 +07:00".to_string()));
    let with_nanos = Timestamp { seconds: 59, nanos: 999_999_999 };
    assert_eq!(kickoff_text(&with_nanos), Some("01/01/1970 07:00 +07:00".to_string()));
    assert_eq!(DISPLAY_OFFSET_SECS, 7 * 3600);
    assert_eq!(DISPLAY_PATTERN, "%d/%m/%Y %R %Z");
}

#[test]
fn kickoff_outside_the_range_of_the_clock_is_not_shown() {
    assert_eq!(kickoff_text(&Timestamp { seconds: i64::MAX, nanos: 0 }), None);
    assert_eq!(kickoff_text(&Timestamp { seconds: i64::MIN, nanos: 0 }), None);
    assert_eq!(kickoff_text(&Timestamp { seconds: 0, nanos: u32::MAX }), None);
}

#[test]
fn line_shows_both_sides_the_goals_and_the_kickoff() {
    let played = meeting(1, Some(20), score(goals(Some(1), Some(0)), goals(Some(2), Some(1))), None);
    assert_eq!(
        match_line(&played, "04/01/2024 03:00 +07:00"),
        "**Arsenal 2 - 1 Chelsea** (04/01/2024 03:00 +07:00)"
    );
    let coming = meeting(2, None, score(goals(None, None), goals(None, None)), None);
    assert_eq!(match_line(&coming, ""), "**Arsenal 0 - 0 Chelsea** ()");
    let rout = meeting(3, None, score(goals(Some(5), Some(0)), goals(Some(12), Some(10))), None);
    assert_eq!(match_line(&rout, "x"), "**Arsenal 12 - 10 Chelsea** (x)");
}

#[test]
fn fields_number_the_matches_from_one() {
    let records = vec![
        meeting(1, Some(20), score(goals(Some(1), Some(0)), goals(Some(2), Some(1))), None),
        meeting(2, None, score(goals(Some(0), Some(3)), goals(None, None)), None),
    ];
    assert_eq!(
        match_fields(&records),
        Some(vec![
            text("Match 1 - Round 20", "**Arsenal 2 - 1 Chelsea** (04/01/2024 03:00 +07:00)"),
            text("Match 2", "**Arsenal 0 - 3 Chelsea** (04/01/2024 03:00 +07:00)"),
        ])
    );
    assert_eq!(match_fields(&Vec::new()), Some(Vec::new()));
}

#[test]
fn fields_are_refused_where_a_kickoff_cannot_be_shown() {
    let mut lost = meeting(2, None, score(goals(None, None), goals(None, None)), None);
    lost.utc_date = Timestamp { seconds: i64::MAX, nanos: 0 };
    let records =
        vec![meeting(1, None, score(goals(None, None), goals(None, None)), None), lost];
    assert_eq!(match_fields(&records), None);
}

#[test]
fn emblem_is_that_of_the_first_match() {
    let with = meeting(1, None, score(goals(None, None), goals(None, None)), Some("https://crests.football-data.org/PL.png"));
    let without = meeting(2, None, score(goals(None, None), goals(None, None)), None);
    assert_eq!(emblem(&vec![with.clone(), without.clone()]), "https://crests.football-data.org/PL.png");
    assert_eq!(emblem(&vec![without, with]), "");
    assert_eq!(emblem(&Vec::new()), "");
}

#[test]
fn heading_sets_the_name_in_bold() {
    assert_eq!(heading("Premier League"), "**Premier League**");
    assert_eq!(heading(""), "****");
}

#[test]
fn answer_for_an_unknown_league_is_invalid() {
    let keys = KeySet::standard();
    let mut cache = Cache::new();
    assert_eq!(answer(&keys, &cache, "xyz"), Some(Answer::Invalid));
    cache.put("xyz", vec![meeting(1, None, score(goals(None, None), goals(None, None)), None)]);
    assert_eq!(answer(&keys, &cache, "xyz"), Some(Answer::Invalid));
    assert_eq!(answer(&keys, &cache, "XYZ"), Some(Answer::Invalid));
}

#[test]
fn answer_for_a_league_without_matches_has_its_title() {
    let keys = KeySet::standard();
    let cache = Cache::new();
    assert_eq!(
        answer(&keys, &cache, "pl"),
        Some(Answer::Empty { title: "**Premier League**".to_string() })
    );
    assert_eq!(
        answer(&keys, &cache, "BSA"),
        Some(Answer::Empty { title: "**Campeonato Brasileiro Séria A**".to_string() })
    );
}

#[test]
fn answer_for_a_league_with_matches_lists_them() {
    let keys = KeySet::standard();
    let mut cache = Cache::new();
    let body = Matches {
        matches: vec![
            meeting(1, Some(20), score(goals(Some(1), Some(0)), goals(Some(2), Some(1))), Some("https://crests.football-data.org/PL.png")),
            meeting(2, Some(20), score(goals(None, None), goals(None, None)), None),
        ],
    };
    cache.put("pl", body.matches);
    let expected = Answer::Listing {
        title: "**Premier League**".to_string(),
        thumbnail: "https://crests.football-data.org/PL.png".to_string(),
        fields: vec![
            text("Match 1 - Round 20", "**Arsenal 2 - 1 Chelsea** (04/01/2024 03:00 +07:00)"),
            text("Match 2 - Round 20", "**Arsenal 0 - 0 Chelsea** (04/01/2024 03:00 +07:00)"),
        ],
    };
    assert_eq!(answer(&keys, &cache, "pl"), Some(expected.clone()));
    assert_eq!(answer(&keys, &cache, "PL"), Some(expected));
}

#[test]
fn answer_is_refused_where_a_kickoff_cannot_be_shown() {
    let keys = KeySet::standard();
    let mut cache = Cache::new();
    let mut lost = meeting(1, None, score(goals(None, None), goals(None, None)), None);
    lost.utc_date = Timestamp { seconds: i64::MIN, nanos: 0 };
    cache.put("pl", vec![lost]);
    assert_eq!(answer(&keys, &cache, "pl"), None);
    assert_eq!(answer(&keys, &cache, "sa"), Some(Answer::Empty { title: "**Serie A**".to_string() }));
}

#[test]
fn league_list_follows_the_registry() {
    let fields = league_fields(&KeySet::standard());
    assert_eq!(fields.len(), 13);
    assert_eq!(fields[0], text("wc", "FIFA World Cup"));
    assert_eq!(fields[4], text("bsa", "Campeonato Brasileiro Séria A"));
    assert_eq!(fields[11], text("pl", "Premier League"));
    assert_eq!(fields[12], text("cli", "Copa Libertadores"));
    assert!(league_fields(&KeySet::new()).is_empty());
}

#[test]
fn suggestions_are_the_leagues_whose_key_holds_the_input() {
    let keys = KeySet::standard();
    assert_eq!(
        suggestions(&keys, "p"),
        vec![
            text("pd - Primera Division (La Liga)", "pd"),
            text("ppl - Primeira Liga", "ppl"),
            text("pl - Premier League", "pl"),
        ]
    );
    assert_eq!(
        suggestions(&keys, "pl"),
        vec![text("ppl - Primeira Liga", "ppl"), text("pl - Premier League", "pl")]
    );
    assert_eq!(
        suggestions(&keys, "cl"),
        vec![text("cl - UEFA Champions League", "cl"), text("cli - Copa Libertadores", "cli")]
    );
    assert_eq!(suggestions(&keys, "1"), vec![text("bl1 - Bundesliga", "bl1"), text("fl1 - Ligue 1", "fl1")]);
    assert_eq!(suggestions(&keys, "PL"), Vec::new());
    assert_eq!(suggestions(&keys, "premier"), Vec::new());
    assert_eq!(suggestions(&keys, "").len(), 13);
    assert_eq!(suggestions(&KeySet::new(), ""), Vec::new());
}

#[test]
fn pong_reports_the_milliseconds() {
    assert_eq!(pong(0), "**Pong! 0 ms**");
    assert_eq!(pong(42), "**Pong! 42 ms**");
    assert_eq!(pong(1500), "**Pong! 1500 ms**");
}

#[test]
fn fixed_texts_are_as_shown() {
    assert_eq!(NO_MATCHES, "No matches are scheduled for this week");
    assert_eq!(INVALID_LEAGUE, "Invalid league ID. For a list of valid leagues, use /leagues");
    assert_eq!(CREDIT, "Data from https://www.football-data.org");
    assert_eq!(FOOTBALL_DATA_ICON, "https://www.football-data.org/assets/favicons/favicon-32x32.png");
    assert_eq!(LEAGUES_TITLE, "**Leagues**");
    assert!(LEAGUES_HINT.starts_with("Use the short league name to query matches"));
    assert!(HELP_NOTE.starts_with("This is a bot to post current week's football matches."));
}
