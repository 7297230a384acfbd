use matchday::cache::Cache;
use matchday::models::Competition;
use matchday::models::DetailedScore;
use matchday::models::Match;
use matchday::models::Score;
use matchday::models::Team;
use matchday::models::Timestamp;

fn side(id: usize, name: &str) -> Team {
    Team {
        id,
        name: format!("{name} FC"),
        short_name: name.to_string(),
        tla: name.to_uppercase(),
        crest: None,
    }
}

fn fixture(id: usize) -> Match {
    Match {
        competition: Competition {
            id: 2021,
            name: "Premier League".to_string(),
            code: "PL".to_string(),
            competition_type: "LEAGUE".to_string(),
            emblem: None,
        },
        id,
        utc_date: Timestamp { seconds: 1_704_312_000, nanos: 0 },
        status: "TIMED".to_string(),
        matchday: Some(20),
        stage: "REGULAR_SEASON".to_string(),
        group: None,
        last_updated: Timestamp { seconds: 1_704_000_000, nanos: 0 },
        home_team: side(1, "Home"),
        away_team: side(2, "Away"),
        score: Score {
            winner: None,
            duration: "REGULAR".to_string(),
            half_time: DetailedScore { home: None, away: None },
            full_time: DetailedScore { home: None, away: None },
        },
    }
}

#[test]
fn new_cache_holds_nothing() {
    let cache = Cache::new();
    assert_eq!(cache.len(), 0);
    assert!(cache.get("pl").is_none());
    assert!(cache.get_folded("pl").is_none());
}

#[test]
fn put_then_get_gives_the_records() {
    let mut cache = Cache::new();
    let records = vec![fixture(1), fixture(2)];
    cache.put("pl", records.clone());
    assert_eq!(cache.len(), 1);
    assert_eq!(cache.get("pl"), Some(&records));
    assert!(cache.get("sa").is_none());
}

#[test]
fn put_replaces_what_was_stored() {
    let mut cache = Cache::new();
    cache.put("pl", vec![fixture(1), fixture(2)]);
    cache.put("pl", vec![fixture(3)]);
    assert_eq!(cache.len(), 1);
    assert_eq!(cache.get("pl"), Some(&vec![fixture(3)]));
}

#[test]
fn keys_are_folded_to_lower_case() {
    let mut cache = Cache::new();
    cache.put("PL", vec![fixture(1)]);
    assert_eq!(cache.get("pl"), Some(&vec![fixture(1)]));
    assert_eq!(cache.get("Pl"), Some(&vec![fixture(1)]));
    assert_eq!(cache.get("PL"), Some(&vec![fixture(1)]));
    assert_eq!(cache.get_folded("pl"), Some(&vec![fixture(1)]));
    assert!(cache.get_folded("PL").is_none());
    cache.put("pL", vec![fixture(2)]);
    assert_eq!(cache.len(), 1);
    assert_eq!(cache.get("pl"), Some(&vec![fixture(2)]));
    cache.remove("Pl");
    assert_eq!(cache.len(), 0);
    assert!(cache.get("pl").is_none());
}

#[test]
fn remove_drops_one_league_only() {
    let mut cache = Cache::new();
    cache.put("pl", vec![fixture(1)]);
    cache.put("sa", vec![fixture(2)]);
    cache.put("cl", vec![fixture(3)]);
    cache.remove("sa");
    assert_eq!(cache.len(), 2);
    assert_eq!(cache.get("pl"), Some(&vec![fixture(1)]));
    assert!(cache.get("sa").is_none());
    assert_eq!(cache.get("cl"), Some(&vec![fixture(3)]));
}

#[test]
fn remove_of_an_absent_key_changes_nothing() {
    let mut cache = Cache::new();
    cache.remove("pl");
    assert_eq!(cache.len(), 0);
    cache.put("pl", vec![fixture(1)]);
    cache.remove("sa");
    assert_eq!(cache.len(), 1);
    assert_eq!(cache.get("pl"), Some(&vec![fixture(1)]));
}

#[test]
fn put_keeps_the_order_of_the_records() {
    let mut cache = Cache::new();
    let records = vec![fixture(9), fixture(3), fixture(7)];
    cache.put("pl", records);
    let stored = cache.get("pl").unwrap();
    assert_eq!(stored.len(), 3);
    assert_eq!(stored[0].id, 9);
    assert_eq!(stored[1].id, 3);
    assert_eq!(stored[2].id, 7);
}

#[test]
fn put_stores_an_empty_list_as_it_is() {
    let mut cache = Cache::new();
    cache.put("pl", Vec::new());
    assert_eq!(cache.len(), 1);
    assert_eq!(cache.get("pl"), Some(&Vec::new()));
}
