use stats_db::db_constants::KeyName;
use stats_db::error::ValidationError;
use stats_db::query_parser::parse_query;
use stats_db::stat_query::{Count, Sort, StatQuery};

fn fields(pairs: &[(&str, &str)]) -> Vec<(String, String)> {
    pairs
        .iter()
        .map(|(k, v)| (k.to_string(), v.to_string()))
        .collect()
}

#[test]
fn key_names_per_index() {
    let primary = KeyName::from_index_name(None);
    assert_eq!(primary.as_tuple(), ("PK", "SK"));
    let lsi = KeyName::from_index_name(Some("LSI1"));
    assert_eq!(lsi.as_tuple(), ("PK", "LSI-SK"));
    let gsi1 = KeyName::from_index_name(Some("GSI1"));
    assert_eq!(gsi1.as_tuple(), ("GSI1-PK", "GSI1-SK"));
    let gsi2 = KeyName::from_index_name(Some("GSI2"));
    assert_eq!(gsi2.as_tuple(), ("GSI2-PK", "GSI2-SK"));
}

#[test]
fn discrimination_user_and_day() {
    let q = parse_query(&fields(&[
        ("user", "alice"),
        ("game", "tetris"),
        ("stat", "lines"),
        ("day", "1700000000000"),
    ]))
    .unwrap();
    assert!(matches!(q, StatQuery::UserDailyHighScoreQuery(_)));
}

#[test]
fn discrimination_user_no_day() {
    let q = parse_query(&fields(&[
        ("user", "alice"),
        ("game", "tetris"),
        ("stat", "lines"),
    ]))
    .unwrap();
    assert!(matches!(q, StatQuery::UserHighScoreQuery(_)));
}

#[test]
fn discrimination_day_no_user() {
    let q = parse_query(&fields(&[
        ("game", "tetris"),
        ("stat", "lines"),
        ("day", "1700000000000"),
    ]))
    .unwrap();
    assert!(matches!(q, StatQuery::DailyHighScoreQuery(_)));
}

#[test]
fn discrimination_neither() {
    let q = parse_query(&fields(&[("game", "tetris"), ("stat", "lines")])).unwrap();
    assert!(matches!(q, StatQuery::UniversalHighScoreQuery(_)));
}

#[test]
fn universal_query_plan() {
    let q = parse_query(&fields(&[
        ("game", "tetris"),
        ("stat", "lines"),
        ("count", "3"),
    ]))
    .unwrap();
    let p = q.query_plan();
    assert_eq!(p.index_name.as_deref(), Some("GSI2"));
    assert_eq!(p.key_names.as_tuple(), ("GSI2-PK", "GSI2-SK"));
    assert_eq!(p.partition_key, "Game#tetris#Stat#lines");
    assert_eq!(p.sort_key_prefix, "Value#");
    assert!(!p.scan_forward);
    assert_eq!(p.limit, 3);
}

#[test]
fn user_daily_query_plan_ascending() {
    let q = parse_query(&fields(&[
        ("user", "alice"),
        ("game", "tetris"),
        ("stat", "lines"),
        ("day", "1700000000000"),
        ("count", "5"),
        ("sort", "ascending"),
    ]))
    .unwrap();
    let p = q.query_plan();
    assert!(p.index_name.is_none());
    assert_eq!(p.key_names.as_tuple(), ("PK", "SK"));
    assert_eq!(p.partition_key, "User#alice");
    assert_eq!(p.sort_key_prefix, "Game#tetris#Day#1700000000000#Stat#lines");
    assert!(p.scan_forward);
    assert_eq!(p.limit, 5);
}

#[test]
fn user_high_score_plan_uses_lsi() {
    let q = parse_query(&fields(&[
        ("user", "alice"),
        ("game", "tetris"),
        ("stat", "lines"),
    ]))
    .unwrap();
    let p = q.query_plan();
    assert_eq!(p.index_name.as_deref(), Some("LSI1"));
    assert_eq!(p.key_names.as_tuple(), ("PK", "LSI-SK"));
    assert_eq!(p.partition_key, "User#alice");
    assert_eq!(p.sort_key_prefix, "Game#tetris#Stat#lines");
}

#[test]
fn daily_plan_uses_gsi1() {
    let q = parse_query(&fields(&[
        ("game", "tetris"),
        ("stat", "lines"),
        ("day", "86400000"),
    ]))
    .unwrap();
    let p = q.query_plan();
    assert_eq!(p.index_name.as_deref(), Some("GSI1"));
    assert_eq!(p.key_names.as_tuple(), ("GSI1-PK", "GSI1-SK"));
    assert_eq!(p.partition_key, "Game#tetris#Stat#lines");
    assert_eq!(p.sort_key_prefix, "Day#86400000");
}

#[test]
fn unknown_field_rejected() {
    let r = parse_query(&fields(&[("user", "alice"), ("foo", "bar")]));
    assert!(matches!(r, Err(ValidationError::UnknownField(f)) if f == "foo"));
}

#[test]
fn duplicate_field_rejected() {
    let r = parse_query(&fields(&[
        ("game", "tetris"),
        ("stat", "lines"),
        ("game", "chess"),
    ]));
    assert!(matches!(r, Err(ValidationError::DuplicateField(f)) if f == "game"));
}

#[test]
fn missing_required_fields_rejected() {
    let r = parse_query(&fields(&[("stat", "lines")]));
    assert!(matches!(r, Err(ValidationError::MissingField(f)) if f == "game"));
    let r = parse_query(&fields(&[("game", "tetris")]));
    assert!(matches!(r, Err(ValidationError::MissingField(f)) if f == "stat"));
}

#[test]
fn count_clamped_to_range() {
    for bad in ["0", "1001", "100000000000000000000000000000000000000", "abc", "-1", ""] {
        let r = parse_query(&fields(&[
            ("game", "tetris"),
            ("stat", "lines"),
            ("count", bad),
        ]));
        assert!(matches!(r, Err(ValidationError::BadCount)), "count {bad:?} accepted");
    }
    for good in ["1", "1000", "500"] {
        let q = parse_query(&fields(&[
            ("game", "tetris"),
            ("stat", "lines"),
            ("count", good),
        ]))
        .unwrap();
        let p = q.query_plan();
        assert_eq!(p.limit, good.parse::<u32>().unwrap());
    }
}

#[test]
fn count_defaults_to_one() {
    let q = parse_query(&fields(&[("game", "tetris"), ("stat", "lines")])).unwrap();
    assert_eq!(q.query_plan().limit, 1);
}

#[test]
fn sort_is_case_insensitive() {
    let q = parse_query(&fields(&[
        ("game", "tetris"),
        ("stat", "lines"),
        ("sort", "AsCeNdInG"),
    ]))
    .unwrap();
    assert!(q.query_plan().scan_forward);
    let q = parse_query(&fields(&[
        ("game", "tetris"),
        ("stat", "lines"),
        ("sort", "DESCENDING"),
    ]))
    .unwrap();
    assert!(!q.query_plan().scan_forward);
    let r = parse_query(&fields(&[
        ("game", "tetris"),
        ("stat", "lines"),
        ("sort", "sideways"),
    ]));
    assert!(matches!(r, Err(ValidationError::BadSort)));
}

#[test]
fn defaults_are_descending_and_one() {
    assert_eq!(Sort::default(), Sort::Descending);
    assert_eq!(Count::default(), Count(1));
}
