use stats_db::add_stat_request::AddStatRequest;
use stats_db::error::Error;
use stats_db::error::ValidationError;
use stats_db::time_utils::{get_current_day, get_current_timestamp, MILLIS_IN_DAY};

fn request(user: &str, game: &str, stat: &str, value: f64, day: Option<u128>) -> AddStatRequest {
    AddStatRequest {
        user: user.to_string(),
        game: game.to_string(),
        stat: stat.to_string(),
        value_bits: value.to_bits(),
        value_dec: value.to_string(),
        day,
    }
}

#[test]
fn valid_request_accepted() {
    let r = request("alice", "tetris", "lines", 42.0, Some(1_699_920_000_000));
    assert!(r.validate().is_ok());
    let r = request("alice", "tetris", "lines", -0.5, None);
    assert!(r.validate().is_ok());
}

#[test]
fn empty_strings_rejected() {
    let r = request("", "t", "s", 1.0, None);
    assert!(matches!(r.validate(), Err(ValidationError::EmptyUser)));
    let r = request("u", "", "s", 1.0, None);
    assert!(matches!(r.validate(), Err(ValidationError::EmptyGame)));
    let r = request("u", "t", "", 1.0, None);
    assert!(matches!(r.validate(), Err(ValidationError::EmptyStat)));
}

#[test]
fn non_finite_value_rejected() {
    let r = request("u", "t", "s", f64::NAN, None);
    assert!(matches!(r.validate(), Err(ValidationError::NonFiniteValue)));
    let r = request("u", "t", "s", f64::INFINITY, None);
    assert!(matches!(r.validate(), Err(ValidationError::NonFiniteValue)));
    let r = request("u", "t", "s", f64::NEG_INFINITY, None);
    assert!(matches!(r.validate(), Err(ValidationError::NonFiniteValue)));
}

#[test]
fn off_boundary_day_rejected() {
    let r = request("u", "t", "s", 1.0, Some(1_700_000_000_001));
    assert!(matches!(r.validate(), Err(ValidationError::MalformedDay)));
}

#[test]
fn view_carries_request_fields() {
    let r = request("alice", "tetris", "lines", 42.0, Some(1_699_920_000_000));
    let v = r.as_stat_view();
    assert_eq!(v.user(), "alice");
    assert_eq!(v.game(), "tetris");
    assert_eq!(v.stat(), "lines");
    assert_eq!(v.value(), "42");
    assert_eq!(v.day(), 1_699_920_000_000);
}

#[test]
fn absent_day_filled_with_day_bucket() {
    let r = request("alice", "tetris", "lines", 1.0, None);
    let v = r.as_stat_view();
    assert_eq!(v.day() % MILLIS_IN_DAY, 0);
    assert!(v.day() <= v.added_timestamp());
    assert!(v.added_timestamp() < v.day() + MILLIS_IN_DAY);
}

#[test]
fn clock_is_sane() {
    let ts = get_current_timestamp();
    let day = get_current_day();
    assert_eq!(day % MILLIS_IN_DAY, 0);
    // after 2020-01-01 and before 2100-01-01, in milliseconds
    assert!(ts > 1_577_836_800_000);
    assert!(ts < 4_102_444_800_000);
    assert!(day <= ts);
}

#[test]
fn error_carries_reason() {
    let e = Error::new("Failed to query");
    assert_eq!(e.reason(), "Failed to query");
}
