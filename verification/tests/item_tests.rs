use stats_db::db_item::{Attr, DbStat};
use stats_db::error::QueryError;
use stats_db::stat_query::decode_items;
use stats_db::error::DecodeError;
use stats_db::stat_view::StatView;

fn attr_s(item: &[(String, Attr)], key: &str) -> String {
    for (k, a) in item {
        if k == key {
            match a {
                Attr::S(s) => return s.clone(),
                Attr::N(_) => panic!("{key} is a number attribute"),
            }
        }
    }
    panic!("{key} not in item")
}

fn attr_n(item: &[(String, Attr)], key: &str) -> String {
    for (k, a) in item {
        if k == key {
            match a {
                Attr::N(s) => return s.clone(),
                Attr::S(_) => panic!("{key} is a string attribute"),
            }
        }
    }
    panic!("{key} not in item")
}

fn item_for(value: f64, day: u128, ts: u128) -> Vec<(String, Attr)> {
    DbStat::new(
        "alice",
        "tetris",
        "lines",
        value.to_bits(),
        &value.to_string(),
        day,
        ts,
    )
    .as_item()
}

#[test]
fn written_item_keys() {
    let item = item_for(42.0, 1_700_000_000_000, 1_700_000_000_123);
    assert_eq!(attr_s(&item, "PK"), "User#alice");
    let sk = attr_s(&item, "SK");
    assert!(sk.starts_with("Game#tetris#Day#1700000000000#Stat#lines#Value#"));
    assert_eq!(attr_s(&item, "GSI1-PK"), "Game#tetris#Stat#lines");
    assert_eq!(attr_s(&item, "GSI2-PK"), "Game#tetris#Stat#lines");
}

#[test]
fn written_item_full_keys() {
    let item = item_for(42.0, 1_700_000_000_000, 1_700_000_000_123);
    // token of 42.0: bits 0x4045000000000000, sign bit set by the codec
    let token = "c045000000000000";
    assert_eq!(
        attr_s(&item, "SK"),
        format!(
            "Game#tetris#Day#1700000000000#Stat#lines#Value#{token}#42#Timestamp#1700000000123"
        )
    );
    assert_eq!(
        attr_s(&item, "LSI-SK"),
        format!("Game#tetris#Stat#lines#Value#{token}#42")
    );
    assert_eq!(
        attr_s(&item, "GSI1-SK"),
        format!("Day#1700000000000#Value#{token}#42#Timestamp#1700000000123")
    );
    assert_eq!(
        attr_s(&item, "GSI2-SK"),
        format!("Value#{token}#42#Timestamp#1700000000123")
    );
    assert_eq!(attr_s(&item, "User"), "alice");
    assert_eq!(attr_s(&item, "Game"), "tetris");
    assert_eq!(attr_s(&item, "Stat"), "lines");
    assert_eq!(attr_n(&item, "Value"), "42");
    assert_eq!(attr_n(&item, "Day"), "1700000000000");
    assert_eq!(attr_n(&item, "Timestamp"), "1700000000123");
}

#[test]
fn key_builder_is_stable() {
    let a = item_for(0.125, 86_400_000, 86_400_001);
    let b = item_for(0.125, 86_400_000, 86_400_001);
    assert_eq!(a.len(), b.len());
    for (pa, pb) in a.iter().zip(b.iter()) {
        assert_eq!(pa.0, pb.0);
        let (sa, sb) = match (&pa.1, &pb.1) {
            (Attr::S(x), Attr::S(y)) => (x, y),
            (Attr::N(x), Attr::N(y)) => (x, y),
            _ => panic!("tags differ for {}", pa.0),
        };
        assert_eq!(sa, sb);
    }
}

#[test]
fn decode_round_trips_written_item() {
    let item = item_for(-2.5, 1_699_920_000_000, 1_699_920_000_777);
    let view = StatView::from_item(&item).expect("item decodes");
    assert_eq!(view.user(), "alice");
    assert_eq!(view.game(), "tetris");
    assert_eq!(view.stat(), "lines");
    assert_eq!(view.value(), "-2.5");
    assert_eq!(view.value().parse::<f64>().unwrap(), -2.5);
    assert_eq!(view.day(), 1_699_920_000_000);
    assert_eq!(view.added_timestamp(), 1_699_920_000_777);
}

#[test]
fn stat_view_as_db_item_matches_db_stat() {
    let view = StatView::with_times("bob", "chess", "wins", "3", 86_400_000, 90_000_000);
    let item = view.as_db_item(3.0f64.to_bits());
    assert_eq!(attr_s(&item, "PK"), "User#bob");
    assert_eq!(attr_n(&item, "Day"), "86400000");
    assert_eq!(attr_n(&item, "Timestamp"), "90000000");
    assert_eq!(attr_n(&item, "Value"), "3");
}

#[test]
fn decode_items_keeps_order_and_fails_whole_request() {
    let items = vec![
        item_for(2.0, 0, 2),
        item_for(1.0, 0, 1),
    ];
    let views = decode_items(&items).expect("all items decode");
    assert_eq!(views.len(), 2);
    assert_eq!(views[0].value(), "2");
    assert_eq!(views[1].value(), "1");

    let mut bad = item_for(1.0, 0, 1);
    bad.retain(|p| p.0 != "Game");
    let items = vec![item_for(2.0, 0, 2), bad];
    let r = decode_items(&items);
    assert!(matches!(
        r,
        Err(QueryError::Parse(DecodeError::MissingAttribute(a))) if a == "Game"
    ));
}

#[test]
fn decode_missing_attribute_fails() {
    let mut item = item_for(1.0, 0, 1);
    item.retain(|p| p.0 != "User");
    let r = StatView::from_item(&item);
    assert!(matches!(r, Err(DecodeError::MissingAttribute(a)) if a == "User"));
}

#[test]
fn decode_wrong_type_fails() {
    let mut item = item_for(1.0, 0, 1);
    for p in item.iter_mut() {
        if p.0 == "Day" {
            p.1 = Attr::S("1700000000000".to_string());
        }
    }
    let r = StatView::from_item(&item);
    assert!(matches!(r, Err(DecodeError::WrongType(a)) if a == "Day"));
}

#[test]
fn decode_bad_number_fails() {
    let mut item = item_for(1.0, 0, 1);
    for p in item.iter_mut() {
        if p.0 == "Timestamp" {
            p.1 = Attr::N("12x4".to_string());
        }
    }
    let r = StatView::from_item(&item);
    assert!(matches!(r, Err(DecodeError::BadNumber(a)) if a == "Timestamp"));
}
