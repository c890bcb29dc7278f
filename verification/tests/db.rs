use serde_json::Value;
use wisdom::db::{
    get_quote_by_id, get_random_image_id, get_random_quote, get_total_count, has_image,
    random_quote_for_draw, StoreQuery,
};
use wisdom::rows::{read_flag, read_integer};

fn row(column: &str, cell: Value) -> Value {
    let mut members = serde_json::Map::new();
    members.insert(column.to_string(), cell);
    Value::Object(members)
}

#[test]
fn each_lookup_has_its_statement() {
    assert_eq!(StoreQuery::TotalCount.sql(), "SELECT COUNT(*) as count FROM quotes");
    assert_eq!(
        StoreQuery::QuoteById { id: 4 }.sql(),
        "SELECT id, quote, source_url, has_image FROM quotes WHERE id = ?"
    );
    assert_eq!(StoreQuery::HasImage { id: 4 }.sql(), "SELECT has_image FROM quotes WHERE id = ?");
    assert_eq!(
        StoreQuery::RandomImageId.sql(),
        "SELECT id FROM quotes WHERE has_image = 1 ORDER BY RANDOM() LIMIT 1"
    );
}

#[test]
fn lookups_by_identifier_bind_it() {
    assert_eq!(StoreQuery::TotalCount.binding(), None);
    assert_eq!(StoreQuery::RandomImageId.binding(), None);
    assert_eq!(StoreQuery::QuoteById { id: 4 }.binding(), Some(4));
    assert_eq!(StoreQuery::HasImage { id: -9 }.binding(), Some(-9));
}

#[test]
fn a_statement_has_one_placeholder_exactly_when_it_binds() {
    for query in [
        StoreQuery::TotalCount,
        StoreQuery::QuoteById { id: 1 },
        StoreQuery::HasImage { id: 1 },
        StoreQuery::RandomImageId,
    ] {
        let placeholders = query.sql().matches('?').count();
        assert_eq!(placeholders, if query.binding().is_some() { 1 } else { 0 });
    }
}

#[test]
fn read_integer_finds_an_integer_column() {
    let found = row("count", Value::from(12i64));
    assert_eq!(read_integer(&found, "count"), Some(12));
    assert_eq!(read_integer(&found, "other"), None);
    assert_eq!(read_integer(&row("count", Value::from("12")), "count"), None);
    assert_eq!(read_integer(&row("count", Value::Bool(true)), "count"), None);
    assert_eq!(read_integer(&Value::from(12i64), "count"), None);
    assert_eq!(read_integer(&Value::Null, "count"), None);
}

#[test]
fn read_flag_finds_a_boolean_column() {
    assert_eq!(read_flag(&row("has_image", Value::Bool(true)), "has_image"), Some(true));
    assert_eq!(read_flag(&row("has_image", Value::Bool(false)), "has_image"), Some(false));
    assert_eq!(read_flag(&row("has_image", Value::from(1i64)), "has_image"), None);
    assert_eq!(read_flag(&row("has_image", Value::Bool(true)), "id"), None);
}

#[test]
fn total_count_is_the_count_column() {
    assert_eq!(get_total_count(&Some(row("count", Value::from(5i64)))), 5);
    assert_eq!(get_total_count(&Some(row("count", Value::from(0i64)))), 0);
    assert_eq!(get_total_count(&Some(row("count", Value::from(i64::MAX)))), i64::MAX);
}

#[test]
fn total_count_is_zero_without_a_row_or_a_column() {
    assert_eq!(get_total_count(&None), 0);
    assert_eq!(get_total_count(&Some(Value::Object(serde_json::Map::new()))), 0);
    assert_eq!(get_total_count(&Some(row("total", Value::from(5i64)))), 0);
    assert_eq!(get_total_count(&Some(row("count", Value::from("5")))), 0);
    assert_eq!(get_total_count(&Some(row("count", Value::Null))), 0);
    assert_eq!(get_total_count(&Some(row("count", Value::from(u64::MAX)))), 0);
    assert_eq!(get_total_count(&Some(Value::Array(vec![Value::from(5i64)]))), 0);
}

#[test]
fn has_image_is_the_flag_column() {
    assert!(has_image(&Some(row("has_image", Value::Bool(true)))));
    assert!(!has_image(&Some(row("has_image", Value::Bool(false)))));
}

#[test]
fn has_image_is_false_without_a_row_or_a_flag() {
    assert!(!has_image(&None));
    assert!(!has_image(&Some(Value::Object(serde_json::Map::new()))));
    assert!(!has_image(&Some(row("has_image", Value::from(1i64)))));
    assert!(!has_image(&Some(row("has_image", Value::from("true")))));
    assert!(!has_image(&Some(row("image", Value::Bool(true)))));
}

#[test]
fn random_image_id_is_the_id_column() {
    assert_eq!(get_random_image_id(&Some(row("id", Value::from(3i64)))), Some(3));
    assert_eq!(get_random_image_id(&Some(row("id", Value::from(-3i64)))), Some(-3));
}

#[test]
fn random_image_id_is_none_without_a_row_or_an_integer() {
    assert_eq!(get_random_image_id(&None), None);
    assert_eq!(get_random_image_id(&Some(Value::Object(serde_json::Map::new()))), None);
    assert_eq!(get_random_image_id(&Some(row("id", Value::from("3")))), None);
    assert_eq!(get_random_image_id(&Some(row("id", Value::Null))), None);
}

#[test]
fn quote_by_id_is_the_lookup_of_that_identifier() {
    assert_eq!(get_quote_by_id(17), StoreQuery::QuoteById { id: 17 });
    assert_eq!(get_quote_by_id(17).binding(), Some(17));
}

#[test]
fn a_draw_picks_its_remainder_counted_from_one() {
    assert_eq!(random_quote_for_draw(5, 12), Some(StoreQuery::QuoteById { id: 3 }));
    assert_eq!(random_quote_for_draw(5, 0), Some(StoreQuery::QuoteById { id: 1 }));
    assert_eq!(random_quote_for_draw(5, 4), Some(StoreQuery::QuoteById { id: 5 }));
    assert_eq!(random_quote_for_draw(5, 5), Some(StoreQuery::QuoteById { id: 1 }));
    assert_eq!(random_quote_for_draw(1, u64::MAX), Some(StoreQuery::QuoteById { id: 1 }));
    assert_eq!(
        random_quote_for_draw(i64::MAX, u64::MAX),
        Some(StoreQuery::QuoteById { id: 2 })
    );
    assert_eq!(
        random_quote_for_draw(i64::MAX, i64::MAX as u64 - 1),
        Some(StoreQuery::QuoteById { id: i64::MAX })
    );
}

#[test]
fn no_draw_picks_from_an_empty_store() {
    assert_eq!(random_quote_for_draw(0, 0), None);
    assert_eq!(random_quote_for_draw(0, 77), None);
    assert_eq!(random_quote_for_draw(-1, 77), None);
    assert_eq!(random_quote_for_draw(i64::MIN, u64::MAX), None);
}

#[test]
fn every_identifier_is_picked_by_the_draw_before_it() {
    for count in 1..=20i64 {
        for id in 1..=count {
            assert_eq!(
                random_quote_for_draw(count, (id - 1) as u64),
                Some(StoreQuery::QuoteById { id })
            );
        }
    }
}

#[test]
fn random_quote_of_an_empty_store_is_none() {
    assert_eq!(get_random_quote(0), None);
    assert_eq!(get_random_quote(-4), None);
}

#[test]
fn random_quote_stays_between_one_and_the_count() {
    for count in [1i64, 2, 3, 10, 1000, i64::MAX] {
        for _ in 0..200 {
            match get_random_quote(count) {
                Some(StoreQuery::QuoteById { id }) => assert!(1 <= id && id <= count),
                other => panic!("{:?}", other),
            }
        }
    }
}

#[test]
fn random_quote_reaches_every_identifier() {
    let mut seen = [false; 4];
    for _ in 0..2000 {
        if let Some(StoreQuery::QuoteById { id }) = get_random_quote(4) {
            seen[(id - 1) as usize] = true;
        }
    }
    assert_eq!(seen, [true; 4]);
}

#[test]
fn random_quote_does_not_repeat_one_draw() {
    let first = get_random_quote(i64::MAX);
    let mut differs = false;
    for _ in 0..50 {
        differs = differs || get_random_quote(i64::MAX) != first;
    }
    assert!(differs);
}
