use serde_json::Value;
use std::collections::BTreeMap;
use wisdom::db::StoreQuery;
use wisdom::http::{handle, proceed, proceed_with_draw, Body, HttpResponse, Method, Turn};
use wisdom::models::Quote;
use wisdom::service::{Answer, Effect};

/// A host that answers from memory.
struct Stores {
    quotes: BTreeMap<i64, Quote>,
    blobs: BTreeMap<String, Vec<u8>>,
    available: bool,
    lookups: usize,
}

fn row(column: &str, cell: Value) -> Option<Value> {
    let mut members = serde_json::Map::new();
    members.insert(column.to_string(), cell);
    Some(Value::Object(members))
}

impl Stores {
    fn new(quotes: Vec<Quote>, blobs: Vec<(&str, Vec<u8>)>) -> Stores {
        Stores {
            quotes: quotes.into_iter().map(|q| (q.id, q)).collect(),
            blobs: blobs.into_iter().map(|(k, b)| (k.to_string(), b)).collect(),
            available: true,
            lookups: 0,
        }
    }

    fn perform(&mut self, effect: &Effect) -> Answer {
        self.lookups += 1;
        if !self.available {
            return Answer::Failed;
        }
        match effect {
            Effect::Query(StoreQuery::TotalCount) => {
                Answer::Row(row("count", Value::from(self.quotes.len() as i64)))
            }
            Effect::Query(StoreQuery::QuoteById { id }) => Answer::Quote(self.quotes.get(id).cloned()),
            Effect::Query(StoreQuery::HasImage { id }) => Answer::Row(
                self.quotes.get(id).and_then(|q| row("has_image", Value::Bool(q.has_image))),
            ),
            Effect::Query(StoreQuery::RandomImageId) => Answer::Row(
                self.quotes.values().find(|q| q.has_image).and_then(|q| row("id", Value::from(q.id))),
            ),
            Effect::Fetch { key } => Answer::Blob(self.blobs.get(key).cloned()),
        }
    }

    fn serve(&mut self, method: Method, path: &str) -> HttpResponse {
        let mut turn = handle(method, path);
        for _ in 0..3 {
            match turn {
                Turn::Reply(response) => return response,
                Turn::Ask(effect, pending) => {
                    let answer = self.perform(&effect);
                    turn = proceed(pending, answer);
                }
            }
        }
        panic!("an operation took more than two lookups");
    }

    fn serve_with_draw(&mut self, method: Method, path: &str, draw: u64) -> HttpResponse {
        let mut turn = handle(method, path);
        for _ in 0..3 {
            match turn {
                Turn::Reply(response) => return response,
                Turn::Ask(effect, pending) => {
                    let answer = self.perform(&effect);
                    turn = proceed_with_draw(pending, answer, draw);
                }
            }
        }
        panic!("an operation took more than two lookups");
    }
}

fn carpe_diem() -> Quote {
    Quote {
        id: 1,
        quote: "Carpe diem".to_string(),
        source_url: "https://example.com".to_string(),
        has_image: true,
    }
}

fn numbered(id: i64, has_image: bool) -> Quote {
    Quote { id, quote: format!("quote {}", id), source_url: String::new(), has_image }
}

fn header<'a>(response: &'a HttpResponse, name: &str) -> Option<&'a str> {
    response.headers.iter().find(|h| h.name == name).map(|h| h.value.as_str())
}

fn text(response: &HttpResponse) -> String {
    match &response.body {
        Body::Text(text) => text.clone(),
        Body::Json(payload) => payload.to_json().unwrap(),
        other => panic!("{:?}", other),
    }
}

const PNG: [u8; 8] = [0x89, 0x50, 0x4e, 0x47, 0x0d, 0x0a, 0x1a, 0x0a];

#[test]
fn one_quote_with_its_image_is_served_by_identifier() {
    let mut stores = Stores::new(vec![carpe_diem()], vec![("1.png", PNG.to_vec())]);

    let quote = stores.serve(Method::Get, "/api/wisdom/1");
    assert_eq!(quote.status, 200);
    assert_eq!(text(&quote), r#"{"id":1,"quote":"Carpe diem","source_url":"https://example.com"}"#);
    assert_eq!(header(&quote, "Content-Type"), Some("application/json"));
    assert_eq!(header(&quote, "Access-Control-Allow-Origin"), Some("*"));

    let image = stores.serve(Method::Get, "/api/wisdom/img/1");
    assert_eq!(image.status, 200);
    assert_eq!(image.body, Body::Bytes(PNG.to_vec()));
    assert_eq!(header(&image, "Content-Type"), Some("image/png"));
    assert_eq!(header(&image, "Cache-Control"), Some("public, max-age=86400"));
    assert_eq!(header(&image, "Access-Control-Allow-Origin"), Some("*"));

    let missing = stores.serve(Method::Get, "/api/wisdom/img/2");
    assert_eq!(missing.status, 404);
}

#[test]
fn every_stored_quote_is_served_as_stored() {
    let quotes = vec![
        Quote { id: 1, quote: "a".to_string(), source_url: String::new(), has_image: false },
        Quote { id: 5, quote: "b \"c\"".to_string(), source_url: "https://x.test/5".to_string(), has_image: true },
        Quote { id: -2, quote: "δ".to_string(), source_url: "u".to_string(), has_image: false },
    ];
    let mut stores = Stores::new(quotes.clone(), Vec::new());
    for quote in quotes {
        let response = stores.serve(Method::Get, &format!("/api/wisdom/{}", quote.id));
        assert_eq!(response.status, 200);
        let parsed: Value = serde_json::from_str(&text(&response)).unwrap();
        let object = parsed.as_object().unwrap();
        assert_eq!(object.len(), 3);
        assert_eq!(object["id"].as_i64(), Some(quote.id));
        assert_eq!(object["quote"].as_str(), Some(quote.quote.as_str()));
        assert_eq!(object["source_url"].as_str(), Some(quote.source_url.as_str()));
    }
}

#[test]
fn a_quote_that_is_not_stored_is_not_found() {
    let mut stores = Stores::new(vec![carpe_diem()], Vec::new());
    let response = stores.serve(Method::Get, "/api/wisdom/2");
    assert_eq!(response.status, 404);
    assert_eq!(text(&response), r#"{"error":"Quote not found"}"#);
}

#[test]
fn a_random_quote_from_an_empty_store_is_not_found() {
    let mut stores = Stores::new(Vec::new(), Vec::new());
    for _ in 0..20 {
        let response = stores.serve(Method::Get, "/api/wisdom/");
        assert_eq!(response.status, 404);
        assert_eq!(text(&response), r#"{"error":"No quotes found"}"#);
    }
    assert_eq!(stores.lookups, 20);
}

#[test]
fn random_quotes_cover_a_store_without_gaps_and_never_leave_it() {
    let mut stores = Stores::new((1..=5).map(|id| numbered(id, false)).collect(), Vec::new());
    let mut seen = [false; 5];
    for _ in 0..2000 {
        let response = stores.serve(Method::Get, "/api/wisdom/");
        assert_eq!(response.status, 200);
        let parsed: Value = serde_json::from_str(&text(&response)).unwrap();
        let id = parsed["id"].as_i64().unwrap();
        assert!((1..=5).contains(&id));
        seen[(id - 1) as usize] = true;
    }
    assert_eq!(seen, [true; 5]);
}

#[test]
fn a_given_draw_serves_the_quote_it_picks() {
    let mut stores = Stores::new((1..=5).map(|id| numbered(id, false)).collect(), Vec::new());
    for draw in 0..25u64 {
        let response = stores.serve_with_draw(Method::Get, "/api/wisdom/", draw);
        let parsed: Value = serde_json::from_str(&text(&response)).unwrap();
        assert_eq!(parsed["id"].as_i64(), Some((draw % 5) as i64 + 1));
    }
}

#[test]
fn a_random_quote_can_miss_where_identifiers_have_gaps() {
    let mut stores = Stores::new(vec![numbered(1, false), numbered(10, false)], Vec::new());
    let hit = stores.serve_with_draw(Method::Get, "/api/wisdom/", 0);
    assert_eq!(hit.status, 200);
    let miss = stores.serve_with_draw(Method::Get, "/api/wisdom/", 1);
    assert_eq!(miss.status, 404);
    assert_eq!(text(&miss), r#"{"error":"No quotes found"}"#);
}

#[test]
fn an_image_by_identifier_is_found_only_with_flag_and_blob() {
    let mut stores = Stores::new(
        vec![numbered(1, false), numbered(2, true), numbered(3, true)],
        vec![("1.png", vec![1]), ("3.png", vec![3, 3, 3])],
    );

    let unflagged = stores.serve(Method::Get, "/api/wisdom/img/1");
    assert_eq!(unflagged.status, 404);
    assert_eq!(text(&unflagged), r#"{"error":"Quote does not have an image"}"#);

    let absent = stores.serve(Method::Get, "/api/wisdom/img/4");
    assert_eq!(absent.status, 404);
    assert_eq!(text(&absent), r#"{"error":"Quote does not have an image"}"#);

    let blobless = stores.serve(Method::Get, "/api/wisdom/img/2");
    assert_eq!(blobless.status, 404);
    assert_eq!(text(&blobless), r#"{"error":"Image file not found"}"#);

    let found = stores.serve(Method::Get, "/api/wisdom/img/3");
    assert_eq!(found.status, 200);
    assert_eq!(found.body, Body::Bytes(vec![3, 3, 3]));
}

#[test]
fn an_unflagged_quote_costs_no_look_at_the_blob_store() {
    let mut stores = Stores::new(vec![numbered(1, false)], vec![("1.png", vec![1])]);
    stores.serve(Method::Get, "/api/wisdom/img/1");
    assert_eq!(stores.lookups, 1);
}

#[test]
fn a_random_image_is_the_blob_of_a_flagged_quote() {
    let mut stores = Stores::new(
        vec![numbered(1, false), numbered(2, true)],
        vec![("1.png", vec![1]), ("2.png", vec![2, 2])],
    );
    let response = stores.serve(Method::Get, "/api/wisdom/img");
    assert_eq!(response.status, 200);
    assert_eq!(response.body, Body::Bytes(vec![2, 2]));
    assert_eq!(header(&response, "Content-Type"), Some("image/png"));
}

#[test]
fn a_random_image_is_not_found_without_flagged_quotes_or_without_the_blob() {
    let mut unflagged = Stores::new(vec![numbered(1, false)], vec![("1.png", vec![1])]);
    let response = unflagged.serve(Method::Get, "/api/wisdom/img");
    assert_eq!(response.status, 404);
    assert_eq!(text(&response), r#"{"error":"No images available"}"#);

    let mut blobless = Stores::new(vec![numbered(1, true)], Vec::new());
    let response = blobless.serve(Method::Get, "/api/wisdom/img");
    assert_eq!(response.status, 404);
    assert_eq!(text(&response), r#"{"error":"Image not found"}"#);
}

#[test]
fn health_is_ok_whatever_the_stores_do() {
    let mut stores = Stores::new(vec![carpe_diem()], Vec::new());
    stores.available = false;
    let response = stores.serve(Method::Get, "/health");
    assert_eq!(response.status, 200);
    assert_eq!(text(&response), "OK");
    assert_eq!(stores.lookups, 0);
}

#[test]
fn a_preflight_is_answered_whatever_the_stores_do() {
    let mut stores = Stores::new(Vec::new(), Vec::new());
    stores.available = false;
    for path in ["/api/wisdom/", "/api/wisdom/1", "/api/wisdom/img", "/api/wisdom/img/1", "/api/wisdom/a/b"] {
        let response = stores.serve(Method::Options, path);
        assert_eq!(response.status, 204);
        assert_eq!(response.body, Body::Empty);
        assert_eq!(header(&response, "Access-Control-Allow-Origin"), Some("*"));
        assert_eq!(header(&response, "Access-Control-Allow-Methods"), Some("GET, OPTIONS"));
        assert_eq!(header(&response, "Access-Control-Allow-Headers"), Some("Content-Type"));
    }
    assert_eq!(stores.lookups, 0);
}

#[test]
fn a_store_that_fails_is_a_server_error_not_a_missing_quote() {
    let mut stores = Stores::new(vec![carpe_diem()], vec![("1.png", PNG.to_vec())]);
    stores.available = false;
    for path in ["/api/wisdom/", "/api/wisdom/1", "/api/wisdom/img", "/api/wisdom/img/1"] {
        let response = stores.serve(Method::Get, path);
        assert_eq!(response.status, 500, "{}", path);
    }
}

#[test]
fn a_malformed_identifier_reaches_no_store() {
    let mut stores = Stores::new(vec![carpe_diem()], Vec::new());
    for path in ["/api/wisdom/one", "/api/wisdom/img/one", "/api/wisdom/1x"] {
        let response = stores.serve(Method::Get, path);
        assert_eq!(response.status, 400, "{}", path);
        assert_eq!(text(&response), r#"{"error":"Invalid ID format"}"#);
    }
    assert_eq!(stores.lookups, 0);
}
