use alpaca_rs::json::parse_json;
use alpaca_rs::model::market::{decode_historical_quotes, HistoricalQuotes};
use alpaca_rs::pagination::{PaginationContext, PaginationEndpoint};

fn stub_page(payload: &str) -> HistoricalQuotes {
    decode_historical_quotes(&parse_json(payload).expect("stub payload must parse"))
        .expect("stub payload must decode")
}

const PAGE_WITH_TOKEN: &str = r#"{"quotes":[{"t":"2022-01-03T09:00:00Z","bx":"Q","bp":178.25,"bs":2,"ax":"Q","ap":178.3,"as":1,"c":["R"],"z":"C"}],"next_page_token":"tok-2"}"#;
const PAGE_WITHOUT_TOKEN: &str = r#"{"quotes":[{"t":"2022-01-03T09:01:00Z","bx":"Q","bp":178.4,"bs":1,"ax":"Q","ap":178.5,"as":3,"c":["R"],"z":"C"}]}"#;

#[test]
fn fetching_with_the_same_token_and_size_is_idempotent() {
    let mut first = PaginationContext::new(50);
    let mut second = PaginationContext::new(50);
    first.advance(Some(String::from("tok-1")));
    second.advance(Some(String::from("tok-1")));

    // the configured next-page requests are identical
    let q1 = first.page_query(None).expect("a held token configures a request");
    let q2 = second.page_query(None).expect("a held token configures a request");
    assert_eq!(q1, q2);
    assert_eq!(q1, vec![
        (String::from("limit"), String::from("50")),
        (String::from("page_token"), String::from("tok-1")),
    ]);

    // identical stubbed payloads yield identical item sequences and tokens
    let page1 = stub_page(PAGE_WITH_TOKEN);
    let page2 = stub_page(PAGE_WITH_TOKEN);
    assert_eq!(page1.quotes.len(), page2.quotes.len());
    assert_eq!(page1.quotes[0].timestamp, page2.quotes[0].timestamp);
    assert_eq!(page1.next_page_token(), page2.next_page_token());

    first.record_page(&page1);
    second.record_page(&page2);
    assert_eq!(first.token().cloned(), second.token().cloned());
    assert_eq!(first.token().cloned(), Some(String::from("tok-2")));
}

#[test]
fn a_page_without_a_token_exhausts_the_cursor() {
    let mut cursor = PaginationContext::new(25);
    assert!(!cursor.is_exhausted());

    let page = stub_page(PAGE_WITHOUT_TOKEN);
    assert!(page.next_page_token().is_none());
    cursor.record_page(&page);
    assert!(cursor.is_exhausted());

    // a fetch after exhaustion configures no request, so the driver
    // yields an empty page rather than erroring or looping
    let items: Vec<String> = match cursor.page_query(None) {
        Some(_) => panic!("an exhausted cursor must not configure a request"),
        None => Vec::new(),
    };
    assert!(items.is_empty());
    assert!(cursor.is_exhausted());
}

#[test]
fn a_declared_limit_wins_over_the_page_size_hint() {
    let cursor = PaginationContext::new(50);
    let q = cursor.page_query(Some(500)).expect("a fresh cursor configures a request");
    assert_eq!(q, vec![(String::from("limit"), String::from("500"))]);
    let q = cursor.page_query(None).expect("a fresh cursor configures a request");
    assert_eq!(q, vec![(String::from("limit"), String::from("50"))]);
}

#[test]
fn the_first_fetch_carries_no_token() {
    let cursor = PaginationContext::new(10);
    let q = cursor.page_query(None).unwrap();
    assert_eq!(q.len(), 1);
    assert_eq!(q[0].0, "limit");
}
