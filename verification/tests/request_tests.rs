use alpaca_rs::api::broker::accounts::{CreateAccountBuilder, GetAccount as GetBrokerAccount};
use alpaca_rs::api::trading::orders::CancelOrder;
use alpaca_rs::model::broker::{Contact, Document, Identity};
use alpaca_rs::api::broker::{BrokerAuth, BrokerClient};
use alpaca_rs::api::market_data::stock::{GetHistoricalBars, GetLatestBars, StockFeed};
use alpaca_rs::api::market_data::MarketDataClient;
use alpaca_rs::api::trading::orders::CreateOrder;
use alpaca_rs::api::trading::{TradingAuth, TradingClient};
use alpaca_rs::api::{interpret_response, query_string, Endpoint, Method};
use alpaca_rs::json::parse_json;
use alpaca_rs::model::trading::{Order, OrderAmount};
use alpaca_rs::model::{CorporateActionAdjustment, OrderSide, Timeframe};
use alpaca_rs::Error;
use alpaca_rs::api::broker::accounts::GetAllAccounts;
use alpaca_rs::api::broker::accounts::UpdateAccount;
use alpaca_rs::model::broker::TrustedContact;

fn trading_client() -> TradingClient {
    TradingClient::new(
        TradingAuth { key_id: String::from("key-id"), secret: String::from("key-secret") },
        String::from("https://example.test/v2"),
    )
}

#[test]
fn comma_joined_symbols_stay_unencoded_in_the_query() {
    let descriptor = GetLatestBars {
        symbols: vec![String::from("AAPL"), String::from("MSFT")],
        feed: StockFeed::InvestorsExchange,
        currency: None,
    };
    let parts = descriptor.parts();
    let rendered = query_string(&parts.query);
    assert_eq!(rendered, "symbols=AAPL,MSFT&feed=iex");
}

#[test]
fn unset_optional_query_fields_are_omitted_entirely() {
    let descriptor = GetHistoricalBars {
        symbols: vec![String::from("AAPL")],
        timeframe: Timeframe::Day,
        start: None,
        end: None,
        limit: None,
        adjustment: CorporateActionAdjustment::All,
        asof: None,
        feed: StockFeed::InvestorsExchange,
        currency: None,
        sort: None,
    };
    let rendered = query_string(&descriptor.parts().query);
    assert_eq!(rendered, "symbols=AAPL&timeframe=1D&adjustment=all&feed=iex");
    assert!(!rendered.contains("start"));
    assert!(!rendered.contains("limit"));
    assert!(!rendered.contains("sort"));
}

#[test]
fn set_optional_query_fields_appear() {
    let descriptor = GetHistoricalBars {
        symbols: vec![String::from("AAPL")],
        timeframe: Timeframe::Day,
        start: Some(String::from("2024-01-02")),
        end: None,
        limit: Some(100),
        adjustment: CorporateActionAdjustment::All,
        asof: None,
        feed: StockFeed::Sip,
        currency: None,
        sort: None,
    };
    let rendered = query_string(&descriptor.parts().query);
    assert_eq!(
        rendered,
        "symbols=AAPL&timeframe=1D&adjustment=all&feed=sip&start=2024-01-02&limit=100"
    );
}

#[test]
fn create_order_descriptor_dispatches_as_documented() {
    let client = trading_client();
    let order = CreateOrder::new(
        String::from("AAPL"),
        OrderAmount::Quantity(String::from("10")),
        OrderSide::Buy,
    );
    let request = client.prepare(&order);
    assert!(matches!(request.method, Method::Post));
    assert_eq!(request.url, "https://example.test/v2/orders");
    assert_eq!(request.headers.len(), 2);
    assert_eq!(request.headers[0].0, "APCA-API-KEY-ID");
    assert_eq!(request.headers[0].1, "key-id");
    assert_eq!(request.headers[1].0, "APCA-API-SECRET-KEY");
    assert_eq!(request.headers[1].1, "key-secret");

    let body_text = request.body.expect("a create-order request carries a JSON body");
    let body = parse_json(body_text.as_str()).expect("the body must be valid JSON");
    let get = |k: &str| {
        body.get(k)
            .unwrap_or_else(|| panic!("body must carry {}", k))
            .as_str()
            .unwrap_or_else(|| panic!("{} must be a string", k))
            .clone()
    };
    assert_eq!(get("symbol"), "AAPL");
    assert_eq!(get("side"), "buy");
    assert_eq!(get("qty"), "10");
    assert_eq!(get("type"), "market");
    assert_eq!(get("time_in_force"), "gtc");
    assert_eq!(get("order_class"), "simple");
    // the unset optional field is absent, and nothing is serialized as null
    assert!(body.get("client_order_id").is_none());
    assert!(!body_text.contains("null"));

    // a stubbed 200 response with a minimal order decodes to a matching value
    let stub = String::from(
        r#"{"id":"904837e3","symbol":"AAPL","status":"accepted","side":"buy","type":"market"}"#,
    );
    let decoded: Order = interpret_response::<Order>(200, stub).expect("2xx with valid body");
    assert_eq!(decoded.symbol, "AAPL");
    assert!(matches!(decoded.side, OrderSide::Buy));
}

#[test]
fn a_404_is_an_http_status_error_not_a_decode_error() {
    let stub = String::from(r#"{"code":40410000,"message":"position does not exist"}"#);
    let outcome = interpret_response::<alpaca_rs::model::trading::OpenPosition>(404, stub);
    match outcome {
        Err(Error::Http { status, body }) => {
            assert_eq!(status, 404);
            assert!(body.contains("position does not exist"));
        },
        Err(other) => panic!("expected an HTTP status error, got {:?}", other),
        Ok(_) => panic!("a 404 must not decode"),
    }
}

#[test]
fn a_2xx_with_a_bad_body_is_a_decode_error() {
    let outcome = interpret_response::<Order>(200, String::from("not json"));
    assert!(matches!(outcome, Err(Error::Json(_))));
    let outcome = interpret_response::<Order>(200, String::from(r#"{"unexpected":true}"#));
    assert!(matches!(outcome, Err(Error::Json(_))));
}

#[test]
fn broker_requests_carry_exactly_the_basic_header() {
    let client = BrokerClient::new(
        BrokerAuth { key: String::from("abc") },
        String::from("https://broker.test/v1"),
    );
    let request = client.prepare_for_account(&GetBrokerAccount, "acct-1");
    assert_eq!(request.url, "https://broker.test/v1/accounts/acct-1");
    assert_eq!(request.headers.len(), 1);
    assert_eq!(request.headers[0].0, "Authorization");
    assert_eq!(request.headers[0].1, "Basic YWJj");
    assert!(request.body.is_none());
}

#[test]
fn account_view_caches_only_on_store() {
    let client = BrokerClient::new(
        BrokerAuth { key: String::from("abc") },
        String::from("https://broker.test/v1"),
    );
    let mut view = client.account("acct-9");
    assert_eq!(view.id(), "acct-9");
    assert!(view.get_data().is_none());

    let request = view.prepare(&GetBrokerAccount);
    assert_eq!(request.url, "https://broker.test/v1/accounts/acct-9");
    // preparing a request does not touch the cache
    assert!(view.get_data().is_none());

    let account_json = parse_json(
        r#"{"id":"acct-9","account_number":"1","status":"ACTIVE","crypto_status":"ACTIVE",
            "currency":"USD","created_at":"2024-01-01T00:00:00Z","last_equity":"1",
            "portfolio_value":"1","cash":"1","buying_power":"1"}"#,
    )
    .unwrap();
    let account = alpaca_rs::model::broker::decode_account(&account_json).unwrap();
    view.store_data(account);
    assert!(view.get_data().is_some());
    assert_eq!(view.get_data().unwrap().id, "acct-9");
}

#[test]
fn market_data_calendar_request() {
    let client = MarketDataClient::new(
        TradingAuth { key_id: String::from("k"), secret: String::from("s") },
        String::from("https://data.test"),
    );
    let request = client.get_calendar(
        Some(String::from("2024-01-02")),
        None,
        alpaca_rs::model::DateType::Trading,
    );
    assert_eq!(request.url, "https://data.test/v2/calendar");
    let rendered = query_string(&request.query);
    assert_eq!(rendered, "date_type=TRADING&start=2024-01-02");
}

#[test]
fn account_builder_appends_documents() {
    let contact = Contact {
        email_address: String::from("a@b.test"),
        phone_number: String::from("555"),
        street_address: vec![String::from("1 Main St")],
        unit: String::new(),
        city: String::from("Town"),
        state: String::from("TS"),
        postal_code: String::from("00000"),
    };
    let identity = Identity {
        given_name: String::from("Ada"),
        family_name: String::from("Lovelace"),
        date_of_birth: String::from("1990-01-01"),
        tax_id: String::from("000"),
        tax_id_type: String::from("USA_SSN"),
        country_of_citizenship: String::from("USA"),
        country_of_birth: String::from("USA"),
        country_of_tax_residence: String::from("USA"),
        funding_source: vec![String::from("employment_income")],
    };
    let builder = CreateAccountBuilder::new(contact, identity);
    let doc = Document {
        document_id: String::from("d1"),
        document_type: String::from("identity_verification"),
        created_at: String::from("2024-01-01"),
        mime_type: String::from("image/png"),
        content: String::from("aGk="),
        document_sub_type: String::from("passport"),
    };
    let built = builder.document(doc).build();
    assert_eq!(built.documents.len(), 1);
    assert_eq!(built.documents[0].document_id, "d1");
}

#[test]
fn cancel_order_path_carries_the_order_id() {
    let client = trading_client();
    let request = client.prepare(&CancelOrder { order_id: String::from("oid-77") });
    assert!(matches!(request.method, Method::Delete));
    assert_eq!(request.url, "https://example.test/v2/orders/oid-77");
}

#[test]
fn account_search_joins_terms_with_spaces() {
    let descriptor = GetAllAccounts {
        query: vec![String::from("Ada"), String::from("Lovelace")],
        created_after: None,
        created_before: None,
        status: None,
        sort: alpaca_rs::model::Sort::Descending,
        entities: vec![String::from("contact"), String::from("identity")],
    };
    let rendered = query_string(&descriptor.parts().query);
    assert_eq!(rendered, "query=Ada Lovelace&sort=desc&entities=contact,identity");
    assert!(!rendered.contains("created_after"));
    assert!(!rendered.contains("status"));
}

#[test]
fn update_account_renames_the_trusted_contact_member() {
    let descriptor = UpdateAccount {
        contact: None,
        identity: None,
        disclosures: None,
        trusted_contact: Some(TrustedContact {
            given_name: String::from("Grace"),
            family_name: String::from("Hopper"),
            email_address: String::from("g@h.test"),
        }),
    };
    let parts = descriptor.parts();
    assert!(matches!(parts.method, Method::Patch));
    let body = parts.body.expect("an update carries a JSON body");
    let text = alpaca_rs::json::print_json(&body);
    assert!(text.contains("trustedContact"));
    assert!(!text.contains("\"contact\""));
    assert!(!text.contains("null"));
}
