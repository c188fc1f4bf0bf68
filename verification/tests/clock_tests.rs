use alpaca_rs::json::parse_json;
use alpaca_rs::model::market::decode_clock;
use alpaca_rs::timestamp::{clock_wait, market_wait, parse_rfc3339};

/// A recording sleeper: the driver loop of "await market open", with the
/// sleep call captured instead of performed.
struct RecordingSleeper {
    slept: Vec<u64>,
}

impl RecordingSleeper {
    fn new() -> Self {
        RecordingSleeper { slept: Vec::new() }
    }

    fn run(&mut self, clock_payload: &str) {
        let clock = decode_clock(&parse_json(clock_payload).unwrap()).unwrap();
        match clock_wait(&clock).expect("clock timestamps must parse") {
            Some(secs) => self.slept.push(secs),
            None => {},
        }
    }
}

#[test]
fn an_open_market_returns_without_sleeping() {
    let mut sleeper = RecordingSleeper::new();
    sleeper.run(
        r#"{"timestamp":"2024-01-02T10:00:00-05:00","is_open":true,
            "next_open":"2024-01-03T09:30:00-05:00","next_close":"2024-01-02T16:00:00-05:00"}"#,
    );
    assert!(sleeper.slept.is_empty());
}

#[test]
fn a_closed_market_sleeps_exactly_until_the_next_open() {
    let mut sleeper = RecordingSleeper::new();
    sleeper.run(
        r#"{"timestamp":"2024-01-02T09:00:00-05:00","is_open":false,
            "next_open":"2024-01-02T09:30:00-05:00","next_close":"2024-01-02T16:00:00-05:00"}"#,
    );
    assert_eq!(sleeper.slept, vec![1800]);
}

#[test]
fn the_wait_is_never_negative() {
    assert_eq!(market_wait(false, 100, 40), Some(0));
    assert_eq!(market_wait(false, 40, 100), Some(60));
    assert_eq!(market_wait(true, 40, 100), None);
}

#[test]
fn rfc3339_values() {
    assert_eq!(parse_rfc3339("1970-01-01T00:00:00Z"), Some(0));
    assert_eq!(parse_rfc3339("1970-01-01T00:00:01.5Z"), Some(1));
    assert_eq!(parse_rfc3339("2024-01-02T09:30:00-05:00"), Some(1704205800));
    assert_eq!(parse_rfc3339("2024-01-02T14:30:00Z"), Some(1704205800));
    assert_eq!(parse_rfc3339("2024-01-02T15:30:00+01:00"), Some(1704205800));
    // leap-year coverage: 2024-02-29 is a valid trading date
    assert_eq!(
        parse_rfc3339("2024-03-01T00:00:00Z").unwrap()
            - parse_rfc3339("2024-02-28T00:00:00Z").unwrap(),
        2 * 86400
    );
}

#[test]
fn rfc3339_rejects_malformed_text() {
    assert!(parse_rfc3339("").is_none());
    assert!(parse_rfc3339("2024-01-02").is_none());
    assert!(parse_rfc3339("2024-13-02T09:30:00Z").is_none());
    assert!(parse_rfc3339("2024-01-02 09:30:00Z").is_none());
    assert!(parse_rfc3339("2024-01-02T09:30:00").is_none());
    assert!(parse_rfc3339("1969-12-31T23:59:59Z").is_none());
}
