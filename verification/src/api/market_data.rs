//! The market-data surface: its client, which shares the key-pair
//! credential of the trading surface, and the calendar endpoint.

use vstd::prelude::*;

use crate::api::trading::TradingAuth;
use crate::api::{
    assemble, opt_pair, push_pair, spec_assemble, spec_trading_headers, trading_headers,
    Endpoint, MarketDataEndpoint, Method, OutgoingRequest, RequestParts, RequestPartsV,
};
use crate::model::DateType;

pub mod stock;

verus! {

/// The live base URL of the market-data surface.
pub fn market_live_url() -> (r: String)
    ensures
        r@ == "https://data.alpaca.markets"@,
{
    String::from_str("https://data.alpaca.markets")
}

/// The sandbox base URL of the market-data surface.
pub fn market_sandbox_url() -> (r: String)
    ensures
        r@ == "https://data.sandbox.alpaca.markets"@,
{
    String::from_str("https://data.sandbox.alpaca.markets")
}

/// The market-data client: its own base URL, authenticated with the
/// same key pair as the trading surface.
#[derive(Debug, Clone)]
pub struct MarketDataClient {
    base_url: String,
    auth: TradingAuth,
}

/// The model of a `MarketDataClient`.
pub struct MarketDataClientV {
    pub base_url: Seq<char>,
    pub auth: crate::api::trading::TradingAuthV,
}

impl View for MarketDataClient {
    type V = MarketDataClientV;

    closed spec fn view(&self) -> MarketDataClientV {
        MarketDataClientV { base_url: self.base_url@, auth: self.auth@ }
    }
}

impl MarketDataClient {
    /// A client against a base URL of the caller's choice.
    pub fn new(auth: TradingAuth, base_url: String) -> (r: Self)
        ensures
            r@.base_url == base_url@,
            r@.auth == auth@,
    {
        MarketDataClient { base_url, auth }
    }

    /// A client against the live market-data URL.
    pub fn new_live(auth: TradingAuth) -> (r: Self)
        ensures
            r@.base_url == "https://data.alpaca.markets"@,
            r@.auth == auth@,
    {
        Self::new(auth, market_live_url())
    }

    /// A client against the sandbox market-data URL.
    pub fn new_sandbox(auth: TradingAuth) -> (r: Self)
        ensures
            r@.base_url == "https://data.sandbox.alpaca.markets"@,
            r@.auth == auth@,
    {
        Self::new(auth, market_sandbox_url())
    }

    /// Configures the outgoing request of one market-data endpoint,
    /// with exactly the key-pair headers.
    pub fn prepare<T: MarketDataEndpoint>(&self, e: &T) -> (r: OutgoingRequest)
        ensures
            r@ == spec_assemble(
                self@.base_url,
                spec_trading_headers(self@.auth.key_id, self@.auth.secret),
                e.spec_parts(),
            ),
    {
        assemble(&self.base_url, trading_headers(&self.auth.key_id, &self.auth.secret), e.parts())
    }

    /// The configured request that fetches the trading calendar between
    /// two optional dates.
    pub fn get_calendar(&self, start: Option<String>, end: Option<String>, date_type: DateType)
        -> (r: OutgoingRequest)
        ensures
            r@ == spec_assemble(
                self@.base_url,
                spec_trading_headers(self@.auth.key_id, self@.auth.secret),
                (GetCalendar {
                    start,
                    end,
                    date_type,
                })@.spec_parts_of(),
            ),
    {
        self.prepare(&GetCalendar { start, end, date_type })
    }
}

/// Fetch the trading calendar between two optional dates.
#[derive(Debug, Clone)]
pub struct GetCalendar {
    pub start: Option<String>,
    pub end: Option<String>,
    pub date_type: DateType,
}

/// The model of a `GetCalendar`.
pub struct GetCalendarV {
    pub start: Option<Seq<char>>,
    pub end: Option<Seq<char>>,
    pub date_type: DateType,
}

impl View for GetCalendar {
    type V = GetCalendarV;

    open spec fn view(&self) -> GetCalendarV {
        GetCalendarV {
            start: match self.start { Some(s) => Some(s@), None => None },
            end: match self.end { Some(s) => Some(s@), None => None },
            date_type: self.date_type,
        }
    }
}

/// The query parameters this descriptor configures; unset optional
/// fields contribute nothing at all.
pub open spec fn spec_get_calendar_query(a: GetCalendarV) -> Seq<(Seq<char>, Seq<char>)> {
    seq![("date_type"@, a.date_type.spec_wire())] + opt_pair("start"@, a.start) + opt_pair("end"@, a.end)
}

impl Endpoint for GetCalendar {
    open spec fn spec_parts(&self) -> RequestPartsV {
        let a = self@;
        RequestPartsV {
            method: Method::Get,
            path: "/v2/calendar"@,
            query: spec_get_calendar_query(a),
            body: None,
        }
    }

    fn parts(&self) -> (r: RequestParts) {
        let path = String::from_str("/v2/calendar");
        let mut q: Vec<(String, String)> = Vec::new();
        push_pair(&mut q, "date_type", self.date_type.wire_name().to_owned());
        proof {
            assert(q.deep_view() =~= seq![("date_type"@, self@.date_type.spec_wire())]);
        }
        let ghost qseg0 = q.deep_view();
        match &self.start {
            Some(v) => {
                push_pair(&mut q, "start", v.clone());
            },
            None => {},
        }
        proof {
            assert(q.deep_view() =~= qseg0 + opt_pair("start"@, self@.start));
        }
        let ghost qseg1 = q.deep_view();
        match &self.end {
            Some(v) => {
                push_pair(&mut q, "end", v.clone());
            },
            None => {},
        }
        proof {
            assert(q.deep_view() =~= qseg1 + opt_pair("end"@, self@.end));
        }
        proof {
            assert(q.deep_view() =~= spec_get_calendar_query(self@));
        }
        let r = RequestParts {
            method: Method::Get,
            path,
            query: q,
            body: None,
        };
        proof {
            assert(r@.path =~= self.spec_parts().path);
        }
        r
    }
}

impl MarketDataEndpoint for GetCalendar {

}

impl GetCalendarV {
    /// The parts this calendar descriptor model configures.
    pub open spec fn spec_parts_of(self) -> RequestPartsV {
        RequestPartsV {
            method: Method::Get,
            path: "/v2/calendar"@,
            query: spec_get_calendar_query(self),
            body: None,
        }
    }
}

} // verus!
