//! Historical and latest stock data on the market-data surface.

use vstd::prelude::*;

use crate::api::{
    opt_pair, push_pair, Endpoint, MarketDataEndpoint, Method, RequestParts, RequestPartsV,
};
use crate::model::{CorporateActionAdjustment, Sort, Tape, TickType, Timeframe};
pub use crate::model::StockFeed;

verus! {

/// Fetch historical auction prints for a list of symbols.
#[derive(Debug, Clone)]
pub struct GetHistoricalAuctions {
    pub symbols: Vec<String>,
    pub start: Option<String>,
    pub end: Option<String>,
    pub limit: Option<i64>,
    pub asof: Option<String>,
    pub feed: StockFeed,
    pub currency: Option<String>,
    pub sort: Option<Sort>,
}

/// The model of a `GetHistoricalAuctions`.
pub struct GetHistoricalAuctionsV {
    pub symbols: Seq<Seq<char>>,
    pub start: Option<Seq<char>>,
    pub end: Option<Seq<char>>,
    pub limit: Option<i64>,
    pub asof: Option<Seq<char>>,
    pub feed: StockFeed,
    pub currency: Option<Seq<char>>,
    pub sort: Option<Sort>,
}

impl View for GetHistoricalAuctions {
    type V = GetHistoricalAuctionsV;

    open spec fn view(&self) -> GetHistoricalAuctionsV {
        GetHistoricalAuctionsV {
            symbols: self.symbols.deep_view(),
            start: match self.start { Some(s) => Some(s@), None => None },
            end: match self.end { Some(s) => Some(s@), None => None },
            limit: self.limit,
            asof: match self.asof { Some(s) => Some(s@), None => None },
            feed: self.feed,
            currency: match self.currency { Some(s) => Some(s@), None => None },
            sort: self.sort,
        }
    }
}

/// The query parameters this descriptor configures; unset optional
/// fields contribute nothing at all.
pub open spec fn spec_get_historical_auctions_query(a: GetHistoricalAuctionsV) -> Seq<(Seq<char>, Seq<char>)> {
    seq![("symbols"@, crate::util::spec_join_comma(a.symbols)), ("feed"@, a.feed.spec_wire())] + opt_pair("start"@, a.start) + opt_pair("end"@, a.end) + opt_pair("limit"@, match a.limit { Some(v) => Some(crate::util::dec_digits_signed(v as int)), None => None }) + opt_pair("asof"@, a.asof) + opt_pair("currency"@, a.currency) + opt_pair("sort"@, match a.sort { Some(e) => Some(e.spec_wire()), None => None })
}

impl Endpoint for GetHistoricalAuctions {
    open spec fn spec_parts(&self) -> RequestPartsV {
        let a = self@;
        RequestPartsV {
            method: Method::Get,
            path: "/v2/stocks/auctions"@,
            query: spec_get_historical_auctions_query(a),
            body: None,
        }
    }

    #[verifier::rlimit(100)]
    fn parts(&self) -> (r: RequestParts) {
        let path = String::from_str("/v2/stocks/auctions");
        let mut q: Vec<(String, String)> = Vec::new();
        push_pair(&mut q, "symbols", crate::util::join_comma(&self.symbols));
        push_pair(&mut q, "feed", self.feed.wire_name().to_owned());
        proof {
            assert(q.deep_view() =~= seq![("symbols"@, crate::util::spec_join_comma(self@.symbols)), ("feed"@, self@.feed.spec_wire())]);
        }
        let ghost qseg0 = q.deep_view();
        match &self.start {
            Some(v) => {
                push_pair(&mut q, "start", v.clone());
            },
            None => {},
        }
        proof {
            assert(q.deep_view() =~= qseg0 + opt_pair("start"@, self@.start));
        }
        let ghost qseg1 = q.deep_view();
        match &self.end {
            Some(v) => {
                push_pair(&mut q, "end", v.clone());
            },
            None => {},
        }
        proof {
            assert(q.deep_view() =~= qseg1 + opt_pair("end"@, self@.end));
        }
        let ghost qseg2 = q.deep_view();
        match &self.limit {
            Some(v) => {
                push_pair(&mut q, "limit", crate::util::i64_to_string(*v));
            },
            None => {},
        }
        proof {
            assert(q.deep_view() =~= qseg2 + opt_pair("limit"@, match self@.limit { Some(v) => Some(crate::util::dec_digits_signed(v as int)), None => None }));
        }
        let ghost qseg3 = q.deep_view();
        match &self.asof {
            Some(v) => {
                push_pair(&mut q, "asof", v.clone());
            },
            None => {},
        }
        proof {
            assert(q.deep_view() =~= qseg3 + opt_pair("asof"@, self@.asof));
        }
        let ghost qseg4 = q.deep_view();
        match &self.currency {
            Some(v) => {
                push_pair(&mut q, "currency", v.clone());
            },
            None => {},
        }
        proof {
            assert(q.deep_view() =~= qseg4 + opt_pair("currency"@, self@.currency));
        }
        let ghost qseg5 = q.deep_view();
        match &self.sort {
            Some(v) => {
                push_pair(&mut q, "sort", v.wire_name().to_owned());
            },
            None => {},
        }
        proof {
            assert(q.deep_view() =~= qseg5 + opt_pair("sort"@, match self@.sort { Some(e) => Some(e.spec_wire()), None => None }));
        }
        proof {
            assert(q.deep_view() =~= spec_get_historical_auctions_query(self@));
        }
        let r = RequestParts {
            method: Method::Get,
            path,
            query: q,
            body: None,
        };
        proof {
            assert(r@.path =~= self.spec_parts().path);
        }
        r
    }
}

impl MarketDataEndpoint for GetHistoricalAuctions {

}

/// Fetch historical aggregate bars for a list of symbols.
#[derive(Debug, Clone)]
pub struct GetHistoricalBars {
    pub symbols: Vec<String>,
    pub timeframe: Timeframe,
    pub start: Option<String>,
    pub end: Option<String>,
    pub limit: Option<i64>,
    pub adjustment: CorporateActionAdjustment,
    pub asof: Option<String>,
    pub feed: StockFeed,
    pub currency: Option<String>,
    pub sort: Option<Sort>,
}

/// The model of a `GetHistoricalBars`.
pub struct GetHistoricalBarsV {
    pub symbols: Seq<Seq<char>>,
    pub timeframe: Timeframe,
    pub start: Option<Seq<char>>,
    pub end: Option<Seq<char>>,
    pub limit: Option<i64>,
    pub adjustment: CorporateActionAdjustment,
    pub asof: Option<Seq<char>>,
    pub feed: StockFeed,
    pub currency: Option<Seq<char>>,
    pub sort: Option<Sort>,
}

impl View for GetHistoricalBars {
    type V = GetHistoricalBarsV;

    open spec fn view(&self) -> GetHistoricalBarsV {
        GetHistoricalBarsV {
            symbols: self.symbols.deep_view(),
            timeframe: self.timeframe,
            start: match self.start { Some(s) => Some(s@), None => None },
            end: match self.end { Some(s) => Some(s@), None => None },
            limit: self.limit,
            adjustment: self.adjustment,
            asof: match self.asof { Some(s) => Some(s@), None => None },
            feed: self.feed,
            currency: match self.currency { Some(s) => Some(s@), None => None },
            sort: self.sort,
        }
    }
}

/// The query parameters this descriptor configures; unset optional
/// fields contribute nothing at all.
pub open spec fn spec_get_historical_bars_query(a: GetHistoricalBarsV) -> Seq<(Seq<char>, Seq<char>)> {
    seq![("symbols"@, crate::util::spec_join_comma(a.symbols)), ("timeframe"@, a.timeframe.spec_wire()), ("adjustment"@, a.adjustment.spec_wire()), ("feed"@, a.feed.spec_wire())] + opt_pair("start"@, a.start) + opt_pair("end"@, a.end) + opt_pair("limit"@, match a.limit { Some(v) => Some(crate::util::dec_digits_signed(v as int)), None => None }) + opt_pair("asof"@, a.asof) + opt_pair("currency"@, a.currency) + opt_pair("sort"@, match a.sort { Some(e) => Some(e.spec_wire()), None => None })
}

impl Endpoint for GetHistoricalBars {
    open spec fn spec_parts(&self) -> RequestPartsV {
        let a = self@;
        RequestPartsV {
            method: Method::Get,
            path: "/v2/stocks/bars"@,
            query: spec_get_historical_bars_query(a),
            body: None,
        }
    }

    #[verifier::rlimit(100)]
    fn parts(&self) -> (r: RequestParts) {
        let path = String::from_str("/v2/stocks/bars");
        let mut q: Vec<(String, String)> = Vec::new();
        push_pair(&mut q, "symbols", crate::util::join_comma(&self.symbols));
        push_pair(&mut q, "timeframe", self.timeframe.wire_text());
        push_pair(&mut q, "adjustment", self.adjustment.wire_name().to_owned());
        push_pair(&mut q, "feed", self.feed.wire_name().to_owned());
        proof {
            assert(q.deep_view() =~= seq![("symbols"@, crate::util::spec_join_comma(self@.symbols)), ("timeframe"@, self@.timeframe.spec_wire()), ("adjustment"@, self@.adjustment.spec_wire()), ("feed"@, self@.feed.spec_wire())]);
        }
        let ghost qseg0 = q.deep_view();
        match &self.start {
            Some(v) => {
                push_pair(&mut q, "start", v.clone());
            },
            None => {},
        }
        proof {
            assert(q.deep_view() =~= qseg0 + opt_pair("start"@, self@.start));
        }
        let ghost qseg1 = q.deep_view();
        match &self.end {
            Some(v) => {
                push_pair(&mut q, "end", v.clone());
            },
            None => {},
        }
        proof {
            assert(q.deep_view() =~= qseg1 + opt_pair("end"@, self@.end));
        }
        let ghost qseg2 = q.deep_view();
        match &self.limit {
            Some(v) => {
                push_pair(&mut q, "limit", crate::util::i64_to_string(*v));
            },
            None => {},
        }
        proof {
            assert(q.deep_view() =~= qseg2 + opt_pair("limit"@, match self@.limit { Some(v) => Some(crate::util::dec_digits_signed(v as int)), None => None }));
        }
        let ghost qseg3 = q.deep_view();
        match &self.asof {
            Some(v) => {
                push_pair(&mut q, "asof", v.clone());
            },
            None => {},
        }
        proof {
            assert(q.deep_view() =~= qseg3 + opt_pair("asof"@, self@.asof));
        }
        let ghost qseg4 = q.deep_view();
        match &self.currency {
            Some(v) => {
                push_pair(&mut q, "currency", v.clone());
            },
            None => {},
        }
        proof {
            assert(q.deep_view() =~= qseg4 + opt_pair("currency"@, self@.currency));
        }
        let ghost qseg5 = q.deep_view();
        match &self.sort {
            Some(v) => {
                push_pair(&mut q, "sort", v.wire_name().to_owned());
            },
            None => {},
        }
        proof {
            assert(q.deep_view() =~= qseg5 + opt_pair("sort"@, match self@.sort { Some(e) => Some(e.spec_wire()), None => None }));
        }
        proof {
            assert(q.deep_view() =~= spec_get_historical_bars_query(self@));
        }
        let r = RequestParts {
            method: Method::Get,
            path,
            query: q,
            body: None,
        };
        proof {
            assert(r@.path =~= self.spec_parts().path);
        }
        r
    }
}

impl MarketDataEndpoint for GetHistoricalBars {

}

/// Fetch the most recent bar of each listed symbol.
#[derive(Debug, Clone)]
pub struct GetLatestBars {
    pub symbols: Vec<String>,
    pub feed: StockFeed,
    pub currency: Option<String>,
}

/// The model of a `GetLatestBars`.
pub struct GetLatestBarsV {
    pub symbols: Seq<Seq<char>>,
    pub feed: StockFeed,
    pub currency: Option<Seq<char>>,
}

impl View for GetLatestBars {
    type V = GetLatestBarsV;

    open spec fn view(&self) -> GetLatestBarsV {
        GetLatestBarsV {
            symbols: self.symbols.deep_view(),
            feed: self.feed,
            currency: match self.currency { Some(s) => Some(s@), None => None },
        }
    }
}

/// The query parameters this descriptor configures; unset optional
/// fields contribute nothing at all.
pub open spec fn spec_get_latest_bars_query(a: GetLatestBarsV) -> Seq<(Seq<char>, Seq<char>)> {
    seq![("symbols"@, crate::util::spec_join_comma(a.symbols)), ("feed"@, a.feed.spec_wire())] + opt_pair("currency"@, a.currency)
}

impl Endpoint for GetLatestBars {
    open spec fn spec_parts(&self) -> RequestPartsV {
        let a = self@;
        RequestPartsV {
            method: Method::Get,
            path: "/v2/stocks/bars/latest"@,
            query: spec_get_latest_bars_query(a),
            body: None,
        }
    }

    fn parts(&self) -> (r: RequestParts) {
        let path = String::from_str("/v2/stocks/bars/latest");
        let mut q: Vec<(String, String)> = Vec::new();
        push_pair(&mut q, "symbols", crate::util::join_comma(&self.symbols));
        push_pair(&mut q, "feed", self.feed.wire_name().to_owned());
        proof {
            assert(q.deep_view() =~= seq![("symbols"@, crate::util::spec_join_comma(self@.symbols)), ("feed"@, self@.feed.spec_wire())]);
        }
        let ghost qseg0 = q.deep_view();
        match &self.currency {
            Some(v) => {
                push_pair(&mut q, "currency", v.clone());
            },
            None => {},
        }
        proof {
            assert(q.deep_view() =~= qseg0 + opt_pair("currency"@, self@.currency));
        }
        proof {
            assert(q.deep_view() =~= spec_get_latest_bars_query(self@));
        }
        let r = RequestParts {
            method: Method::Get,
            path,
            query: q,
            body: None,
        };
        proof {
            assert(r@.path =~= self.spec_parts().path);
        }
        r
    }
}

impl MarketDataEndpoint for GetLatestBars {

}

/// Fetch the condition-code table of one tick stream and tape.
#[derive(Debug, Clone)]
pub struct ConditionCodes {
    pub tick_type: TickType,
    pub tape: Tape,
}

/// The model of a `ConditionCodes`.
pub struct ConditionCodesV {
    pub tick_type: TickType,
    pub tape: Tape,
}

impl View for ConditionCodes {
    type V = ConditionCodesV;

    open spec fn view(&self) -> ConditionCodesV {
        ConditionCodesV {
            tick_type: self.tick_type,
            tape: self.tape,
        }
    }
}

/// The query parameters this descriptor configures; unset optional
/// fields contribute nothing at all.
pub open spec fn spec_condition_codes_query(a: ConditionCodesV) -> Seq<(Seq<char>, Seq<char>)> {
    seq![("tape"@, a.tape.spec_wire())]
}

impl Endpoint for ConditionCodes {
    open spec fn spec_parts(&self) -> RequestPartsV {
        let a = self@;
        RequestPartsV {
            method: Method::Get,
            path: "/v2/stocks/meta/conditions/"@ + a.tick_type.spec_wire(),
            query: spec_condition_codes_query(a),
            body: None,
        }
    }

    fn parts(&self) -> (r: RequestParts) {
        let mut path = String::from_str("/v2/stocks/meta/conditions/");
        path.append(self.tick_type.wire_name());
        let mut q: Vec<(String, String)> = Vec::new();
        push_pair(&mut q, "tape", self.tape.wire_name().to_owned());
        proof {
            assert(q.deep_view() =~= seq![("tape"@, self@.tape.spec_wire())]);
        }
        proof {
            assert(q.deep_view() =~= spec_condition_codes_query(self@));
        }
        let r = RequestParts {
            method: Method::Get,
            path,
            query: q,
            body: None,
        };
        proof {
            assert(r@.path =~= self.spec_parts().path);
        }
        r
    }
}

impl MarketDataEndpoint for ConditionCodes {

}

/// Fetch the exchange-code table.
#[derive(Debug, Clone)]
pub struct ExchangeCodes;

impl Endpoint for ExchangeCodes {
    open spec fn spec_parts(&self) -> RequestPartsV {
        
        RequestPartsV {
            method: Method::Get,
            path: "/v2/stocks/meta/exchanges"@,
            query: Seq::empty(),
            body: None,
        }
    }

    fn parts(&self) -> (r: RequestParts) {
        let path = String::from_str("/v2/stocks/meta/exchanges");
        let r = RequestParts {
            method: Method::Get,
            path,
            query: Vec::new(),
            body: None,
        };
        proof {
            assert(r@.path =~= self.spec_parts().path);
            assert(r@.query =~= self.spec_parts().query);
        }
        r
    }
}

impl MarketDataEndpoint for ExchangeCodes {

}

/// Fetch historical quotes for a list of symbols.
#[derive(Debug, Clone)]
pub struct GetHistoricalQuotes {
    pub symbols: Vec<String>,
    pub start: Option<String>,
    pub end: Option<String>,
    pub limit: Option<i64>,
    pub asof: Option<String>,
    pub feed: StockFeed,
    pub sort: Option<Sort>,
}

/// The model of a `GetHistoricalQuotes`.
pub struct GetHistoricalQuotesV {
    pub symbols: Seq<Seq<char>>,
    pub start: Option<Seq<char>>,
    pub end: Option<Seq<char>>,
    pub limit: Option<i64>,
    pub asof: Option<Seq<char>>,
    pub feed: StockFeed,
    pub sort: Option<Sort>,
}

impl View for GetHistoricalQuotes {
    type V = GetHistoricalQuotesV;

    open spec fn view(&self) -> GetHistoricalQuotesV {
        GetHistoricalQuotesV {
            symbols: self.symbols.deep_view(),
            start: match self.start { Some(s) => Some(s@), None => None },
            end: match self.end { Some(s) => Some(s@), None => None },
            limit: self.limit,
            asof: match self.asof { Some(s) => Some(s@), None => None },
            feed: self.feed,
            sort: self.sort,
        }
    }
}

/// The query parameters this descriptor configures; unset optional
/// fields contribute nothing at all.
pub open spec fn spec_get_historical_quotes_query(a: GetHistoricalQuotesV) -> Seq<(Seq<char>, Seq<char>)> {
    seq![("symbols"@, crate::util::spec_join_comma(a.symbols)), ("feed"@, a.feed.spec_wire())] + opt_pair("start"@, a.start) + opt_pair("end"@, a.end) + opt_pair("limit"@, match a.limit { Some(v) => Some(crate::util::dec_digits_signed(v as int)), None => None }) + opt_pair("asof"@, a.asof) + opt_pair("sort"@, match a.sort { Some(e) => Some(e.spec_wire()), None => None })
}

impl Endpoint for GetHistoricalQuotes {
    open spec fn spec_parts(&self) -> RequestPartsV {
        let a = self@;
        RequestPartsV {
            method: Method::Get,
            path: "/v2/stocks/quotes"@,
            query: spec_get_historical_quotes_query(a),
            body: None,
        }
    }

    #[verifier::rlimit(100)]
    fn parts(&self) -> (r: RequestParts) {
        let path = String::from_str("/v2/stocks/quotes");
        let mut q: Vec<(String, String)> = Vec::new();
        push_pair(&mut q, "symbols", crate::util::join_comma(&self.symbols));
        push_pair(&mut q, "feed", self.feed.wire_name().to_owned());
        proof {
            assert(q.deep_view() =~= seq![("symbols"@, crate::util::spec_join_comma(self@.symbols)), ("feed"@, self@.feed.spec_wire())]);
        }
        let ghost qseg0 = q.deep_view();
        match &self.start {
            Some(v) => {
                push_pair(&mut q, "start", v.clone());
            },
            None => {},
        }
        proof {
            assert(q.deep_view() =~= qseg0 + opt_pair("start"@, self@.start));
        }
        let ghost qseg1 = q.deep_view();
        match &self.end {
            Some(v) => {
                push_pair(&mut q, "end", v.clone());
            },
            None => {},
        }
        proof {
            assert(q.deep_view() =~= qseg1 + opt_pair("end"@, self@.end));
        }
        let ghost qseg2 = q.deep_view();
        match &self.limit {
            Some(v) => {
                push_pair(&mut q, "limit", crate::util::i64_to_string(*v));
            },
            None => {},
        }
        proof {
            assert(q.deep_view() =~= qseg2 + opt_pair("limit"@, match self@.limit { Some(v) => Some(crate::util::dec_digits_signed(v as int)), None => None }));
        }
        let ghost qseg3 = q.deep_view();
        match &self.asof {
            Some(v) => {
                push_pair(&mut q, "asof", v.clone());
            },
            None => {},
        }
        proof {
            assert(q.deep_view() =~= qseg3 + opt_pair("asof"@, self@.asof));
        }
        let ghost qseg4 = q.deep_view();
        match &self.sort {
            Some(v) => {
                push_pair(&mut q, "sort", v.wire_name().to_owned());
            },
            None => {},
        }
        proof {
            assert(q.deep_view() =~= qseg4 + opt_pair("sort"@, match self@.sort { Some(e) => Some(e.spec_wire()), None => None }));
        }
        proof {
            assert(q.deep_view() =~= spec_get_historical_quotes_query(self@));
        }
        let r = RequestParts {
            method: Method::Get,
            path,
            query: q,
            body: None,
        };
        proof {
            assert(r@.path =~= self.spec_parts().path);
        }
        r
    }
}

impl MarketDataEndpoint for GetHistoricalQuotes {

}

/// Fetch the most recent quote of each listed symbol.
#[derive(Debug, Clone)]
pub struct GetLatestQuotes {
    pub symbols: Vec<String>,
    pub feed: StockFeed,
    pub currency: Option<String>,
}

/// The model of a `GetLatestQuotes`.
pub struct GetLatestQuotesV {
    pub symbols: Seq<Seq<char>>,
    pub feed: StockFeed,
    pub currency: Option<Seq<char>>,
}

impl View for GetLatestQuotes {
    type V = GetLatestQuotesV;

    open spec fn view(&self) -> GetLatestQuotesV {
        GetLatestQuotesV {
            symbols: self.symbols.deep_view(),
            feed: self.feed,
            currency: match self.currency { Some(s) => Some(s@), None => None },
        }
    }
}

/// The query parameters this descriptor configures; unset optional
/// fields contribute nothing at all.
pub open spec fn spec_get_latest_quotes_query(a: GetLatestQuotesV) -> Seq<(Seq<char>, Seq<char>)> {
    seq![("symbols"@, crate::util::spec_join_comma(a.symbols)), ("feed"@, a.feed.spec_wire())] + opt_pair("currency"@, a.currency)
}

impl Endpoint for GetLatestQuotes {
    open spec fn spec_parts(&self) -> RequestPartsV {
        let a = self@;
        RequestPartsV {
            method: Method::Get,
            path: "/v2/stocks/quotes/latest"@,
            query: spec_get_latest_quotes_query(a),
            body: None,
        }
    }

    fn parts(&self) -> (r: RequestParts) {
        let path = String::from_str("/v2/stocks/quotes/latest");
        let mut q: Vec<(String, String)> = Vec::new();
        push_pair(&mut q, "symbols", crate::util::join_comma(&self.symbols));
        push_pair(&mut q, "feed", self.feed.wire_name().to_owned());
        proof {
            assert(q.deep_view() =~= seq![("symbols"@, crate::util::spec_join_comma(self@.symbols)), ("feed"@, self@.feed.spec_wire())]);
        }
        let ghost qseg0 = q.deep_view();
        match &self.currency {
            Some(v) => {
                push_pair(&mut q, "currency", v.clone());
            },
            None => {},
        }
        proof {
            assert(q.deep_view() =~= qseg0 + opt_pair("currency"@, self@.currency));
        }
        proof {
            assert(q.deep_view() =~= spec_get_latest_quotes_query(self@));
        }
        let r = RequestParts {
            method: Method::Get,
            path,
            query: q,
            body: None,
        };
        proof {
            assert(r@.path =~= self.spec_parts().path);
        }
        r
    }
}

impl MarketDataEndpoint for GetLatestQuotes {

}

/// Fetch a full snapshot of each listed symbol.
#[derive(Debug, Clone)]
pub struct GetSnapshots {
    pub symbols: Vec<String>,
    pub feed: Option<StockFeed>,
    pub currency: Option<String>,
}

/// The model of a `GetSnapshots`.
pub struct GetSnapshotsV {
    pub symbols: Seq<Seq<char>>,
    pub feed: Option<StockFeed>,
    pub currency: Option<Seq<char>>,
}

impl View for GetSnapshots {
    type V = GetSnapshotsV;

    open spec fn view(&self) -> GetSnapshotsV {
        GetSnapshotsV {
            symbols: self.symbols.deep_view(),
            feed: self.feed,
            currency: match self.currency { Some(s) => Some(s@), None => None },
        }
    }
}

/// The query parameters this descriptor configures; unset optional
/// fields contribute nothing at all.
pub open spec fn spec_get_snapshots_query(a: GetSnapshotsV) -> Seq<(Seq<char>, Seq<char>)> {
    seq![("symbols"@, crate::util::spec_join_comma(a.symbols))] + opt_pair("feed"@, match a.feed { Some(e) => Some(e.spec_wire()), None => None }) + opt_pair("currency"@, a.currency)
}

impl Endpoint for GetSnapshots {
    open spec fn spec_parts(&self) -> RequestPartsV {
        let a = self@;
        RequestPartsV {
            method: Method::Get,
            path: "/v2/stocks/snapshots"@,
            query: spec_get_snapshots_query(a),
            body: None,
        }
    }

    fn parts(&self) -> (r: RequestParts) {
        let path = String::from_str("/v2/stocks/snapshots");
        let mut q: Vec<(String, String)> = Vec::new();
        push_pair(&mut q, "symbols", crate::util::join_comma(&self.symbols));
        proof {
            assert(q.deep_view() =~= seq![("symbols"@, crate::util::spec_join_comma(self@.symbols))]);
        }
        let ghost qseg0 = q.deep_view();
        match &self.feed {
            Some(v) => {
                push_pair(&mut q, "feed", v.wire_name().to_owned());
            },
            None => {},
        }
        proof {
            assert(q.deep_view() =~= qseg0 + opt_pair("feed"@, match self@.feed { Some(e) => Some(e.spec_wire()), None => None }));
        }
        let ghost qseg1 = q.deep_view();
        match &self.currency {
            Some(v) => {
                push_pair(&mut q, "currency", v.clone());
            },
            None => {},
        }
        proof {
            assert(q.deep_view() =~= qseg1 + opt_pair("currency"@, self@.currency));
        }
        proof {
            assert(q.deep_view() =~= spec_get_snapshots_query(self@));
        }
        let r = RequestParts {
            method: Method::Get,
            path,
            query: q,
            body: None,
        };
        proof {
            assert(r@.path =~= self.spec_parts().path);
        }
        r
    }
}

impl MarketDataEndpoint for GetSnapshots {

}

/// Fetch historical trades for a list of symbols.
#[derive(Debug, Clone)]
pub struct GetHistoricalTrades {
    pub symbols: Vec<String>,
    pub start: Option<String>,
    pub end: Option<String>,
    pub limit: Option<i64>,
    pub asof: Option<String>,
    pub feed: Option<StockFeed>,
    pub currency: Option<String>,
    pub sort: Option<Sort>,
}

/// The model of a `GetHistoricalTrades`.
pub struct GetHistoricalTradesV {
    pub symbols: Seq<Seq<char>>,
    pub start: Option<Seq<char>>,
    pub end: Option<Seq<char>>,
    pub limit: Option<i64>,
    pub asof: Option<Seq<char>>,
    pub feed: Option<StockFeed>,
    pub currency: Option<Seq<char>>,
    pub sort: Option<Sort>,
}

impl View for GetHistoricalTrades {
    type V = GetHistoricalTradesV;

    open spec fn view(&self) -> GetHistoricalTradesV {
        GetHistoricalTradesV {
            symbols: self.symbols.deep_view(),
            start: match self.start { Some(s) => Some(s@), None => None },
            end: match self.end { Some(s) => Some(s@), None => None },
            limit: self.limit,
            asof: match self.asof { Some(s) => Some(s@), None => None },
            feed: self.feed,
            currency: match self.currency { Some(s) => Some(s@), None => None },
            sort: self.sort,
        }
    }
}

/// The query parameters this descriptor configures; unset optional
/// fields contribute nothing at all.
pub open spec fn spec_get_historical_trades_query(a: GetHistoricalTradesV) -> Seq<(Seq<char>, Seq<char>)> {
    seq![("symbols"@, crate::util::spec_join_comma(a.symbols))] + opt_pair("start"@, a.start) + opt_pair("end"@, a.end) + opt_pair("limit"@, match a.limit { Some(v) => Some(crate::util::dec_digits_signed(v as int)), None => None }) + opt_pair("asof"@, a.asof) + opt_pair("feed"@, match a.feed { Some(e) => Some(e.spec_wire()), None => None }) + opt_pair("currency"@, a.currency) + opt_pair("sort"@, match a.sort { Some(e) => Some(e.spec_wire()), None => None })
}

impl Endpoint for GetHistoricalTrades {
    open spec fn spec_parts(&self) -> RequestPartsV {
        let a = self@;
        RequestPartsV {
            method: Method::Get,
            path: "/v2/stocks/trades"@,
            query: spec_get_historical_trades_query(a),
            body: None,
        }
    }

    #[verifier::rlimit(100)]
    fn parts(&self) -> (r: RequestParts) {
        let path = String::from_str("/v2/stocks/trades");
        let mut q: Vec<(String, String)> = Vec::new();
        push_pair(&mut q, "symbols", crate::util::join_comma(&self.symbols));
        proof {
            assert(q.deep_view() =~= seq![("symbols"@, crate::util::spec_join_comma(self@.symbols))]);
        }
        let ghost qseg0 = q.deep_view();
        match &self.start {
            Some(v) => {
                push_pair(&mut q, "start", v.clone());
            },
            None => {},
        }
        proof {
            assert(q.deep_view() =~= qseg0 + opt_pair("start"@, self@.start));
        }
        let ghost qseg1 = q.deep_view();
        match &self.end {
            Some(v) => {
                push_pair(&mut q, "end", v.clone());
            },
            None => {},
        }
        proof {
            assert(q.deep_view() =~= qseg1 + opt_pair("end"@, self@.end));
        }
        let ghost qseg2 = q.deep_view();
        match &self.limit {
            Some(v) => {
                push_pair(&mut q, "limit", crate::util::i64_to_string(*v));
            },
            None => {},
        }
        proof {
            assert(q.deep_view() =~= qseg2 + opt_pair("limit"@, match self@.limit { Some(v) => Some(crate::util::dec_digits_signed(v as int)), None => None }));
        }
        let ghost qseg3 = q.deep_view();
        match &self.asof {
            Some(v) => {
                push_pair(&mut q, "asof", v.clone());
            },
            None => {},
        }
        proof {
            assert(q.deep_view() =~= qseg3 + opt_pair("asof"@, self@.asof));
        }
        let ghost qseg4 = q.deep_view();
        match &self.feed {
            Some(v) => {
                push_pair(&mut q, "feed", v.wire_name().to_owned());
            },
            None => {},
        }
        proof {
            assert(q.deep_view() =~= qseg4 + opt_pair("feed"@, match self@.feed { Some(e) => Some(e.spec_wire()), None => None }));
        }
        let ghost qseg5 = q.deep_view();
        match &self.currency {
            Some(v) => {
                push_pair(&mut q, "currency", v.clone());
            },
            None => {},
        }
        proof {
            assert(q.deep_view() =~= qseg5 + opt_pair("currency"@, self@.currency));
        }
        let ghost qseg6 = q.deep_view();
        match &self.sort {
            Some(v) => {
                push_pair(&mut q, "sort", v.wire_name().to_owned());
            },
            None => {},
        }
        proof {
            assert(q.deep_view() =~= qseg6 + opt_pair("sort"@, match self@.sort { Some(e) => Some(e.spec_wire()), None => None }));
        }
        proof {
            assert(q.deep_view() =~= spec_get_historical_trades_query(self@));
        }
        let r = RequestParts {
            method: Method::Get,
            path,
            query: q,
            body: None,
        };
        proof {
            assert(r@.path =~= self.spec_parts().path);
        }
        r
    }
}

impl MarketDataEndpoint for GetHistoricalTrades {

}

/// Fetch the most recent trade of each listed symbol.
#[derive(Debug, Clone)]
pub struct GetLatestTrades {
    pub symbols: Vec<String>,
    pub feed: Option<StockFeed>,
    pub currency: Option<String>,
}

/// The model of a `GetLatestTrades`.
pub struct GetLatestTradesV {
    pub symbols: Seq<Seq<char>>,
    pub feed: Option<StockFeed>,
    pub currency: Option<Seq<char>>,
}

impl View for GetLatestTrades {
    type V = GetLatestTradesV;

    open spec fn view(&self) -> GetLatestTradesV {
        GetLatestTradesV {
            symbols: self.symbols.deep_view(),
            feed: self.feed,
            currency: match self.currency { Some(s) => Some(s@), None => None },
        }
    }
}

/// The query parameters this descriptor configures; unset optional
/// fields contribute nothing at all.
pub open spec fn spec_get_latest_trades_query(a: GetLatestTradesV) -> Seq<(Seq<char>, Seq<char>)> {
    seq![("symbols"@, crate::util::spec_join_comma(a.symbols))] + opt_pair("feed"@, match a.feed { Some(e) => Some(e.spec_wire()), None => None }) + opt_pair("currency"@, a.currency)
}

impl Endpoint for GetLatestTrades {
    open spec fn spec_parts(&self) -> RequestPartsV {
        let a = self@;
        RequestPartsV {
            method: Method::Get,
            path: "/v2/stocks/trades/latest"@,
            query: spec_get_latest_trades_query(a),
            body: None,
        }
    }

    fn parts(&self) -> (r: RequestParts) {
        let path = String::from_str("/v2/stocks/trades/latest");
        let mut q: Vec<(String, String)> = Vec::new();
        push_pair(&mut q, "symbols", crate::util::join_comma(&self.symbols));
        proof {
            assert(q.deep_view() =~= seq![("symbols"@, crate::util::spec_join_comma(self@.symbols))]);
        }
        let ghost qseg0 = q.deep_view();
        match &self.feed {
            Some(v) => {
                push_pair(&mut q, "feed", v.wire_name().to_owned());
            },
            None => {},
        }
        proof {
            assert(q.deep_view() =~= qseg0 + opt_pair("feed"@, match self@.feed { Some(e) => Some(e.spec_wire()), None => None }));
        }
        let ghost qseg1 = q.deep_view();
        match &self.currency {
            Some(v) => {
                push_pair(&mut q, "currency", v.clone());
            },
            None => {},
        }
        proof {
            assert(q.deep_view() =~= qseg1 + opt_pair("currency"@, self@.currency));
        }
        proof {
            assert(q.deep_view() =~= spec_get_latest_trades_query(self@));
        }
        let r = RequestParts {
            method: Method::Get,
            path,
            query: q,
            body: None,
        };
        proof {
            assert(r@.path =~= self.spec_parts().path);
        }
        r
    }
}

impl MarketDataEndpoint for GetLatestTrades {

}

/// Every optional field of a bars request that is left unset is omitted
/// from the configured query entirely: the parameter is simply absent,
/// never sent empty.
#[verifier::rlimit(100)]
pub proof fn lemma_get_historical_bars_omits_unset(a: GetHistoricalBarsV)
    ensures
        a.start is None ==> crate::api::spec_qlookup(spec_get_historical_bars_query(a), "start"@)
            is None,
        a.end is None ==> crate::api::spec_qlookup(spec_get_historical_bars_query(a), "end"@)
            is None,
        a.limit is None ==> crate::api::spec_qlookup(spec_get_historical_bars_query(a), "limit"@)
            is None,
        a.asof is None ==> crate::api::spec_qlookup(spec_get_historical_bars_query(a), "asof"@)
            is None,
        a.currency is None ==> crate::api::spec_qlookup(
            spec_get_historical_bars_query(a),
            "currency"@,
        ) is None,
        a.sort is None ==> crate::api::spec_qlookup(spec_get_historical_bars_query(a), "sort"@)
            is None,
{
    reveal_with_fuel(crate::api::spec_qlookup, 16);
    reveal_strlit("symbols");
    reveal_strlit("timeframe");
    reveal_strlit("adjustment");
    reveal_strlit("feed");
    reveal_strlit("start");
    reveal_strlit("end");
    reveal_strlit("limit");
    reveal_strlit("asof");
    reveal_strlit("currency");
    reveal_strlit("sort");
    assert("symbols"@.len() == 7);
    assert("timeframe"@.len() == 9);
    assert("adjustment"@.len() == 10);
    assert("feed"@.len() == 4);
    assert("start"@.len() == 5);
    assert("end"@.len() == 3);
    assert("limit"@.len() == 5);
    assert("asof"@.len() == 4);
    assert("currency"@.len() == 8);
    assert("sort"@.len() == 4);
    assert("start"@ != "limit"@) by {
        assert("start"@[0] == 's');
        assert("limit"@[0] == 'l');
    }
    assert("asof"@ != "feed"@) by {
        assert("asof"@[0] == 'a');
        assert("feed"@[0] == 'f');
    }
    assert("asof"@ != "sort"@) by {
        assert("asof"@[0] == 'a');
        assert("sort"@[0] == 's');
    }
    assert("feed"@ != "sort"@) by {
        assert("feed"@[0] == 'f');
        assert("sort"@[0] == 's');
    }
    let base = seq![
        ("symbols"@, crate::util::spec_join_comma(a.symbols)),
        ("timeframe"@, a.timeframe.spec_wire()),
        ("adjustment"@, a.adjustment.spec_wire()),
        ("feed"@, a.feed.spec_wire()),
    ];
    let g0 = opt_pair("start"@, a.start);
    let g1 = opt_pair("end"@, a.end);
    let g2 = opt_pair(
        "limit"@,
        match a.limit {
            Some(v) => Some(crate::util::dec_digits_signed(v as int)),
            None => None,
        },
    );
    let g3 = opt_pair("asof"@, a.asof);
    let g4 = opt_pair("currency"@, a.currency);
    let g5 = opt_pair(
        "sort"@,
        match a.sort {
            Some(e) => Some(e.spec_wire()),
            None => None,
        },
    );
    let p0 = base + g0;
    let p1 = p0 + g1;
    let p2 = p1 + g2;
    let p3 = p2 + g3;
    let p4 = p3 + g4;
    let p5 = p4 + g5;
    assert(spec_get_historical_bars_query(a) == p5);
    crate::api::lemma_qlookup_append(p4, g5, "start"@);
    crate::api::lemma_qlookup_append(p3, g4, "start"@);
    crate::api::lemma_qlookup_append(p2, g3, "start"@);
    crate::api::lemma_qlookup_append(p1, g2, "start"@);
    crate::api::lemma_qlookup_append(p0, g1, "start"@);
    crate::api::lemma_qlookup_append(base, g0, "start"@);
    crate::api::lemma_qlookup_append(p4, g5, "end"@);
    crate::api::lemma_qlookup_append(p3, g4, "end"@);
    crate::api::lemma_qlookup_append(p2, g3, "end"@);
    crate::api::lemma_qlookup_append(p1, g2, "end"@);
    crate::api::lemma_qlookup_append(p0, g1, "end"@);
    crate::api::lemma_qlookup_append(base, g0, "end"@);
    crate::api::lemma_qlookup_append(p4, g5, "limit"@);
    crate::api::lemma_qlookup_append(p3, g4, "limit"@);
    crate::api::lemma_qlookup_append(p2, g3, "limit"@);
    crate::api::lemma_qlookup_append(p1, g2, "limit"@);
    crate::api::lemma_qlookup_append(p0, g1, "limit"@);
    crate::api::lemma_qlookup_append(base, g0, "limit"@);
    crate::api::lemma_qlookup_append(p4, g5, "asof"@);
    crate::api::lemma_qlookup_append(p3, g4, "asof"@);
    crate::api::lemma_qlookup_append(p2, g3, "asof"@);
    crate::api::lemma_qlookup_append(p1, g2, "asof"@);
    crate::api::lemma_qlookup_append(p0, g1, "asof"@);
    crate::api::lemma_qlookup_append(base, g0, "asof"@);
    crate::api::lemma_qlookup_append(p4, g5, "currency"@);
    crate::api::lemma_qlookup_append(p3, g4, "currency"@);
    crate::api::lemma_qlookup_append(p2, g3, "currency"@);
    crate::api::lemma_qlookup_append(p1, g2, "currency"@);
    crate::api::lemma_qlookup_append(p0, g1, "currency"@);
    crate::api::lemma_qlookup_append(base, g0, "currency"@);
    crate::api::lemma_qlookup_append(p4, g5, "sort"@);
    crate::api::lemma_qlookup_append(p3, g4, "sort"@);
    crate::api::lemma_qlookup_append(p2, g3, "sort"@);
    crate::api::lemma_qlookup_append(p1, g2, "sort"@);
    crate::api::lemma_qlookup_append(p0, g1, "sort"@);
    crate::api::lemma_qlookup_append(base, g0, "sort"@);
}

} // verus!
