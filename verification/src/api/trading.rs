//! The standalone trading surface: its credentials, its client, and the
//! account and clock endpoints.

use vstd::prelude::*;

use crate::api::{
    assemble, spec_assemble, spec_trading_headers, trading_headers, Endpoint, Method,
    OutgoingRequest, RequestParts, RequestPartsV, TradingEndpoint,
};

pub mod orders;
pub mod positions;

verus! {

/// The live base URL of the trading surface.
pub fn trading_live_url() -> (r: String)
    ensures
        r@ == "https://api.alpaca.markets/v2"@,
{
    String::from_str("https://api.alpaca.markets/v2")
}

/// The paper-trading base URL of the trading surface.
pub fn trading_paper_url() -> (r: String)
    ensures
        r@ == "https://paper-api.alpaca.markets/v2"@,
{
    String::from_str("https://paper-api.alpaca.markets/v2")
}

/// The credentials for authorizing on the trading and market-data
/// surfaces: an API key id and its secret.
#[derive(Debug, Clone)]
pub struct TradingAuth {
    pub key_id: String,
    pub secret: String,
}

/// The model of a `TradingAuth`.
pub struct TradingAuthV {
    pub key_id: Seq<char>,
    pub secret: Seq<char>,
}

impl View for TradingAuth {
    type V = TradingAuthV;

    open spec fn view(&self) -> TradingAuthV {
        TradingAuthV { key_id: self.key_id@, secret: self.secret@ }
    }
}

/// The client of a standalone trading account: a base URL and the
/// key-pair credentials, both fixed at construction.  Its `prepare`
/// attaches exactly the two key headers and never any other scheme.
#[derive(Debug, Clone)]
pub struct TradingClient {
    base_url: String,
    auth: TradingAuth,
}

/// The model of a `TradingClient`.
pub struct TradingClientV {
    pub base_url: Seq<char>,
    pub auth: TradingAuthV,
}

impl View for TradingClient {
    type V = TradingClientV;

    closed spec fn view(&self) -> TradingClientV {
        TradingClientV { base_url: self.base_url@, auth: self.auth@ }
    }
}

impl TradingClient {
    /// A client against a base URL of the caller's choice.
    pub fn new(auth: TradingAuth, base_url: String) -> (r: Self)
        ensures
            r@.base_url == base_url@,
            r@.auth == auth@,
    {
        TradingClient { base_url, auth }
    }

    /// A client against the live trading URL.
    pub fn new_live(auth: TradingAuth) -> (r: Self)
        ensures
            r@.base_url == "https://api.alpaca.markets/v2"@,
            r@.auth == auth@,
    {
        Self::new(auth, trading_live_url())
    }

    /// A client against the paper-trading URL.
    pub fn new_paper(auth: TradingAuth) -> (r: Self)
        ensures
            r@.base_url == "https://paper-api.alpaca.markets/v2"@,
            r@.auth == auth@,
    {
        Self::new(auth, trading_paper_url())
    }

    /// Configures the outgoing request of one trading endpoint: the
    /// trading base URL, the descriptor's method, path, query and body,
    /// and exactly the key-pair headers.
    pub fn prepare<T: TradingEndpoint>(&self, e: &T) -> (r: OutgoingRequest)
        ensures
            r@ == spec_assemble(
                self@.base_url,
                spec_trading_headers(self@.auth.key_id, self@.auth.secret),
                e.spec_parts(),
            ),
    {
        assemble(&self.base_url, trading_headers(&self.auth.key_id, &self.auth.secret), e.parts())
    }

    /// The configured request that fetches this account's snapshot.
    pub fn get_account(&self) -> (r: OutgoingRequest)
        ensures
            r@ == spec_assemble(
                self@.base_url,
                spec_trading_headers(self@.auth.key_id, self@.auth.secret),
                (GetAccount).spec_parts(),
            ),
    {
        self.prepare(&GetAccount)
    }

    /// The configured request that fetches the market clock.
    pub fn get_clock(&self) -> (r: OutgoingRequest)
        ensures
            r@ == spec_assemble(
                self@.base_url,
                spec_trading_headers(self@.auth.key_id, self@.auth.secret),
                (GetClock).spec_parts(),
            ),
    {
        self.prepare(&GetClock)
    }
}

/// Get account details.
#[derive(Debug, Clone)]
pub struct GetAccount;

impl Endpoint for GetAccount {
    open spec fn spec_parts(&self) -> RequestPartsV {
        
        RequestPartsV {
            method: Method::Get,
            path: "/account"@,
            query: Seq::empty(),
            body: None,
        }
    }

    fn parts(&self) -> (r: RequestParts) {
        let path = String::from_str("/account");
        let r = RequestParts {
            method: Method::Get,
            path,
            query: Vec::new(),
            body: None,
        };
        proof {
            assert(r@.path =~= self.spec_parts().path);
            assert(r@.query =~= self.spec_parts().query);
        }
        r
    }
}

impl TradingEndpoint for GetAccount {

}

/// Get the market clock.
#[derive(Debug, Clone)]
pub struct GetClock;

impl Endpoint for GetClock {
    open spec fn spec_parts(&self) -> RequestPartsV {
        
        RequestPartsV {
            method: Method::Get,
            path: "/clock"@,
            query: Seq::empty(),
            body: None,
        }
    }

    fn parts(&self) -> (r: RequestParts) {
        let path = String::from_str("/clock");
        let r = RequestParts {
            method: Method::Get,
            path,
            query: Vec::new(),
            body: None,
        };
        proof {
            assert(r@.path =~= self.spec_parts().path);
            assert(r@.query =~= self.spec_parts().query);
        }
        r
    }
}

impl TradingEndpoint for GetClock {

}

} // verus!
