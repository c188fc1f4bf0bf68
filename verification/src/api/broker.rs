//! The broker surface: its Basic credential, its organization-level
//! client, and the derivation of account-scoped views.

use vstd::prelude::*;

use crate::api::{
    assemble, broker_headers, spec_assemble, spec_broker_headers, AccountEndpoint,
    BrokerEndpoint, Endpoint, OutgoingRequest, RequestParts, RequestPartsV,
};

pub mod accounts;
pub mod funding;
pub mod trading;

verus! {

/// The live base URL of the broker surface.
pub fn broker_live_url() -> (r: String)
    ensures
        r@ == "https://broker-api.alpaca.markets/v1"@,
{
    String::from_str("https://broker-api.alpaca.markets/v1")
}

/// The sandbox base URL of the broker surface.
pub fn broker_sandbox_url() -> (r: String)
    ensures
        r@ == "https://broker-api.sandbox.alpaca.markets/v1"@,
{
    String::from_str("https://broker-api.sandbox.alpaca.markets/v1")
}

/// The credential of the broker surface: a raw key, base64-encoded into
/// a `Basic` authorization header at dispatch time, so callers never
/// encode it themselves.
#[derive(Debug, Clone)]
pub struct BrokerAuth {
    pub key: String,
}

/// The model of a `BrokerAuth`.
pub struct BrokerAuthV {
    pub key: Seq<char>,
}

impl View for BrokerAuth {
    type V = BrokerAuthV;

    open spec fn view(&self) -> BrokerAuthV {
        BrokerAuthV { key: self.key@ }
    }
}

/// The organization-level broker client: a base URL and the Basic
/// credential, both fixed at construction.  Its `prepare` attaches
/// exactly the one `Authorization` header and never a key pair.
#[derive(Debug, Clone)]
pub struct BrokerClient {
    base_url: String,
    auth: BrokerAuth,
}

/// The model of a `BrokerClient`.
pub struct BrokerClientV {
    pub base_url: Seq<char>,
    pub auth: BrokerAuthV,
}

impl View for BrokerClient {
    type V = BrokerClientV;

    closed spec fn view(&self) -> BrokerClientV {
        BrokerClientV { base_url: self.base_url@, auth: self.auth@ }
    }
}

impl BrokerClient {
    /// A client against a base URL of the caller's choice.
    pub fn new(auth: BrokerAuth, base_url: String) -> (r: Self)
        ensures
            r@.base_url == base_url@,
            r@.auth == auth@,
    {
        BrokerClient { base_url, auth }
    }

    /// A client against the live broker URL.
    pub fn new_live(auth: BrokerAuth) -> (r: Self)
        ensures
            r@.base_url == "https://broker-api.alpaca.markets/v1"@,
            r@.auth == auth@,
    {
        Self::new(auth, broker_live_url())
    }

    /// A client against the broker sandbox URL.
    pub fn new_sandbox(auth: BrokerAuth) -> (r: Self)
        ensures
            r@.base_url == "https://broker-api.sandbox.alpaca.markets/v1"@,
            r@.auth == auth@,
    {
        Self::new(auth, broker_sandbox_url())
    }

    /// Whether the stored credential is small enough for the header
    /// encoder's allocation bound, which `prepare` requires.
    pub fn credential_fits(&self) -> (r: bool)
        ensures
            r == (self@.auth.key.len() <= 250000000),
    {
        self.auth.key.as_str().unicode_len() <= 250000000
    }

    /// Configures the outgoing request of one organization-level broker
    /// endpoint, with exactly the Basic authorization header.
    pub fn prepare<T: BrokerEndpoint>(&self, e: &T) -> (r: OutgoingRequest)
        requires
            self@.auth.key.len() <= 250000000,
        ensures
            r@ == spec_assemble(
                self@.base_url,
                spec_broker_headers(self@.auth.key),
                e.spec_parts(),
            ),
    {
        assemble(&self.base_url, broker_headers(&self.auth.key), e.parts())
    }

    /// Configures the outgoing request of one endpoint against a single
    /// sub-account: the descriptor's own path is replaced by its
    /// account-scoped path, with the same Basic credential.
    pub fn prepare_for_account<T: AccountEndpoint>(&self, e: &T, account_id: &str) -> (r:
        OutgoingRequest)
        requires
            self@.auth.key.len() <= 250000000,
        ensures
            r@ == spec_assemble(
                self@.base_url,
                spec_broker_headers(self@.auth.key),
                RequestPartsV {
                    path: e.spec_account_path(account_id@),
                    ..e.spec_parts()
                },
            ),
    {
        let mut parts = e.parts();
        parts.path = e.account_path(account_id);
        assemble(&self.base_url, broker_headers(&self.auth.key), parts)
    }

    /// Derives the view of one sub-account, reusing this client's
    /// credential and base URL; its account snapshot starts uncached.
    pub fn account(&self, id: &str) -> (r: accounts::AccountView)
        ensures
            r@.id == id@,
            r@.auth == self@.auth,
            r@.base_url == self@.base_url,
            r@.data is None,
    {
        accounts::AccountView::new(
            id.to_owned(),
            BrokerAuth { key: self.auth.key.clone() },
            self.base_url.clone(),
        )
    }
}

} // verus!
