//! The pagination engine: page-size and continuation-token state for
//! list endpoints, advanced one fetched page at a time until the server
//! stops returning a token.

use vstd::prelude::*;

use crate::util::{dec_digits_signed, i64_to_string};

verus! {

/// Where a paged listing stands: not yet fetched, holding the token of
/// the last page, or exhausted.
#[derive(Debug, Clone)]
pub enum CursorState {
    NotStarted,
    HasToken(String),
    Exhausted,
}

/// The model of a `CursorState`.
pub enum CursorStateV {
    NotStarted,
    HasToken(Seq<char>),
    Exhausted,
}

impl View for CursorState {
    type V = CursorStateV;

    open spec fn view(&self) -> CursorStateV {
        match self {
            CursorState::NotStarted => CursorStateV::NotStarted,
            CursorState::HasToken(t) => CursorStateV::HasToken(t@),
            CursorState::Exhausted => CursorStateV::Exhausted,
        }
    }
}

/// The pagination cursor of one list endpoint: the requested page size
/// and the last-seen continuation token.  Only `advance` and
/// `record_page` change the state.
#[derive(Debug, Clone)]
pub struct PaginationContext {
    pub page_size: u64,
    pub state: CursorState,
}

/// The model of a `PaginationContext`.
pub struct PaginationContextV {
    pub page_size: u64,
    pub state: CursorStateV,
}

impl View for PaginationContext {
    type V = PaginationContextV;

    open spec fn view(&self) -> PaginationContextV {
        PaginationContextV { page_size: self.page_size, state: self.state@ }
    }
}

/// The page limit actually sent: a limit declared on the descriptor
/// always wins; the cursor's page size is only a hint used in its place.
pub open spec fn spec_effective_limit(declared: Option<i64>, page_size: u64) -> i64 {
    match declared {
        Some(l) => l,
        None => page_size as i64,
    }
}

/// The query parameters of the next page request: the effective limit,
/// and the stored continuation token as `page_token` when there is one.
/// An exhausted cursor configures no request at all.
pub open spec fn spec_page_query(c: PaginationContextV, declared: Option<i64>) -> Option<
    Seq<(Seq<char>, Seq<char>)>,
>
    recommends
        c.page_size <= i64::MAX,
{
    match c.state {
        CursorStateV::Exhausted => None,
        CursorStateV::NotStarted => Some(
            seq![("limit"@, dec_digits_signed(spec_effective_limit(declared, c.page_size) as int))],
        ),
        CursorStateV::HasToken(t) => Some(
            seq![
                ("limit"@, dec_digits_signed(spec_effective_limit(declared, c.page_size) as int)),
                ("page_token"@, t),
            ],
        ),
    }
}

/// The cursor state after a page whose continuation token was
/// `next_token`: a present token is stored, an absent one exhausts the
/// cursor.
pub open spec fn spec_advance(c: PaginationContextV, next_token: Option<Seq<char>>)
    -> PaginationContextV {
    PaginationContextV {
        page_size: c.page_size,
        state: match next_token {
            Some(t) => CursorStateV::HasToken(t),
            None => CursorStateV::Exhausted,
        },
    }
}

/// A list response that may carry a continuation token, under whatever
/// member name its endpoint uses.
pub trait PaginationEndpoint {
    /// The continuation token this page carries, if any.
    spec fn spec_next_page_token(&self) -> Option<Seq<char>>;

    /// Extracts the continuation token of this page.
    fn next_page_token(&self) -> (r: Option<String>)
        ensures
            match r {
                Some(t) => self.spec_next_page_token() == Some(t@),
                None => self.spec_next_page_token() is None,
            },
    ;
}

impl PaginationContext {
    /// A fresh cursor: nothing fetched yet.
    pub fn new(page_size: u64) -> (r: Self)
        ensures
            r@.page_size == page_size,
            r@.state is NotStarted,
    {
        PaginationContext { page_size, state: CursorState::NotStarted }
    }

    /// Whether the listing has reported its last page.
    pub fn is_exhausted(&self) -> (r: bool)
        ensures
            r == (self@.state is Exhausted),
    {
        match self.state {
            CursorState::Exhausted => true,
            _ => false,
        }
    }

    /// The stored continuation token, if one is held.
    pub fn token(&self) -> (r: Option<&String>)
        ensures
            match r {
                Some(t) => self@.state == CursorStateV::HasToken(t@),
                None => !(self@.state is HasToken),
            },
    {
        match &self.state {
            CursorState::HasToken(t) => Some(t),
            _ => None,
        }
    }

    /// The query parameters for the next page request, or nothing when
    /// the cursor is exhausted: a caller then yields an empty page
    /// instead of dispatching.
    pub fn page_query(&self, declared_limit: Option<i64>) -> (r: Option<Vec<(String, String)>>)
        requires
            self@.page_size <= i64::MAX,
        ensures
            match r {
                Some(q) => spec_page_query(self@, declared_limit) == Some(q.deep_view()),
                None => spec_page_query(self@, declared_limit) is None && self@.state
                    is Exhausted,
            },
    {
        let limit: i64 = match declared_limit {
            Some(l) => l,
            None => self.page_size as i64,
        };
        match &self.state {
            CursorState::Exhausted => None,
            CursorState::NotStarted => {
                let mut q: Vec<(String, String)> = Vec::new();
                q.push((String::from_str("limit"), i64_to_string(limit)));
                proof {
                    assert(q.deep_view() =~= seq![
                        ("limit"@, dec_digits_signed(
                            spec_effective_limit(declared_limit, self@.page_size) as int,
                        )),
                    ]);
                }
                Some(q)
            },
            CursorState::HasToken(t) => {
                let mut q: Vec<(String, String)> = Vec::new();
                q.push((String::from_str("limit"), i64_to_string(limit)));
                q.push((String::from_str("page_token"), t.clone()));
                proof {
                    assert(q.deep_view() =~= seq![
                        ("limit"@, dec_digits_signed(
                            spec_effective_limit(declared_limit, self@.page_size) as int,
                        )),
                        ("page_token"@, t@),
                    ]);
                }
                Some(q)
            },
        }
    }

    /// Stores the continuation token of a fetched page.  A page without
    /// a token exhausts the cursor, and a later `page_query` configures
    /// no request.
    pub fn advance(&mut self, next_token: Option<String>)
        ensures
            final(self)@ == spec_advance(old(self)@, match next_token {
                Some(t) => Some(t@),
                None => None,
            }),
    {
        match next_token {
            Some(t) => {
                self.state = CursorState::HasToken(t);
            },
            None => {
                self.state = CursorState::Exhausted;
            },
        }
    }

    /// Advances past a fetched page, taking its token from the page
    /// itself.
    pub fn record_page<T: PaginationEndpoint>(&mut self, page: &T)
        ensures
            final(self)@ == spec_advance(old(self)@, page.spec_next_page_token()),
    {
        let tok = page.next_page_token();
        self.advance(tok);
    }
}

/// Fetching the next page is a function of the stored cursor and the
/// response alone: two fetches from equal cursors configure the same
/// request, and equal pages leave equal cursors behind.  With a
/// transport that answers a repeated request identically, repeating a
/// fetch therefore yields the same items and the same next token.
pub proof fn lemma_fetch_idempotent(
    c1: PaginationContextV,
    c2: PaginationContextV,
    declared: Option<i64>,
    tok1: Option<Seq<char>>,
    tok2: Option<Seq<char>>,
)
    requires
        c1 == c2,
        tok1 == tok2,
    ensures
        spec_page_query(c1, declared) == spec_page_query(c2, declared),
        spec_advance(c1, tok1) == spec_advance(c2, tok2),
{
}

/// An exhausted cursor stays exhausted and configures no request: a
/// fetch after the last page yields an empty page rather than erroring
/// or looping.
pub proof fn lemma_exhausted_stops(c: PaginationContextV, declared: Option<i64>)
    requires
        c.state is Exhausted,
    ensures
        spec_page_query(c, declared) is None,
{
}

} // verus!
