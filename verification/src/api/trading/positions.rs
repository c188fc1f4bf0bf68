//! Position management on the trading surface.

use vstd::prelude::*;

use crate::api::{
    opt_pair, push_pair, Endpoint, Method, RequestParts, RequestPartsV, TradingEndpoint,
};
use crate::model::SymbolOrAssetId;

verus! {

/// List all open positions.
#[derive(Debug, Clone)]
pub struct GetOpenPositions;

impl Endpoint for GetOpenPositions {
    open spec fn spec_parts(&self) -> RequestPartsV {
        
        RequestPartsV {
            method: Method::Get,
            path: "/positions"@,
            query: Seq::empty(),
            body: None,
        }
    }

    fn parts(&self) -> (r: RequestParts) {
        let path = String::from_str("/positions");
        let r = RequestParts {
            method: Method::Get,
            path,
            query: Vec::new(),
            body: None,
        };
        proof {
            assert(r@.path =~= self.spec_parts().path);
            assert(r@.query =~= self.spec_parts().query);
        }
        r
    }
}

impl TradingEndpoint for GetOpenPositions {

}

/// Close every open position; open orders are cancelled first only on request.
#[derive(Debug, Clone)]
pub struct CloseAllPositions {
    pub cancel_orders: Option<bool>,
}

/// The model of a `CloseAllPositions`.
pub struct CloseAllPositionsV {
    pub cancel_orders: Option<bool>,
}

impl View for CloseAllPositions {
    type V = CloseAllPositionsV;

    open spec fn view(&self) -> CloseAllPositionsV {
        CloseAllPositionsV {
            cancel_orders: self.cancel_orders,
        }
    }
}

/// The query parameters this descriptor configures; unset optional
/// fields contribute nothing at all.
pub open spec fn spec_close_all_positions_query(a: CloseAllPositionsV) -> Seq<(Seq<char>, Seq<char>)> {
    Seq::<(Seq<char>, Seq<char>)>::empty() + opt_pair("cancel_orders"@, match a.cancel_orders { Some(b) => Some(if b { "true"@ } else { "false"@ }), None => None })
}

impl Endpoint for CloseAllPositions {
    open spec fn spec_parts(&self) -> RequestPartsV {
        let a = self@;
        RequestPartsV {
            method: Method::Delete,
            path: "/positions"@,
            query: spec_close_all_positions_query(a),
            body: None,
        }
    }

    fn parts(&self) -> (r: RequestParts) {
        let path = String::from_str("/positions");
        let mut q: Vec<(String, String)> = Vec::new();
        proof {
            assert(q.deep_view() =~= Seq::<(Seq<char>, Seq<char>)>::empty());
        }
        let ghost qseg0 = q.deep_view();
        match &self.cancel_orders {
            Some(v) => {
                push_pair(&mut q, "cancel_orders", String::from_str(if *v { "true" } else { "false" }));
            },
            None => {},
        }
        proof {
            assert(q.deep_view() =~= qseg0 + opt_pair("cancel_orders"@, match self@.cancel_orders { Some(b) => Some(if b { "true"@ } else { "false"@ }), None => None }));
        }
        proof {
            assert(q.deep_view() =~= spec_close_all_positions_query(self@));
        }
        let r = RequestParts {
            method: Method::Delete,
            path,
            query: q,
            body: None,
        };
        proof {
            assert(r@.path =~= self.spec_parts().path);
        }
        r
    }
}

impl TradingEndpoint for CloseAllPositions {

}

/// Get one open position by symbol or asset id.
#[derive(Debug, Clone)]
pub struct GetOpenPosition {
    pub symbol_or_asset_id: SymbolOrAssetId,
}

/// The model of a `GetOpenPosition`.
pub struct GetOpenPositionV {
    pub symbol_or_asset_id: Seq<char>,
}

impl View for GetOpenPosition {
    type V = GetOpenPositionV;

    open spec fn view(&self) -> GetOpenPositionV {
        GetOpenPositionV {
            symbol_or_asset_id: self.symbol_or_asset_id.spec_text(),
        }
    }
}

impl Endpoint for GetOpenPosition {
    open spec fn spec_parts(&self) -> RequestPartsV {
        let a = self@;
        RequestPartsV {
            method: Method::Get,
            path: "/positions/"@ + a.symbol_or_asset_id,
            query: Seq::empty(),
            body: None,
        }
    }

    fn parts(&self) -> (r: RequestParts) {
        let mut path = String::from_str("/positions/");
        path.append(self.symbol_or_asset_id.text().as_str());
        let r = RequestParts {
            method: Method::Get,
            path,
            query: Vec::new(),
            body: None,
        };
        proof {
            assert(r@.path =~= self.spec_parts().path);
            assert(r@.query =~= self.spec_parts().query);
        }
        r
    }
}

impl TradingEndpoint for GetOpenPosition {

}

/// Close one position, wholly or in part.
#[derive(Debug, Clone)]
pub struct ClosePosition {
    pub symbol_or_asset_id: SymbolOrAssetId,
    pub qty: Option<String>,
    pub percentage: Option<String>,
}

/// The model of a `ClosePosition`.
pub struct ClosePositionV {
    pub symbol_or_asset_id: Seq<char>,
    pub qty: Option<Seq<char>>,
    pub percentage: Option<Seq<char>>,
}

impl View for ClosePosition {
    type V = ClosePositionV;

    open spec fn view(&self) -> ClosePositionV {
        ClosePositionV {
            symbol_or_asset_id: self.symbol_or_asset_id.spec_text(),
            qty: match self.qty { Some(s) => Some(s@), None => None },
            percentage: match self.percentage { Some(s) => Some(s@), None => None },
        }
    }
}

/// The query parameters this descriptor configures; unset optional
/// fields contribute nothing at all.
pub open spec fn spec_close_position_query(a: ClosePositionV) -> Seq<(Seq<char>, Seq<char>)> {
    Seq::<(Seq<char>, Seq<char>)>::empty() + opt_pair("qty"@, a.qty) + opt_pair("percentage"@, a.percentage)
}

impl Endpoint for ClosePosition {
    open spec fn spec_parts(&self) -> RequestPartsV {
        let a = self@;
        RequestPartsV {
            method: Method::Delete,
            path: "/positions/"@ + a.symbol_or_asset_id,
            query: spec_close_position_query(a),
            body: None,
        }
    }

    fn parts(&self) -> (r: RequestParts) {
        let mut path = String::from_str("/positions/");
        path.append(self.symbol_or_asset_id.text().as_str());
        let mut q: Vec<(String, String)> = Vec::new();
        proof {
            assert(q.deep_view() =~= Seq::<(Seq<char>, Seq<char>)>::empty());
        }
        let ghost qseg0 = q.deep_view();
        match &self.qty {
            Some(v) => {
                push_pair(&mut q, "qty", v.clone());
            },
            None => {},
        }
        proof {
            assert(q.deep_view() =~= qseg0 + opt_pair("qty"@, self@.qty));
        }
        let ghost qseg1 = q.deep_view();
        match &self.percentage {
            Some(v) => {
                push_pair(&mut q, "percentage", v.clone());
            },
            None => {},
        }
        proof {
            assert(q.deep_view() =~= qseg1 + opt_pair("percentage"@, self@.percentage));
        }
        proof {
            assert(q.deep_view() =~= spec_close_position_query(self@));
        }
        let r = RequestParts {
            method: Method::Delete,
            path,
            query: q,
            body: None,
        };
        proof {
            assert(r@.path =~= self.spec_parts().path);
        }
        r
    }
}

impl TradingEndpoint for ClosePosition {

}

/// With no optional field set, closing all positions configures no
/// query parameter at all.
pub proof fn lemma_close_all_positions_omits_unset(a: CloseAllPositionsV)
    requires
        a.cancel_orders is None,
    ensures
        spec_close_all_positions_query(a) == Seq::<(Seq<char>, Seq<char>)>::empty(),
{
    assert(spec_close_all_positions_query(a) =~= Seq::<(Seq<char>, Seq<char>)>::empty());
}

} // verus!
