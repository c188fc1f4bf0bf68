//! Order entry on the trading surface.

use vstd::prelude::*;

use crate::api::{
    Endpoint, Method, RequestParts, RequestPartsV, TradingEndpoint,
};
use crate::json::{member_views, obj_push, opt_member_str, Json, JsonV};
use crate::model::trading::{
    push_order_amount, push_order_type, spec_order_amount_members, spec_order_type_members,
    OrderAmount, OrderAmountV, OrderType, OrderTypeV,
};
use crate::model::{OrderClass, OrderSide, OrderTif};

verus! {

/// Create an order.
#[derive(Debug, Clone)]
pub struct CreateOrder {
    pub symbol: String,
    pub amount: OrderAmount,
    pub side: OrderSide,
    pub kind: OrderType,
    pub time_in_force: OrderTif,
    pub extended_hours: bool,
    pub client_order_id: Option<String>,
    pub order_class: OrderClass,
}

/// The model of a `CreateOrder`.
pub struct CreateOrderV {
    pub symbol: Seq<char>,
    pub amount: OrderAmountV,
    pub side: OrderSide,
    pub kind: OrderTypeV,
    pub time_in_force: OrderTif,
    pub extended_hours: bool,
    pub client_order_id: Option<Seq<char>>,
    pub order_class: OrderClass,
}

impl View for CreateOrder {
    type V = CreateOrderV;

    open spec fn view(&self) -> CreateOrderV {
        CreateOrderV {
            symbol: self.symbol@,
            amount: self.amount@,
            side: self.side,
            kind: self.kind@,
            time_in_force: self.time_in_force,
            extended_hours: self.extended_hours,
            client_order_id: match self.client_order_id { Some(s) => Some(s@), None => None },
            order_class: self.order_class,
        }
    }
}

/// The JSON body members this descriptor configures; unset optional
/// fields are omitted entirely, never sent as null.
pub open spec fn spec_create_order_body(a: CreateOrderV) -> Seq<(Seq<char>, JsonV)> {
    seq![("symbol"@, JsonV::Str(a.symbol))] + spec_order_amount_members(a.amount) + seq![("side"@, JsonV::Str(a.side.spec_wire()))] + spec_order_type_members(a.kind) + seq![("time_in_force"@, JsonV::Str(a.time_in_force.spec_wire()))] + seq![("extended_hours"@, JsonV::Bool(a.extended_hours))] + opt_member_str("client_order_id"@, a.client_order_id) + seq![("order_class"@, JsonV::Str(a.order_class.spec_wire()))]
}

impl Endpoint for CreateOrder {
    open spec fn spec_parts(&self) -> RequestPartsV {
        let a = self@;
        RequestPartsV {
            method: Method::Post,
            path: "/orders"@,
            query: Seq::empty(),
            body: Some(JsonV::Obj(spec_create_order_body(a))),
        }
    }

    #[verifier::rlimit(100)]
    fn parts(&self) -> (r: RequestParts) {
        let path = String::from_str("/orders");
        let mut bf: Vec<(String, Json)> = Vec::new();
        let ghost bseg0: Seq<(Seq<char>, JsonV)> = Seq::empty();
        obj_push(&mut bf, "symbol", Json::Str(self.symbol.clone()));
        proof {
            assert(member_views(bf@) =~= bseg0 + seq![("symbol"@, JsonV::Str(self@.symbol))]);
        }
        let ghost bseg1 = member_views(bf@);
        push_order_amount(&mut bf, &self.amount);
        proof {
            assert(member_views(bf@) =~= bseg1 + spec_order_amount_members(self@.amount));
        }
        let ghost bseg2 = member_views(bf@);
        obj_push(&mut bf, "side", Json::Str(self.side.wire_name().to_owned()));
        proof {
            assert(member_views(bf@) =~= bseg2 + seq![("side"@, JsonV::Str(self@.side.spec_wire()))]);
        }
        let ghost bseg3 = member_views(bf@);
        push_order_type(&mut bf, &self.kind);
        proof {
            assert(member_views(bf@) =~= bseg3 + spec_order_type_members(self@.kind));
        }
        let ghost bseg4 = member_views(bf@);
        obj_push(&mut bf, "time_in_force", Json::Str(self.time_in_force.wire_name().to_owned()));
        proof {
            assert(member_views(bf@) =~= bseg4 + seq![("time_in_force"@, JsonV::Str(self@.time_in_force.spec_wire()))]);
        }
        let ghost bseg5 = member_views(bf@);
        obj_push(&mut bf, "extended_hours", Json::Bool(self.extended_hours));
        proof {
            assert(member_views(bf@) =~= bseg5 + seq![("extended_hours"@, JsonV::Bool(self@.extended_hours))]);
        }
        let ghost bseg6 = member_views(bf@);
        match &self.client_order_id {
            Some(v) => {
                obj_push(&mut bf, "client_order_id", Json::Str(v.clone()));
            },
            None => {},
        }
        proof {
            assert(member_views(bf@) =~= bseg6 + opt_member_str("client_order_id"@, self@.client_order_id));
        }
        let ghost bseg7 = member_views(bf@);
        obj_push(&mut bf, "order_class", Json::Str(self.order_class.wire_name().to_owned()));
        proof {
            assert(member_views(bf@) =~= bseg7 + seq![("order_class"@, JsonV::Str(self@.order_class.spec_wire()))]);
        }
        let ghost bseg8 = member_views(bf@);
        proof {
            assert(member_views(bf@) =~= spec_create_order_body(self@));
        }
        let r = RequestParts {
            method: Method::Post,
            path,
            query: Vec::new(),
            body: Some(Json::Obj(bf)),
        };
        proof {
            assert(r@.path =~= self.spec_parts().path);
            assert(r@.query =~= self.spec_parts().query);
        }
        r
    }
}

impl TradingEndpoint for CreateOrder {

}

/// Cancel an order by its id; success carries no payload.
#[derive(Debug, Clone)]
pub struct CancelOrder {
    pub order_id: String,
}

/// The model of a `CancelOrder`.
pub struct CancelOrderV {
    pub order_id: Seq<char>,
}

impl View for CancelOrder {
    type V = CancelOrderV;

    open spec fn view(&self) -> CancelOrderV {
        CancelOrderV {
            order_id: self.order_id@,
        }
    }
}

impl Endpoint for CancelOrder {
    open spec fn spec_parts(&self) -> RequestPartsV {
        let a = self@;
        RequestPartsV {
            method: Method::Delete,
            path: "/orders/"@ + a.order_id,
            query: Seq::empty(),
            body: None,
        }
    }

    fn parts(&self) -> (r: RequestParts) {
        let mut path = String::from_str("/orders/");
        path.append(self.order_id.as_str());
        let r = RequestParts {
            method: Method::Delete,
            path,
            query: Vec::new(),
            body: None,
        };
        proof {
            assert(r@.path =~= self.spec_parts().path);
            assert(r@.query =~= self.spec_parts().query);
        }
        r
    }
}

impl TradingEndpoint for CancelOrder {

}

impl CreateOrder {
    /// An order with only the required parts chosen: a market order for
    /// the day's defaults, processed in regular hours only.
    pub fn new(symbol: String, amount: OrderAmount, side: OrderSide) -> (r: Self)
        ensures
            r@.symbol == symbol@,
            r@.amount == amount@,
            r@.side == side,
            r@.kind is Market,
            r@.time_in_force == OrderTif::GoodTillCanceled,
            r@.extended_hours == false,
            r@.client_order_id is None,
            r@.order_class == OrderClass::Simple,
    {
        CreateOrder {
            symbol,
            amount,
            side,
            kind: OrderType::Market,
            time_in_force: OrderTif::GoodTillCanceled,
            extended_hours: false,
            client_order_id: None,
            order_class: OrderClass::Simple,
        }
    }
}

/// An optional order field left unset is omitted from the configured
/// JSON body entirely: the member is simply absent, never sent as null
/// or as an empty string.
#[verifier::rlimit(100)]
pub proof fn lemma_create_order_omits_unset(a: CreateOrderV)
    requires
        a.client_order_id is None,
    ensures
        crate::json::spec_lookup(spec_create_order_body(a), "client_order_id"@) is None,
{
    reveal_with_fuel(crate::json::spec_lookup, 16);
    reveal_strlit("symbol");
    reveal_strlit("qty");
    reveal_strlit("notional");
    reveal_strlit("side");
    reveal_strlit("type");
    reveal_strlit("limit_price");
    reveal_strlit("stop_price");
    reveal_strlit("trail_price");
    reveal_strlit("trail_percent");
    reveal_strlit("time_in_force");
    reveal_strlit("extended_hours");
    reveal_strlit("client_order_id");
    reveal_strlit("order_class");
    assert("symbol"@.len() == 6);
    assert("qty"@.len() == 3);
    assert("notional"@.len() == 8);
    assert("side"@.len() == 4);
    assert("type"@.len() == 4);
    assert("limit_price"@.len() == 11);
    assert("stop_price"@.len() == 10);
    assert("trail_price"@.len() == 11);
    assert("trail_percent"@.len() == 13);
    assert("time_in_force"@.len() == 13);
    assert("extended_hours"@.len() == 14);
    assert("client_order_id"@.len() == 15);
    assert("order_class"@.len() == 11);
    let k = "client_order_id"@;
    let s1 = seq![("symbol"@, JsonV::Str(a.symbol))];
    let s2 = spec_order_amount_members(a.amount);
    let s3 = seq![("side"@, JsonV::Str(a.side.spec_wire()))];
    let s4 = spec_order_type_members(a.kind);
    let s5 = seq![("time_in_force"@, JsonV::Str(a.time_in_force.spec_wire()))];
    let s6 = seq![("extended_hours"@, JsonV::Bool(a.extended_hours))];
    let s7 = opt_member_str("client_order_id"@, a.client_order_id);
    let s8 = seq![("order_class"@, JsonV::Str(a.order_class.spec_wire()))];
    let p1 = s1 + s2;
    let p2 = p1 + s3;
    let p3 = p2 + s4;
    let p4 = p3 + s5;
    let p5 = p4 + s6;
    let p6 = p5 + s7;
    let p7 = p6 + s8;
    assert(spec_create_order_body(a) == p7);
    crate::json::lemma_lookup_append(p6, s8, k);
    crate::json::lemma_lookup_append(p5, s7, k);
    crate::json::lemma_lookup_append(p4, s6, k);
    crate::json::lemma_lookup_append(p3, s5, k);
    crate::json::lemma_lookup_append(p2, s4, k);
    crate::json::lemma_lookup_append(p1, s3, k);
    crate::json::lemma_lookup_append(s1, s2, k);
}

} // verus!
