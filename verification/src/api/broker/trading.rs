//! Order entry on behalf of one sub-account of the broker surface.

use vstd::prelude::*;

use crate::api::{AccountEndpoint, Endpoint, Method, RequestParts, RequestPartsV};
use crate::json::{member_views, obj_push, opt_member_str, Json, JsonV};
use crate::model::trading::{
    push_order_amount, push_order_type, spec_order_amount_members, spec_order_type_members,
    OrderAmount, OrderAmountV, OrderType, OrderTypeV,
};
use crate::model::{OrderClass, OrderSide, OrderTif};

verus! {

/// Create an order on behalf of an account in the broker surface.
#[derive(Debug, Clone)]
pub struct CreateOrderBroker {
    pub symbol: String,
    pub amount: OrderAmount,
    pub side: OrderSide,
    pub kind: OrderType,
    pub time_in_force: OrderTif,
    pub extended_hours: bool,
    pub client_order_id: Option<String>,
    pub order_class: OrderClass,
    pub commission: Option<String>,
    pub commission_bps: Option<String>,
    pub source: Option<String>,
    pub instructions: Option<String>,
    pub subtag: Option<String>,
    pub swap_fee_bps: Option<String>,
}

/// The model of a `CreateOrderBroker`.
pub struct CreateOrderBrokerV {
    pub symbol: Seq<char>,
    pub amount: OrderAmountV,
    pub side: OrderSide,
    pub kind: OrderTypeV,
    pub time_in_force: OrderTif,
    pub extended_hours: bool,
    pub client_order_id: Option<Seq<char>>,
    pub order_class: OrderClass,
    pub commission: Option<Seq<char>>,
    pub commission_bps: Option<Seq<char>>,
    pub source: Option<Seq<char>>,
    pub instructions: Option<Seq<char>>,
    pub subtag: Option<Seq<char>>,
    pub swap_fee_bps: Option<Seq<char>>,
}

impl View for CreateOrderBroker {
    type V = CreateOrderBrokerV;

    open spec fn view(&self) -> CreateOrderBrokerV {
        CreateOrderBrokerV {
            symbol: self.symbol@,
            amount: self.amount@,
            side: self.side,
            kind: self.kind@,
            time_in_force: self.time_in_force,
            extended_hours: self.extended_hours,
            client_order_id: match self.client_order_id { Some(s) => Some(s@), None => None },
            order_class: self.order_class,
            commission: match self.commission { Some(s) => Some(s@), None => None },
            commission_bps: match self.commission_bps { Some(s) => Some(s@), None => None },
            source: match self.source { Some(s) => Some(s@), None => None },
            instructions: match self.instructions { Some(s) => Some(s@), None => None },
            subtag: match self.subtag { Some(s) => Some(s@), None => None },
            swap_fee_bps: match self.swap_fee_bps { Some(s) => Some(s@), None => None },
        }
    }
}

/// The JSON body members this descriptor configures; unset optional
/// fields are omitted entirely, never sent as null.
pub open spec fn spec_create_order_broker_body(a: CreateOrderBrokerV) -> Seq<(Seq<char>, JsonV)> {
    seq![("symbol"@, JsonV::Str(a.symbol))] + spec_order_amount_members(a.amount) + seq![("side"@, JsonV::Str(a.side.spec_wire()))] + spec_order_type_members(a.kind) + seq![("time_in_force"@, JsonV::Str(a.time_in_force.spec_wire()))] + seq![("extended_hours"@, JsonV::Bool(a.extended_hours))] + opt_member_str("client_order_id"@, a.client_order_id) + seq![("order_class"@, JsonV::Str(a.order_class.spec_wire()))] + opt_member_str("commission"@, a.commission) + opt_member_str("commission_bps"@, a.commission_bps) + opt_member_str("source"@, a.source) + opt_member_str("instructions"@, a.instructions) + opt_member_str("subtag"@, a.subtag) + opt_member_str("swap_fee_bps"@, a.swap_fee_bps)
}

impl Endpoint for CreateOrderBroker {
    open spec fn spec_parts(&self) -> RequestPartsV {
        let a = self@;
        RequestPartsV {
            method: Method::Post,
            path: ""@,
            query: Seq::empty(),
            body: Some(JsonV::Obj(spec_create_order_broker_body(a))),
        }
    }

    #[verifier::rlimit(100)]
    fn parts(&self) -> (r: RequestParts) {
        let path = String::from_str("");
        let mut bf: Vec<(String, Json)> = Vec::new();
        let ghost bseg0: Seq<(Seq<char>, JsonV)> = Seq::empty();
        obj_push(&mut bf, "symbol", Json::Str(self.symbol.clone()));
        proof {
            assert(member_views(bf@) =~= bseg0 + seq![("symbol"@, JsonV::Str(self@.symbol))]);
        }
        let ghost bseg1 = member_views(bf@);
        push_order_amount(&mut bf, &self.amount);
        proof {
            assert(member_views(bf@) =~= bseg1 + spec_order_amount_members(self@.amount));
        }
        let ghost bseg2 = member_views(bf@);
        obj_push(&mut bf, "side", Json::Str(self.side.wire_name().to_owned()));
        proof {
            assert(member_views(bf@) =~= bseg2 + seq![("side"@, JsonV::Str(self@.side.spec_wire()))]);
        }
        let ghost bseg3 = member_views(bf@);
        push_order_type(&mut bf, &self.kind);
        proof {
            assert(member_views(bf@) =~= bseg3 + spec_order_type_members(self@.kind));
        }
        let ghost bseg4 = member_views(bf@);
        obj_push(&mut bf, "time_in_force", Json::Str(self.time_in_force.wire_name().to_owned()));
        proof {
            assert(member_views(bf@) =~= bseg4 + seq![("time_in_force"@, JsonV::Str(self@.time_in_force.spec_wire()))]);
        }
        let ghost bseg5 = member_views(bf@);
        obj_push(&mut bf, "extended_hours", Json::Bool(self.extended_hours));
        proof {
            assert(member_views(bf@) =~= bseg5 + seq![("extended_hours"@, JsonV::Bool(self@.extended_hours))]);
        }
        let ghost bseg6 = member_views(bf@);
        match &self.client_order_id {
            Some(v) => {
                obj_push(&mut bf, "client_order_id", Json::Str(v.clone()));
            },
            None => {},
        }
        proof {
            assert(member_views(bf@) =~= bseg6 + opt_member_str("client_order_id"@, self@.client_order_id));
        }
        let ghost bseg7 = member_views(bf@);
        obj_push(&mut bf, "order_class", Json::Str(self.order_class.wire_name().to_owned()));
        proof {
            assert(member_views(bf@) =~= bseg7 + seq![("order_class"@, JsonV::Str(self@.order_class.spec_wire()))]);
        }
        let ghost bseg8 = member_views(bf@);
        match &self.commission {
            Some(v) => {
                obj_push(&mut bf, "commission", Json::Str(v.clone()));
            },
            None => {},
        }
        proof {
            assert(member_views(bf@) =~= bseg8 + opt_member_str("commission"@, self@.commission));
        }
        let ghost bseg9 = member_views(bf@);
        match &self.commission_bps {
            Some(v) => {
                obj_push(&mut bf, "commission_bps", Json::Str(v.clone()));
            },
            None => {},
        }
        proof {
            assert(member_views(bf@) =~= bseg9 + opt_member_str("commission_bps"@, self@.commission_bps));
        }
        let ghost bseg10 = member_views(bf@);
        match &self.source {
            Some(v) => {
                obj_push(&mut bf, "source", Json::Str(v.clone()));
            },
            None => {},
        }
        proof {
            assert(member_views(bf@) =~= bseg10 + opt_member_str("source"@, self@.source));
        }
        let ghost bseg11 = member_views(bf@);
        match &self.instructions {
            Some(v) => {
                obj_push(&mut bf, "instructions", Json::Str(v.clone()));
            },
            None => {},
        }
        proof {
            assert(member_views(bf@) =~= bseg11 + opt_member_str("instructions"@, self@.instructions));
        }
        let ghost bseg12 = member_views(bf@);
        match &self.subtag {
            Some(v) => {
                obj_push(&mut bf, "subtag", Json::Str(v.clone()));
            },
            None => {},
        }
        proof {
            assert(member_views(bf@) =~= bseg12 + opt_member_str("subtag"@, self@.subtag));
        }
        let ghost bseg13 = member_views(bf@);
        match &self.swap_fee_bps {
            Some(v) => {
                obj_push(&mut bf, "swap_fee_bps", Json::Str(v.clone()));
            },
            None => {},
        }
        proof {
            assert(member_views(bf@) =~= bseg13 + opt_member_str("swap_fee_bps"@, self@.swap_fee_bps));
        }
        let ghost bseg14 = member_views(bf@);
        proof {
            assert(member_views(bf@) =~= spec_create_order_broker_body(self@));
        }
        let r = RequestParts {
            method: Method::Post,
            path,
            query: Vec::new(),
            body: Some(Json::Obj(bf)),
        };
        proof {
            assert(r@.path =~= self.spec_parts().path);
            assert(r@.query =~= self.spec_parts().query);
        }
        r
    }
}

impl AccountEndpoint for CreateOrderBroker {
    open spec fn spec_account_path(&self, id: Seq<char>) -> Seq<char> {
        "/accounts/"@ + id + "/orders"@
    }

    fn account_path(&self, id: &str) -> (r: String) {
        let mut p = String::from_str("/accounts/");
        p.append(id);
        p.append("/orders");
        proof {
            assert(p@ =~= self.spec_account_path(id@));
        }
        p
    }
}

} // verus!
