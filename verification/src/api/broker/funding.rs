//! Funding on the broker surface: bank relationships and transfers.

use vstd::prelude::*;

use crate::api::{BrokerEndpoint, Endpoint, Method, RequestParts, RequestPartsV};
use crate::json::{member_views, obj_push, opt_member_bool, opt_member_str, Json, JsonV};
use crate::model::{BankCodeType, Direction, Timing, TransferType};

verus! {

/// Link a wire bank account to a sub-account.
#[derive(Debug, Clone)]
pub struct CreateBankRelationship {
    pub name: String,
    pub bank_code: String,
    pub bank_code_type: BankCodeType,
    pub account_number: String,
    pub country: Option<String>,
    pub state_province: Option<String>,
    pub postal_code: Option<String>,
    pub city: Option<String>,
    pub street_address: Option<String>,
}

/// The model of a `CreateBankRelationship`.
pub struct CreateBankRelationshipV {
    pub name: Seq<char>,
    pub bank_code: Seq<char>,
    pub bank_code_type: BankCodeType,
    pub account_number: Seq<char>,
    pub country: Option<Seq<char>>,
    pub state_province: Option<Seq<char>>,
    pub postal_code: Option<Seq<char>>,
    pub city: Option<Seq<char>>,
    pub street_address: Option<Seq<char>>,
}

impl View for CreateBankRelationship {
    type V = CreateBankRelationshipV;

    open spec fn view(&self) -> CreateBankRelationshipV {
        CreateBankRelationshipV {
            name: self.name@,
            bank_code: self.bank_code@,
            bank_code_type: self.bank_code_type,
            account_number: self.account_number@,
            country: match self.country { Some(s) => Some(s@), None => None },
            state_province: match self.state_province { Some(s) => Some(s@), None => None },
            postal_code: match self.postal_code { Some(s) => Some(s@), None => None },
            city: match self.city { Some(s) => Some(s@), None => None },
            street_address: match self.street_address { Some(s) => Some(s@), None => None },
        }
    }
}

/// The JSON body members this descriptor configures; unset optional
/// fields are omitted entirely, never sent as null.
pub open spec fn spec_create_bank_relationship_body(a: CreateBankRelationshipV) -> Seq<(Seq<char>, JsonV)> {
    seq![("name"@, JsonV::Str(a.name))] + seq![("bank_code"@, JsonV::Str(a.bank_code))] + seq![("bank_code_type"@, JsonV::Str(a.bank_code_type.spec_wire()))] + seq![("account_number"@, JsonV::Str(a.account_number))] + opt_member_str("country"@, a.country) + opt_member_str("state_province"@, a.state_province) + opt_member_str("postal_code"@, a.postal_code) + opt_member_str("city"@, a.city) + opt_member_str("street_address"@, a.street_address)
}

impl Endpoint for CreateBankRelationship {
    open spec fn spec_parts(&self) -> RequestPartsV {
        let a = self@;
        RequestPartsV {
            method: Method::Post,
            path: "/recipient_banks"@,
            query: Seq::empty(),
            body: Some(JsonV::Obj(spec_create_bank_relationship_body(a))),
        }
    }

    #[verifier::rlimit(100)]
    fn parts(&self) -> (r: RequestParts) {
        let path = String::from_str("/recipient_banks");
        let mut bf: Vec<(String, Json)> = Vec::new();
        let ghost bseg0: Seq<(Seq<char>, JsonV)> = Seq::empty();
        obj_push(&mut bf, "name", Json::Str(self.name.clone()));
        proof {
            assert(member_views(bf@) =~= bseg0 + seq![("name"@, JsonV::Str(self@.name))]);
        }
        let ghost bseg1 = member_views(bf@);
        obj_push(&mut bf, "bank_code", Json::Str(self.bank_code.clone()));
        proof {
            assert(member_views(bf@) =~= bseg1 + seq![("bank_code"@, JsonV::Str(self@.bank_code))]);
        }
        let ghost bseg2 = member_views(bf@);
        obj_push(&mut bf, "bank_code_type", Json::Str(self.bank_code_type.wire_name().to_owned()));
        proof {
            assert(member_views(bf@) =~= bseg2 + seq![("bank_code_type"@, JsonV::Str(self@.bank_code_type.spec_wire()))]);
        }
        let ghost bseg3 = member_views(bf@);
        obj_push(&mut bf, "account_number", Json::Str(self.account_number.clone()));
        proof {
            assert(member_views(bf@) =~= bseg3 + seq![("account_number"@, JsonV::Str(self@.account_number))]);
        }
        let ghost bseg4 = member_views(bf@);
        match &self.country {
            Some(v) => {
                obj_push(&mut bf, "country", Json::Str(v.clone()));
            },
            None => {},
        }
        proof {
            assert(member_views(bf@) =~= bseg4 + opt_member_str("country"@, self@.country));
        }
        let ghost bseg5 = member_views(bf@);
        match &self.state_province {
            Some(v) => {
                obj_push(&mut bf, "state_province", Json::Str(v.clone()));
            },
            None => {},
        }
        proof {
            assert(member_views(bf@) =~= bseg5 + opt_member_str("state_province"@, self@.state_province));
        }
        let ghost bseg6 = member_views(bf@);
        match &self.postal_code {
            Some(v) => {
                obj_push(&mut bf, "postal_code", Json::Str(v.clone()));
            },
            None => {},
        }
        proof {
            assert(member_views(bf@) =~= bseg6 + opt_member_str("postal_code"@, self@.postal_code));
        }
        let ghost bseg7 = member_views(bf@);
        match &self.city {
            Some(v) => {
                obj_push(&mut bf, "city", Json::Str(v.clone()));
            },
            None => {},
        }
        proof {
            assert(member_views(bf@) =~= bseg7 + opt_member_str("city"@, self@.city));
        }
        let ghost bseg8 = member_views(bf@);
        match &self.street_address {
            Some(v) => {
                obj_push(&mut bf, "street_address", Json::Str(v.clone()));
            },
            None => {},
        }
        proof {
            assert(member_views(bf@) =~= bseg8 + opt_member_str("street_address"@, self@.street_address));
        }
        let ghost bseg9 = member_views(bf@);
        proof {
            assert(member_views(bf@) =~= spec_create_bank_relationship_body(self@));
        }
        let r = RequestParts {
            method: Method::Post,
            path,
            query: Vec::new(),
            body: Some(Json::Obj(bf)),
        };
        proof {
            assert(r@.path =~= self.spec_parts().path);
            assert(r@.query =~= self.spec_parts().query);
        }
        r
    }
}

impl BrokerEndpoint for CreateBankRelationship {

}

/// Link an ACH bank account to a sub-account.
#[derive(Debug, Clone)]
pub struct CreateAchRelationship {
    pub account_owner_name: String,
    pub bank_account_type: String,
    pub bank_account_number: String,
    pub bank_routing_number: String,
    pub nickname: Option<String>,
    pub processor_token: Option<String>,
    pub instant: Option<bool>,
}

/// The model of a `CreateAchRelationship`.
pub struct CreateAchRelationshipV {
    pub account_owner_name: Seq<char>,
    pub bank_account_type: Seq<char>,
    pub bank_account_number: Seq<char>,
    pub bank_routing_number: Seq<char>,
    pub nickname: Option<Seq<char>>,
    pub processor_token: Option<Seq<char>>,
    pub instant: Option<bool>,
}

impl View for CreateAchRelationship {
    type V = CreateAchRelationshipV;

    open spec fn view(&self) -> CreateAchRelationshipV {
        CreateAchRelationshipV {
            account_owner_name: self.account_owner_name@,
            bank_account_type: self.bank_account_type@,
            bank_account_number: self.bank_account_number@,
            bank_routing_number: self.bank_routing_number@,
            nickname: match self.nickname { Some(s) => Some(s@), None => None },
            processor_token: match self.processor_token { Some(s) => Some(s@), None => None },
            instant: self.instant,
        }
    }
}

/// The JSON body members this descriptor configures; unset optional
/// fields are omitted entirely, never sent as null.
pub open spec fn spec_create_ach_relationship_body(a: CreateAchRelationshipV) -> Seq<(Seq<char>, JsonV)> {
    seq![("account_owner_name"@, JsonV::Str(a.account_owner_name))] + seq![("bank_account_type"@, JsonV::Str(a.bank_account_type))] + seq![("bank_account_number"@, JsonV::Str(a.bank_account_number))] + seq![("bank_routing_number"@, JsonV::Str(a.bank_routing_number))] + opt_member_str("nickname"@, a.nickname) + opt_member_str("processor_token"@, a.processor_token) + opt_member_bool("instant"@, a.instant)
}

impl Endpoint for CreateAchRelationship {
    open spec fn spec_parts(&self) -> RequestPartsV {
        let a = self@;
        RequestPartsV {
            method: Method::Post,
            path: "/ach_relationships"@,
            query: Seq::empty(),
            body: Some(JsonV::Obj(spec_create_ach_relationship_body(a))),
        }
    }

    #[verifier::rlimit(100)]
    fn parts(&self) -> (r: RequestParts) {
        let path = String::from_str("/ach_relationships");
        let mut bf: Vec<(String, Json)> = Vec::new();
        let ghost bseg0: Seq<(Seq<char>, JsonV)> = Seq::empty();
        obj_push(&mut bf, "account_owner_name", Json::Str(self.account_owner_name.clone()));
        proof {
            assert(member_views(bf@) =~= bseg0 + seq![("account_owner_name"@, JsonV::Str(self@.account_owner_name))]);
        }
        let ghost bseg1 = member_views(bf@);
        obj_push(&mut bf, "bank_account_type", Json::Str(self.bank_account_type.clone()));
        proof {
            assert(member_views(bf@) =~= bseg1 + seq![("bank_account_type"@, JsonV::Str(self@.bank_account_type))]);
        }
        let ghost bseg2 = member_views(bf@);
        obj_push(&mut bf, "bank_account_number", Json::Str(self.bank_account_number.clone()));
        proof {
            assert(member_views(bf@) =~= bseg2 + seq![("bank_account_number"@, JsonV::Str(self@.bank_account_number))]);
        }
        let ghost bseg3 = member_views(bf@);
        obj_push(&mut bf, "bank_routing_number", Json::Str(self.bank_routing_number.clone()));
        proof {
            assert(member_views(bf@) =~= bseg3 + seq![("bank_routing_number"@, JsonV::Str(self@.bank_routing_number))]);
        }
        let ghost bseg4 = member_views(bf@);
        match &self.nickname {
            Some(v) => {
                obj_push(&mut bf, "nickname", Json::Str(v.clone()));
            },
            None => {},
        }
        proof {
            assert(member_views(bf@) =~= bseg4 + opt_member_str("nickname"@, self@.nickname));
        }
        let ghost bseg5 = member_views(bf@);
        match &self.processor_token {
            Some(v) => {
                obj_push(&mut bf, "processor_token", Json::Str(v.clone()));
            },
            None => {},
        }
        proof {
            assert(member_views(bf@) =~= bseg5 + opt_member_str("processor_token"@, self@.processor_token));
        }
        let ghost bseg6 = member_views(bf@);
        match &self.instant {
            Some(v) => {
                obj_push(&mut bf, "instant", Json::Bool(*v));
            },
            None => {},
        }
        proof {
            assert(member_views(bf@) =~= bseg6 + opt_member_bool("instant"@, self@.instant));
        }
        let ghost bseg7 = member_views(bf@);
        proof {
            assert(member_views(bf@) =~= spec_create_ach_relationship_body(self@));
        }
        let r = RequestParts {
            method: Method::Post,
            path,
            query: Vec::new(),
            body: Some(Json::Obj(bf)),
        };
        proof {
            assert(r@.path =~= self.spec_parts().path);
            assert(r@.query =~= self.spec_parts().query);
        }
        r
    }
}

impl BrokerEndpoint for CreateAchRelationship {

}

/// Move funds into or out of a sub-account; the amount travels as a decimal string.
#[derive(Debug, Clone)]
pub struct CreateTransfer {
    pub transfer_type: TransferType,
    pub relationship_id: Option<String>,
    pub bank_id: Option<String>,
    pub amount: String,
    pub direction: Direction,
    pub timing: Timing,
    pub additional_information: Option<String>,
    pub fee_payment_method: Option<String>,
}

/// The model of a `CreateTransfer`.
pub struct CreateTransferV {
    pub transfer_type: TransferType,
    pub relationship_id: Option<Seq<char>>,
    pub bank_id: Option<Seq<char>>,
    pub amount: Seq<char>,
    pub direction: Direction,
    pub timing: Timing,
    pub additional_information: Option<Seq<char>>,
    pub fee_payment_method: Option<Seq<char>>,
}

impl View for CreateTransfer {
    type V = CreateTransferV;

    open spec fn view(&self) -> CreateTransferV {
        CreateTransferV {
            transfer_type: self.transfer_type,
            relationship_id: match self.relationship_id { Some(s) => Some(s@), None => None },
            bank_id: match self.bank_id { Some(s) => Some(s@), None => None },
            amount: self.amount@,
            direction: self.direction,
            timing: self.timing,
            additional_information: match self.additional_information { Some(s) => Some(s@), None => None },
            fee_payment_method: match self.fee_payment_method { Some(s) => Some(s@), None => None },
        }
    }
}

/// The JSON body members this descriptor configures; unset optional
/// fields are omitted entirely, never sent as null.
pub open spec fn spec_create_transfer_body(a: CreateTransferV) -> Seq<(Seq<char>, JsonV)> {
    seq![("transfer_type"@, JsonV::Str(a.transfer_type.spec_wire()))] + opt_member_str("relationship_id"@, a.relationship_id) + opt_member_str("bank_id"@, a.bank_id) + seq![("amount"@, JsonV::Str(a.amount))] + seq![("direction"@, JsonV::Str(a.direction.spec_wire()))] + seq![("timing"@, JsonV::Str(a.timing.spec_wire()))] + opt_member_str("additional_information"@, a.additional_information) + opt_member_str("fee_payment_method"@, a.fee_payment_method)
}

impl Endpoint for CreateTransfer {
    open spec fn spec_parts(&self) -> RequestPartsV {
        let a = self@;
        RequestPartsV {
            method: Method::Post,
            path: "/transfer"@,
            query: Seq::empty(),
            body: Some(JsonV::Obj(spec_create_transfer_body(a))),
        }
    }

    #[verifier::rlimit(100)]
    fn parts(&self) -> (r: RequestParts) {
        let path = String::from_str("/transfer");
        let mut bf: Vec<(String, Json)> = Vec::new();
        let ghost bseg0: Seq<(Seq<char>, JsonV)> = Seq::empty();
        obj_push(&mut bf, "transfer_type", Json::Str(self.transfer_type.wire_name().to_owned()));
        proof {
            assert(member_views(bf@) =~= bseg0 + seq![("transfer_type"@, JsonV::Str(self@.transfer_type.spec_wire()))]);
        }
        let ghost bseg1 = member_views(bf@);
        match &self.relationship_id {
            Some(v) => {
                obj_push(&mut bf, "relationship_id", Json::Str(v.clone()));
            },
            None => {},
        }
        proof {
            assert(member_views(bf@) =~= bseg1 + opt_member_str("relationship_id"@, self@.relationship_id));
        }
        let ghost bseg2 = member_views(bf@);
        match &self.bank_id {
            Some(v) => {
                obj_push(&mut bf, "bank_id", Json::Str(v.clone()));
            },
            None => {},
        }
        proof {
            assert(member_views(bf@) =~= bseg2 + opt_member_str("bank_id"@, self@.bank_id));
        }
        let ghost bseg3 = member_views(bf@);
        obj_push(&mut bf, "amount", Json::Str(self.amount.clone()));
        proof {
            assert(member_views(bf@) =~= bseg3 + seq![("amount"@, JsonV::Str(self@.amount))]);
        }
        let ghost bseg4 = member_views(bf@);
        obj_push(&mut bf, "direction", Json::Str(self.direction.wire_name().to_owned()));
        proof {
            assert(member_views(bf@) =~= bseg4 + seq![("direction"@, JsonV::Str(self@.direction.spec_wire()))]);
        }
        let ghost bseg5 = member_views(bf@);
        obj_push(&mut bf, "timing", Json::Str(self.timing.wire_name().to_owned()));
        proof {
            assert(member_views(bf@) =~= bseg5 + seq![("timing"@, JsonV::Str(self@.timing.spec_wire()))]);
        }
        let ghost bseg6 = member_views(bf@);
        match &self.additional_information {
            Some(v) => {
                obj_push(&mut bf, "additional_information", Json::Str(v.clone()));
            },
            None => {},
        }
        proof {
            assert(member_views(bf@) =~= bseg6 + opt_member_str("additional_information"@, self@.additional_information));
        }
        let ghost bseg7 = member_views(bf@);
        match &self.fee_payment_method {
            Some(v) => {
                obj_push(&mut bf, "fee_payment_method", Json::Str(v.clone()));
            },
            None => {},
        }
        proof {
            assert(member_views(bf@) =~= bseg7 + opt_member_str("fee_payment_method"@, self@.fee_payment_method));
        }
        let ghost bseg8 = member_views(bf@);
        proof {
            assert(member_views(bf@) =~= spec_create_transfer_body(self@));
        }
        let r = RequestParts {
            method: Method::Post,
            path,
            query: Vec::new(),
            body: Some(Json::Obj(bf)),
        };
        proof {
            assert(r@.path =~= self.spec_parts().path);
            assert(r@.query =~= self.spec_parts().query);
        }
        r
    }
}

impl BrokerEndpoint for CreateTransfer {

}

} // verus!
