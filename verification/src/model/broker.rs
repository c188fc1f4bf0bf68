//! Account-side domain records: the account snapshots, the onboarding
//! sub-records, and the funding records, each with its wire codec.

use vstd::prelude::*;

use crate::json::{
    member_views, obj_push, opt_member_bool, opt_member_str, spec_lookup, strs_jsonv,
    strs_to_json, json_view, json_views, lemma_json_views_index, lemma_lookup_append,
    lemma_strs_jsonv_roundtrip, lookup_bool, lookup_i64_num, lookup_i64_str, lookup_num,
    lookup_opt_bool, lookup_opt_str, lookup_str, lookup_strs, Json, JsonV,
};
use crate::model::{
    lemma_account_status_wire_roundtrip, lemma_ach_relationship_status_wire_roundtrip,
    lemma_bank_account_type_wire_roundtrip, lemma_bank_relationship_status_wire_roundtrip,
    lemma_direction_wire_roundtrip, lemma_timing_wire_roundtrip,
    lemma_transfer_status_wire_roundtrip, lemma_transfer_type_wire_roundtrip,
    AccountStatus, AchRelationshipStatus, BankAccountType, BankRelationshipStatus, Direction,
    Timing, TransferStatus, TransferType,
};

verus! {

/// A full account snapshot: balances arrive as decimal strings, so no precision is lost.
#[derive(Debug, Clone)]
pub struct Account {
    pub id: String,
    pub account_number: String,
    pub status: AccountStatus,
    pub crypto_status: AccountStatus,
    pub currency: String,
    pub created_at: String,
    pub last_equity: String,
    pub portfolio_value: String,
    pub cash: String,
    pub buying_power: String,
}

/// The model of a `Account`.
pub struct AccountV {
    pub id: Seq<char>,
    pub account_number: Seq<char>,
    pub status: AccountStatus,
    pub crypto_status: AccountStatus,
    pub currency: Seq<char>,
    pub created_at: Seq<char>,
    pub last_equity: Seq<char>,
    pub portfolio_value: Seq<char>,
    pub cash: Seq<char>,
    pub buying_power: Seq<char>,
}

impl View for Account {
    type V = AccountV;

    open spec fn view(&self) -> AccountV {
        AccountV {
            id: self.id@,
            account_number: self.account_number@,
            status: self.status,
            crypto_status: self.crypto_status,
            currency: self.currency@,
            created_at: self.created_at@,
            last_equity: self.last_equity@,
            portfolio_value: self.portfolio_value@,
            cash: self.cash@,
            buying_power: self.buying_power@,
        }
    }
}

/// The wire members of an encoded `Account`, in order, optional fields
/// contributing nothing when unset.
pub open spec fn spec_account_members(a: AccountV) -> Seq<(Seq<char>, JsonV)> {
    seq![("id"@, JsonV::Str(a.id)), ("account_number"@, JsonV::Str(a.account_number)), ("status"@, JsonV::Str(a.status.spec_wire())), ("crypto_status"@, JsonV::Str(a.crypto_status.spec_wire())), ("currency"@, JsonV::Str(a.currency)), ("created_at"@, JsonV::Str(a.created_at)), ("last_equity"@, JsonV::Str(a.last_equity)), ("portfolio_value"@, JsonV::Str(a.portfolio_value)), ("cash"@, JsonV::Str(a.cash)), ("buying_power"@, JsonV::Str(a.buying_power))]
}

/// The encoded form of a `Account`.
pub open spec fn spec_enc_account(a: AccountV) -> JsonV {
    JsonV::Obj(spec_account_members(a))
}

/// What decoding a JSON value as a `Account` yields.
pub open spec fn spec_dec_account(j: JsonV) -> Option<AccountV> {
    match j {
        JsonV::Obj(f) => {
            if lookup_str(f, "id"@) is Some && lookup_str(f, "account_number"@) is Some && (match lookup_str(f, "status"@) { Some(s) => AccountStatus::spec_from_wire(s), None => None }) is Some && (match lookup_str(f, "crypto_status"@) { Some(s) => AccountStatus::spec_from_wire(s), None => None }) is Some && lookup_str(f, "currency"@) is Some && lookup_str(f, "created_at"@) is Some && lookup_str(f, "last_equity"@) is Some && lookup_str(f, "portfolio_value"@) is Some && lookup_str(f, "cash"@) is Some && lookup_str(f, "buying_power"@) is Some {
                Some(AccountV {
                    id: lookup_str(f, "id"@).unwrap(),
                    account_number: lookup_str(f, "account_number"@).unwrap(),
                    status: (match lookup_str(f, "status"@) { Some(s) => AccountStatus::spec_from_wire(s), None => None }).unwrap(),
                    crypto_status: (match lookup_str(f, "crypto_status"@) { Some(s) => AccountStatus::spec_from_wire(s), None => None }).unwrap(),
                    currency: lookup_str(f, "currency"@).unwrap(),
                    created_at: lookup_str(f, "created_at"@).unwrap(),
                    last_equity: lookup_str(f, "last_equity"@).unwrap(),
                    portfolio_value: lookup_str(f, "portfolio_value"@).unwrap(),
                    cash: lookup_str(f, "cash"@).unwrap(),
                    buying_power: lookup_str(f, "buying_power"@).unwrap(),
                })
            } else {
                None
            }
        },
        _ => None,
    }
}

/// Encodes a `Account` as its wire object.
#[verifier::rlimit(100)]
pub fn encode_account(x: &Account) -> (j: Json)
    ensures
        j@ == spec_enc_account(x@),
{
    let mut f: Vec<(String, Json)> = Vec::new();
    obj_push(&mut f, "id", Json::Str(x.id.clone()));
    obj_push(&mut f, "account_number", Json::Str(x.account_number.clone()));
    obj_push(&mut f, "status", Json::Str(x.status.wire_name().to_owned()));
    obj_push(&mut f, "crypto_status", Json::Str(x.crypto_status.wire_name().to_owned()));
    obj_push(&mut f, "currency", Json::Str(x.currency.clone()));
    obj_push(&mut f, "created_at", Json::Str(x.created_at.clone()));
    obj_push(&mut f, "last_equity", Json::Str(x.last_equity.clone()));
    obj_push(&mut f, "portfolio_value", Json::Str(x.portfolio_value.clone()));
    obj_push(&mut f, "cash", Json::Str(x.cash.clone()));
    obj_push(&mut f, "buying_power", Json::Str(x.buying_power.clone()));
    proof {
        assert(member_views(f@) =~= seq![("id"@, JsonV::Str(x@.id)), ("account_number"@, JsonV::Str(x@.account_number)), ("status"@, JsonV::Str(x@.status.spec_wire())), ("crypto_status"@, JsonV::Str(x@.crypto_status.spec_wire())), ("currency"@, JsonV::Str(x@.currency)), ("created_at"@, JsonV::Str(x@.created_at)), ("last_equity"@, JsonV::Str(x@.last_equity)), ("portfolio_value"@, JsonV::Str(x@.portfolio_value)), ("cash"@, JsonV::Str(x@.cash)), ("buying_power"@, JsonV::Str(x@.buying_power))]);
    }
    let j = Json::Obj(f);
    proof {
        assert(member_views(f@) =~= spec_account_members(x@));
    }
    j
}

/// Decodes a `Account` from a JSON value.
pub fn decode_account(j: &Json) -> (r: Option<Account>)
    ensures
        match r {
            Some(x) => spec_dec_account(j@) == Some(x@),
            None => spec_dec_account(j@) is None,
        },
{
    let v_id = match j.get_str("id") {
        Some(v) => v,
        None => {
            return None;
        },
    };
    let v_account_number = match j.get_str("account_number") {
        Some(v) => v,
        None => {
            return None;
        },
    };
    let v_status = match j.get_str("status") {
        Some(s) => match AccountStatus::from_wire(s.as_str()) {
            Some(e) => e,
            None => {
                return None;
            },
        },
        None => {
            return None;
        },
    };
    let v_crypto_status = match j.get_str("crypto_status") {
        Some(s) => match AccountStatus::from_wire(s.as_str()) {
            Some(e) => e,
            None => {
                return None;
            },
        },
        None => {
            return None;
        },
    };
    let v_currency = match j.get_str("currency") {
        Some(v) => v,
        None => {
            return None;
        },
    };
    let v_created_at = match j.get_str("created_at") {
        Some(v) => v,
        None => {
            return None;
        },
    };
    let v_last_equity = match j.get_str("last_equity") {
        Some(v) => v,
        None => {
            return None;
        },
    };
    let v_portfolio_value = match j.get_str("portfolio_value") {
        Some(v) => v,
        None => {
            return None;
        },
    };
    let v_cash = match j.get_str("cash") {
        Some(v) => v,
        None => {
            return None;
        },
    };
    let v_buying_power = match j.get_str("buying_power") {
        Some(v) => v,
        None => {
            return None;
        },
    };
    Some(Account {
        id: v_id,
        account_number: v_account_number,
        status: v_status,
        crypto_status: v_crypto_status,
        currency: v_currency,
        created_at: v_created_at,
        last_equity: v_last_equity,
        portfolio_value: v_portfolio_value,
        cash: v_cash,
        buying_power: v_buying_power,
    })
}

/// Decoding an encoded `Account` gives back the same data.
#[verifier::rlimit(100)]
pub proof fn lemma_account_roundtrip(a: AccountV)
    ensures
        spec_dec_account(spec_enc_account(a)) == Some(a),
{
    reveal_with_fuel(spec_lookup, 14);
    reveal_strlit("account_number");
    reveal_strlit("buying_power");
    reveal_strlit("cash");
    reveal_strlit("created_at");
    reveal_strlit("crypto_status");
    reveal_strlit("currency");
    reveal_strlit("id");
    reveal_strlit("last_equity");
    reveal_strlit("portfolio_value");
    reveal_strlit("status");
    assert("account_number"@.len() == 14);
    assert("buying_power"@.len() == 12);
    assert("cash"@.len() == 4);
    assert("created_at"@.len() == 10);
    assert("crypto_status"@.len() == 13);
    assert("currency"@.len() == 8);
    assert("id"@.len() == 2);
    assert("last_equity"@.len() == 11);
    assert("portfolio_value"@.len() == 15);
    assert("status"@.len() == 6);
    lemma_account_status_wire_roundtrip(a.status);
    lemma_account_status_wire_roundtrip(a.crypto_status);
}

/// The abbreviated account record returned by account listings.
#[derive(Debug, Clone)]
pub struct SmallAccount {
    pub id: String,
    pub account_number: String,
    pub status: AccountStatus,
    pub crypto_status: AccountStatus,
    pub currency: String,
    pub last_equity: String,
    pub created_at: String,
    pub account_type: String,
    pub enabled_assets: Vec<String>,
}

/// The model of a `SmallAccount`.
pub struct SmallAccountV {
    pub id: Seq<char>,
    pub account_number: Seq<char>,
    pub status: AccountStatus,
    pub crypto_status: AccountStatus,
    pub currency: Seq<char>,
    pub last_equity: Seq<char>,
    pub created_at: Seq<char>,
    pub account_type: Seq<char>,
    pub enabled_assets: Seq<Seq<char>>,
}

impl View for SmallAccount {
    type V = SmallAccountV;

    open spec fn view(&self) -> SmallAccountV {
        SmallAccountV {
            id: self.id@,
            account_number: self.account_number@,
            status: self.status,
            crypto_status: self.crypto_status,
            currency: self.currency@,
            last_equity: self.last_equity@,
            created_at: self.created_at@,
            account_type: self.account_type@,
            enabled_assets: self.enabled_assets.deep_view(),
        }
    }
}

/// The wire members of an encoded `SmallAccount`, in order, optional fields
/// contributing nothing when unset.
pub open spec fn spec_small_account_members(a: SmallAccountV) -> Seq<(Seq<char>, JsonV)> {
    seq![("id"@, JsonV::Str(a.id)), ("account_number"@, JsonV::Str(a.account_number)), ("status"@, JsonV::Str(a.status.spec_wire())), ("crypto_status"@, JsonV::Str(a.crypto_status.spec_wire())), ("currency"@, JsonV::Str(a.currency)), ("last_equity"@, JsonV::Str(a.last_equity)), ("created_at"@, JsonV::Str(a.created_at)), ("account_type"@, JsonV::Str(a.account_type)), ("enabled_assets"@, JsonV::Arr(strs_jsonv(a.enabled_assets)))]
}

/// The encoded form of a `SmallAccount`.
pub open spec fn spec_enc_small_account(a: SmallAccountV) -> JsonV {
    JsonV::Obj(spec_small_account_members(a))
}

/// What decoding a JSON value as a `SmallAccount` yields.
pub open spec fn spec_dec_small_account(j: JsonV) -> Option<SmallAccountV> {
    match j {
        JsonV::Obj(f) => {
            if lookup_str(f, "id"@) is Some && lookup_str(f, "account_number"@) is Some && (match lookup_str(f, "status"@) { Some(s) => AccountStatus::spec_from_wire(s), None => None }) is Some && (match lookup_str(f, "crypto_status"@) { Some(s) => AccountStatus::spec_from_wire(s), None => None }) is Some && lookup_str(f, "currency"@) is Some && lookup_str(f, "last_equity"@) is Some && lookup_str(f, "created_at"@) is Some && lookup_str(f, "account_type"@) is Some && lookup_strs(f, "enabled_assets"@) is Some {
                Some(SmallAccountV {
                    id: lookup_str(f, "id"@).unwrap(),
                    account_number: lookup_str(f, "account_number"@).unwrap(),
                    status: (match lookup_str(f, "status"@) { Some(s) => AccountStatus::spec_from_wire(s), None => None }).unwrap(),
                    crypto_status: (match lookup_str(f, "crypto_status"@) { Some(s) => AccountStatus::spec_from_wire(s), None => None }).unwrap(),
                    currency: lookup_str(f, "currency"@).unwrap(),
                    last_equity: lookup_str(f, "last_equity"@).unwrap(),
                    created_at: lookup_str(f, "created_at"@).unwrap(),
                    account_type: lookup_str(f, "account_type"@).unwrap(),
                    enabled_assets: lookup_strs(f, "enabled_assets"@).unwrap(),
                })
            } else {
                None
            }
        },
        _ => None,
    }
}

/// Encodes a `SmallAccount` as its wire object.
pub fn encode_small_account(x: &SmallAccount) -> (j: Json)
    ensures
        j@ == spec_enc_small_account(x@),
{
    let mut f: Vec<(String, Json)> = Vec::new();
    obj_push(&mut f, "id", Json::Str(x.id.clone()));
    obj_push(&mut f, "account_number", Json::Str(x.account_number.clone()));
    obj_push(&mut f, "status", Json::Str(x.status.wire_name().to_owned()));
    obj_push(&mut f, "crypto_status", Json::Str(x.crypto_status.wire_name().to_owned()));
    obj_push(&mut f, "currency", Json::Str(x.currency.clone()));
    obj_push(&mut f, "last_equity", Json::Str(x.last_equity.clone()));
    obj_push(&mut f, "created_at", Json::Str(x.created_at.clone()));
    obj_push(&mut f, "account_type", Json::Str(x.account_type.clone()));
    obj_push(&mut f, "enabled_assets", strs_to_json(&x.enabled_assets));
    proof {
        assert(member_views(f@) =~= seq![("id"@, JsonV::Str(x@.id)), ("account_number"@, JsonV::Str(x@.account_number)), ("status"@, JsonV::Str(x@.status.spec_wire())), ("crypto_status"@, JsonV::Str(x@.crypto_status.spec_wire())), ("currency"@, JsonV::Str(x@.currency)), ("last_equity"@, JsonV::Str(x@.last_equity)), ("created_at"@, JsonV::Str(x@.created_at)), ("account_type"@, JsonV::Str(x@.account_type)), ("enabled_assets"@, JsonV::Arr(strs_jsonv(x@.enabled_assets)))]);
    }
    let j = Json::Obj(f);
    proof {
        assert(member_views(f@) =~= spec_small_account_members(x@));
    }
    j
}

/// Decodes a `SmallAccount` from a JSON value.
pub fn decode_small_account(j: &Json) -> (r: Option<SmallAccount>)
    ensures
        match r {
            Some(x) => spec_dec_small_account(j@) == Some(x@),
            None => spec_dec_small_account(j@) is None,
        },
{
    let v_id = match j.get_str("id") {
        Some(v) => v,
        None => {
            return None;
        },
    };
    let v_account_number = match j.get_str("account_number") {
        Some(v) => v,
        None => {
            return None;
        },
    };
    let v_status = match j.get_str("status") {
        Some(s) => match AccountStatus::from_wire(s.as_str()) {
            Some(e) => e,
            None => {
                return None;
            },
        },
        None => {
            return None;
        },
    };
    let v_crypto_status = match j.get_str("crypto_status") {
        Some(s) => match AccountStatus::from_wire(s.as_str()) {
            Some(e) => e,
            None => {
                return None;
            },
        },
        None => {
            return None;
        },
    };
    let v_currency = match j.get_str("currency") {
        Some(v) => v,
        None => {
            return None;
        },
    };
    let v_last_equity = match j.get_str("last_equity") {
        Some(v) => v,
        None => {
            return None;
        },
    };
    let v_created_at = match j.get_str("created_at") {
        Some(v) => v,
        None => {
            return None;
        },
    };
    let v_account_type = match j.get_str("account_type") {
        Some(v) => v,
        None => {
            return None;
        },
    };
    let v_enabled_assets = match j.get_strs("enabled_assets") {
        Some(v) => v,
        None => {
            return None;
        },
    };
    Some(SmallAccount {
        id: v_id,
        account_number: v_account_number,
        status: v_status,
        crypto_status: v_crypto_status,
        currency: v_currency,
        last_equity: v_last_equity,
        created_at: v_created_at,
        account_type: v_account_type,
        enabled_assets: v_enabled_assets,
    })
}

/// Decoding an encoded `SmallAccount` gives back the same data.
#[verifier::rlimit(100)]
pub proof fn lemma_small_account_roundtrip(a: SmallAccountV)
    ensures
        spec_dec_small_account(spec_enc_small_account(a)) == Some(a),
{
    reveal_with_fuel(spec_lookup, 13);
    reveal_strlit("account_number");
    reveal_strlit("account_type");
    reveal_strlit("created_at");
    reveal_strlit("crypto_status");
    reveal_strlit("currency");
    reveal_strlit("enabled_assets");
    reveal_strlit("id");
    reveal_strlit("last_equity");
    reveal_strlit("status");
    assert("account_number"@.len() == 14);
    assert("account_type"@.len() == 12);
    assert("created_at"@.len() == 10);
    assert("crypto_status"@.len() == 13);
    assert("currency"@.len() == 8);
    assert("enabled_assets"@.len() == 14);
    assert("id"@.len() == 2);
    assert("last_equity"@.len() == 11);
    assert("status"@.len() == 6);
    assert("account_number"@ != "enabled_assets"@) by {
        assert("account_number"@[0] == 'a');
        assert("enabled_assets"@[0] == 'e');
    }
    lemma_account_status_wire_roundtrip(a.status);
    lemma_account_status_wire_roundtrip(a.crypto_status);
    lemma_strs_jsonv_roundtrip(a.enabled_assets);
}

/// Contact details handed in when an account is created.
#[derive(Debug, Clone)]
pub struct Contact {
    pub email_address: String,
    pub phone_number: String,
    pub street_address: Vec<String>,
    pub unit: String,
    pub city: String,
    pub state: String,
    pub postal_code: String,
}

/// The model of a `Contact`.
pub struct ContactV {
    pub email_address: Seq<char>,
    pub phone_number: Seq<char>,
    pub street_address: Seq<Seq<char>>,
    pub unit: Seq<char>,
    pub city: Seq<char>,
    pub state: Seq<char>,
    pub postal_code: Seq<char>,
}

impl View for Contact {
    type V = ContactV;

    open spec fn view(&self) -> ContactV {
        ContactV {
            email_address: self.email_address@,
            phone_number: self.phone_number@,
            street_address: self.street_address.deep_view(),
            unit: self.unit@,
            city: self.city@,
            state: self.state@,
            postal_code: self.postal_code@,
        }
    }
}

/// The wire members of an encoded `Contact`, in order, optional fields
/// contributing nothing when unset.
pub open spec fn spec_contact_members(a: ContactV) -> Seq<(Seq<char>, JsonV)> {
    seq![("email_address"@, JsonV::Str(a.email_address)), ("phone_number"@, JsonV::Str(a.phone_number)), ("street_address"@, JsonV::Arr(strs_jsonv(a.street_address))), ("unit"@, JsonV::Str(a.unit)), ("city"@, JsonV::Str(a.city)), ("state"@, JsonV::Str(a.state)), ("postal_code"@, JsonV::Str(a.postal_code))]
}

/// The encoded form of a `Contact`.
pub open spec fn spec_enc_contact(a: ContactV) -> JsonV {
    JsonV::Obj(spec_contact_members(a))
}

/// What decoding a JSON value as a `Contact` yields.
pub open spec fn spec_dec_contact(j: JsonV) -> Option<ContactV> {
    match j {
        JsonV::Obj(f) => {
            if lookup_str(f, "email_address"@) is Some && lookup_str(f, "phone_number"@) is Some && lookup_strs(f, "street_address"@) is Some && lookup_str(f, "unit"@) is Some && lookup_str(f, "city"@) is Some && lookup_str(f, "state"@) is Some && lookup_str(f, "postal_code"@) is Some {
                Some(ContactV {
                    email_address: lookup_str(f, "email_address"@).unwrap(),
                    phone_number: lookup_str(f, "phone_number"@).unwrap(),
                    street_address: lookup_strs(f, "street_address"@).unwrap(),
                    unit: lookup_str(f, "unit"@).unwrap(),
                    city: lookup_str(f, "city"@).unwrap(),
                    state: lookup_str(f, "state"@).unwrap(),
                    postal_code: lookup_str(f, "postal_code"@).unwrap(),
                })
            } else {
                None
            }
        },
        _ => None,
    }
}

/// Encodes a `Contact` as its wire object.
pub fn encode_contact(x: &Contact) -> (j: Json)
    ensures
        j@ == spec_enc_contact(x@),
{
    let mut f: Vec<(String, Json)> = Vec::new();
    obj_push(&mut f, "email_address", Json::Str(x.email_address.clone()));
    obj_push(&mut f, "phone_number", Json::Str(x.phone_number.clone()));
    obj_push(&mut f, "street_address", strs_to_json(&x.street_address));
    obj_push(&mut f, "unit", Json::Str(x.unit.clone()));
    obj_push(&mut f, "city", Json::Str(x.city.clone()));
    obj_push(&mut f, "state", Json::Str(x.state.clone()));
    obj_push(&mut f, "postal_code", Json::Str(x.postal_code.clone()));
    proof {
        assert(member_views(f@) =~= seq![("email_address"@, JsonV::Str(x@.email_address)), ("phone_number"@, JsonV::Str(x@.phone_number)), ("street_address"@, JsonV::Arr(strs_jsonv(x@.street_address))), ("unit"@, JsonV::Str(x@.unit)), ("city"@, JsonV::Str(x@.city)), ("state"@, JsonV::Str(x@.state)), ("postal_code"@, JsonV::Str(x@.postal_code))]);
    }
    let j = Json::Obj(f);
    proof {
        assert(member_views(f@) =~= spec_contact_members(x@));
    }
    j
}

/// Decodes a `Contact` from a JSON value.
pub fn decode_contact(j: &Json) -> (r: Option<Contact>)
    ensures
        match r {
            Some(x) => spec_dec_contact(j@) == Some(x@),
            None => spec_dec_contact(j@) is None,
        },
{
    let v_email_address = match j.get_str("email_address") {
        Some(v) => v,
        None => {
            return None;
        },
    };
    let v_phone_number = match j.get_str("phone_number") {
        Some(v) => v,
        None => {
            return None;
        },
    };
    let v_street_address = match j.get_strs("street_address") {
        Some(v) => v,
        None => {
            return None;
        },
    };
    let v_unit = match j.get_str("unit") {
        Some(v) => v,
        None => {
            return None;
        },
    };
    let v_city = match j.get_str("city") {
        Some(v) => v,
        None => {
            return None;
        },
    };
    let v_state = match j.get_str("state") {
        Some(v) => v,
        None => {
            return None;
        },
    };
    let v_postal_code = match j.get_str("postal_code") {
        Some(v) => v,
        None => {
            return None;
        },
    };
    Some(Contact {
        email_address: v_email_address,
        phone_number: v_phone_number,
        street_address: v_street_address,
        unit: v_unit,
        city: v_city,
        state: v_state,
        postal_code: v_postal_code,
    })
}

/// Decoding an encoded `Contact` gives back the same data.
#[verifier::rlimit(100)]
pub proof fn lemma_contact_roundtrip(a: ContactV)
    ensures
        spec_dec_contact(spec_enc_contact(a)) == Some(a),
{
    reveal_with_fuel(spec_lookup, 11);
    reveal_strlit("city");
    reveal_strlit("email_address");
    reveal_strlit("phone_number");
    reveal_strlit("postal_code");
    reveal_strlit("state");
    reveal_strlit("street_address");
    reveal_strlit("unit");
    assert("city"@.len() == 4);
    assert("email_address"@.len() == 13);
    assert("phone_number"@.len() == 12);
    assert("postal_code"@.len() == 11);
    assert("state"@.len() == 5);
    assert("street_address"@.len() == 14);
    assert("unit"@.len() == 4);
    assert("city"@ != "unit"@) by {
        assert("city"@[0] == 'c');
        assert("unit"@[0] == 'u');
    }
    lemma_strs_jsonv_roundtrip(a.street_address);
}

/// Identity details handed in when an account is created.
#[derive(Debug, Clone)]
pub struct Identity {
    pub given_name: String,
    pub family_name: String,
    pub date_of_birth: String,
    pub tax_id: String,
    pub tax_id_type: String,
    pub country_of_citizenship: String,
    pub country_of_birth: String,
    pub country_of_tax_residence: String,
    pub funding_source: Vec<String>,
}

/// The model of a `Identity`.
pub struct IdentityV {
    pub given_name: Seq<char>,
    pub family_name: Seq<char>,
    pub date_of_birth: Seq<char>,
    pub tax_id: Seq<char>,
    pub tax_id_type: Seq<char>,
    pub country_of_citizenship: Seq<char>,
    pub country_of_birth: Seq<char>,
    pub country_of_tax_residence: Seq<char>,
    pub funding_source: Seq<Seq<char>>,
}

impl View for Identity {
    type V = IdentityV;

    open spec fn view(&self) -> IdentityV {
        IdentityV {
            given_name: self.given_name@,
            family_name: self.family_name@,
            date_of_birth: self.date_of_birth@,
            tax_id: self.tax_id@,
            tax_id_type: self.tax_id_type@,
            country_of_citizenship: self.country_of_citizenship@,
            country_of_birth: self.country_of_birth@,
            country_of_tax_residence: self.country_of_tax_residence@,
            funding_source: self.funding_source.deep_view(),
        }
    }
}

/// The wire members of an encoded `Identity`, in order, optional fields
/// contributing nothing when unset.
pub open spec fn spec_identity_members(a: IdentityV) -> Seq<(Seq<char>, JsonV)> {
    seq![("given_name"@, JsonV::Str(a.given_name)), ("family_name"@, JsonV::Str(a.family_name)), ("date_of_birth"@, JsonV::Str(a.date_of_birth)), ("tax_id"@, JsonV::Str(a.tax_id)), ("tax_id_type"@, JsonV::Str(a.tax_id_type)), ("country_of_citizenship"@, JsonV::Str(a.country_of_citizenship)), ("country_of_birth"@, JsonV::Str(a.country_of_birth)), ("country_of_tax_residence"@, JsonV::Str(a.country_of_tax_residence)), ("funding_source"@, JsonV::Arr(strs_jsonv(a.funding_source)))]
}

/// The encoded form of a `Identity`.
pub open spec fn spec_enc_identity(a: IdentityV) -> JsonV {
    JsonV::Obj(spec_identity_members(a))
}

/// What decoding a JSON value as a `Identity` yields.
pub open spec fn spec_dec_identity(j: JsonV) -> Option<IdentityV> {
    match j {
        JsonV::Obj(f) => {
            if lookup_str(f, "given_name"@) is Some && lookup_str(f, "family_name"@) is Some && lookup_str(f, "date_of_birth"@) is Some && lookup_str(f, "tax_id"@) is Some && lookup_str(f, "tax_id_type"@) is Some && lookup_str(f, "country_of_citizenship"@) is Some && lookup_str(f, "country_of_birth"@) is Some && lookup_str(f, "country_of_tax_residence"@) is Some && lookup_strs(f, "funding_source"@) is Some {
                Some(IdentityV {
                    given_name: lookup_str(f, "given_name"@).unwrap(),
                    family_name: lookup_str(f, "family_name"@).unwrap(),
                    date_of_birth: lookup_str(f, "date_of_birth"@).unwrap(),
                    tax_id: lookup_str(f, "tax_id"@).unwrap(),
                    tax_id_type: lookup_str(f, "tax_id_type"@).unwrap(),
                    country_of_citizenship: lookup_str(f, "country_of_citizenship"@).unwrap(),
                    country_of_birth: lookup_str(f, "country_of_birth"@).unwrap(),
                    country_of_tax_residence: lookup_str(f, "country_of_tax_residence"@).unwrap(),
                    funding_source: lookup_strs(f, "funding_source"@).unwrap(),
                })
            } else {
                None
            }
        },
        _ => None,
    }
}

/// Encodes a `Identity` as its wire object.
pub fn encode_identity(x: &Identity) -> (j: Json)
    ensures
        j@ == spec_enc_identity(x@),
{
    let mut f: Vec<(String, Json)> = Vec::new();
    obj_push(&mut f, "given_name", Json::Str(x.given_name.clone()));
    obj_push(&mut f, "family_name", Json::Str(x.family_name.clone()));
    obj_push(&mut f, "date_of_birth", Json::Str(x.date_of_birth.clone()));
    obj_push(&mut f, "tax_id", Json::Str(x.tax_id.clone()));
    obj_push(&mut f, "tax_id_type", Json::Str(x.tax_id_type.clone()));
    obj_push(&mut f, "country_of_citizenship", Json::Str(x.country_of_citizenship.clone()));
    obj_push(&mut f, "country_of_birth", Json::Str(x.country_of_birth.clone()));
    obj_push(&mut f, "country_of_tax_residence", Json::Str(x.country_of_tax_residence.clone()));
    obj_push(&mut f, "funding_source", strs_to_json(&x.funding_source));
    proof {
        assert(member_views(f@) =~= seq![("given_name"@, JsonV::Str(x@.given_name)), ("family_name"@, JsonV::Str(x@.family_name)), ("date_of_birth"@, JsonV::Str(x@.date_of_birth)), ("tax_id"@, JsonV::Str(x@.tax_id)), ("tax_id_type"@, JsonV::Str(x@.tax_id_type)), ("country_of_citizenship"@, JsonV::Str(x@.country_of_citizenship)), ("country_of_birth"@, JsonV::Str(x@.country_of_birth)), ("country_of_tax_residence"@, JsonV::Str(x@.country_of_tax_residence)), ("funding_source"@, JsonV::Arr(strs_jsonv(x@.funding_source)))]);
    }
    let j = Json::Obj(f);
    proof {
        assert(member_views(f@) =~= spec_identity_members(x@));
    }
    j
}

/// Decodes a `Identity` from a JSON value.
pub fn decode_identity(j: &Json) -> (r: Option<Identity>)
    ensures
        match r {
            Some(x) => spec_dec_identity(j@) == Some(x@),
            None => spec_dec_identity(j@) is None,
        },
{
    let v_given_name = match j.get_str("given_name") {
        Some(v) => v,
        None => {
            return None;
        },
    };
    let v_family_name = match j.get_str("family_name") {
        Some(v) => v,
        None => {
            return None;
        },
    };
    let v_date_of_birth = match j.get_str("date_of_birth") {
        Some(v) => v,
        None => {
            return None;
        },
    };
    let v_tax_id = match j.get_str("tax_id") {
        Some(v) => v,
        None => {
            return None;
        },
    };
    let v_tax_id_type = match j.get_str("tax_id_type") {
        Some(v) => v,
        None => {
            return None;
        },
    };
    let v_country_of_citizenship = match j.get_str("country_of_citizenship") {
        Some(v) => v,
        None => {
            return None;
        },
    };
    let v_country_of_birth = match j.get_str("country_of_birth") {
        Some(v) => v,
        None => {
            return None;
        },
    };
    let v_country_of_tax_residence = match j.get_str("country_of_tax_residence") {
        Some(v) => v,
        None => {
            return None;
        },
    };
    let v_funding_source = match j.get_strs("funding_source") {
        Some(v) => v,
        None => {
            return None;
        },
    };
    Some(Identity {
        given_name: v_given_name,
        family_name: v_family_name,
        date_of_birth: v_date_of_birth,
        tax_id: v_tax_id,
        tax_id_type: v_tax_id_type,
        country_of_citizenship: v_country_of_citizenship,
        country_of_birth: v_country_of_birth,
        country_of_tax_residence: v_country_of_tax_residence,
        funding_source: v_funding_source,
    })
}

/// Decoding an encoded `Identity` gives back the same data.
#[verifier::rlimit(100)]
pub proof fn lemma_identity_roundtrip(a: IdentityV)
    ensures
        spec_dec_identity(spec_enc_identity(a)) == Some(a),
{
    reveal_with_fuel(spec_lookup, 13);
    reveal_strlit("country_of_birth");
    reveal_strlit("country_of_citizenship");
    reveal_strlit("country_of_tax_residence");
    reveal_strlit("date_of_birth");
    reveal_strlit("family_name");
    reveal_strlit("funding_source");
    reveal_strlit("given_name");
    reveal_strlit("tax_id");
    reveal_strlit("tax_id_type");
    assert("country_of_birth"@.len() == 16);
    assert("country_of_citizenship"@.len() == 22);
    assert("country_of_tax_residence"@.len() == 24);
    assert("date_of_birth"@.len() == 13);
    assert("family_name"@.len() == 11);
    assert("funding_source"@.len() == 14);
    assert("given_name"@.len() == 10);
    assert("tax_id"@.len() == 6);
    assert("tax_id_type"@.len() == 11);
    assert("family_name"@ != "tax_id_type"@) by {
        assert("family_name"@[0] == 'f');
        assert("tax_id_type"@[0] == 't');
    }
    lemma_strs_jsonv_roundtrip(a.funding_source);
}

/// Regulatory disclosures for a new account.
#[derive(Debug, Clone)]
pub struct Disclosures {
    pub is_control_person: bool,
    pub is_affiliated_exchange_or_finra: bool,
    pub is_politically_exposed: bool,
    pub immediate_family_exposed: bool,
}

/// The model of a `Disclosures`.
pub struct DisclosuresV {
    pub is_control_person: bool,
    pub is_affiliated_exchange_or_finra: bool,
    pub is_politically_exposed: bool,
    pub immediate_family_exposed: bool,
}

impl View for Disclosures {
    type V = DisclosuresV;

    open spec fn view(&self) -> DisclosuresV {
        DisclosuresV {
            is_control_person: self.is_control_person,
            is_affiliated_exchange_or_finra: self.is_affiliated_exchange_or_finra,
            is_politically_exposed: self.is_politically_exposed,
            immediate_family_exposed: self.immediate_family_exposed,
        }
    }
}

/// The wire members of an encoded `Disclosures`, in order, optional fields
/// contributing nothing when unset.
pub open spec fn spec_disclosures_members(a: DisclosuresV) -> Seq<(Seq<char>, JsonV)> {
    seq![("is_control_person"@, JsonV::Bool(a.is_control_person)), ("is_affiliated_exchange_or_finra"@, JsonV::Bool(a.is_affiliated_exchange_or_finra)), ("is_politically_exposed"@, JsonV::Bool(a.is_politically_exposed)), ("immediate_family_exposed"@, JsonV::Bool(a.immediate_family_exposed))]
}

/// The encoded form of a `Disclosures`.
pub open spec fn spec_enc_disclosures(a: DisclosuresV) -> JsonV {
    JsonV::Obj(spec_disclosures_members(a))
}

/// What decoding a JSON value as a `Disclosures` yields.
pub open spec fn spec_dec_disclosures(j: JsonV) -> Option<DisclosuresV> {
    match j {
        JsonV::Obj(f) => {
            if lookup_bool(f, "is_control_person"@) is Some && lookup_bool(f, "is_affiliated_exchange_or_finra"@) is Some && lookup_bool(f, "is_politically_exposed"@) is Some && lookup_bool(f, "immediate_family_exposed"@) is Some {
                Some(DisclosuresV {
                    is_control_person: lookup_bool(f, "is_control_person"@).unwrap(),
                    is_affiliated_exchange_or_finra: lookup_bool(f, "is_affiliated_exchange_or_finra"@).unwrap(),
                    is_politically_exposed: lookup_bool(f, "is_politically_exposed"@).unwrap(),
                    immediate_family_exposed: lookup_bool(f, "immediate_family_exposed"@).unwrap(),
                })
            } else {
                None
            }
        },
        _ => None,
    }
}

/// Encodes a `Disclosures` as its wire object.
pub fn encode_disclosures(x: &Disclosures) -> (j: Json)
    ensures
        j@ == spec_enc_disclosures(x@),
{
    let mut f: Vec<(String, Json)> = Vec::new();
    obj_push(&mut f, "is_control_person", Json::Bool(x.is_control_person));
    obj_push(&mut f, "is_affiliated_exchange_or_finra", Json::Bool(x.is_affiliated_exchange_or_finra));
    obj_push(&mut f, "is_politically_exposed", Json::Bool(x.is_politically_exposed));
    obj_push(&mut f, "immediate_family_exposed", Json::Bool(x.immediate_family_exposed));
    proof {
        assert(member_views(f@) =~= seq![("is_control_person"@, JsonV::Bool(x@.is_control_person)), ("is_affiliated_exchange_or_finra"@, JsonV::Bool(x@.is_affiliated_exchange_or_finra)), ("is_politically_exposed"@, JsonV::Bool(x@.is_politically_exposed)), ("immediate_family_exposed"@, JsonV::Bool(x@.immediate_family_exposed))]);
    }
    let j = Json::Obj(f);
    proof {
        assert(member_views(f@) =~= spec_disclosures_members(x@));
    }
    j
}

/// Decodes a `Disclosures` from a JSON value.
pub fn decode_disclosures(j: &Json) -> (r: Option<Disclosures>)
    ensures
        match r {
            Some(x) => spec_dec_disclosures(j@) == Some(x@),
            None => spec_dec_disclosures(j@) is None,
        },
{
    let v_is_control_person = match j.get_bool("is_control_person") {
        Some(v) => v,
        None => {
            return None;
        },
    };
    let v_is_affiliated_exchange_or_finra = match j.get_bool("is_affiliated_exchange_or_finra") {
        Some(v) => v,
        None => {
            return None;
        },
    };
    let v_is_politically_exposed = match j.get_bool("is_politically_exposed") {
        Some(v) => v,
        None => {
            return None;
        },
    };
    let v_immediate_family_exposed = match j.get_bool("immediate_family_exposed") {
        Some(v) => v,
        None => {
            return None;
        },
    };
    Some(Disclosures {
        is_control_person: v_is_control_person,
        is_affiliated_exchange_or_finra: v_is_affiliated_exchange_or_finra,
        is_politically_exposed: v_is_politically_exposed,
        immediate_family_exposed: v_immediate_family_exposed,
    })
}

/// Decoding an encoded `Disclosures` gives back the same data.
#[verifier::rlimit(100)]
pub proof fn lemma_disclosures_roundtrip(a: DisclosuresV)
    ensures
        spec_dec_disclosures(spec_enc_disclosures(a)) == Some(a),
{
    reveal_with_fuel(spec_lookup, 8);
    reveal_strlit("immediate_family_exposed");
    reveal_strlit("is_affiliated_exchange_or_finra");
    reveal_strlit("is_control_person");
    reveal_strlit("is_politically_exposed");
    assert("immediate_family_exposed"@.len() == 24);
    assert("is_affiliated_exchange_or_finra"@.len() == 31);
    assert("is_control_person"@.len() == 17);
    assert("is_politically_exposed"@.len() == 22);
}

/// One document attached to an account application.
#[derive(Debug, Clone)]
pub struct Document {
    pub document_id: String,
    pub document_type: String,
    pub created_at: String,
    pub mime_type: String,
    pub content: String,
    pub document_sub_type: String,
}

/// The model of a `Document`.
pub struct DocumentV {
    pub document_id: Seq<char>,
    pub document_type: Seq<char>,
    pub created_at: Seq<char>,
    pub mime_type: Seq<char>,
    pub content: Seq<char>,
    pub document_sub_type: Seq<char>,
}

impl View for Document {
    type V = DocumentV;

    open spec fn view(&self) -> DocumentV {
        DocumentV {
            document_id: self.document_id@,
            document_type: self.document_type@,
            created_at: self.created_at@,
            mime_type: self.mime_type@,
            content: self.content@,
            document_sub_type: self.document_sub_type@,
        }
    }
}

/// The wire members of an encoded `Document`, in order, optional fields
/// contributing nothing when unset.
pub open spec fn spec_document_members(a: DocumentV) -> Seq<(Seq<char>, JsonV)> {
    seq![("document_id"@, JsonV::Str(a.document_id)), ("document_type"@, JsonV::Str(a.document_type)), ("created_at"@, JsonV::Str(a.created_at)), ("mime_type"@, JsonV::Str(a.mime_type)), ("content"@, JsonV::Str(a.content)), ("document_sub_type"@, JsonV::Str(a.document_sub_type))]
}

/// The encoded form of a `Document`.
pub open spec fn spec_enc_document(a: DocumentV) -> JsonV {
    JsonV::Obj(spec_document_members(a))
}

/// What decoding a JSON value as a `Document` yields.
pub open spec fn spec_dec_document(j: JsonV) -> Option<DocumentV> {
    match j {
        JsonV::Obj(f) => {
            if lookup_str(f, "document_id"@) is Some && lookup_str(f, "document_type"@) is Some && lookup_str(f, "created_at"@) is Some && lookup_str(f, "mime_type"@) is Some && lookup_str(f, "content"@) is Some && lookup_str(f, "document_sub_type"@) is Some {
                Some(DocumentV {
                    document_id: lookup_str(f, "document_id"@).unwrap(),
                    document_type: lookup_str(f, "document_type"@).unwrap(),
                    created_at: lookup_str(f, "created_at"@).unwrap(),
                    mime_type: lookup_str(f, "mime_type"@).unwrap(),
                    content: lookup_str(f, "content"@).unwrap(),
                    document_sub_type: lookup_str(f, "document_sub_type"@).unwrap(),
                })
            } else {
                None
            }
        },
        _ => None,
    }
}

/// Encodes a `Document` as its wire object.
pub fn encode_document(x: &Document) -> (j: Json)
    ensures
        j@ == spec_enc_document(x@),
{
    let mut f: Vec<(String, Json)> = Vec::new();
    obj_push(&mut f, "document_id", Json::Str(x.document_id.clone()));
    obj_push(&mut f, "document_type", Json::Str(x.document_type.clone()));
    obj_push(&mut f, "created_at", Json::Str(x.created_at.clone()));
    obj_push(&mut f, "mime_type", Json::Str(x.mime_type.clone()));
    obj_push(&mut f, "content", Json::Str(x.content.clone()));
    obj_push(&mut f, "document_sub_type", Json::Str(x.document_sub_type.clone()));
    proof {
        assert(member_views(f@) =~= seq![("document_id"@, JsonV::Str(x@.document_id)), ("document_type"@, JsonV::Str(x@.document_type)), ("created_at"@, JsonV::Str(x@.created_at)), ("mime_type"@, JsonV::Str(x@.mime_type)), ("content"@, JsonV::Str(x@.content)), ("document_sub_type"@, JsonV::Str(x@.document_sub_type))]);
    }
    let j = Json::Obj(f);
    proof {
        assert(member_views(f@) =~= spec_document_members(x@));
    }
    j
}

/// Decodes a `Document` from a JSON value.
pub fn decode_document(j: &Json) -> (r: Option<Document>)
    ensures
        match r {
            Some(x) => spec_dec_document(j@) == Some(x@),
            None => spec_dec_document(j@) is None,
        },
{
    let v_document_id = match j.get_str("document_id") {
        Some(v) => v,
        None => {
            return None;
        },
    };
    let v_document_type = match j.get_str("document_type") {
        Some(v) => v,
        None => {
            return None;
        },
    };
    let v_created_at = match j.get_str("created_at") {
        Some(v) => v,
        None => {
            return None;
        },
    };
    let v_mime_type = match j.get_str("mime_type") {
        Some(v) => v,
        None => {
            return None;
        },
    };
    let v_content = match j.get_str("content") {
        Some(v) => v,
        None => {
            return None;
        },
    };
    let v_document_sub_type = match j.get_str("document_sub_type") {
        Some(v) => v,
        None => {
            return None;
        },
    };
    Some(Document {
        document_id: v_document_id,
        document_type: v_document_type,
        created_at: v_created_at,
        mime_type: v_mime_type,
        content: v_content,
        document_sub_type: v_document_sub_type,
    })
}

/// Decoding an encoded `Document` gives back the same data.
#[verifier::rlimit(100)]
pub proof fn lemma_document_roundtrip(a: DocumentV)
    ensures
        spec_dec_document(spec_enc_document(a)) == Some(a),
{
    reveal_with_fuel(spec_lookup, 10);
    reveal_strlit("content");
    reveal_strlit("created_at");
    reveal_strlit("document_id");
    reveal_strlit("document_sub_type");
    reveal_strlit("document_type");
    reveal_strlit("mime_type");
    assert("content"@.len() == 7);
    assert("created_at"@.len() == 10);
    assert("document_id"@.len() == 11);
    assert("document_sub_type"@.len() == 17);
    assert("document_type"@.len() == 13);
    assert("mime_type"@.len() == 9);
}

/// One signed agreement attached to an account application.
#[derive(Debug, Clone)]
pub struct Agreement {
    pub agreement: String,
    pub signed_at: String,
    pub ip_address: String,
    pub revision: String,
}

/// The model of a `Agreement`.
pub struct AgreementV {
    pub agreement: Seq<char>,
    pub signed_at: Seq<char>,
    pub ip_address: Seq<char>,
    pub revision: Seq<char>,
}

impl View for Agreement {
    type V = AgreementV;

    open spec fn view(&self) -> AgreementV {
        AgreementV {
            agreement: self.agreement@,
            signed_at: self.signed_at@,
            ip_address: self.ip_address@,
            revision: self.revision@,
        }
    }
}

/// The wire members of an encoded `Agreement`, in order, optional fields
/// contributing nothing when unset.
pub open spec fn spec_agreement_members(a: AgreementV) -> Seq<(Seq<char>, JsonV)> {
    seq![("agreement"@, JsonV::Str(a.agreement)), ("signed_at"@, JsonV::Str(a.signed_at)), ("ip_address"@, JsonV::Str(a.ip_address)), ("revision"@, JsonV::Str(a.revision))]
}

/// The encoded form of a `Agreement`.
pub open spec fn spec_enc_agreement(a: AgreementV) -> JsonV {
    JsonV::Obj(spec_agreement_members(a))
}

/// What decoding a JSON value as a `Agreement` yields.
pub open spec fn spec_dec_agreement(j: JsonV) -> Option<AgreementV> {
    match j {
        JsonV::Obj(f) => {
            if lookup_str(f, "agreement"@) is Some && lookup_str(f, "signed_at"@) is Some && lookup_str(f, "ip_address"@) is Some && lookup_str(f, "revision"@) is Some {
                Some(AgreementV {
                    agreement: lookup_str(f, "agreement"@).unwrap(),
                    signed_at: lookup_str(f, "signed_at"@).unwrap(),
                    ip_address: lookup_str(f, "ip_address"@).unwrap(),
                    revision: lookup_str(f, "revision"@).unwrap(),
                })
            } else {
                None
            }
        },
        _ => None,
    }
}

/// Encodes a `Agreement` as its wire object.
pub fn encode_agreement(x: &Agreement) -> (j: Json)
    ensures
        j@ == spec_enc_agreement(x@),
{
    let mut f: Vec<(String, Json)> = Vec::new();
    obj_push(&mut f, "agreement", Json::Str(x.agreement.clone()));
    obj_push(&mut f, "signed_at", Json::Str(x.signed_at.clone()));
    obj_push(&mut f, "ip_address", Json::Str(x.ip_address.clone()));
    obj_push(&mut f, "revision", Json::Str(x.revision.clone()));
    proof {
        assert(member_views(f@) =~= seq![("agreement"@, JsonV::Str(x@.agreement)), ("signed_at"@, JsonV::Str(x@.signed_at)), ("ip_address"@, JsonV::Str(x@.ip_address)), ("revision"@, JsonV::Str(x@.revision))]);
    }
    let j = Json::Obj(f);
    proof {
        assert(member_views(f@) =~= spec_agreement_members(x@));
    }
    j
}

/// Decodes a `Agreement` from a JSON value.
pub fn decode_agreement(j: &Json) -> (r: Option<Agreement>)
    ensures
        match r {
            Some(x) => spec_dec_agreement(j@) == Some(x@),
            None => spec_dec_agreement(j@) is None,
        },
{
    let v_agreement = match j.get_str("agreement") {
        Some(v) => v,
        None => {
            return None;
        },
    };
    let v_signed_at = match j.get_str("signed_at") {
        Some(v) => v,
        None => {
            return None;
        },
    };
    let v_ip_address = match j.get_str("ip_address") {
        Some(v) => v,
        None => {
            return None;
        },
    };
    let v_revision = match j.get_str("revision") {
        Some(v) => v,
        None => {
            return None;
        },
    };
    Some(Agreement {
        agreement: v_agreement,
        signed_at: v_signed_at,
        ip_address: v_ip_address,
        revision: v_revision,
    })
}

/// Decoding an encoded `Agreement` gives back the same data.
#[verifier::rlimit(100)]
pub proof fn lemma_agreement_roundtrip(a: AgreementV)
    ensures
        spec_dec_agreement(spec_enc_agreement(a)) == Some(a),
{
    reveal_with_fuel(spec_lookup, 8);
    reveal_strlit("agreement");
    reveal_strlit("ip_address");
    reveal_strlit("revision");
    reveal_strlit("signed_at");
    assert("agreement"@.len() == 9);
    assert("ip_address"@.len() == 10);
    assert("revision"@.len() == 8);
    assert("signed_at"@.len() == 9);
    assert("agreement"@ != "signed_at"@) by {
        assert("agreement"@[0] == 'a');
        assert("signed_at"@[0] == 's');
    }
}

/// The trusted contact of a new account.
#[derive(Debug, Clone)]
pub struct TrustedContact {
    pub given_name: String,
    pub family_name: String,
    pub email_address: String,
}

/// The model of a `TrustedContact`.
pub struct TrustedContactV {
    pub given_name: Seq<char>,
    pub family_name: Seq<char>,
    pub email_address: Seq<char>,
}

impl View for TrustedContact {
    type V = TrustedContactV;

    open spec fn view(&self) -> TrustedContactV {
        TrustedContactV {
            given_name: self.given_name@,
            family_name: self.family_name@,
            email_address: self.email_address@,
        }
    }
}

/// The wire members of an encoded `TrustedContact`, in order, optional fields
/// contributing nothing when unset.
pub open spec fn spec_trusted_contact_members(a: TrustedContactV) -> Seq<(Seq<char>, JsonV)> {
    seq![("given_name"@, JsonV::Str(a.given_name)), ("family_name"@, JsonV::Str(a.family_name)), ("email_address"@, JsonV::Str(a.email_address))]
}

/// The encoded form of a `TrustedContact`.
pub open spec fn spec_enc_trusted_contact(a: TrustedContactV) -> JsonV {
    JsonV::Obj(spec_trusted_contact_members(a))
}

/// What decoding a JSON value as a `TrustedContact` yields.
pub open spec fn spec_dec_trusted_contact(j: JsonV) -> Option<TrustedContactV> {
    match j {
        JsonV::Obj(f) => {
            if lookup_str(f, "given_name"@) is Some && lookup_str(f, "family_name"@) is Some && lookup_str(f, "email_address"@) is Some {
                Some(TrustedContactV {
                    given_name: lookup_str(f, "given_name"@).unwrap(),
                    family_name: lookup_str(f, "family_name"@).unwrap(),
                    email_address: lookup_str(f, "email_address"@).unwrap(),
                })
            } else {
                None
            }
        },
        _ => None,
    }
}

/// Encodes a `TrustedContact` as its wire object.
pub fn encode_trusted_contact(x: &TrustedContact) -> (j: Json)
    ensures
        j@ == spec_enc_trusted_contact(x@),
{
    let mut f: Vec<(String, Json)> = Vec::new();
    obj_push(&mut f, "given_name", Json::Str(x.given_name.clone()));
    obj_push(&mut f, "family_name", Json::Str(x.family_name.clone()));
    obj_push(&mut f, "email_address", Json::Str(x.email_address.clone()));
    proof {
        assert(member_views(f@) =~= seq![("given_name"@, JsonV::Str(x@.given_name)), ("family_name"@, JsonV::Str(x@.family_name)), ("email_address"@, JsonV::Str(x@.email_address))]);
    }
    let j = Json::Obj(f);
    proof {
        assert(member_views(f@) =~= spec_trusted_contact_members(x@));
    }
    j
}

/// Decodes a `TrustedContact` from a JSON value.
pub fn decode_trusted_contact(j: &Json) -> (r: Option<TrustedContact>)
    ensures
        match r {
            Some(x) => spec_dec_trusted_contact(j@) == Some(x@),
            None => spec_dec_trusted_contact(j@) is None,
        },
{
    let v_given_name = match j.get_str("given_name") {
        Some(v) => v,
        None => {
            return None;
        },
    };
    let v_family_name = match j.get_str("family_name") {
        Some(v) => v,
        None => {
            return None;
        },
    };
    let v_email_address = match j.get_str("email_address") {
        Some(v) => v,
        None => {
            return None;
        },
    };
    Some(TrustedContact {
        given_name: v_given_name,
        family_name: v_family_name,
        email_address: v_email_address,
    })
}

/// Decoding an encoded `TrustedContact` gives back the same data.
#[verifier::rlimit(100)]
pub proof fn lemma_trusted_contact_roundtrip(a: TrustedContactV)
    ensures
        spec_dec_trusted_contact(spec_enc_trusted_contact(a)) == Some(a),
{
    reveal_with_fuel(spec_lookup, 7);
    reveal_strlit("email_address");
    reveal_strlit("family_name");
    reveal_strlit("given_name");
    assert("email_address"@.len() == 13);
    assert("family_name"@.len() == 11);
    assert("given_name"@.len() == 10);
}

/// A wire bank relationship of an account.
#[derive(Debug, Clone)]
pub struct BankRelationship {
    pub id: String,
    pub created_at: String,
    pub updated_at: String,
    pub account_id: String,
    pub status: BankRelationshipStatus,
    pub name: String,
    pub account_number: String,
    pub country: Option<String>,
    pub state_province: Option<String>,
    pub postal_code: Option<String>,
    pub city: Option<String>,
    pub street_address: Option<String>,
}

/// The model of a `BankRelationship`.
pub struct BankRelationshipV {
    pub id: Seq<char>,
    pub created_at: Seq<char>,
    pub updated_at: Seq<char>,
    pub account_id: Seq<char>,
    pub status: BankRelationshipStatus,
    pub name: Seq<char>,
    pub account_number: Seq<char>,
    pub country: Option<Seq<char>>,
    pub state_province: Option<Seq<char>>,
    pub postal_code: Option<Seq<char>>,
    pub city: Option<Seq<char>>,
    pub street_address: Option<Seq<char>>,
}

impl View for BankRelationship {
    type V = BankRelationshipV;

    open spec fn view(&self) -> BankRelationshipV {
        BankRelationshipV {
            id: self.id@,
            created_at: self.created_at@,
            updated_at: self.updated_at@,
            account_id: self.account_id@,
            status: self.status,
            name: self.name@,
            account_number: self.account_number@,
            country: match self.country { Some(s) => Some(s@), None => None },
            state_province: match self.state_province { Some(s) => Some(s@), None => None },
            postal_code: match self.postal_code { Some(s) => Some(s@), None => None },
            city: match self.city { Some(s) => Some(s@), None => None },
            street_address: match self.street_address { Some(s) => Some(s@), None => None },
        }
    }
}

/// The wire members of an encoded `BankRelationship`, in order, optional fields
/// contributing nothing when unset.
pub open spec fn spec_bank_relationship_members(a: BankRelationshipV) -> Seq<(Seq<char>, JsonV)> {
    seq![("id"@, JsonV::Str(a.id)), ("created_at"@, JsonV::Str(a.created_at)), ("updated_at"@, JsonV::Str(a.updated_at)), ("account_id"@, JsonV::Str(a.account_id)), ("status"@, JsonV::Str(a.status.spec_wire())), ("name"@, JsonV::Str(a.name)), ("account_number"@, JsonV::Str(a.account_number))] + opt_member_str("country"@, a.country) + opt_member_str("state_province"@, a.state_province) + opt_member_str("postal_code"@, a.postal_code) + opt_member_str("city"@, a.city) + opt_member_str("street_address"@, a.street_address)
}

/// The encoded form of a `BankRelationship`.
pub open spec fn spec_enc_bank_relationship(a: BankRelationshipV) -> JsonV {
    JsonV::Obj(spec_bank_relationship_members(a))
}

/// What decoding a JSON value as a `BankRelationship` yields.
pub open spec fn spec_dec_bank_relationship(j: JsonV) -> Option<BankRelationshipV> {
    match j {
        JsonV::Obj(f) => {
            if lookup_str(f, "id"@) is Some && lookup_str(f, "created_at"@) is Some && lookup_str(f, "updated_at"@) is Some && lookup_str(f, "account_id"@) is Some && (match lookup_str(f, "status"@) { Some(s) => BankRelationshipStatus::spec_from_wire(s), None => None }) is Some && lookup_str(f, "name"@) is Some && lookup_str(f, "account_number"@) is Some && lookup_opt_str(f, "country"@) is Some && lookup_opt_str(f, "state_province"@) is Some && lookup_opt_str(f, "postal_code"@) is Some && lookup_opt_str(f, "city"@) is Some && lookup_opt_str(f, "street_address"@) is Some {
                Some(BankRelationshipV {
                    id: lookup_str(f, "id"@).unwrap(),
                    created_at: lookup_str(f, "created_at"@).unwrap(),
                    updated_at: lookup_str(f, "updated_at"@).unwrap(),
                    account_id: lookup_str(f, "account_id"@).unwrap(),
                    status: (match lookup_str(f, "status"@) { Some(s) => BankRelationshipStatus::spec_from_wire(s), None => None }).unwrap(),
                    name: lookup_str(f, "name"@).unwrap(),
                    account_number: lookup_str(f, "account_number"@).unwrap(),
                    country: lookup_opt_str(f, "country"@).unwrap(),
                    state_province: lookup_opt_str(f, "state_province"@).unwrap(),
                    postal_code: lookup_opt_str(f, "postal_code"@).unwrap(),
                    city: lookup_opt_str(f, "city"@).unwrap(),
                    street_address: lookup_opt_str(f, "street_address"@).unwrap(),
                })
            } else {
                None
            }
        },
        _ => None,
    }
}

/// Encodes a `BankRelationship` as its wire object.
#[verifier::rlimit(100)]
pub fn encode_bank_relationship(x: &BankRelationship) -> (j: Json)
    ensures
        j@ == spec_enc_bank_relationship(x@),
{
    let mut f: Vec<(String, Json)> = Vec::new();
    obj_push(&mut f, "id", Json::Str(x.id.clone()));
    obj_push(&mut f, "created_at", Json::Str(x.created_at.clone()));
    obj_push(&mut f, "updated_at", Json::Str(x.updated_at.clone()));
    obj_push(&mut f, "account_id", Json::Str(x.account_id.clone()));
    obj_push(&mut f, "status", Json::Str(x.status.wire_name().to_owned()));
    obj_push(&mut f, "name", Json::Str(x.name.clone()));
    obj_push(&mut f, "account_number", Json::Str(x.account_number.clone()));
    proof {
        assert(member_views(f@) =~= seq![("id"@, JsonV::Str(x@.id)), ("created_at"@, JsonV::Str(x@.created_at)), ("updated_at"@, JsonV::Str(x@.updated_at)), ("account_id"@, JsonV::Str(x@.account_id)), ("status"@, JsonV::Str(x@.status.spec_wire())), ("name"@, JsonV::Str(x@.name)), ("account_number"@, JsonV::Str(x@.account_number))]);
    }
    let ghost seg0 = member_views(f@);
    match &x.country {
        Some(v) => {
            obj_push(&mut f, "country", Json::Str(v.clone()));
        },
        None => {},
    }
    proof {
        assert(member_views(f@) =~= seg0 + opt_member_str("country"@, x@.country));
    }
    let ghost seg1 = member_views(f@);
    match &x.state_province {
        Some(v) => {
            obj_push(&mut f, "state_province", Json::Str(v.clone()));
        },
        None => {},
    }
    proof {
        assert(member_views(f@) =~= seg1 + opt_member_str("state_province"@, x@.state_province));
    }
    let ghost seg2 = member_views(f@);
    match &x.postal_code {
        Some(v) => {
            obj_push(&mut f, "postal_code", Json::Str(v.clone()));
        },
        None => {},
    }
    proof {
        assert(member_views(f@) =~= seg2 + opt_member_str("postal_code"@, x@.postal_code));
    }
    let ghost seg3 = member_views(f@);
    match &x.city {
        Some(v) => {
            obj_push(&mut f, "city", Json::Str(v.clone()));
        },
        None => {},
    }
    proof {
        assert(member_views(f@) =~= seg3 + opt_member_str("city"@, x@.city));
    }
    let ghost seg4 = member_views(f@);
    match &x.street_address {
        Some(v) => {
            obj_push(&mut f, "street_address", Json::Str(v.clone()));
        },
        None => {},
    }
    proof {
        assert(member_views(f@) =~= seg4 + opt_member_str("street_address"@, x@.street_address));
    }
    let j = Json::Obj(f);
    proof {
        assert(member_views(f@) =~= spec_bank_relationship_members(x@));
    }
    j
}

/// Decodes a `BankRelationship` from a JSON value.
pub fn decode_bank_relationship(j: &Json) -> (r: Option<BankRelationship>)
    ensures
        match r {
            Some(x) => spec_dec_bank_relationship(j@) == Some(x@),
            None => spec_dec_bank_relationship(j@) is None,
        },
{
    let v_id = match j.get_str("id") {
        Some(v) => v,
        None => {
            return None;
        },
    };
    let v_created_at = match j.get_str("created_at") {
        Some(v) => v,
        None => {
            return None;
        },
    };
    let v_updated_at = match j.get_str("updated_at") {
        Some(v) => v,
        None => {
            return None;
        },
    };
    let v_account_id = match j.get_str("account_id") {
        Some(v) => v,
        None => {
            return None;
        },
    };
    let v_status = match j.get_str("status") {
        Some(s) => match BankRelationshipStatus::from_wire(s.as_str()) {
            Some(e) => e,
            None => {
                return None;
            },
        },
        None => {
            return None;
        },
    };
    let v_name = match j.get_str("name") {
        Some(v) => v,
        None => {
            return None;
        },
    };
    let v_account_number = match j.get_str("account_number") {
        Some(v) => v,
        None => {
            return None;
        },
    };
    let v_country = match j.get_opt_str("country") {
        Some(v) => v,
        None => {
            return None;
        },
    };
    let v_state_province = match j.get_opt_str("state_province") {
        Some(v) => v,
        None => {
            return None;
        },
    };
    let v_postal_code = match j.get_opt_str("postal_code") {
        Some(v) => v,
        None => {
            return None;
        },
    };
    let v_city = match j.get_opt_str("city") {
        Some(v) => v,
        None => {
            return None;
        },
    };
    let v_street_address = match j.get_opt_str("street_address") {
        Some(v) => v,
        None => {
            return None;
        },
    };
    Some(BankRelationship {
        id: v_id,
        created_at: v_created_at,
        updated_at: v_updated_at,
        account_id: v_account_id,
        status: v_status,
        name: v_name,
        account_number: v_account_number,
        country: v_country,
        state_province: v_state_province,
        postal_code: v_postal_code,
        city: v_city,
        street_address: v_street_address,
    })
}

/// Decoding an encoded `BankRelationship` gives back the same data.
#[verifier::rlimit(100)]
pub proof fn lemma_bank_relationship_roundtrip(a: BankRelationshipV)
    ensures
        spec_dec_bank_relationship(spec_enc_bank_relationship(a)) == Some(a),
{
    reveal_with_fuel(spec_lookup, 16);
    reveal_strlit("account_id");
    reveal_strlit("account_number");
    reveal_strlit("city");
    reveal_strlit("country");
    reveal_strlit("created_at");
    reveal_strlit("id");
    reveal_strlit("name");
    reveal_strlit("postal_code");
    reveal_strlit("state_province");
    reveal_strlit("status");
    reveal_strlit("street_address");
    reveal_strlit("updated_at");
    assert("account_id"@.len() == 10);
    assert("account_number"@.len() == 14);
    assert("city"@.len() == 4);
    assert("country"@.len() == 7);
    assert("created_at"@.len() == 10);
    assert("id"@.len() == 2);
    assert("name"@.len() == 4);
    assert("postal_code"@.len() == 11);
    assert("state_province"@.len() == 14);
    assert("status"@.len() == 6);
    assert("street_address"@.len() == 14);
    assert("updated_at"@.len() == 10);
    assert("created_at"@ != "updated_at"@) by {
        assert("created_at"@[0] == 'c');
        assert("updated_at"@[0] == 'u');
    }
    assert("account_id"@ != "created_at"@) by {
        assert("account_id"@[0] == 'a');
        assert("created_at"@[0] == 'c');
    }
    assert("account_id"@ != "updated_at"@) by {
        assert("account_id"@[0] == 'a');
        assert("updated_at"@[0] == 'u');
    }
    assert("account_number"@ != "state_province"@) by {
        assert("account_number"@[0] == 'a');
        assert("state_province"@[0] == 's');
    }
    assert("account_number"@ != "street_address"@) by {
        assert("account_number"@[0] == 'a');
        assert("street_address"@[0] == 's');
    }
    assert("state_province"@ != "street_address"@) by {
        assert("state_province"@[2] == 'a');
        assert("street_address"@[2] == 'r');
    }
    assert("city"@ != "name"@) by {
        assert("city"@[0] == 'c');
        assert("name"@[0] == 'n');
    }
    lemma_bank_relationship_status_wire_roundtrip(a.status);
    let base = seq![("id"@, JsonV::Str(a.id)), ("created_at"@, JsonV::Str(a.created_at)), ("updated_at"@, JsonV::Str(a.updated_at)), ("account_id"@, JsonV::Str(a.account_id)), ("status"@, JsonV::Str(a.status.spec_wire())), ("name"@, JsonV::Str(a.name)), ("account_number"@, JsonV::Str(a.account_number))];
    let seg0 = opt_member_str("country"@, a.country);
    let seg1 = opt_member_str("state_province"@, a.state_province);
    let seg2 = opt_member_str("postal_code"@, a.postal_code);
    let seg3 = opt_member_str("city"@, a.city);
    let seg4 = opt_member_str("street_address"@, a.street_address);
    let pre0 = base + seg0;
    let pre1 = pre0 + seg1;
    let pre2 = pre1 + seg2;
    let pre3 = pre2 + seg3;
    let pre4 = pre3 + seg4;
    assert(spec_bank_relationship_members(a) == pre4);
    lemma_lookup_append(pre3, seg4, "account_id"@);
    lemma_lookup_append(pre2, seg3, "account_id"@);
    lemma_lookup_append(pre1, seg2, "account_id"@);
    lemma_lookup_append(pre0, seg1, "account_id"@);
    lemma_lookup_append(base, seg0, "account_id"@);
    lemma_lookup_append(pre3, seg4, "account_number"@);
    lemma_lookup_append(pre2, seg3, "account_number"@);
    lemma_lookup_append(pre1, seg2, "account_number"@);
    lemma_lookup_append(pre0, seg1, "account_number"@);
    lemma_lookup_append(base, seg0, "account_number"@);
    lemma_lookup_append(pre3, seg4, "city"@);
    lemma_lookup_append(pre2, seg3, "city"@);
    lemma_lookup_append(pre1, seg2, "city"@);
    lemma_lookup_append(pre0, seg1, "city"@);
    lemma_lookup_append(base, seg0, "city"@);
    lemma_lookup_append(pre3, seg4, "country"@);
    lemma_lookup_append(pre2, seg3, "country"@);
    lemma_lookup_append(pre1, seg2, "country"@);
    lemma_lookup_append(pre0, seg1, "country"@);
    lemma_lookup_append(base, seg0, "country"@);
    lemma_lookup_append(pre3, seg4, "created_at"@);
    lemma_lookup_append(pre2, seg3, "created_at"@);
    lemma_lookup_append(pre1, seg2, "created_at"@);
    lemma_lookup_append(pre0, seg1, "created_at"@);
    lemma_lookup_append(base, seg0, "created_at"@);
    lemma_lookup_append(pre3, seg4, "id"@);
    lemma_lookup_append(pre2, seg3, "id"@);
    lemma_lookup_append(pre1, seg2, "id"@);
    lemma_lookup_append(pre0, seg1, "id"@);
    lemma_lookup_append(base, seg0, "id"@);
    lemma_lookup_append(pre3, seg4, "name"@);
    lemma_lookup_append(pre2, seg3, "name"@);
    lemma_lookup_append(pre1, seg2, "name"@);
    lemma_lookup_append(pre0, seg1, "name"@);
    lemma_lookup_append(base, seg0, "name"@);
    lemma_lookup_append(pre3, seg4, "postal_code"@);
    lemma_lookup_append(pre2, seg3, "postal_code"@);
    lemma_lookup_append(pre1, seg2, "postal_code"@);
    lemma_lookup_append(pre0, seg1, "postal_code"@);
    lemma_lookup_append(base, seg0, "postal_code"@);
    lemma_lookup_append(pre3, seg4, "state_province"@);
    lemma_lookup_append(pre2, seg3, "state_province"@);
    lemma_lookup_append(pre1, seg2, "state_province"@);
    lemma_lookup_append(pre0, seg1, "state_province"@);
    lemma_lookup_append(base, seg0, "state_province"@);
    lemma_lookup_append(pre3, seg4, "status"@);
    lemma_lookup_append(pre2, seg3, "status"@);
    lemma_lookup_append(pre1, seg2, "status"@);
    lemma_lookup_append(pre0, seg1, "status"@);
    lemma_lookup_append(base, seg0, "status"@);
    lemma_lookup_append(pre3, seg4, "street_address"@);
    lemma_lookup_append(pre2, seg3, "street_address"@);
    lemma_lookup_append(pre1, seg2, "street_address"@);
    lemma_lookup_append(pre0, seg1, "street_address"@);
    lemma_lookup_append(base, seg0, "street_address"@);
    lemma_lookup_append(pre3, seg4, "updated_at"@);
    lemma_lookup_append(pre2, seg3, "updated_at"@);
    lemma_lookup_append(pre1, seg2, "updated_at"@);
    lemma_lookup_append(pre0, seg1, "updated_at"@);
    lemma_lookup_append(base, seg0, "updated_at"@);
}

/// An ACH bank relationship of an account.
#[derive(Debug, Clone)]
pub struct AchRelationship {
    pub id: String,
    pub created_at: String,
    pub updated_at: String,
    pub account_id: String,
    pub status: AchRelationshipStatus,
    pub account_owner_name: String,
    pub bank_account_type: Option<BankAccountType>,
    pub bank_account_number: Option<String>,
    pub bank_routing_number: Option<String>,
    pub nickname: Option<String>,
}

/// The model of a `AchRelationship`.
pub struct AchRelationshipV {
    pub id: Seq<char>,
    pub created_at: Seq<char>,
    pub updated_at: Seq<char>,
    pub account_id: Seq<char>,
    pub status: AchRelationshipStatus,
    pub account_owner_name: Seq<char>,
    pub bank_account_type: Option<BankAccountType>,
    pub bank_account_number: Option<Seq<char>>,
    pub bank_routing_number: Option<Seq<char>>,
    pub nickname: Option<Seq<char>>,
}

impl View for AchRelationship {
    type V = AchRelationshipV;

    open spec fn view(&self) -> AchRelationshipV {
        AchRelationshipV {
            id: self.id@,
            created_at: self.created_at@,
            updated_at: self.updated_at@,
            account_id: self.account_id@,
            status: self.status,
            account_owner_name: self.account_owner_name@,
            bank_account_type: self.bank_account_type,
            bank_account_number: match self.bank_account_number { Some(s) => Some(s@), None => None },
            bank_routing_number: match self.bank_routing_number { Some(s) => Some(s@), None => None },
            nickname: match self.nickname { Some(s) => Some(s@), None => None },
        }
    }
}

/// The wire members of an encoded `AchRelationship`, in order, optional fields
/// contributing nothing when unset.
pub open spec fn spec_ach_relationship_members(a: AchRelationshipV) -> Seq<(Seq<char>, JsonV)> {
    seq![("id"@, JsonV::Str(a.id)), ("created_at"@, JsonV::Str(a.created_at)), ("updated_at"@, JsonV::Str(a.updated_at)), ("account_id"@, JsonV::Str(a.account_id)), ("status"@, JsonV::Str(a.status.spec_wire())), ("account_owner_name"@, JsonV::Str(a.account_owner_name))] + opt_member_str("bank_account_type"@, match a.bank_account_type { Some(e) => Some(e.spec_wire()), None => None }) + opt_member_str("bank_account_number"@, a.bank_account_number) + opt_member_str("bank_routing_number"@, a.bank_routing_number) + opt_member_str("nickname"@, a.nickname)
}

/// The encoded form of a `AchRelationship`.
pub open spec fn spec_enc_ach_relationship(a: AchRelationshipV) -> JsonV {
    JsonV::Obj(spec_ach_relationship_members(a))
}

/// What decoding a JSON value as a `AchRelationship` yields.
pub open spec fn spec_dec_ach_relationship(j: JsonV) -> Option<AchRelationshipV> {
    match j {
        JsonV::Obj(f) => {
            if lookup_str(f, "id"@) is Some && lookup_str(f, "created_at"@) is Some && lookup_str(f, "updated_at"@) is Some && lookup_str(f, "account_id"@) is Some && (match lookup_str(f, "status"@) { Some(s) => AchRelationshipStatus::spec_from_wire(s), None => None }) is Some && lookup_str(f, "account_owner_name"@) is Some && (match lookup_opt_str(f, "bank_account_type"@) { Some(None) => Some(None), Some(Some(s)) => match BankAccountType::spec_from_wire(s) { Some(e) => Some(Some(e)), None => None }, None => None }) is Some && lookup_opt_str(f, "bank_account_number"@) is Some && lookup_opt_str(f, "bank_routing_number"@) is Some && lookup_opt_str(f, "nickname"@) is Some {
                Some(AchRelationshipV {
                    id: lookup_str(f, "id"@).unwrap(),
                    created_at: lookup_str(f, "created_at"@).unwrap(),
                    updated_at: lookup_str(f, "updated_at"@).unwrap(),
                    account_id: lookup_str(f, "account_id"@).unwrap(),
                    status: (match lookup_str(f, "status"@) { Some(s) => AchRelationshipStatus::spec_from_wire(s), None => None }).unwrap(),
                    account_owner_name: lookup_str(f, "account_owner_name"@).unwrap(),
                    bank_account_type: (match lookup_opt_str(f, "bank_account_type"@) { Some(None) => Some(None), Some(Some(s)) => match BankAccountType::spec_from_wire(s) { Some(e) => Some(Some(e)), None => None }, None => None }).unwrap(),
                    bank_account_number: lookup_opt_str(f, "bank_account_number"@).unwrap(),
                    bank_routing_number: lookup_opt_str(f, "bank_routing_number"@).unwrap(),
                    nickname: lookup_opt_str(f, "nickname"@).unwrap(),
                })
            } else {
                None
            }
        },
        _ => None,
    }
}

/// Encodes a `AchRelationship` as its wire object.
#[verifier::rlimit(100)]
pub fn encode_ach_relationship(x: &AchRelationship) -> (j: Json)
    ensures
        j@ == spec_enc_ach_relationship(x@),
{
    let mut f: Vec<(String, Json)> = Vec::new();
    obj_push(&mut f, "id", Json::Str(x.id.clone()));
    obj_push(&mut f, "created_at", Json::Str(x.created_at.clone()));
    obj_push(&mut f, "updated_at", Json::Str(x.updated_at.clone()));
    obj_push(&mut f, "account_id", Json::Str(x.account_id.clone()));
    obj_push(&mut f, "status", Json::Str(x.status.wire_name().to_owned()));
    obj_push(&mut f, "account_owner_name", Json::Str(x.account_owner_name.clone()));
    proof {
        assert(member_views(f@) =~= seq![("id"@, JsonV::Str(x@.id)), ("created_at"@, JsonV::Str(x@.created_at)), ("updated_at"@, JsonV::Str(x@.updated_at)), ("account_id"@, JsonV::Str(x@.account_id)), ("status"@, JsonV::Str(x@.status.spec_wire())), ("account_owner_name"@, JsonV::Str(x@.account_owner_name))]);
    }
    let ghost seg0 = member_views(f@);
    match &x.bank_account_type {
        Some(v) => {
            obj_push(&mut f, "bank_account_type", Json::Str(v.wire_name().to_owned()));
        },
        None => {},
    }
    proof {
        assert(member_views(f@) =~= seg0 + opt_member_str("bank_account_type"@, match x@.bank_account_type { Some(e) => Some(e.spec_wire()), None => None }));
    }
    let ghost seg1 = member_views(f@);
    match &x.bank_account_number {
        Some(v) => {
            obj_push(&mut f, "bank_account_number", Json::Str(v.clone()));
        },
        None => {},
    }
    proof {
        assert(member_views(f@) =~= seg1 + opt_member_str("bank_account_number"@, x@.bank_account_number));
    }
    let ghost seg2 = member_views(f@);
    match &x.bank_routing_number {
        Some(v) => {
            obj_push(&mut f, "bank_routing_number", Json::Str(v.clone()));
        },
        None => {},
    }
    proof {
        assert(member_views(f@) =~= seg2 + opt_member_str("bank_routing_number"@, x@.bank_routing_number));
    }
    let ghost seg3 = member_views(f@);
    match &x.nickname {
        Some(v) => {
            obj_push(&mut f, "nickname", Json::Str(v.clone()));
        },
        None => {},
    }
    proof {
        assert(member_views(f@) =~= seg3 + opt_member_str("nickname"@, x@.nickname));
    }
    let j = Json::Obj(f);
    proof {
        assert(member_views(f@) =~= spec_ach_relationship_members(x@));
    }
    j
}

/// Decodes a `AchRelationship` from a JSON value.
pub fn decode_ach_relationship(j: &Json) -> (r: Option<AchRelationship>)
    ensures
        match r {
            Some(x) => spec_dec_ach_relationship(j@) == Some(x@),
            None => spec_dec_ach_relationship(j@) is None,
        },
{
    let v_id = match j.get_str("id") {
        Some(v) => v,
        None => {
            return None;
        },
    };
    let v_created_at = match j.get_str("created_at") {
        Some(v) => v,
        None => {
            return None;
        },
    };
    let v_updated_at = match j.get_str("updated_at") {
        Some(v) => v,
        None => {
            return None;
        },
    };
    let v_account_id = match j.get_str("account_id") {
        Some(v) => v,
        None => {
            return None;
        },
    };
    let v_status = match j.get_str("status") {
        Some(s) => match AchRelationshipStatus::from_wire(s.as_str()) {
            Some(e) => e,
            None => {
                return None;
            },
        },
        None => {
            return None;
        },
    };
    let v_account_owner_name = match j.get_str("account_owner_name") {
        Some(v) => v,
        None => {
            return None;
        },
    };
    let v_bank_account_type = match j.get_opt_str("bank_account_type") {
        Some(None) => None,
        Some(Some(s)) => match BankAccountType::from_wire(s.as_str()) {
            Some(e) => Some(e),
            None => {
                return None;
            },
        },
        None => {
            return None;
        },
    };
    let v_bank_account_number = match j.get_opt_str("bank_account_number") {
        Some(v) => v,
        None => {
            return None;
        },
    };
    let v_bank_routing_number = match j.get_opt_str("bank_routing_number") {
        Some(v) => v,
        None => {
            return None;
        },
    };
    let v_nickname = match j.get_opt_str("nickname") {
        Some(v) => v,
        None => {
            return None;
        },
    };
    Some(AchRelationship {
        id: v_id,
        created_at: v_created_at,
        updated_at: v_updated_at,
        account_id: v_account_id,
        status: v_status,
        account_owner_name: v_account_owner_name,
        bank_account_type: v_bank_account_type,
        bank_account_number: v_bank_account_number,
        bank_routing_number: v_bank_routing_number,
        nickname: v_nickname,
    })
}

/// Decoding an encoded `AchRelationship` gives back the same data.
#[verifier::rlimit(100)]
pub proof fn lemma_ach_relationship_roundtrip(a: AchRelationshipV)
    ensures
        spec_dec_ach_relationship(spec_enc_ach_relationship(a)) == Some(a),
{
    reveal_with_fuel(spec_lookup, 14);
    reveal_strlit("account_id");
    reveal_strlit("account_owner_name");
    reveal_strlit("bank_account_number");
    reveal_strlit("bank_account_type");
    reveal_strlit("bank_routing_number");
    reveal_strlit("created_at");
    reveal_strlit("id");
    reveal_strlit("nickname");
    reveal_strlit("status");
    reveal_strlit("updated_at");
    assert("account_id"@.len() == 10);
    assert("account_owner_name"@.len() == 18);
    assert("bank_account_number"@.len() == 19);
    assert("bank_account_type"@.len() == 17);
    assert("bank_routing_number"@.len() == 19);
    assert("created_at"@.len() == 10);
    assert("id"@.len() == 2);
    assert("nickname"@.len() == 8);
    assert("status"@.len() == 6);
    assert("updated_at"@.len() == 10);
    assert("created_at"@ != "updated_at"@) by {
        assert("created_at"@[0] == 'c');
        assert("updated_at"@[0] == 'u');
    }
    assert("account_id"@ != "created_at"@) by {
        assert("account_id"@[0] == 'a');
        assert("created_at"@[0] == 'c');
    }
    assert("account_id"@ != "updated_at"@) by {
        assert("account_id"@[0] == 'a');
        assert("updated_at"@[0] == 'u');
    }
    assert("bank_account_number"@ != "bank_routing_number"@) by {
        assert("bank_account_number"@[5] == 'a');
        assert("bank_routing_number"@[5] == 'r');
    }
    lemma_ach_relationship_status_wire_roundtrip(a.status);
    match a.bank_account_type {
        Some(e) => {
            lemma_bank_account_type_wire_roundtrip(e);
        },
        None => {},
    }
    let base = seq![("id"@, JsonV::Str(a.id)), ("created_at"@, JsonV::Str(a.created_at)), ("updated_at"@, JsonV::Str(a.updated_at)), ("account_id"@, JsonV::Str(a.account_id)), ("status"@, JsonV::Str(a.status.spec_wire())), ("account_owner_name"@, JsonV::Str(a.account_owner_name))];
    let seg0 = opt_member_str("bank_account_type"@, match a.bank_account_type { Some(e) => Some(e.spec_wire()), None => None });
    let seg1 = opt_member_str("bank_account_number"@, a.bank_account_number);
    let seg2 = opt_member_str("bank_routing_number"@, a.bank_routing_number);
    let seg3 = opt_member_str("nickname"@, a.nickname);
    let pre0 = base + seg0;
    let pre1 = pre0 + seg1;
    let pre2 = pre1 + seg2;
    let pre3 = pre2 + seg3;
    assert(spec_ach_relationship_members(a) == pre3);
    lemma_lookup_append(pre2, seg3, "account_id"@);
    lemma_lookup_append(pre1, seg2, "account_id"@);
    lemma_lookup_append(pre0, seg1, "account_id"@);
    lemma_lookup_append(base, seg0, "account_id"@);
    lemma_lookup_append(pre2, seg3, "account_owner_name"@);
    lemma_lookup_append(pre1, seg2, "account_owner_name"@);
    lemma_lookup_append(pre0, seg1, "account_owner_name"@);
    lemma_lookup_append(base, seg0, "account_owner_name"@);
    lemma_lookup_append(pre2, seg3, "bank_account_number"@);
    lemma_lookup_append(pre1, seg2, "bank_account_number"@);
    lemma_lookup_append(pre0, seg1, "bank_account_number"@);
    lemma_lookup_append(base, seg0, "bank_account_number"@);
    lemma_lookup_append(pre2, seg3, "bank_account_type"@);
    lemma_lookup_append(pre1, seg2, "bank_account_type"@);
    lemma_lookup_append(pre0, seg1, "bank_account_type"@);
    lemma_lookup_append(base, seg0, "bank_account_type"@);
    lemma_lookup_append(pre2, seg3, "bank_routing_number"@);
    lemma_lookup_append(pre1, seg2, "bank_routing_number"@);
    lemma_lookup_append(pre0, seg1, "bank_routing_number"@);
    lemma_lookup_append(base, seg0, "bank_routing_number"@);
    lemma_lookup_append(pre2, seg3, "created_at"@);
    lemma_lookup_append(pre1, seg2, "created_at"@);
    lemma_lookup_append(pre0, seg1, "created_at"@);
    lemma_lookup_append(base, seg0, "created_at"@);
    lemma_lookup_append(pre2, seg3, "id"@);
    lemma_lookup_append(pre1, seg2, "id"@);
    lemma_lookup_append(pre0, seg1, "id"@);
    lemma_lookup_append(base, seg0, "id"@);
    lemma_lookup_append(pre2, seg3, "nickname"@);
    lemma_lookup_append(pre1, seg2, "nickname"@);
    lemma_lookup_append(pre0, seg1, "nickname"@);
    lemma_lookup_append(base, seg0, "nickname"@);
    lemma_lookup_append(pre2, seg3, "status"@);
    lemma_lookup_append(pre1, seg2, "status"@);
    lemma_lookup_append(pre0, seg1, "status"@);
    lemma_lookup_append(base, seg0, "status"@);
    lemma_lookup_append(pre2, seg3, "updated_at"@);
    lemma_lookup_append(pre1, seg2, "updated_at"@);
    lemma_lookup_append(pre0, seg1, "updated_at"@);
    lemma_lookup_append(base, seg0, "updated_at"@);
}

/// One funding transfer of an account; the amount travels as a decimal string.
#[derive(Debug, Clone)]
pub struct Transfer {
    pub id: String,
    pub relationship_id: Option<String>,
    pub bank_id: Option<String>,
    pub account_id: String,
    pub kind: TransferType,
    pub status: TransferStatus,
    pub reason: Option<String>,
    pub amount: String,
    pub direction: Direction,
    pub created_at: String,
    pub updated_at: Option<String>,
    pub expires_at: Option<String>,
    pub additional_information: Option<String>,
    pub hold_until: Option<String>,
    pub instant_amount: Option<String>,
}

/// The model of a `Transfer`.
pub struct TransferV {
    pub id: Seq<char>,
    pub relationship_id: Option<Seq<char>>,
    pub bank_id: Option<Seq<char>>,
    pub account_id: Seq<char>,
    pub kind: TransferType,
    pub status: TransferStatus,
    pub reason: Option<Seq<char>>,
    pub amount: Seq<char>,
    pub direction: Direction,
    pub created_at: Seq<char>,
    pub updated_at: Option<Seq<char>>,
    pub expires_at: Option<Seq<char>>,
    pub additional_information: Option<Seq<char>>,
    pub hold_until: Option<Seq<char>>,
    pub instant_amount: Option<Seq<char>>,
}

impl View for Transfer {
    type V = TransferV;

    open spec fn view(&self) -> TransferV {
        TransferV {
            id: self.id@,
            relationship_id: match self.relationship_id { Some(s) => Some(s@), None => None },
            bank_id: match self.bank_id { Some(s) => Some(s@), None => None },
            account_id: self.account_id@,
            kind: self.kind,
            status: self.status,
            reason: match self.reason { Some(s) => Some(s@), None => None },
            amount: self.amount@,
            direction: self.direction,
            created_at: self.created_at@,
            updated_at: match self.updated_at { Some(s) => Some(s@), None => None },
            expires_at: match self.expires_at { Some(s) => Some(s@), None => None },
            additional_information: match self.additional_information { Some(s) => Some(s@), None => None },
            hold_until: match self.hold_until { Some(s) => Some(s@), None => None },
            instant_amount: match self.instant_amount { Some(s) => Some(s@), None => None },
        }
    }
}

/// The wire members of an encoded `Transfer`, in order, optional fields
/// contributing nothing when unset.
pub open spec fn spec_transfer_members(a: TransferV) -> Seq<(Seq<char>, JsonV)> {
    seq![("id"@, JsonV::Str(a.id)), ("account_id"@, JsonV::Str(a.account_id)), ("type"@, JsonV::Str(a.kind.spec_wire())), ("status"@, JsonV::Str(a.status.spec_wire())), ("amount"@, JsonV::Str(a.amount)), ("direction"@, JsonV::Str(a.direction.spec_wire())), ("created_at"@, JsonV::Str(a.created_at))] + opt_member_str("relationship_id"@, a.relationship_id) + opt_member_str("bank_id"@, a.bank_id) + opt_member_str("reason"@, a.reason) + opt_member_str("updated_at"@, a.updated_at) + opt_member_str("expires_at"@, a.expires_at) + opt_member_str("additional_information"@, a.additional_information) + opt_member_str("hold_until"@, a.hold_until) + opt_member_str("instant_amount"@, a.instant_amount)
}

/// The encoded form of a `Transfer`.
pub open spec fn spec_enc_transfer(a: TransferV) -> JsonV {
    JsonV::Obj(spec_transfer_members(a))
}

/// What decoding a JSON value as a `Transfer` yields.
pub open spec fn spec_dec_transfer(j: JsonV) -> Option<TransferV> {
    match j {
        JsonV::Obj(f) => {
            if lookup_str(f, "id"@) is Some && lookup_opt_str(f, "relationship_id"@) is Some && lookup_opt_str(f, "bank_id"@) is Some && lookup_str(f, "account_id"@) is Some && (match lookup_str(f, "type"@) { Some(s) => TransferType::spec_from_wire(s), None => None }) is Some && (match lookup_str(f, "status"@) { Some(s) => TransferStatus::spec_from_wire(s), None => None }) is Some && lookup_opt_str(f, "reason"@) is Some && lookup_str(f, "amount"@) is Some && (match lookup_str(f, "direction"@) { Some(s) => Direction::spec_from_wire(s), None => None }) is Some && lookup_str(f, "created_at"@) is Some && lookup_opt_str(f, "updated_at"@) is Some && lookup_opt_str(f, "expires_at"@) is Some && lookup_opt_str(f, "additional_information"@) is Some && lookup_opt_str(f, "hold_until"@) is Some && lookup_opt_str(f, "instant_amount"@) is Some {
                Some(TransferV {
                    id: lookup_str(f, "id"@).unwrap(),
                    relationship_id: lookup_opt_str(f, "relationship_id"@).unwrap(),
                    bank_id: lookup_opt_str(f, "bank_id"@).unwrap(),
                    account_id: lookup_str(f, "account_id"@).unwrap(),
                    kind: (match lookup_str(f, "type"@) { Some(s) => TransferType::spec_from_wire(s), None => None }).unwrap(),
                    status: (match lookup_str(f, "status"@) { Some(s) => TransferStatus::spec_from_wire(s), None => None }).unwrap(),
                    reason: lookup_opt_str(f, "reason"@).unwrap(),
                    amount: lookup_str(f, "amount"@).unwrap(),
                    direction: (match lookup_str(f, "direction"@) { Some(s) => Direction::spec_from_wire(s), None => None }).unwrap(),
                    created_at: lookup_str(f, "created_at"@).unwrap(),
                    updated_at: lookup_opt_str(f, "updated_at"@).unwrap(),
                    expires_at: lookup_opt_str(f, "expires_at"@).unwrap(),
                    additional_information: lookup_opt_str(f, "additional_information"@).unwrap(),
                    hold_until: lookup_opt_str(f, "hold_until"@).unwrap(),
                    instant_amount: lookup_opt_str(f, "instant_amount"@).unwrap(),
                })
            } else {
                None
            }
        },
        _ => None,
    }
}

/// Encodes a `Transfer` as its wire object.
#[verifier::rlimit(100)]
pub fn encode_transfer(x: &Transfer) -> (j: Json)
    ensures
        j@ == spec_enc_transfer(x@),
{
    let mut f: Vec<(String, Json)> = Vec::new();
    obj_push(&mut f, "id", Json::Str(x.id.clone()));
    obj_push(&mut f, "account_id", Json::Str(x.account_id.clone()));
    obj_push(&mut f, "type", Json::Str(x.kind.wire_name().to_owned()));
    obj_push(&mut f, "status", Json::Str(x.status.wire_name().to_owned()));
    obj_push(&mut f, "amount", Json::Str(x.amount.clone()));
    obj_push(&mut f, "direction", Json::Str(x.direction.wire_name().to_owned()));
    obj_push(&mut f, "created_at", Json::Str(x.created_at.clone()));
    proof {
        assert(member_views(f@) =~= seq![("id"@, JsonV::Str(x@.id)), ("account_id"@, JsonV::Str(x@.account_id)), ("type"@, JsonV::Str(x@.kind.spec_wire())), ("status"@, JsonV::Str(x@.status.spec_wire())), ("amount"@, JsonV::Str(x@.amount)), ("direction"@, JsonV::Str(x@.direction.spec_wire())), ("created_at"@, JsonV::Str(x@.created_at))]);
    }
    let ghost seg0 = member_views(f@);
    match &x.relationship_id {
        Some(v) => {
            obj_push(&mut f, "relationship_id", Json::Str(v.clone()));
        },
        None => {},
    }
    proof {
        assert(member_views(f@) =~= seg0 + opt_member_str("relationship_id"@, x@.relationship_id));
    }
    let ghost seg1 = member_views(f@);
    match &x.bank_id {
        Some(v) => {
            obj_push(&mut f, "bank_id", Json::Str(v.clone()));
        },
        None => {},
    }
    proof {
        assert(member_views(f@) =~= seg1 + opt_member_str("bank_id"@, x@.bank_id));
    }
    let ghost seg2 = member_views(f@);
    match &x.reason {
        Some(v) => {
            obj_push(&mut f, "reason", Json::Str(v.clone()));
        },
        None => {},
    }
    proof {
        assert(member_views(f@) =~= seg2 + opt_member_str("reason"@, x@.reason));
    }
    let ghost seg3 = member_views(f@);
    match &x.updated_at {
        Some(v) => {
            obj_push(&mut f, "updated_at", Json::Str(v.clone()));
        },
        None => {},
    }
    proof {
        assert(member_views(f@) =~= seg3 + opt_member_str("updated_at"@, x@.updated_at));
    }
    let ghost seg4 = member_views(f@);
    match &x.expires_at {
        Some(v) => {
            obj_push(&mut f, "expires_at", Json::Str(v.clone()));
        },
        None => {},
    }
    proof {
        assert(member_views(f@) =~= seg4 + opt_member_str("expires_at"@, x@.expires_at));
    }
    let ghost seg5 = member_views(f@);
    match &x.additional_information {
        Some(v) => {
            obj_push(&mut f, "additional_information", Json::Str(v.clone()));
        },
        None => {},
    }
    proof {
        assert(member_views(f@) =~= seg5 + opt_member_str("additional_information"@, x@.additional_information));
    }
    let ghost seg6 = member_views(f@);
    match &x.hold_until {
        Some(v) => {
            obj_push(&mut f, "hold_until", Json::Str(v.clone()));
        },
        None => {},
    }
    proof {
        assert(member_views(f@) =~= seg6 + opt_member_str("hold_until"@, x@.hold_until));
    }
    let ghost seg7 = member_views(f@);
    match &x.instant_amount {
        Some(v) => {
            obj_push(&mut f, "instant_amount", Json::Str(v.clone()));
        },
        None => {},
    }
    proof {
        assert(member_views(f@) =~= seg7 + opt_member_str("instant_amount"@, x@.instant_amount));
    }
    let j = Json::Obj(f);
    proof {
        assert(member_views(f@) =~= spec_transfer_members(x@));
    }
    j
}

/// Decodes a `Transfer` from a JSON value.
pub fn decode_transfer(j: &Json) -> (r: Option<Transfer>)
    ensures
        match r {
            Some(x) => spec_dec_transfer(j@) == Some(x@),
            None => spec_dec_transfer(j@) is None,
        },
{
    let v_id = match j.get_str("id") {
        Some(v) => v,
        None => {
            return None;
        },
    };
    let v_relationship_id = match j.get_opt_str("relationship_id") {
        Some(v) => v,
        None => {
            return None;
        },
    };
    let v_bank_id = match j.get_opt_str("bank_id") {
        Some(v) => v,
        None => {
            return None;
        },
    };
    let v_account_id = match j.get_str("account_id") {
        Some(v) => v,
        None => {
            return None;
        },
    };
    let v_kind = match j.get_str("type") {
        Some(s) => match TransferType::from_wire(s.as_str()) {
            Some(e) => e,
            None => {
                return None;
            },
        },
        None => {
            return None;
        },
    };
    let v_status = match j.get_str("status") {
        Some(s) => match TransferStatus::from_wire(s.as_str()) {
            Some(e) => e,
            None => {
                return None;
            },
        },
        None => {
            return None;
        },
    };
    let v_reason = match j.get_opt_str("reason") {
        Some(v) => v,
        None => {
            return None;
        },
    };
    let v_amount = match j.get_str("amount") {
        Some(v) => v,
        None => {
            return None;
        },
    };
    let v_direction = match j.get_str("direction") {
        Some(s) => match Direction::from_wire(s.as_str()) {
            Some(e) => e,
            None => {
                return None;
            },
        },
        None => {
            return None;
        },
    };
    let v_created_at = match j.get_str("created_at") {
        Some(v) => v,
        None => {
            return None;
        },
    };
    let v_updated_at = match j.get_opt_str("updated_at") {
        Some(v) => v,
        None => {
            return None;
        },
    };
    let v_expires_at = match j.get_opt_str("expires_at") {
        Some(v) => v,
        None => {
            return None;
        },
    };
    let v_additional_information = match j.get_opt_str("additional_information") {
        Some(v) => v,
        None => {
            return None;
        },
    };
    let v_hold_until = match j.get_opt_str("hold_until") {
        Some(v) => v,
        None => {
            return None;
        },
    };
    let v_instant_amount = match j.get_opt_str("instant_amount") {
        Some(v) => v,
        None => {
            return None;
        },
    };
    Some(Transfer {
        id: v_id,
        relationship_id: v_relationship_id,
        bank_id: v_bank_id,
        account_id: v_account_id,
        kind: v_kind,
        status: v_status,
        reason: v_reason,
        amount: v_amount,
        direction: v_direction,
        created_at: v_created_at,
        updated_at: v_updated_at,
        expires_at: v_expires_at,
        additional_information: v_additional_information,
        hold_until: v_hold_until,
        instant_amount: v_instant_amount,
    })
}

/// Decoding an encoded `Transfer` gives back the same data.
#[verifier::rlimit(100)]
pub proof fn lemma_transfer_roundtrip(a: TransferV)
    ensures
        spec_dec_transfer(spec_enc_transfer(a)) == Some(a),
{
    reveal_with_fuel(spec_lookup, 19);
    reveal_strlit("account_id");
    reveal_strlit("additional_information");
    reveal_strlit("amount");
    reveal_strlit("bank_id");
    reveal_strlit("created_at");
    reveal_strlit("direction");
    reveal_strlit("expires_at");
    reveal_strlit("hold_until");
    reveal_strlit("id");
    reveal_strlit("instant_amount");
    reveal_strlit("reason");
    reveal_strlit("relationship_id");
    reveal_strlit("status");
    reveal_strlit("type");
    reveal_strlit("updated_at");
    assert("account_id"@.len() == 10);
    assert("additional_information"@.len() == 22);
    assert("amount"@.len() == 6);
    assert("bank_id"@.len() == 7);
    assert("created_at"@.len() == 10);
    assert("direction"@.len() == 9);
    assert("expires_at"@.len() == 10);
    assert("hold_until"@.len() == 10);
    assert("id"@.len() == 2);
    assert("instant_amount"@.len() == 14);
    assert("reason"@.len() == 6);
    assert("relationship_id"@.len() == 15);
    assert("status"@.len() == 6);
    assert("type"@.len() == 4);
    assert("updated_at"@.len() == 10);
    assert("account_id"@ != "created_at"@) by {
        assert("account_id"@[0] == 'a');
        assert("created_at"@[0] == 'c');
    }
    assert("account_id"@ != "updated_at"@) by {
        assert("account_id"@[0] == 'a');
        assert("updated_at"@[0] == 'u');
    }
    assert("account_id"@ != "expires_at"@) by {
        assert("account_id"@[0] == 'a');
        assert("expires_at"@[0] == 'e');
    }
    assert("account_id"@ != "hold_until"@) by {
        assert("account_id"@[0] == 'a');
        assert("hold_until"@[0] == 'h');
    }
    assert("reason"@ != "status"@) by {
        assert("reason"@[0] == 'r');
        assert("status"@[0] == 's');
    }
    assert("amount"@ != "status"@) by {
        assert("amount"@[0] == 'a');
        assert("status"@[0] == 's');
    }
    assert("amount"@ != "reason"@) by {
        assert("amount"@[0] == 'a');
        assert("reason"@[0] == 'r');
    }
    assert("created_at"@ != "updated_at"@) by {
        assert("created_at"@[0] == 'c');
        assert("updated_at"@[0] == 'u');
    }
    assert("created_at"@ != "expires_at"@) by {
        assert("created_at"@[0] == 'c');
        assert("expires_at"@[0] == 'e');
    }
    assert("created_at"@ != "hold_until"@) by {
        assert("created_at"@[0] == 'c');
        assert("hold_until"@[0] == 'h');
    }
    assert("expires_at"@ != "updated_at"@) by {
        assert("expires_at"@[0] == 'e');
        assert("updated_at"@[0] == 'u');
    }
    assert("expires_at"@ != "hold_until"@) by {
        assert("expires_at"@[0] == 'e');
        assert("hold_until"@[0] == 'h');
    }
    assert("hold_until"@ != "updated_at"@) by {
        assert("hold_until"@[0] == 'h');
        assert("updated_at"@[0] == 'u');
    }
    lemma_transfer_type_wire_roundtrip(a.kind);
    lemma_transfer_status_wire_roundtrip(a.status);
    lemma_direction_wire_roundtrip(a.direction);
    let base = seq![("id"@, JsonV::Str(a.id)), ("account_id"@, JsonV::Str(a.account_id)), ("type"@, JsonV::Str(a.kind.spec_wire())), ("status"@, JsonV::Str(a.status.spec_wire())), ("amount"@, JsonV::Str(a.amount)), ("direction"@, JsonV::Str(a.direction.spec_wire())), ("created_at"@, JsonV::Str(a.created_at))];
    let seg0 = opt_member_str("relationship_id"@, a.relationship_id);
    let seg1 = opt_member_str("bank_id"@, a.bank_id);
    let seg2 = opt_member_str("reason"@, a.reason);
    let seg3 = opt_member_str("updated_at"@, a.updated_at);
    let seg4 = opt_member_str("expires_at"@, a.expires_at);
    let seg5 = opt_member_str("additional_information"@, a.additional_information);
    let seg6 = opt_member_str("hold_until"@, a.hold_until);
    let seg7 = opt_member_str("instant_amount"@, a.instant_amount);
    let pre0 = base + seg0;
    let pre1 = pre0 + seg1;
    let pre2 = pre1 + seg2;
    let pre3 = pre2 + seg3;
    let pre4 = pre3 + seg4;
    let pre5 = pre4 + seg5;
    let pre6 = pre5 + seg6;
    let pre7 = pre6 + seg7;
    assert(spec_transfer_members(a) == pre7);
    lemma_lookup_append(pre6, seg7, "account_id"@);
    lemma_lookup_append(pre5, seg6, "account_id"@);
    lemma_lookup_append(pre4, seg5, "account_id"@);
    lemma_lookup_append(pre3, seg4, "account_id"@);
    lemma_lookup_append(pre2, seg3, "account_id"@);
    lemma_lookup_append(pre1, seg2, "account_id"@);
    lemma_lookup_append(pre0, seg1, "account_id"@);
    lemma_lookup_append(base, seg0, "account_id"@);
    lemma_lookup_append(pre6, seg7, "additional_information"@);
    lemma_lookup_append(pre5, seg6, "additional_information"@);
    lemma_lookup_append(pre4, seg5, "additional_information"@);
    lemma_lookup_append(pre3, seg4, "additional_information"@);
    lemma_lookup_append(pre2, seg3, "additional_information"@);
    lemma_lookup_append(pre1, seg2, "additional_information"@);
    lemma_lookup_append(pre0, seg1, "additional_information"@);
    lemma_lookup_append(base, seg0, "additional_information"@);
    lemma_lookup_append(pre6, seg7, "amount"@);
    lemma_lookup_append(pre5, seg6, "amount"@);
    lemma_lookup_append(pre4, seg5, "amount"@);
    lemma_lookup_append(pre3, seg4, "amount"@);
    lemma_lookup_append(pre2, seg3, "amount"@);
    lemma_lookup_append(pre1, seg2, "amount"@);
    lemma_lookup_append(pre0, seg1, "amount"@);
    lemma_lookup_append(base, seg0, "amount"@);
    lemma_lookup_append(pre6, seg7, "bank_id"@);
    lemma_lookup_append(pre5, seg6, "bank_id"@);
    lemma_lookup_append(pre4, seg5, "bank_id"@);
    lemma_lookup_append(pre3, seg4, "bank_id"@);
    lemma_lookup_append(pre2, seg3, "bank_id"@);
    lemma_lookup_append(pre1, seg2, "bank_id"@);
    lemma_lookup_append(pre0, seg1, "bank_id"@);
    lemma_lookup_append(base, seg0, "bank_id"@);
    lemma_lookup_append(pre6, seg7, "created_at"@);
    lemma_lookup_append(pre5, seg6, "created_at"@);
    lemma_lookup_append(pre4, seg5, "created_at"@);
    lemma_lookup_append(pre3, seg4, "created_at"@);
    lemma_lookup_append(pre2, seg3, "created_at"@);
    lemma_lookup_append(pre1, seg2, "created_at"@);
    lemma_lookup_append(pre0, seg1, "created_at"@);
    lemma_lookup_append(base, seg0, "created_at"@);
    lemma_lookup_append(pre6, seg7, "direction"@);
    lemma_lookup_append(pre5, seg6, "direction"@);
    lemma_lookup_append(pre4, seg5, "direction"@);
    lemma_lookup_append(pre3, seg4, "direction"@);
    lemma_lookup_append(pre2, seg3, "direction"@);
    lemma_lookup_append(pre1, seg2, "direction"@);
    lemma_lookup_append(pre0, seg1, "direction"@);
    lemma_lookup_append(base, seg0, "direction"@);
    lemma_lookup_append(pre6, seg7, "expires_at"@);
    lemma_lookup_append(pre5, seg6, "expires_at"@);
    lemma_lookup_append(pre4, seg5, "expires_at"@);
    lemma_lookup_append(pre3, seg4, "expires_at"@);
    lemma_lookup_append(pre2, seg3, "expires_at"@);
    lemma_lookup_append(pre1, seg2, "expires_at"@);
    lemma_lookup_append(pre0, seg1, "expires_at"@);
    lemma_lookup_append(base, seg0, "expires_at"@);
    lemma_lookup_append(pre6, seg7, "hold_until"@);
    lemma_lookup_append(pre5, seg6, "hold_until"@);
    lemma_lookup_append(pre4, seg5, "hold_until"@);
    lemma_lookup_append(pre3, seg4, "hold_until"@);
    lemma_lookup_append(pre2, seg3, "hold_until"@);
    lemma_lookup_append(pre1, seg2, "hold_until"@);
    lemma_lookup_append(pre0, seg1, "hold_until"@);
    lemma_lookup_append(base, seg0, "hold_until"@);
    lemma_lookup_append(pre6, seg7, "id"@);
    lemma_lookup_append(pre5, seg6, "id"@);
    lemma_lookup_append(pre4, seg5, "id"@);
    lemma_lookup_append(pre3, seg4, "id"@);
    lemma_lookup_append(pre2, seg3, "id"@);
    lemma_lookup_append(pre1, seg2, "id"@);
    lemma_lookup_append(pre0, seg1, "id"@);
    lemma_lookup_append(base, seg0, "id"@);
    lemma_lookup_append(pre6, seg7, "instant_amount"@);
    lemma_lookup_append(pre5, seg6, "instant_amount"@);
    lemma_lookup_append(pre4, seg5, "instant_amount"@);
    lemma_lookup_append(pre3, seg4, "instant_amount"@);
    lemma_lookup_append(pre2, seg3, "instant_amount"@);
    lemma_lookup_append(pre1, seg2, "instant_amount"@);
    lemma_lookup_append(pre0, seg1, "instant_amount"@);
    lemma_lookup_append(base, seg0, "instant_amount"@);
    lemma_lookup_append(pre6, seg7, "reason"@);
    lemma_lookup_append(pre5, seg6, "reason"@);
    lemma_lookup_append(pre4, seg5, "reason"@);
    lemma_lookup_append(pre3, seg4, "reason"@);
    lemma_lookup_append(pre2, seg3, "reason"@);
    lemma_lookup_append(pre1, seg2, "reason"@);
    lemma_lookup_append(pre0, seg1, "reason"@);
    lemma_lookup_append(base, seg0, "reason"@);
    lemma_lookup_append(pre6, seg7, "relationship_id"@);
    lemma_lookup_append(pre5, seg6, "relationship_id"@);
    lemma_lookup_append(pre4, seg5, "relationship_id"@);
    lemma_lookup_append(pre3, seg4, "relationship_id"@);
    lemma_lookup_append(pre2, seg3, "relationship_id"@);
    lemma_lookup_append(pre1, seg2, "relationship_id"@);
    lemma_lookup_append(pre0, seg1, "relationship_id"@);
    lemma_lookup_append(base, seg0, "relationship_id"@);
    lemma_lookup_append(pre6, seg7, "status"@);
    lemma_lookup_append(pre5, seg6, "status"@);
    lemma_lookup_append(pre4, seg5, "status"@);
    lemma_lookup_append(pre3, seg4, "status"@);
    lemma_lookup_append(pre2, seg3, "status"@);
    lemma_lookup_append(pre1, seg2, "status"@);
    lemma_lookup_append(pre0, seg1, "status"@);
    lemma_lookup_append(base, seg0, "status"@);
    lemma_lookup_append(pre6, seg7, "type"@);
    lemma_lookup_append(pre5, seg6, "type"@);
    lemma_lookup_append(pre4, seg5, "type"@);
    lemma_lookup_append(pre3, seg4, "type"@);
    lemma_lookup_append(pre2, seg3, "type"@);
    lemma_lookup_append(pre1, seg2, "type"@);
    lemma_lookup_append(pre0, seg1, "type"@);
    lemma_lookup_append(base, seg0, "type"@);
    lemma_lookup_append(pre6, seg7, "updated_at"@);
    lemma_lookup_append(pre5, seg6, "updated_at"@);
    lemma_lookup_append(pre4, seg5, "updated_at"@);
    lemma_lookup_append(pre3, seg4, "updated_at"@);
    lemma_lookup_append(pre2, seg3, "updated_at"@);
    lemma_lookup_append(pre1, seg2, "updated_at"@);
    lemma_lookup_append(pre0, seg1, "updated_at"@);
    lemma_lookup_append(base, seg0, "updated_at"@);
}

/// The models of a list of `Agreement` values.
pub open spec fn agreement_views(s: Seq<Agreement>) -> Seq<AgreementV> {
    Seq::new(s.len(), |i: int| s[i]@)
}

/// The encoded items of a list of `Agreement` models.
pub open spec fn spec_enc_agreement_seq(ss: Seq<AgreementV>) -> Seq<JsonV>
    decreases ss.len(),
{
    if ss.len() == 0 {
        Seq::empty()
    } else {
        spec_enc_agreement_seq(ss.drop_last()).push(spec_enc_agreement(ss[ss.len() - 1]))
    }
}

/// What decoding an array of `Agreement` items yields.
pub open spec fn spec_dec_agreement_seq(items: Seq<JsonV>) -> Option<Seq<AgreementV>>
    decreases items.len(),
{
    if items.len() == 0 {
        Some(Seq::empty())
    } else {
        match spec_dec_agreement_seq(items.drop_last()) {
            Some(pre) => match spec_dec_agreement(items[items.len() - 1]) {
                Some(x) => Some(pre.push(x)),
                None => None,
            },
            None => None,
        }
    }
}

/// Encoding a list of `Agreement` models and decoding it gives them back.
pub proof fn lemma_agreement_seq_roundtrip(ss: Seq<AgreementV>)
    ensures
        spec_dec_agreement_seq(spec_enc_agreement_seq(ss)) == Some(ss),
    decreases ss.len(),
{
    if ss.len() > 0 {
        lemma_agreement_seq_roundtrip(ss.drop_last());
        lemma_agreement_roundtrip(ss[ss.len() - 1]);
        let enc = spec_enc_agreement_seq(ss);
        assert(enc.drop_last() =~= spec_enc_agreement_seq(ss.drop_last()));
        assert(spec_dec_agreement_seq(enc).unwrap() =~= ss);
    } else {
        assert(spec_dec_agreement_seq(spec_enc_agreement_seq(ss)).unwrap() =~= ss);
    }
}

/// Encodes a list of `Agreement` values as a JSON array.
#[verifier::loop_isolation(false)]
pub fn encode_agreement_seq(v: &Vec<Agreement>) -> (j: Json)
    ensures
        j@ == JsonV::Arr(spec_enc_agreement_seq(agreement_views(v@))),
{
    let ghost dv = agreement_views(v@);
    let mut items: Vec<Json> = Vec::new();
    let mut i: usize = 0;
    while i < v.len()
        invariant
            0 <= i <= v@.len(),
            dv == agreement_views(v@),
            dv.len() == v@.len(),
            json_views(items@) == spec_enc_agreement_seq(dv.take(i as int)),
            items@.len() == i,
        decreases v@.len() - i,
    {
        let ghost pre = items@;
        let elem = encode_agreement(&v[i]);
        let ghost ev = elem;
        items.push(elem);
        proof {
            assert(items@.drop_last() =~= pre);
            assert(items@[items@.len() - 1] == ev);
            assert(json_views(items@) == json_views(pre).push(json_view(ev)));
            assert(dv.take(i + 1).drop_last() =~= dv.take(i as int));
            assert(dv.take(i + 1)[i as int] == dv[i as int]);
            assert(spec_enc_agreement_seq(dv.take(i + 1)) == spec_enc_agreement_seq(
                dv.take(i as int),
            ).push(spec_enc_agreement(dv[i as int])));
        }
        i = i + 1;
    }
    proof {
        assert(dv.take(v@.len() as int) =~= dv);
    }
    Json::Arr(items)
}

/// `spec_dec_agreement_seq` succeeds exactly when every item decodes, and
/// then decodes them in place.
pub proof fn lemma_dec_agreement_seq_index(s: Seq<JsonV>)
    ensures
        (spec_dec_agreement_seq(s) is Some) <==> (forall|i: int|
            0 <= i < s.len() ==> spec_dec_agreement(#[trigger] s[i]) is Some),
        spec_dec_agreement_seq(s) is Some ==> spec_dec_agreement_seq(s).unwrap().len() == s.len(),
        spec_dec_agreement_seq(s) is Some ==> forall|i: int|
            0 <= i < s.len() ==> #[trigger] spec_dec_agreement_seq(s).unwrap()[i]
                == spec_dec_agreement(s[i]).unwrap(),
    decreases s.len(),
{
    if s.len() > 0 {
        lemma_dec_agreement_seq_index(s.drop_last());
        assert(forall|i: int| 0 <= i < s.len() - 1 ==> #[trigger] s.drop_last()[i] == s[i]);
        if spec_dec_agreement_seq(s) is Some {
            assert(spec_dec_agreement_seq(s.drop_last()) is Some);
            assert(spec_dec_agreement(s[s.len() - 1]) is Some);
            assert forall|i: int| 0 <= i < s.len() implies spec_dec_agreement(
                #[trigger] s[i],
            ) is Some by {
                if i < s.len() - 1 {
                    assert(spec_dec_agreement(s.drop_last()[i]) is Some);
                }
            }
            assert forall|i: int|
                0 <= i < s.len() implies #[trigger] spec_dec_agreement_seq(s).unwrap()[i]
                == spec_dec_agreement(s[i]).unwrap() by {
                if i < s.len() - 1 {
                    assert(spec_dec_agreement_seq(s.drop_last()).unwrap()[i] == spec_dec_agreement(
                        s.drop_last()[i],
                    ).unwrap());
                }
            }
        } else {
            if forall|i: int| 0 <= i < s.len() ==> spec_dec_agreement(#[trigger] s[i]) is Some {
                assert forall|i: int|
                    0 <= i < s.len() - 1 implies spec_dec_agreement(
                    #[trigger] s.drop_last()[i],
                ) is Some by {
                    assert(s.drop_last()[i] == s[i]);
                }
                assert(spec_dec_agreement_seq(s.drop_last()) is Some);
                assert(spec_dec_agreement(s[s.len() - 1]) is Some);
                assert(spec_dec_agreement_seq(s) is Some);
            }
        }
    }
}

/// Decodes a JSON array of `Agreement` items.
#[verifier::loop_isolation(false)]
pub fn decode_agreement_seq(j: &Json) -> (r: Option<Vec<Agreement>>)
    ensures
        match r {
            Some(v) => j@ matches JsonV::Arr(items) && spec_dec_agreement_seq(items) == Some(
                agreement_views(v@),
            ),
            None => match j@ {
                JsonV::Arr(items) => spec_dec_agreement_seq(items) is None,
                _ => true,
            },
        },
{
    let items = match j.as_arr() {
        Some(items) => items,
        None => {
            return None;
        },
    };
    proof {
        lemma_json_views_index(items@);
    }
    let ghost iv = json_views(items@);
    let mut out: Vec<Agreement> = Vec::new();
    let mut i: usize = 0;
    while i < items.len()
        invariant
            0 <= i <= items@.len(),
            iv == json_views(items@),
            iv.len() == items@.len(),
            forall|q: int| 0 <= q < items@.len() ==> iv[q] == json_view(#[trigger] items@[q]),
            spec_dec_agreement_seq(iv.take(i as int)) is Some,
            agreement_views(out@) == spec_dec_agreement_seq(iv.take(i as int)).unwrap(),
            out@.len() == i,
        decreases items@.len() - i,
    {
        let x = match decode_agreement(&items[i]) {
            Some(x) => x,
            None => {
                proof {
                    lemma_dec_agreement_seq_index(iv);
                    assert(iv[i as int] == json_view(items@[i as int]));
                    assert(spec_dec_agreement(iv[i as int]) is None);
                }
                return None;
            },
        };
        let ghost preout = out@;
        let ghost xv = x@;
        out.push(x);
        proof {
            assert(out@.drop_last() =~= preout);
            assert(agreement_views(out@) =~= agreement_views(preout).push(xv));
            assert(iv.take(i + 1).drop_last() =~= iv.take(i as int));
            assert(iv.take(i + 1)[i as int] == iv[i as int]);
            assert(spec_dec_agreement_seq(iv.take(i + 1)).unwrap() =~= spec_dec_agreement_seq(
                iv.take(i as int),
            ).unwrap().push(xv));
        }
        i = i + 1;
    }
    proof {
        assert(iv.take(items@.len() as int) =~= iv);
    }
    Some(out)
}
/// The models of a list of `Document` values.
pub open spec fn document_views(s: Seq<Document>) -> Seq<DocumentV> {
    Seq::new(s.len(), |i: int| s[i]@)
}

/// The encoded items of a list of `Document` models.
pub open spec fn spec_enc_document_seq(ss: Seq<DocumentV>) -> Seq<JsonV>
    decreases ss.len(),
{
    if ss.len() == 0 {
        Seq::empty()
    } else {
        spec_enc_document_seq(ss.drop_last()).push(spec_enc_document(ss[ss.len() - 1]))
    }
}

/// What decoding an array of `Document` items yields.
pub open spec fn spec_dec_document_seq(items: Seq<JsonV>) -> Option<Seq<DocumentV>>
    decreases items.len(),
{
    if items.len() == 0 {
        Some(Seq::empty())
    } else {
        match spec_dec_document_seq(items.drop_last()) {
            Some(pre) => match spec_dec_document(items[items.len() - 1]) {
                Some(x) => Some(pre.push(x)),
                None => None,
            },
            None => None,
        }
    }
}

/// Encoding a list of `Document` models and decoding it gives them back.
pub proof fn lemma_document_seq_roundtrip(ss: Seq<DocumentV>)
    ensures
        spec_dec_document_seq(spec_enc_document_seq(ss)) == Some(ss),
    decreases ss.len(),
{
    if ss.len() > 0 {
        lemma_document_seq_roundtrip(ss.drop_last());
        lemma_document_roundtrip(ss[ss.len() - 1]);
        let enc = spec_enc_document_seq(ss);
        assert(enc.drop_last() =~= spec_enc_document_seq(ss.drop_last()));
        assert(spec_dec_document_seq(enc).unwrap() =~= ss);
    } else {
        assert(spec_dec_document_seq(spec_enc_document_seq(ss)).unwrap() =~= ss);
    }
}

/// Encodes a list of `Document` values as a JSON array.
#[verifier::loop_isolation(false)]
pub fn encode_document_seq(v: &Vec<Document>) -> (j: Json)
    ensures
        j@ == JsonV::Arr(spec_enc_document_seq(document_views(v@))),
{
    let ghost dv = document_views(v@);
    let mut items: Vec<Json> = Vec::new();
    let mut i: usize = 0;
    while i < v.len()
        invariant
            0 <= i <= v@.len(),
            dv == document_views(v@),
            dv.len() == v@.len(),
            json_views(items@) == spec_enc_document_seq(dv.take(i as int)),
            items@.len() == i,
        decreases v@.len() - i,
    {
        let ghost pre = items@;
        let elem = encode_document(&v[i]);
        let ghost ev = elem;
        items.push(elem);
        proof {
            assert(items@.drop_last() =~= pre);
            assert(items@[items@.len() - 1] == ev);
            assert(json_views(items@) == json_views(pre).push(json_view(ev)));
            assert(dv.take(i + 1).drop_last() =~= dv.take(i as int));
            assert(dv.take(i + 1)[i as int] == dv[i as int]);
            assert(spec_enc_document_seq(dv.take(i + 1)) == spec_enc_document_seq(
                dv.take(i as int),
            ).push(spec_enc_document(dv[i as int])));
        }
        i = i + 1;
    }
    proof {
        assert(dv.take(v@.len() as int) =~= dv);
    }
    Json::Arr(items)
}

/// `spec_dec_document_seq` succeeds exactly when every item decodes, and
/// then decodes them in place.
pub proof fn lemma_dec_document_seq_index(s: Seq<JsonV>)
    ensures
        (spec_dec_document_seq(s) is Some) <==> (forall|i: int|
            0 <= i < s.len() ==> spec_dec_document(#[trigger] s[i]) is Some),
        spec_dec_document_seq(s) is Some ==> spec_dec_document_seq(s).unwrap().len() == s.len(),
        spec_dec_document_seq(s) is Some ==> forall|i: int|
            0 <= i < s.len() ==> #[trigger] spec_dec_document_seq(s).unwrap()[i]
                == spec_dec_document(s[i]).unwrap(),
    decreases s.len(),
{
    if s.len() > 0 {
        lemma_dec_document_seq_index(s.drop_last());
        assert(forall|i: int| 0 <= i < s.len() - 1 ==> #[trigger] s.drop_last()[i] == s[i]);
        if spec_dec_document_seq(s) is Some {
            assert(spec_dec_document_seq(s.drop_last()) is Some);
            assert(spec_dec_document(s[s.len() - 1]) is Some);
            assert forall|i: int| 0 <= i < s.len() implies spec_dec_document(
                #[trigger] s[i],
            ) is Some by {
                if i < s.len() - 1 {
                    assert(spec_dec_document(s.drop_last()[i]) is Some);
                }
            }
            assert forall|i: int|
                0 <= i < s.len() implies #[trigger] spec_dec_document_seq(s).unwrap()[i]
                == spec_dec_document(s[i]).unwrap() by {
                if i < s.len() - 1 {
                    assert(spec_dec_document_seq(s.drop_last()).unwrap()[i] == spec_dec_document(
                        s.drop_last()[i],
                    ).unwrap());
                }
            }
        } else {
            if forall|i: int| 0 <= i < s.len() ==> spec_dec_document(#[trigger] s[i]) is Some {
                assert forall|i: int|
                    0 <= i < s.len() - 1 implies spec_dec_document(
                    #[trigger] s.drop_last()[i],
                ) is Some by {
                    assert(s.drop_last()[i] == s[i]);
                }
                assert(spec_dec_document_seq(s.drop_last()) is Some);
                assert(spec_dec_document(s[s.len() - 1]) is Some);
                assert(spec_dec_document_seq(s) is Some);
            }
        }
    }
}

/// Decodes a JSON array of `Document` items.
#[verifier::loop_isolation(false)]
pub fn decode_document_seq(j: &Json) -> (r: Option<Vec<Document>>)
    ensures
        match r {
            Some(v) => j@ matches JsonV::Arr(items) && spec_dec_document_seq(items) == Some(
                document_views(v@),
            ),
            None => match j@ {
                JsonV::Arr(items) => spec_dec_document_seq(items) is None,
                _ => true,
            },
        },
{
    let items = match j.as_arr() {
        Some(items) => items,
        None => {
            return None;
        },
    };
    proof {
        lemma_json_views_index(items@);
    }
    let ghost iv = json_views(items@);
    let mut out: Vec<Document> = Vec::new();
    let mut i: usize = 0;
    while i < items.len()
        invariant
            0 <= i <= items@.len(),
            iv == json_views(items@),
            iv.len() == items@.len(),
            forall|q: int| 0 <= q < items@.len() ==> iv[q] == json_view(#[trigger] items@[q]),
            spec_dec_document_seq(iv.take(i as int)) is Some,
            document_views(out@) == spec_dec_document_seq(iv.take(i as int)).unwrap(),
            out@.len() == i,
        decreases items@.len() - i,
    {
        let x = match decode_document(&items[i]) {
            Some(x) => x,
            None => {
                proof {
                    lemma_dec_document_seq_index(iv);
                    assert(iv[i as int] == json_view(items@[i as int]));
                    assert(spec_dec_document(iv[i as int]) is None);
                }
                return None;
            },
        };
        let ghost preout = out@;
        let ghost xv = x@;
        out.push(x);
        proof {
            assert(out@.drop_last() =~= preout);
            assert(document_views(out@) =~= document_views(preout).push(xv));
            assert(iv.take(i + 1).drop_last() =~= iv.take(i as int));
            assert(iv.take(i + 1)[i as int] == iv[i as int]);
            assert(spec_dec_document_seq(iv.take(i + 1)).unwrap() =~= spec_dec_document_seq(
                iv.take(i as int),
            ).unwrap().push(xv));
        }
        i = i + 1;
    }
    proof {
        assert(iv.take(items@.len() as int) =~= iv);
    }
    Some(out)
}

impl crate::api::ApiResponse for Account {
    type Model = AccountV;

    open spec fn spec_decode_response(j: JsonV) -> Option<AccountV> {
        spec_dec_account(j)
    }

    open spec fn model(&self) -> AccountV {
        self@
    }

    fn decode_response(j: &Json) -> (r: Option<Self>) {
        decode_account(j)
    }
}

impl crate::api::ApiResponse for SmallAccount {
    type Model = SmallAccountV;

    open spec fn spec_decode_response(j: JsonV) -> Option<SmallAccountV> {
        spec_dec_small_account(j)
    }

    open spec fn model(&self) -> SmallAccountV {
        self@
    }

    fn decode_response(j: &Json) -> (r: Option<Self>) {
        decode_small_account(j)
    }
}

impl crate::api::ApiResponse for Transfer {
    type Model = TransferV;

    open spec fn spec_decode_response(j: JsonV) -> Option<TransferV> {
        spec_dec_transfer(j)
    }

    open spec fn model(&self) -> TransferV {
        self@
    }

    fn decode_response(j: &Json) -> (r: Option<Self>) {
        decode_transfer(j)
    }
}

impl crate::api::ApiResponse for BankRelationship {
    type Model = BankRelationshipV;

    open spec fn spec_decode_response(j: JsonV) -> Option<BankRelationshipV> {
        spec_dec_bank_relationship(j)
    }

    open spec fn model(&self) -> BankRelationshipV {
        self@
    }

    fn decode_response(j: &Json) -> (r: Option<Self>) {
        decode_bank_relationship(j)
    }
}

impl crate::api::ApiResponse for AchRelationship {
    type Model = AchRelationshipV;

    open spec fn spec_decode_response(j: JsonV) -> Option<AchRelationshipV> {
        spec_dec_ach_relationship(j)
    }

    open spec fn model(&self) -> AchRelationshipV {
        self@
    }

    fn decode_response(j: &Json) -> (r: Option<Self>) {
        decode_ach_relationship(j)
    }
}
/// The models of a list of `SmallAccount` values.
pub open spec fn small_account_views(s: Seq<SmallAccount>) -> Seq<SmallAccountV> {
    Seq::new(s.len(), |i: int| s[i]@)
}

/// The encoded items of a list of `SmallAccount` models.
pub open spec fn spec_enc_small_account_seq(ss: Seq<SmallAccountV>) -> Seq<JsonV>
    decreases ss.len(),
{
    if ss.len() == 0 {
        Seq::empty()
    } else {
        spec_enc_small_account_seq(ss.drop_last()).push(spec_enc_small_account(ss[ss.len() - 1]))
    }
}

/// What decoding an array of `SmallAccount` items yields.
pub open spec fn spec_dec_small_account_seq(items: Seq<JsonV>) -> Option<Seq<SmallAccountV>>
    decreases items.len(),
{
    if items.len() == 0 {
        Some(Seq::empty())
    } else {
        match spec_dec_small_account_seq(items.drop_last()) {
            Some(pre) => match spec_dec_small_account(items[items.len() - 1]) {
                Some(x) => Some(pre.push(x)),
                None => None,
            },
            None => None,
        }
    }
}

/// Encoding a list of `SmallAccount` models and decoding it gives them back.
pub proof fn lemma_small_account_seq_roundtrip(ss: Seq<SmallAccountV>)
    ensures
        spec_dec_small_account_seq(spec_enc_small_account_seq(ss)) == Some(ss),
    decreases ss.len(),
{
    if ss.len() > 0 {
        lemma_small_account_seq_roundtrip(ss.drop_last());
        lemma_small_account_roundtrip(ss[ss.len() - 1]);
        let enc = spec_enc_small_account_seq(ss);
        assert(enc.drop_last() =~= spec_enc_small_account_seq(ss.drop_last()));
        assert(spec_dec_small_account_seq(enc).unwrap() =~= ss);
    } else {
        assert(spec_dec_small_account_seq(spec_enc_small_account_seq(ss)).unwrap() =~= ss);
    }
}

/// Encodes a list of `SmallAccount` values as a JSON array.
#[verifier::loop_isolation(false)]
pub fn encode_small_account_seq(v: &Vec<SmallAccount>) -> (j: Json)
    ensures
        j@ == JsonV::Arr(spec_enc_small_account_seq(small_account_views(v@))),
{
    let ghost dv = small_account_views(v@);
    let mut items: Vec<Json> = Vec::new();
    let mut i: usize = 0;
    while i < v.len()
        invariant
            0 <= i <= v@.len(),
            dv == small_account_views(v@),
            dv.len() == v@.len(),
            json_views(items@) == spec_enc_small_account_seq(dv.take(i as int)),
            items@.len() == i,
        decreases v@.len() - i,
    {
        let ghost pre = items@;
        let elem = encode_small_account(&v[i]);
        let ghost ev = elem;
        items.push(elem);
        proof {
            assert(items@.drop_last() =~= pre);
            assert(items@[items@.len() - 1] == ev);
            assert(json_views(items@) == json_views(pre).push(json_view(ev)));
            assert(dv.take(i + 1).drop_last() =~= dv.take(i as int));
            assert(dv.take(i + 1)[i as int] == dv[i as int]);
            assert(spec_enc_small_account_seq(dv.take(i + 1)) == spec_enc_small_account_seq(
                dv.take(i as int),
            ).push(spec_enc_small_account(dv[i as int])));
        }
        i = i + 1;
    }
    proof {
        assert(dv.take(v@.len() as int) =~= dv);
    }
    Json::Arr(items)
}

/// `spec_dec_small_account_seq` succeeds exactly when every item decodes, and
/// then decodes them in place.
pub proof fn lemma_dec_small_account_seq_index(s: Seq<JsonV>)
    ensures
        (spec_dec_small_account_seq(s) is Some) <==> (forall|i: int|
            0 <= i < s.len() ==> spec_dec_small_account(#[trigger] s[i]) is Some),
        spec_dec_small_account_seq(s) is Some ==> spec_dec_small_account_seq(s).unwrap().len() == s.len(),
        spec_dec_small_account_seq(s) is Some ==> forall|i: int|
            0 <= i < s.len() ==> #[trigger] spec_dec_small_account_seq(s).unwrap()[i]
                == spec_dec_small_account(s[i]).unwrap(),
    decreases s.len(),
{
    if s.len() > 0 {
        lemma_dec_small_account_seq_index(s.drop_last());
        assert(forall|i: int| 0 <= i < s.len() - 1 ==> #[trigger] s.drop_last()[i] == s[i]);
        if spec_dec_small_account_seq(s) is Some {
            assert(spec_dec_small_account_seq(s.drop_last()) is Some);
            assert(spec_dec_small_account(s[s.len() - 1]) is Some);
            assert forall|i: int| 0 <= i < s.len() implies spec_dec_small_account(
                #[trigger] s[i],
            ) is Some by {
                if i < s.len() - 1 {
                    assert(spec_dec_small_account(s.drop_last()[i]) is Some);
                }
            }
            assert forall|i: int|
                0 <= i < s.len() implies #[trigger] spec_dec_small_account_seq(s).unwrap()[i]
                == spec_dec_small_account(s[i]).unwrap() by {
                if i < s.len() - 1 {
                    assert(spec_dec_small_account_seq(s.drop_last()).unwrap()[i] == spec_dec_small_account(
                        s.drop_last()[i],
                    ).unwrap());
                }
            }
        } else {
            if forall|i: int| 0 <= i < s.len() ==> spec_dec_small_account(#[trigger] s[i]) is Some {
                assert forall|i: int|
                    0 <= i < s.len() - 1 implies spec_dec_small_account(
                    #[trigger] s.drop_last()[i],
                ) is Some by {
                    assert(s.drop_last()[i] == s[i]);
                }
                assert(spec_dec_small_account_seq(s.drop_last()) is Some);
                assert(spec_dec_small_account(s[s.len() - 1]) is Some);
                assert(spec_dec_small_account_seq(s) is Some);
            }
        }
    }
}

/// Decodes a JSON array of `SmallAccount` items.
#[verifier::loop_isolation(false)]
pub fn decode_small_account_seq(j: &Json) -> (r: Option<Vec<SmallAccount>>)
    ensures
        match r {
            Some(v) => j@ matches JsonV::Arr(items) && spec_dec_small_account_seq(items) == Some(
                small_account_views(v@),
            ),
            None => match j@ {
                JsonV::Arr(items) => spec_dec_small_account_seq(items) is None,
                _ => true,
            },
        },
{
    let items = match j.as_arr() {
        Some(items) => items,
        None => {
            return None;
        },
    };
    proof {
        lemma_json_views_index(items@);
    }
    let ghost iv = json_views(items@);
    let mut out: Vec<SmallAccount> = Vec::new();
    let mut i: usize = 0;
    while i < items.len()
        invariant
            0 <= i <= items@.len(),
            iv == json_views(items@),
            iv.len() == items@.len(),
            forall|q: int| 0 <= q < items@.len() ==> iv[q] == json_view(#[trigger] items@[q]),
            spec_dec_small_account_seq(iv.take(i as int)) is Some,
            small_account_views(out@) == spec_dec_small_account_seq(iv.take(i as int)).unwrap(),
            out@.len() == i,
        decreases items@.len() - i,
    {
        let x = match decode_small_account(&items[i]) {
            Some(x) => x,
            None => {
                proof {
                    lemma_dec_small_account_seq_index(iv);
                    assert(iv[i as int] == json_view(items@[i as int]));
                    assert(spec_dec_small_account(iv[i as int]) is None);
                }
                return None;
            },
        };
        let ghost preout = out@;
        let ghost xv = x@;
        out.push(x);
        proof {
            assert(out@.drop_last() =~= preout);
            assert(small_account_views(out@) =~= small_account_views(preout).push(xv));
            assert(iv.take(i + 1).drop_last() =~= iv.take(i as int));
            assert(iv.take(i + 1)[i as int] == iv[i as int]);
            assert(spec_dec_small_account_seq(iv.take(i + 1)).unwrap() =~= spec_dec_small_account_seq(
                iv.take(i as int),
            ).unwrap().push(xv));
        }
        i = i + 1;
    }
    proof {
        assert(iv.take(items@.len() as int) =~= iv);
    }
    Some(out)
}

impl crate::api::ApiResponse for Vec<SmallAccount> {
    type Model = Seq<SmallAccountV>;

    open spec fn spec_decode_response(j: JsonV) -> Option<Seq<SmallAccountV>> {
        match j {
            JsonV::Arr(items) => spec_dec_small_account_seq(items),
            _ => None,
        }
    }

    open spec fn model(&self) -> Seq<SmallAccountV> {
        small_account_views(self@)
    }

    fn decode_response(j: &Json) -> (r: Option<Self>) {
        decode_small_account_seq(j)
    }
}

} // verus!
