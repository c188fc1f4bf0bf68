//! Trading-side domain records: orders, with their flattened order-type
//! and order-amount wire members, and open positions.

use vstd::prelude::*;

use crate::json::{
    member_views, obj_push, opt_member_bool, opt_member_str, spec_lookup, strs_jsonv,
    strs_to_json, json_view, json_views, lemma_json_views_index, lemma_lookup_append,
    lemma_strs_jsonv_roundtrip, lookup_bool, lookup_i64_num, lookup_i64_str, lookup_num,
    lookup_opt_bool, lookup_opt_str, lookup_str, lookup_strs, Json, JsonV,
};
use crate::model::{
    lemma_order_side_wire_roundtrip, lemma_order_status_wire_roundtrip,
    lemma_side_wire_roundtrip, OrderSide, OrderStatus, Side,
};

verus! {

/// Order amount: a share count or a notional currency amount, both
/// carried as decimal strings, so fractional shares lose nothing.
#[derive(Debug, Clone)]
pub enum OrderAmount {
    /// Number of shares, possibly fractional.
    Quantity(String),
    /// Notional amount is the amount of stock in the currency of the account.
    Notional(String),
}

/// The model of an `OrderAmount`.
pub enum OrderAmountV {
    Quantity(Seq<char>),
    Notional(Seq<char>),
}

impl View for OrderAmount {
    type V = OrderAmountV;

    open spec fn view(&self) -> OrderAmountV {
        match self {
            OrderAmount::Quantity(q) => OrderAmountV::Quantity(q@),
            OrderAmount::Notional(s) => OrderAmountV::Notional(s@),
        }
    }
}

/// The member an order amount contributes to an order body: `qty` for a
/// share count, `notional` for a currency amount, both as strings.
pub open spec fn spec_order_amount_members(a: OrderAmountV) -> Seq<(Seq<char>, JsonV)> {
    match a {
        OrderAmountV::Quantity(q) => seq![("qty"@, JsonV::Str(q))],
        OrderAmountV::Notional(s) => seq![("notional"@, JsonV::Str(s))],
    }
}

/// Appends the order-amount member to an order body under construction.
pub fn push_order_amount(f: &mut Vec<(String, Json)>, a: &OrderAmount)
    ensures
        member_views(final(f)@) == member_views(old(f)@) + spec_order_amount_members(a@),
{
    let ghost before = member_views(f@);
    match a {
        OrderAmount::Quantity(q) => {
            obj_push(f, "qty", Json::Str(q.clone()));
        },
        OrderAmount::Notional(s) => {
            obj_push(f, "notional", Json::Str(s.clone()));
        },
    }
    proof {
        assert(member_views(f@) =~= before + spec_order_amount_members(a@));
    }
}

/// A trailing-stop offset: a price distance or a percentage, as a decimal
/// string.
#[derive(Debug, Clone)]
pub enum TrailingStop {
    Price(String),
    Percent(String),
}

/// The model of a `TrailingStop`.
pub enum TrailingStopV {
    Price(Seq<char>),
    Percent(Seq<char>),
}

impl View for TrailingStop {
    type V = TrailingStopV;

    open spec fn view(&self) -> TrailingStopV {
        match self {
            TrailingStop::Price(s) => TrailingStopV::Price(s@),
            TrailingStop::Percent(s) => TrailingStopV::Percent(s@),
        }
    }
}

/// Order type. Includes market, limit, stop, etc. orders.  On the wire it
/// is flattened into the order object: a `type` tag plus its price
/// fields, except a trailing stop, which carries only its offset member.
#[derive(Debug, Clone)]
pub enum OrderType {
    Market,
    Limit { limit_price: String },
    Stop { stop_price: String },
    StopLimit { stop_price: String, limit_price: String },
    TrailingStop(TrailingStop),
}

/// The model of an `OrderType`.
pub enum OrderTypeV {
    Market,
    Limit { limit_price: Seq<char> },
    Stop { stop_price: Seq<char> },
    StopLimit { stop_price: Seq<char>, limit_price: Seq<char> },
    TrailingStop(TrailingStopV),
}

impl View for OrderType {
    type V = OrderTypeV;

    open spec fn view(&self) -> OrderTypeV {
        match self {
            OrderType::Market => OrderTypeV::Market,
            OrderType::Limit { limit_price } => OrderTypeV::Limit { limit_price: limit_price@ },
            OrderType::Stop { stop_price } => OrderTypeV::Stop { stop_price: stop_price@ },
            OrderType::StopLimit { stop_price, limit_price } => OrderTypeV::StopLimit {
                stop_price: stop_price@,
                limit_price: limit_price@,
            },
            OrderType::TrailingStop(t) => OrderTypeV::TrailingStop(t@),
        }
    }
}

/// The members an order type contributes to an order object.
pub open spec fn spec_order_type_members(k: OrderTypeV) -> Seq<(Seq<char>, JsonV)> {
    match k {
        OrderTypeV::Market => seq![("type"@, JsonV::Str("market"@))],
        OrderTypeV::Limit { limit_price } => seq![
            ("type"@, JsonV::Str("limit"@)),
            ("limit_price"@, JsonV::Str(limit_price)),
        ],
        OrderTypeV::Stop { stop_price } => seq![
            ("type"@, JsonV::Str("stop"@)),
            ("stop_price"@, JsonV::Str(stop_price)),
        ],
        OrderTypeV::StopLimit { stop_price, limit_price } => seq![
            ("type"@, JsonV::Str("stop_limit"@)),
            ("stop_price"@, JsonV::Str(stop_price)),
            ("limit_price"@, JsonV::Str(limit_price)),
        ],
        OrderTypeV::TrailingStop(TrailingStopV::Price(p)) => seq![
            ("trail_price"@, JsonV::Str(p)),
        ],
        OrderTypeV::TrailingStop(TrailingStopV::Percent(p)) => seq![
            ("trail_percent"@, JsonV::Str(p)),
        ],
    }
}

/// Appends the order-type members to an order body under construction.
pub fn push_order_type(f: &mut Vec<(String, Json)>, k: &OrderType)
    ensures
        member_views(final(f)@) == member_views(old(f)@) + spec_order_type_members(k@),
{
    let ghost before = member_views(f@);
    match k {
        OrderType::Market => {
            obj_push(f, "type", Json::Str(String::from_str("market")));
        },
        OrderType::Limit { limit_price } => {
            obj_push(f, "type", Json::Str(String::from_str("limit")));
            obj_push(f, "limit_price", Json::Str(limit_price.clone()));
        },
        OrderType::Stop { stop_price } => {
            obj_push(f, "type", Json::Str(String::from_str("stop")));
            obj_push(f, "stop_price", Json::Str(stop_price.clone()));
        },
        OrderType::StopLimit { stop_price, limit_price } => {
            obj_push(f, "type", Json::Str(String::from_str("stop_limit")));
            obj_push(f, "stop_price", Json::Str(stop_price.clone()));
            obj_push(f, "limit_price", Json::Str(limit_price.clone()));
        },
        OrderType::TrailingStop(TrailingStop::Price(p)) => {
            obj_push(f, "trail_price", Json::Str(p.clone()));
        },
        OrderType::TrailingStop(TrailingStop::Percent(p)) => {
            obj_push(f, "trail_percent", Json::Str(p.clone()));
        },
    }
    proof {
        assert(member_views(f@) =~= before + spec_order_type_members(k@));
    }
}

/// What the order-type members of an order object decode to: the `type`
/// tag picks the kind and its price fields; an object without a tag is a
/// trailing stop when it carries a trailing offset.
pub open spec fn spec_dec_order_type(f: Seq<(Seq<char>, JsonV)>) -> Option<OrderTypeV> {
    match lookup_str(f, "type"@) {
        Some(t) => if t == "market"@ {
            Some(OrderTypeV::Market)
        } else if t == "limit"@ {
            match lookup_str(f, "limit_price"@) {
                Some(lp) => Some(OrderTypeV::Limit { limit_price: lp }),
                None => None,
            }
        } else if t == "stop"@ {
            match lookup_str(f, "stop_price"@) {
                Some(sp) => Some(OrderTypeV::Stop { stop_price: sp }),
                None => None,
            }
        } else if t == "stop_limit"@ {
            match (lookup_str(f, "stop_price"@), lookup_str(f, "limit_price"@)) {
                (Some(sp), Some(lp)) => Some(
                    OrderTypeV::StopLimit { stop_price: sp, limit_price: lp },
                ),
                _ => None,
            }
        } else {
            None
        },
        None => match lookup_str(f, "trail_price"@) {
            Some(p) => Some(OrderTypeV::TrailingStop(TrailingStopV::Price(p))),
            None => match lookup_str(f, "trail_percent"@) {
                Some(p) => Some(OrderTypeV::TrailingStop(TrailingStopV::Percent(p))),
                None => None,
            },
        },
    }
}

/// Decodes the order-type members of an order object.
pub fn decode_order_type(j: &Json) -> (r: Option<OrderType>)
    ensures
        match r {
            Some(x) => j@ matches JsonV::Obj(f) && spec_dec_order_type(f) == Some(x@),
            None => match j@ {
                JsonV::Obj(f) => spec_dec_order_type(f) is None,
                _ => true,
            },
        },
{
    match j {
        Json::Obj(_) => {},
        _ => {
            return None;
        },
    }
    match j.get_str("type") {
        Some(t) => {
            if crate::util::str_eq(t.as_str(), "market") {
                Some(OrderType::Market)
            } else if crate::util::str_eq(t.as_str(), "limit") {
                match j.get_str("limit_price") {
                    Some(lp) => Some(OrderType::Limit { limit_price: lp }),
                    None => None,
                }
            } else if crate::util::str_eq(t.as_str(), "stop") {
                match j.get_str("stop_price") {
                    Some(sp) => Some(OrderType::Stop { stop_price: sp }),
                    None => None,
                }
            } else if crate::util::str_eq(t.as_str(), "stop_limit") {
                match (j.get_str("stop_price"), j.get_str("limit_price")) {
                    (Some(sp), Some(lp)) => Some(
                        OrderType::StopLimit { stop_price: sp, limit_price: lp },
                    ),
                    _ => None,
                }
            } else {
                None
            }
        },
        None => match j.get_str("trail_price") {
            Some(p) => Some(OrderType::TrailingStop(TrailingStop::Price(p))),
            None => match j.get_str("trail_percent") {
                Some(p) => Some(OrderType::TrailingStop(TrailingStop::Percent(p))),
                None => None,
            },
        },
    }
}

/// An order snapshot as the trading surface reports it.
#[derive(Debug, Clone)]
pub struct Order {
    pub id: String,
    pub symbol: String,
    pub status: OrderStatus,
    pub side: OrderSide,
    pub kind: OrderType,
}

/// The model of an `Order`.
pub struct OrderV {
    pub id: Seq<char>,
    pub symbol: Seq<char>,
    pub status: OrderStatus,
    pub side: OrderSide,
    pub kind: OrderTypeV,
}

impl View for Order {
    type V = OrderV;

    open spec fn view(&self) -> OrderV {
        OrderV {
            id: self.id@,
            symbol: self.symbol@,
            status: self.status,
            side: self.side,
            kind: self.kind@,
        }
    }
}

/// The wire members of an encoded `Order`: the scalar fields, then the
/// flattened order-type members.
pub open spec fn spec_order_members(a: OrderV) -> Seq<(Seq<char>, JsonV)> {
    seq![
        ("id"@, JsonV::Str(a.id)),
        ("symbol"@, JsonV::Str(a.symbol)),
        ("status"@, JsonV::Str(a.status.spec_wire())),
        ("side"@, JsonV::Str(a.side.spec_wire())),
    ] + spec_order_type_members(a.kind)
}

/// The encoded form of an `Order`.
pub open spec fn spec_enc_order(a: OrderV) -> JsonV {
    JsonV::Obj(spec_order_members(a))
}

/// What decoding a JSON value as an `Order` yields.
pub open spec fn spec_dec_order(j: JsonV) -> Option<OrderV> {
    match j {
        JsonV::Obj(f) => {
            if lookup_str(f, "id"@) is Some && lookup_str(f, "symbol"@) is Some && (match
                lookup_str(f, "status"@) {
                Some(s) => OrderStatus::spec_from_wire(s),
                None => None,
            }) is Some && (match lookup_str(f, "side"@) {
                Some(s) => OrderSide::spec_from_wire(s),
                None => None,
            }) is Some && spec_dec_order_type(f) is Some {
                Some(OrderV {
                    id: lookup_str(f, "id"@).unwrap(),
                    symbol: lookup_str(f, "symbol"@).unwrap(),
                    status: (match lookup_str(f, "status"@) {
                        Some(s) => OrderStatus::spec_from_wire(s),
                        None => None,
                    }).unwrap(),
                    side: (match lookup_str(f, "side"@) {
                        Some(s) => OrderSide::spec_from_wire(s),
                        None => None,
                    }).unwrap(),
                    kind: spec_dec_order_type(f).unwrap(),
                })
            } else {
                None
            }
        },
        _ => None,
    }
}

/// Encodes an `Order` as its wire object.
pub fn encode_order(x: &Order) -> (j: Json)
    ensures
        j@ == spec_enc_order(x@),
{
    let mut f: Vec<(String, Json)> = Vec::new();
    obj_push(&mut f, "id", Json::Str(x.id.clone()));
    obj_push(&mut f, "symbol", Json::Str(x.symbol.clone()));
    obj_push(&mut f, "status", Json::Str(x.status.wire_name().to_owned()));
    obj_push(&mut f, "side", Json::Str(x.side.wire_name().to_owned()));
    proof {
        assert(member_views(f@) =~= seq![
            ("id"@, JsonV::Str(x@.id)),
            ("symbol"@, JsonV::Str(x@.symbol)),
            ("status"@, JsonV::Str(x@.status.spec_wire())),
            ("side"@, JsonV::Str(x@.side.spec_wire())),
        ]);
    }
    push_order_type(&mut f, &x.kind);
    let j = Json::Obj(f);
    proof {
        assert(member_views(f@) =~= spec_order_members(x@));
    }
    j
}

/// Decodes an `Order` from a JSON value.
pub fn decode_order(j: &Json) -> (r: Option<Order>)
    ensures
        match r {
            Some(x) => spec_dec_order(j@) == Some(x@),
            None => spec_dec_order(j@) is None,
        },
{
    let v_id = match j.get_str("id") {
        Some(v) => v,
        None => {
            return None;
        },
    };
    let v_symbol = match j.get_str("symbol") {
        Some(v) => v,
        None => {
            return None;
        },
    };
    let v_status = match j.get_str("status") {
        Some(s) => match OrderStatus::from_wire(s.as_str()) {
            Some(e) => e,
            None => {
                return None;
            },
        },
        None => {
            return None;
        },
    };
    let v_side = match j.get_str("side") {
        Some(s) => match OrderSide::from_wire(s.as_str()) {
            Some(e) => e,
            None => {
                return None;
            },
        },
        None => {
            return None;
        },
    };
    let v_kind = match decode_order_type(j) {
        Some(k) => k,
        None => {
            return None;
        },
    };
    Some(Order { id: v_id, symbol: v_symbol, status: v_status, side: v_side, kind: v_kind })
}

/// Decoding an encoded `Order` gives back the same data.
#[verifier::rlimit(100)]
pub proof fn lemma_order_roundtrip(a: OrderV)
    ensures
        spec_dec_order(spec_enc_order(a)) == Some(a),
{
    reveal_with_fuel(spec_lookup, 12);
    reveal_strlit("id");
    reveal_strlit("symbol");
    reveal_strlit("status");
    reveal_strlit("side");
    reveal_strlit("type");
    reveal_strlit("limit_price");
    reveal_strlit("stop_price");
    reveal_strlit("trail_price");
    reveal_strlit("trail_percent");
    reveal_strlit("market");
    reveal_strlit("limit");
    reveal_strlit("stop");
    reveal_strlit("stop_limit");
    assert("id"@.len() == 2);
    assert("symbol"@.len() == 6);
    assert("status"@.len() == 6);
    assert("side"@.len() == 4);
    assert("type"@.len() == 4);
    assert("limit_price"@.len() == 11);
    assert("stop_price"@.len() == 10);
    assert("trail_price"@.len() == 11);
    assert("trail_percent"@.len() == 13);
    assert("market"@.len() == 6);
    assert("limit"@.len() == 5);
    assert("stop"@.len() == 4);
    assert("stop_limit"@.len() == 10);
    assert("symbol"@ != "status"@) by {
        assert("symbol"@[1] == 'y');
        assert("status"@[1] == 't');
    }
    assert("symbol"@ != "market"@) by {
        assert("symbol"@[0] == 's');
        assert("market"@[0] == 'm');
    }
    assert("side"@ != "type"@) by {
        assert("side"@[0] == 's');
        assert("type"@[0] == 't');
    }
    assert("side"@ != "stop"@) by {
        assert("side"@[1] == 'i');
        assert("stop"@[1] == 't');
    }
    assert("type"@ != "stop"@) by {
        assert("type"@[0] == 't');
        assert("stop"@[0] == 's');
    }
    assert("limit_price"@ != "trail_price"@) by {
        assert("limit_price"@[0] == 'l');
        assert("trail_price"@[0] == 't');
    }
    assert("stop_price"@ != "stop_limit"@) by {
        assert("stop_price"@[5] == 'p');
        assert("stop_limit"@[5] == 'l');
    }
    lemma_order_status_wire_roundtrip(a.status);
    lemma_order_side_wire_roundtrip(a.side);
    let base = seq![
        ("id"@, JsonV::Str(a.id)),
        ("symbol"@, JsonV::Str(a.symbol)),
        ("status"@, JsonV::Str(a.status.spec_wire())),
        ("side"@, JsonV::Str(a.side.spec_wire())),
    ];
    let km = spec_order_type_members(a.kind);
    lemma_lookup_append(base, km, "id"@);
    lemma_lookup_append(base, km, "symbol"@);
    lemma_lookup_append(base, km, "status"@);
    lemma_lookup_append(base, km, "side"@);
    lemma_lookup_append(base, km, "type"@);
    lemma_lookup_append(base, km, "limit_price"@);
    lemma_lookup_append(base, km, "stop_price"@);
    lemma_lookup_append(base, km, "trail_price"@);
    lemma_lookup_append(base, km, "trail_percent"@);
    let f = base + km;
    match a.kind {
        OrderTypeV::Market => {
            assert(spec_dec_order_type(f) == Some(a.kind));
        },
        OrderTypeV::Limit { limit_price } => {
            assert(spec_dec_order_type(f) == Some(a.kind));
        },
        OrderTypeV::Stop { stop_price } => {
            assert(spec_dec_order_type(f) == Some(a.kind));
        },
        OrderTypeV::StopLimit { stop_price, limit_price } => {
            assert(spec_dec_order_type(f) == Some(a.kind));
        },
        OrderTypeV::TrailingStop(t) => {
            match t {
                TrailingStopV::Price(p) => {
                    assert(spec_dec_order_type(f) == Some(a.kind));
                },
                TrailingStopV::Percent(p) => {
                    assert(spec_dec_order_type(f) == Some(a.kind));
                },
            }
        },
    }
}

/// An open position snapshot; prices and ratios arrive as decimal strings.
#[derive(Debug, Clone)]
pub struct OpenPosition {
    pub asset_id: String,
    pub symbol: String,
    pub exchange: String,
    pub asset_class: String,
    pub asset_marginable: Option<bool>,
    pub avg_entry_price: String,
    pub qty: i64,
    pub side: Side,
    pub market_value: String,
    pub cost_basis: String,
    pub unrealized_pl: String,
    pub unrealized_plpc: String,
    pub unrealized_intraday_pl: String,
    pub unrealized_intraday_plpc: String,
    pub current_price: String,
    pub lastday_price: String,
    pub change_today: String,
    pub swap_rate: Option<String>,
}

/// The model of a `OpenPosition`.
pub struct OpenPositionV {
    pub asset_id: Seq<char>,
    pub symbol: Seq<char>,
    pub exchange: Seq<char>,
    pub asset_class: Seq<char>,
    pub asset_marginable: Option<bool>,
    pub avg_entry_price: Seq<char>,
    pub qty: i64,
    pub side: Side,
    pub market_value: Seq<char>,
    pub cost_basis: Seq<char>,
    pub unrealized_pl: Seq<char>,
    pub unrealized_plpc: Seq<char>,
    pub unrealized_intraday_pl: Seq<char>,
    pub unrealized_intraday_plpc: Seq<char>,
    pub current_price: Seq<char>,
    pub lastday_price: Seq<char>,
    pub change_today: Seq<char>,
    pub swap_rate: Option<Seq<char>>,
}

impl View for OpenPosition {
    type V = OpenPositionV;

    open spec fn view(&self) -> OpenPositionV {
        OpenPositionV {
            asset_id: self.asset_id@,
            symbol: self.symbol@,
            exchange: self.exchange@,
            asset_class: self.asset_class@,
            asset_marginable: self.asset_marginable,
            avg_entry_price: self.avg_entry_price@,
            qty: self.qty,
            side: self.side,
            market_value: self.market_value@,
            cost_basis: self.cost_basis@,
            unrealized_pl: self.unrealized_pl@,
            unrealized_plpc: self.unrealized_plpc@,
            unrealized_intraday_pl: self.unrealized_intraday_pl@,
            unrealized_intraday_plpc: self.unrealized_intraday_plpc@,
            current_price: self.current_price@,
            lastday_price: self.lastday_price@,
            change_today: self.change_today@,
            swap_rate: match self.swap_rate { Some(s) => Some(s@), None => None },
        }
    }
}

/// The wire members of an encoded `OpenPosition`, in order, optional fields
/// contributing nothing when unset.
pub open spec fn spec_open_position_members(a: OpenPositionV) -> Seq<(Seq<char>, JsonV)> {
    seq![("asset_id"@, JsonV::Str(a.asset_id)), ("symbol"@, JsonV::Str(a.symbol)), ("exchange"@, JsonV::Str(a.exchange)), ("asset_class"@, JsonV::Str(a.asset_class)), ("avg_entry_price"@, JsonV::Str(a.avg_entry_price)), ("qty"@, JsonV::Str(crate::util::dec_digits_signed(a.qty as int))), ("side"@, JsonV::Str(a.side.spec_wire())), ("market_value"@, JsonV::Str(a.market_value)), ("cost_basis"@, JsonV::Str(a.cost_basis)), ("unrealized_pl"@, JsonV::Str(a.unrealized_pl)), ("unrealized_plpc"@, JsonV::Str(a.unrealized_plpc)), ("unrealized_intraday_pl"@, JsonV::Str(a.unrealized_intraday_pl)), ("unrealized_intraday_plpc"@, JsonV::Str(a.unrealized_intraday_plpc)), ("current_price"@, JsonV::Str(a.current_price)), ("lastday_price"@, JsonV::Str(a.lastday_price)), ("change_today"@, JsonV::Str(a.change_today))] + opt_member_bool("asset_marginable"@, a.asset_marginable) + opt_member_str("swap_rate"@, a.swap_rate)
}

/// The encoded form of a `OpenPosition`.
pub open spec fn spec_enc_open_position(a: OpenPositionV) -> JsonV {
    JsonV::Obj(spec_open_position_members(a))
}

/// What decoding a JSON value as a `OpenPosition` yields.
pub open spec fn spec_dec_open_position(j: JsonV) -> Option<OpenPositionV> {
    match j {
        JsonV::Obj(f) => {
            if lookup_str(f, "asset_id"@) is Some && lookup_str(f, "symbol"@) is Some && lookup_str(f, "exchange"@) is Some && lookup_str(f, "asset_class"@) is Some && lookup_opt_bool(f, "asset_marginable"@) is Some && lookup_str(f, "avg_entry_price"@) is Some && lookup_i64_str(f, "qty"@) is Some && (match lookup_str(f, "side"@) { Some(s) => Side::spec_from_wire(s), None => None }) is Some && lookup_str(f, "market_value"@) is Some && lookup_str(f, "cost_basis"@) is Some && lookup_str(f, "unrealized_pl"@) is Some && lookup_str(f, "unrealized_plpc"@) is Some && lookup_str(f, "unrealized_intraday_pl"@) is Some && lookup_str(f, "unrealized_intraday_plpc"@) is Some && lookup_str(f, "current_price"@) is Some && lookup_str(f, "lastday_price"@) is Some && lookup_str(f, "change_today"@) is Some && lookup_opt_str(f, "swap_rate"@) is Some {
                Some(OpenPositionV {
                    asset_id: lookup_str(f, "asset_id"@).unwrap(),
                    symbol: lookup_str(f, "symbol"@).unwrap(),
                    exchange: lookup_str(f, "exchange"@).unwrap(),
                    asset_class: lookup_str(f, "asset_class"@).unwrap(),
                    asset_marginable: lookup_opt_bool(f, "asset_marginable"@).unwrap(),
                    avg_entry_price: lookup_str(f, "avg_entry_price"@).unwrap(),
                    qty: lookup_i64_str(f, "qty"@).unwrap(),
                    side: (match lookup_str(f, "side"@) { Some(s) => Side::spec_from_wire(s), None => None }).unwrap(),
                    market_value: lookup_str(f, "market_value"@).unwrap(),
                    cost_basis: lookup_str(f, "cost_basis"@).unwrap(),
                    unrealized_pl: lookup_str(f, "unrealized_pl"@).unwrap(),
                    unrealized_plpc: lookup_str(f, "unrealized_plpc"@).unwrap(),
                    unrealized_intraday_pl: lookup_str(f, "unrealized_intraday_pl"@).unwrap(),
                    unrealized_intraday_plpc: lookup_str(f, "unrealized_intraday_plpc"@).unwrap(),
                    current_price: lookup_str(f, "current_price"@).unwrap(),
                    lastday_price: lookup_str(f, "lastday_price"@).unwrap(),
                    change_today: lookup_str(f, "change_today"@).unwrap(),
                    swap_rate: lookup_opt_str(f, "swap_rate"@).unwrap(),
                })
            } else {
                None
            }
        },
        _ => None,
    }
}

/// Encodes a `OpenPosition` as its wire object.
#[verifier::rlimit(100)]
pub fn encode_open_position(x: &OpenPosition) -> (j: Json)
    ensures
        j@ == spec_enc_open_position(x@),
{
    let mut f: Vec<(String, Json)> = Vec::new();
    obj_push(&mut f, "asset_id", Json::Str(x.asset_id.clone()));
    obj_push(&mut f, "symbol", Json::Str(x.symbol.clone()));
    obj_push(&mut f, "exchange", Json::Str(x.exchange.clone()));
    obj_push(&mut f, "asset_class", Json::Str(x.asset_class.clone()));
    obj_push(&mut f, "avg_entry_price", Json::Str(x.avg_entry_price.clone()));
    obj_push(&mut f, "qty", Json::Str(crate::util::i64_to_string(x.qty)));
    obj_push(&mut f, "side", Json::Str(x.side.wire_name().to_owned()));
    obj_push(&mut f, "market_value", Json::Str(x.market_value.clone()));
    obj_push(&mut f, "cost_basis", Json::Str(x.cost_basis.clone()));
    obj_push(&mut f, "unrealized_pl", Json::Str(x.unrealized_pl.clone()));
    obj_push(&mut f, "unrealized_plpc", Json::Str(x.unrealized_plpc.clone()));
    obj_push(&mut f, "unrealized_intraday_pl", Json::Str(x.unrealized_intraday_pl.clone()));
    obj_push(&mut f, "unrealized_intraday_plpc", Json::Str(x.unrealized_intraday_plpc.clone()));
    obj_push(&mut f, "current_price", Json::Str(x.current_price.clone()));
    obj_push(&mut f, "lastday_price", Json::Str(x.lastday_price.clone()));
    obj_push(&mut f, "change_today", Json::Str(x.change_today.clone()));
    proof {
        assert(member_views(f@) =~= seq![("asset_id"@, JsonV::Str(x@.asset_id)), ("symbol"@, JsonV::Str(x@.symbol)), ("exchange"@, JsonV::Str(x@.exchange)), ("asset_class"@, JsonV::Str(x@.asset_class)), ("avg_entry_price"@, JsonV::Str(x@.avg_entry_price)), ("qty"@, JsonV::Str(crate::util::dec_digits_signed(x@.qty as int))), ("side"@, JsonV::Str(x@.side.spec_wire())), ("market_value"@, JsonV::Str(x@.market_value)), ("cost_basis"@, JsonV::Str(x@.cost_basis)), ("unrealized_pl"@, JsonV::Str(x@.unrealized_pl)), ("unrealized_plpc"@, JsonV::Str(x@.unrealized_plpc)), ("unrealized_intraday_pl"@, JsonV::Str(x@.unrealized_intraday_pl)), ("unrealized_intraday_plpc"@, JsonV::Str(x@.unrealized_intraday_plpc)), ("current_price"@, JsonV::Str(x@.current_price)), ("lastday_price"@, JsonV::Str(x@.lastday_price)), ("change_today"@, JsonV::Str(x@.change_today))]);
    }
    let ghost seg0 = member_views(f@);
    match &x.asset_marginable {
        Some(v) => {
            obj_push(&mut f, "asset_marginable", Json::Bool(*v));
        },
        None => {},
    }
    proof {
        assert(member_views(f@) =~= seg0 + opt_member_bool("asset_marginable"@, x@.asset_marginable));
    }
    let ghost seg1 = member_views(f@);
    match &x.swap_rate {
        Some(v) => {
            obj_push(&mut f, "swap_rate", Json::Str(v.clone()));
        },
        None => {},
    }
    proof {
        assert(member_views(f@) =~= seg1 + opt_member_str("swap_rate"@, x@.swap_rate));
    }
    let j = Json::Obj(f);
    proof {
        assert(member_views(f@) =~= spec_open_position_members(x@));
    }
    j
}

/// Decodes a `OpenPosition` from a JSON value.
pub fn decode_open_position(j: &Json) -> (r: Option<OpenPosition>)
    ensures
        match r {
            Some(x) => spec_dec_open_position(j@) == Some(x@),
            None => spec_dec_open_position(j@) is None,
        },
{
    let v_asset_id = match j.get_str("asset_id") {
        Some(v) => v,
        None => {
            return None;
        },
    };
    let v_symbol = match j.get_str("symbol") {
        Some(v) => v,
        None => {
            return None;
        },
    };
    let v_exchange = match j.get_str("exchange") {
        Some(v) => v,
        None => {
            return None;
        },
    };
    let v_asset_class = match j.get_str("asset_class") {
        Some(v) => v,
        None => {
            return None;
        },
    };
    let v_asset_marginable = match j.get_opt_bool("asset_marginable") {
        Some(v) => v,
        None => {
            return None;
        },
    };
    let v_avg_entry_price = match j.get_str("avg_entry_price") {
        Some(v) => v,
        None => {
            return None;
        },
    };
    let v_qty = match j.get_i64_str("qty") {
        Some(v) => v,
        None => {
            return None;
        },
    };
    let v_side = match j.get_str("side") {
        Some(s) => match Side::from_wire(s.as_str()) {
            Some(e) => e,
            None => {
                return None;
            },
        },
        None => {
            return None;
        },
    };
    let v_market_value = match j.get_str("market_value") {
        Some(v) => v,
        None => {
            return None;
        },
    };
    let v_cost_basis = match j.get_str("cost_basis") {
        Some(v) => v,
        None => {
            return None;
        },
    };
    let v_unrealized_pl = match j.get_str("unrealized_pl") {
        Some(v) => v,
        None => {
            return None;
        },
    };
    let v_unrealized_plpc = match j.get_str("unrealized_plpc") {
        Some(v) => v,
        None => {
            return None;
        },
    };
    let v_unrealized_intraday_pl = match j.get_str("unrealized_intraday_pl") {
        Some(v) => v,
        None => {
            return None;
        },
    };
    let v_unrealized_intraday_plpc = match j.get_str("unrealized_intraday_plpc") {
        Some(v) => v,
        None => {
            return None;
        },
    };
    let v_current_price = match j.get_str("current_price") {
        Some(v) => v,
        None => {
            return None;
        },
    };
    let v_lastday_price = match j.get_str("lastday_price") {
        Some(v) => v,
        None => {
            return None;
        },
    };
    let v_change_today = match j.get_str("change_today") {
        Some(v) => v,
        None => {
            return None;
        },
    };
    let v_swap_rate = match j.get_opt_str("swap_rate") {
        Some(v) => v,
        None => {
            return None;
        },
    };
    Some(OpenPosition {
        asset_id: v_asset_id,
        symbol: v_symbol,
        exchange: v_exchange,
        asset_class: v_asset_class,
        asset_marginable: v_asset_marginable,
        avg_entry_price: v_avg_entry_price,
        qty: v_qty,
        side: v_side,
        market_value: v_market_value,
        cost_basis: v_cost_basis,
        unrealized_pl: v_unrealized_pl,
        unrealized_plpc: v_unrealized_plpc,
        unrealized_intraday_pl: v_unrealized_intraday_pl,
        unrealized_intraday_plpc: v_unrealized_intraday_plpc,
        current_price: v_current_price,
        lastday_price: v_lastday_price,
        change_today: v_change_today,
        swap_rate: v_swap_rate,
    })
}

/// Decoding an encoded `OpenPosition` gives back the same data.
#[verifier::rlimit(100)]
pub proof fn lemma_open_position_roundtrip(a: OpenPositionV)
    ensures
        spec_dec_open_position(spec_enc_open_position(a)) == Some(a),
{
    reveal_with_fuel(spec_lookup, 22);
    reveal_strlit("asset_class");
    reveal_strlit("asset_id");
    reveal_strlit("asset_marginable");
    reveal_strlit("avg_entry_price");
    reveal_strlit("change_today");
    reveal_strlit("cost_basis");
    reveal_strlit("current_price");
    reveal_strlit("exchange");
    reveal_strlit("lastday_price");
    reveal_strlit("market_value");
    reveal_strlit("qty");
    reveal_strlit("side");
    reveal_strlit("swap_rate");
    reveal_strlit("symbol");
    reveal_strlit("unrealized_intraday_pl");
    reveal_strlit("unrealized_intraday_plpc");
    reveal_strlit("unrealized_pl");
    reveal_strlit("unrealized_plpc");
    assert("asset_class"@.len() == 11);
    assert("asset_id"@.len() == 8);
    assert("asset_marginable"@.len() == 16);
    assert("avg_entry_price"@.len() == 15);
    assert("change_today"@.len() == 12);
    assert("cost_basis"@.len() == 10);
    assert("current_price"@.len() == 13);
    assert("exchange"@.len() == 8);
    assert("lastday_price"@.len() == 13);
    assert("market_value"@.len() == 12);
    assert("qty"@.len() == 3);
    assert("side"@.len() == 4);
    assert("swap_rate"@.len() == 9);
    assert("symbol"@.len() == 6);
    assert("unrealized_intraday_pl"@.len() == 22);
    assert("unrealized_intraday_plpc"@.len() == 24);
    assert("unrealized_pl"@.len() == 13);
    assert("unrealized_plpc"@.len() == 15);
    assert("asset_id"@ != "exchange"@) by {
        assert("asset_id"@[0] == 'a');
        assert("exchange"@[0] == 'e');
    }
    assert("avg_entry_price"@ != "unrealized_plpc"@) by {
        assert("avg_entry_price"@[0] == 'a');
        assert("unrealized_plpc"@[0] == 'u');
    }
    assert("current_price"@ != "unrealized_pl"@) by {
        assert("current_price"@[0] == 'c');
        assert("unrealized_pl"@[0] == 'u');
    }
    assert("current_price"@ != "lastday_price"@) by {
        assert("current_price"@[0] == 'c');
        assert("lastday_price"@[0] == 'l');
    }
    assert("lastday_price"@ != "unrealized_pl"@) by {
        assert("lastday_price"@[0] == 'l');
        assert("unrealized_pl"@[0] == 'u');
    }
    assert("change_today"@ != "market_value"@) by {
        assert("change_today"@[0] == 'c');
        assert("market_value"@[0] == 'm');
    }
    crate::util::lemma_i64_digits_roundtrip(a.qty);
    lemma_side_wire_roundtrip(a.side);
    let base = seq![("asset_id"@, JsonV::Str(a.asset_id)), ("symbol"@, JsonV::Str(a.symbol)), ("exchange"@, JsonV::Str(a.exchange)), ("asset_class"@, JsonV::Str(a.asset_class)), ("avg_entry_price"@, JsonV::Str(a.avg_entry_price)), ("qty"@, JsonV::Str(crate::util::dec_digits_signed(a.qty as int))), ("side"@, JsonV::Str(a.side.spec_wire())), ("market_value"@, JsonV::Str(a.market_value)), ("cost_basis"@, JsonV::Str(a.cost_basis)), ("unrealized_pl"@, JsonV::Str(a.unrealized_pl)), ("unrealized_plpc"@, JsonV::Str(a.unrealized_plpc)), ("unrealized_intraday_pl"@, JsonV::Str(a.unrealized_intraday_pl)), ("unrealized_intraday_plpc"@, JsonV::Str(a.unrealized_intraday_plpc)), ("current_price"@, JsonV::Str(a.current_price)), ("lastday_price"@, JsonV::Str(a.lastday_price)), ("change_today"@, JsonV::Str(a.change_today))];
    let seg0 = opt_member_bool("asset_marginable"@, a.asset_marginable);
    let seg1 = opt_member_str("swap_rate"@, a.swap_rate);
    let pre0 = base + seg0;
    let pre1 = pre0 + seg1;
    assert(spec_open_position_members(a) == pre1);
    lemma_lookup_append(pre0, seg1, "asset_class"@);
    lemma_lookup_append(base, seg0, "asset_class"@);
    lemma_lookup_append(pre0, seg1, "asset_id"@);
    lemma_lookup_append(base, seg0, "asset_id"@);
    lemma_lookup_append(pre0, seg1, "asset_marginable"@);
    lemma_lookup_append(base, seg0, "asset_marginable"@);
    lemma_lookup_append(pre0, seg1, "avg_entry_price"@);
    lemma_lookup_append(base, seg0, "avg_entry_price"@);
    lemma_lookup_append(pre0, seg1, "change_today"@);
    lemma_lookup_append(base, seg0, "change_today"@);
    lemma_lookup_append(pre0, seg1, "cost_basis"@);
    lemma_lookup_append(base, seg0, "cost_basis"@);
    lemma_lookup_append(pre0, seg1, "current_price"@);
    lemma_lookup_append(base, seg0, "current_price"@);
    lemma_lookup_append(pre0, seg1, "exchange"@);
    lemma_lookup_append(base, seg0, "exchange"@);
    lemma_lookup_append(pre0, seg1, "lastday_price"@);
    lemma_lookup_append(base, seg0, "lastday_price"@);
    lemma_lookup_append(pre0, seg1, "market_value"@);
    lemma_lookup_append(base, seg0, "market_value"@);
    lemma_lookup_append(pre0, seg1, "qty"@);
    lemma_lookup_append(base, seg0, "qty"@);
    lemma_lookup_append(pre0, seg1, "side"@);
    lemma_lookup_append(base, seg0, "side"@);
    lemma_lookup_append(pre0, seg1, "swap_rate"@);
    lemma_lookup_append(base, seg0, "swap_rate"@);
    lemma_lookup_append(pre0, seg1, "symbol"@);
    lemma_lookup_append(base, seg0, "symbol"@);
    lemma_lookup_append(pre0, seg1, "unrealized_intraday_pl"@);
    lemma_lookup_append(base, seg0, "unrealized_intraday_pl"@);
    lemma_lookup_append(pre0, seg1, "unrealized_intraday_plpc"@);
    lemma_lookup_append(base, seg0, "unrealized_intraday_plpc"@);
    lemma_lookup_append(pre0, seg1, "unrealized_pl"@);
    lemma_lookup_append(base, seg0, "unrealized_pl"@);
    lemma_lookup_append(pre0, seg1, "unrealized_plpc"@);
    lemma_lookup_append(base, seg0, "unrealized_plpc"@);
}

impl crate::api::ApiResponse for Order {
    type Model = OrderV;

    open spec fn spec_decode_response(j: JsonV) -> Option<OrderV> {
        spec_dec_order(j)
    }

    open spec fn model(&self) -> OrderV {
        self@
    }

    fn decode_response(j: &Json) -> (r: Option<Self>) {
        decode_order(j)
    }
}

impl crate::api::ApiResponse for OpenPosition {
    type Model = OpenPositionV;

    open spec fn spec_decode_response(j: JsonV) -> Option<OpenPositionV> {
        spec_dec_open_position(j)
    }

    open spec fn model(&self) -> OpenPositionV {
        self@
    }

    fn decode_response(j: &Json) -> (r: Option<Self>) {
        decode_open_position(j)
    }
}
/// The models of a list of `OpenPosition` values.
pub open spec fn open_position_views(s: Seq<OpenPosition>) -> Seq<OpenPositionV> {
    Seq::new(s.len(), |i: int| s[i]@)
}

/// The encoded items of a list of `OpenPosition` models.
pub open spec fn spec_enc_open_position_seq(ss: Seq<OpenPositionV>) -> Seq<JsonV>
    decreases ss.len(),
{
    if ss.len() == 0 {
        Seq::empty()
    } else {
        spec_enc_open_position_seq(ss.drop_last()).push(spec_enc_open_position(ss[ss.len() - 1]))
    }
}

/// What decoding an array of `OpenPosition` items yields.
pub open spec fn spec_dec_open_position_seq(items: Seq<JsonV>) -> Option<Seq<OpenPositionV>>
    decreases items.len(),
{
    if items.len() == 0 {
        Some(Seq::empty())
    } else {
        match spec_dec_open_position_seq(items.drop_last()) {
            Some(pre) => match spec_dec_open_position(items[items.len() - 1]) {
                Some(x) => Some(pre.push(x)),
                None => None,
            },
            None => None,
        }
    }
}

/// Encoding a list of `OpenPosition` models and decoding it gives them back.
pub proof fn lemma_open_position_seq_roundtrip(ss: Seq<OpenPositionV>)
    ensures
        spec_dec_open_position_seq(spec_enc_open_position_seq(ss)) == Some(ss),
    decreases ss.len(),
{
    if ss.len() > 0 {
        lemma_open_position_seq_roundtrip(ss.drop_last());
        lemma_open_position_roundtrip(ss[ss.len() - 1]);
        let enc = spec_enc_open_position_seq(ss);
        assert(enc.drop_last() =~= spec_enc_open_position_seq(ss.drop_last()));
        assert(spec_dec_open_position_seq(enc).unwrap() =~= ss);
    } else {
        assert(spec_dec_open_position_seq(spec_enc_open_position_seq(ss)).unwrap() =~= ss);
    }
}

/// Encodes a list of `OpenPosition` values as a JSON array.
#[verifier::loop_isolation(false)]
pub fn encode_open_position_seq(v: &Vec<OpenPosition>) -> (j: Json)
    ensures
        j@ == JsonV::Arr(spec_enc_open_position_seq(open_position_views(v@))),
{
    let ghost dv = open_position_views(v@);
    let mut items: Vec<Json> = Vec::new();
    let mut i: usize = 0;
    while i < v.len()
        invariant
            0 <= i <= v@.len(),
            dv == open_position_views(v@),
            dv.len() == v@.len(),
            json_views(items@) == spec_enc_open_position_seq(dv.take(i as int)),
            items@.len() == i,
        decreases v@.len() - i,
    {
        let ghost pre = items@;
        let elem = encode_open_position(&v[i]);
        let ghost ev = elem;
        items.push(elem);
        proof {
            assert(items@.drop_last() =~= pre);
            assert(items@[items@.len() - 1] == ev);
            assert(json_views(items@) == json_views(pre).push(json_view(ev)));
            assert(dv.take(i + 1).drop_last() =~= dv.take(i as int));
            assert(dv.take(i + 1)[i as int] == dv[i as int]);
            assert(spec_enc_open_position_seq(dv.take(i + 1)) == spec_enc_open_position_seq(
                dv.take(i as int),
            ).push(spec_enc_open_position(dv[i as int])));
        }
        i = i + 1;
    }
    proof {
        assert(dv.take(v@.len() as int) =~= dv);
    }
    Json::Arr(items)
}

/// `spec_dec_open_position_seq` succeeds exactly when every item decodes, and
/// then decodes them in place.
pub proof fn lemma_dec_open_position_seq_index(s: Seq<JsonV>)
    ensures
        (spec_dec_open_position_seq(s) is Some) <==> (forall|i: int|
            0 <= i < s.len() ==> spec_dec_open_position(#[trigger] s[i]) is Some),
        spec_dec_open_position_seq(s) is Some ==> spec_dec_open_position_seq(s).unwrap().len() == s.len(),
        spec_dec_open_position_seq(s) is Some ==> forall|i: int|
            0 <= i < s.len() ==> #[trigger] spec_dec_open_position_seq(s).unwrap()[i]
                == spec_dec_open_position(s[i]).unwrap(),
    decreases s.len(),
{
    if s.len() > 0 {
        lemma_dec_open_position_seq_index(s.drop_last());
        assert(forall|i: int| 0 <= i < s.len() - 1 ==> #[trigger] s.drop_last()[i] == s[i]);
        if spec_dec_open_position_seq(s) is Some {
            assert(spec_dec_open_position_seq(s.drop_last()) is Some);
            assert(spec_dec_open_position(s[s.len() - 1]) is Some);
            assert forall|i: int| 0 <= i < s.len() implies spec_dec_open_position(
                #[trigger] s[i],
            ) is Some by {
                if i < s.len() - 1 {
                    assert(spec_dec_open_position(s.drop_last()[i]) is Some);
                }
            }
            assert forall|i: int|
                0 <= i < s.len() implies #[trigger] spec_dec_open_position_seq(s).unwrap()[i]
                == spec_dec_open_position(s[i]).unwrap() by {
                if i < s.len() - 1 {
                    assert(spec_dec_open_position_seq(s.drop_last()).unwrap()[i] == spec_dec_open_position(
                        s.drop_last()[i],
                    ).unwrap());
                }
            }
        } else {
            if forall|i: int| 0 <= i < s.len() ==> spec_dec_open_position(#[trigger] s[i]) is Some {
                assert forall|i: int|
                    0 <= i < s.len() - 1 implies spec_dec_open_position(
                    #[trigger] s.drop_last()[i],
                ) is Some by {
                    assert(s.drop_last()[i] == s[i]);
                }
                assert(spec_dec_open_position_seq(s.drop_last()) is Some);
                assert(spec_dec_open_position(s[s.len() - 1]) is Some);
                assert(spec_dec_open_position_seq(s) is Some);
            }
        }
    }
}

/// Decodes a JSON array of `OpenPosition` items.
#[verifier::loop_isolation(false)]
pub fn decode_open_position_seq(j: &Json) -> (r: Option<Vec<OpenPosition>>)
    ensures
        match r {
            Some(v) => j@ matches JsonV::Arr(items) && spec_dec_open_position_seq(items) == Some(
                open_position_views(v@),
            ),
            None => match j@ {
                JsonV::Arr(items) => spec_dec_open_position_seq(items) is None,
                _ => true,
            },
        },
{
    let items = match j.as_arr() {
        Some(items) => items,
        None => {
            return None;
        },
    };
    proof {
        lemma_json_views_index(items@);
    }
    let ghost iv = json_views(items@);
    let mut out: Vec<OpenPosition> = Vec::new();
    let mut i: usize = 0;
    while i < items.len()
        invariant
            0 <= i <= items@.len(),
            iv == json_views(items@),
            iv.len() == items@.len(),
            forall|q: int| 0 <= q < items@.len() ==> iv[q] == json_view(#[trigger] items@[q]),
            spec_dec_open_position_seq(iv.take(i as int)) is Some,
            open_position_views(out@) == spec_dec_open_position_seq(iv.take(i as int)).unwrap(),
            out@.len() == i,
        decreases items@.len() - i,
    {
        let x = match decode_open_position(&items[i]) {
            Some(x) => x,
            None => {
                proof {
                    lemma_dec_open_position_seq_index(iv);
                    assert(iv[i as int] == json_view(items@[i as int]));
                    assert(spec_dec_open_position(iv[i as int]) is None);
                }
                return None;
            },
        };
        let ghost preout = out@;
        let ghost xv = x@;
        out.push(x);
        proof {
            assert(out@.drop_last() =~= preout);
            assert(open_position_views(out@) =~= open_position_views(preout).push(xv));
            assert(iv.take(i + 1).drop_last() =~= iv.take(i as int));
            assert(iv.take(i + 1)[i as int] == iv[i as int]);
            assert(spec_dec_open_position_seq(iv.take(i + 1)).unwrap() =~= spec_dec_open_position_seq(
                iv.take(i as int),
            ).unwrap().push(xv));
        }
        i = i + 1;
    }
    proof {
        assert(iv.take(items@.len() as int) =~= iv);
    }
    Some(out)
}

impl crate::api::ApiResponse for Vec<OpenPosition> {
    type Model = Seq<OpenPositionV>;

    open spec fn spec_decode_response(j: JsonV) -> Option<Seq<OpenPositionV>> {
        match j {
            JsonV::Arr(items) => spec_dec_open_position_seq(items),
            _ => None,
        }
    }

    open spec fn model(&self) -> Seq<OpenPositionV> {
        open_position_views(self@)
    }

    fn decode_response(j: &Json) -> (r: Option<Self>) {
        decode_open_position_seq(j)
    }
}

} // verus!
