//! Market-data domain records: the clock, the trading calendar, bars,
//! quotes, trades, auctions and snapshots, each with its wire codec.

use vstd::prelude::*;

use crate::json::{
    member_views, obj_push, opt_member_bool, opt_member_i64_num, opt_member_str, spec_lookup,
    strs_jsonv, strs_to_json, json_view, json_views, lemma_json_views_index, lemma_member_views_index,
    lemma_lookup_append, lemma_strs_jsonv_roundtrip, lookup_bool, lookup_i64_num,
    lookup_i64_str, lookup_num, lookup_opt_bool, lookup_opt_i64_num, lookup_opt_str, lookup_str,
    lookup_strs, Json, JsonV,
};
use crate::model::{lemma_quote_zone_wire_roundtrip, QuoteZone};

verus! {
/// The market clock: whether the market is open now, and when it next opens and closes, as wire timestamps.
#[derive(Debug, Clone)]
pub struct Clock {
    pub timestamp: String,
    pub is_open: bool,
    pub next_open: String,
    pub next_close: String,
}

/// The model of a `Clock`.
pub struct ClockV {
    pub timestamp: Seq<char>,
    pub is_open: bool,
    pub next_open: Seq<char>,
    pub next_close: Seq<char>,
}

impl View for Clock {
    type V = ClockV;

    open spec fn view(&self) -> ClockV {
        ClockV {
            timestamp: self.timestamp@,
            is_open: self.is_open,
            next_open: self.next_open@,
            next_close: self.next_close@,
        }
    }
}

/// The wire members of an encoded `Clock`, in order, optional fields
/// contributing nothing when unset.
pub open spec fn spec_clock_members(a: ClockV) -> Seq<(Seq<char>, JsonV)> {
    seq![("timestamp"@, JsonV::Str(a.timestamp)), ("is_open"@, JsonV::Bool(a.is_open)), ("next_open"@, JsonV::Str(a.next_open)), ("next_close"@, JsonV::Str(a.next_close))]
}

/// The encoded form of a `Clock`.
pub open spec fn spec_enc_clock(a: ClockV) -> JsonV {
    JsonV::Obj(spec_clock_members(a))
}

/// What decoding a JSON value as a `Clock` yields.
pub open spec fn spec_dec_clock(j: JsonV) -> Option<ClockV> {
    match j {
        JsonV::Obj(f) => {
            if lookup_str(f, "timestamp"@) is Some && lookup_bool(f, "is_open"@) is Some && lookup_str(f, "next_open"@) is Some && lookup_str(f, "next_close"@) is Some {
                Some(ClockV {
                    timestamp: lookup_str(f, "timestamp"@).unwrap(),
                    is_open: lookup_bool(f, "is_open"@).unwrap(),
                    next_open: lookup_str(f, "next_open"@).unwrap(),
                    next_close: lookup_str(f, "next_close"@).unwrap(),
                })
            } else {
                None
            }
        },
        _ => None,
    }
}

/// Encodes a `Clock` as its wire object.
pub fn encode_clock(x: &Clock) -> (j: Json)
    ensures
        j@ == spec_enc_clock(x@),
{
    let mut f: Vec<(String, Json)> = Vec::new();
    obj_push(&mut f, "timestamp", Json::Str(x.timestamp.clone()));
    obj_push(&mut f, "is_open", Json::Bool(x.is_open));
    obj_push(&mut f, "next_open", Json::Str(x.next_open.clone()));
    obj_push(&mut f, "next_close", Json::Str(x.next_close.clone()));
    proof {
        assert(member_views(f@) =~= seq![("timestamp"@, JsonV::Str(x@.timestamp)), ("is_open"@, JsonV::Bool(x@.is_open)), ("next_open"@, JsonV::Str(x@.next_open)), ("next_close"@, JsonV::Str(x@.next_close))]);
    }
    let j = Json::Obj(f);
    proof {
        assert(member_views(f@) =~= spec_clock_members(x@));
    }
    j
}

/// Decodes a `Clock` from a JSON value.
pub fn decode_clock(j: &Json) -> (r: Option<Clock>)
    ensures
        match r {
            Some(x) => spec_dec_clock(j@) == Some(x@),
            None => spec_dec_clock(j@) is None,
        },
{
    let v_timestamp = match j.get_str("timestamp") {
        Some(v) => v,
        None => {
            return None;
        },
    };
    let v_is_open = match j.get_bool("is_open") {
        Some(v) => v,
        None => {
            return None;
        },
    };
    let v_next_open = match j.get_str("next_open") {
        Some(v) => v,
        None => {
            return None;
        },
    };
    let v_next_close = match j.get_str("next_close") {
        Some(v) => v,
        None => {
            return None;
        },
    };
    Some(Clock {
        timestamp: v_timestamp,
        is_open: v_is_open,
        next_open: v_next_open,
        next_close: v_next_close,
    })
}

/// Decoding an encoded `Clock` gives back the same data.
#[verifier::rlimit(100)]
pub proof fn lemma_clock_roundtrip(a: ClockV)
    ensures
        spec_dec_clock(spec_enc_clock(a)) == Some(a),
{
    reveal_with_fuel(spec_lookup, 8);
    reveal_strlit("is_open");
    reveal_strlit("next_close");
    reveal_strlit("next_open");
    reveal_strlit("timestamp");
    assert("is_open"@.len() == 7);
    assert("next_close"@.len() == 10);
    assert("next_open"@.len() == 9);
    assert("timestamp"@.len() == 9);
    assert("next_open"@ != "timestamp"@) by {
        assert("next_open"@[0] == 'n');
        assert("timestamp"@[0] == 't');
    }
}

/// One trading day of the calendar, with its session times.
#[derive(Debug, Clone)]
pub struct CalendarDay {
    pub date: String,
    pub open: String,
    pub close: String,
    pub settlement_date: String,
}

/// The model of a `CalendarDay`.
pub struct CalendarDayV {
    pub date: Seq<char>,
    pub open: Seq<char>,
    pub close: Seq<char>,
    pub settlement_date: Seq<char>,
}

impl View for CalendarDay {
    type V = CalendarDayV;

    open spec fn view(&self) -> CalendarDayV {
        CalendarDayV {
            date: self.date@,
            open: self.open@,
            close: self.close@,
            settlement_date: self.settlement_date@,
        }
    }
}

/// The wire members of an encoded `CalendarDay`, in order, optional fields
/// contributing nothing when unset.
pub open spec fn spec_calendar_day_members(a: CalendarDayV) -> Seq<(Seq<char>, JsonV)> {
    seq![("date"@, JsonV::Str(a.date)), ("open"@, JsonV::Str(a.open)), ("close"@, JsonV::Str(a.close)), ("settlement_date"@, JsonV::Str(a.settlement_date))]
}

/// The encoded form of a `CalendarDay`.
pub open spec fn spec_enc_calendar_day(a: CalendarDayV) -> JsonV {
    JsonV::Obj(spec_calendar_day_members(a))
}

/// What decoding a JSON value as a `CalendarDay` yields.
pub open spec fn spec_dec_calendar_day(j: JsonV) -> Option<CalendarDayV> {
    match j {
        JsonV::Obj(f) => {
            if lookup_str(f, "date"@) is Some && lookup_str(f, "open"@) is Some && lookup_str(f, "close"@) is Some && lookup_str(f, "settlement_date"@) is Some {
                Some(CalendarDayV {
                    date: lookup_str(f, "date"@).unwrap(),
                    open: lookup_str(f, "open"@).unwrap(),
                    close: lookup_str(f, "close"@).unwrap(),
                    settlement_date: lookup_str(f, "settlement_date"@).unwrap(),
                })
            } else {
                None
            }
        },
        _ => None,
    }
}

/// Encodes a `CalendarDay` as its wire object.
pub fn encode_calendar_day(x: &CalendarDay) -> (j: Json)
    ensures
        j@ == spec_enc_calendar_day(x@),
{
    let mut f: Vec<(String, Json)> = Vec::new();
    obj_push(&mut f, "date", Json::Str(x.date.clone()));
    obj_push(&mut f, "open", Json::Str(x.open.clone()));
    obj_push(&mut f, "close", Json::Str(x.close.clone()));
    obj_push(&mut f, "settlement_date", Json::Str(x.settlement_date.clone()));
    proof {
        assert(member_views(f@) =~= seq![("date"@, JsonV::Str(x@.date)), ("open"@, JsonV::Str(x@.open)), ("close"@, JsonV::Str(x@.close)), ("settlement_date"@, JsonV::Str(x@.settlement_date))]);
    }
    let j = Json::Obj(f);
    proof {
        assert(member_views(f@) =~= spec_calendar_day_members(x@));
    }
    j
}

/// Decodes a `CalendarDay` from a JSON value.
pub fn decode_calendar_day(j: &Json) -> (r: Option<CalendarDay>)
    ensures
        match r {
            Some(x) => spec_dec_calendar_day(j@) == Some(x@),
            None => spec_dec_calendar_day(j@) is None,
        },
{
    let v_date = match j.get_str("date") {
        Some(v) => v,
        None => {
            return None;
        },
    };
    let v_open = match j.get_str("open") {
        Some(v) => v,
        None => {
            return None;
        },
    };
    let v_close = match j.get_str("close") {
        Some(v) => v,
        None => {
            return None;
        },
    };
    let v_settlement_date = match j.get_str("settlement_date") {
        Some(v) => v,
        None => {
            return None;
        },
    };
    Some(CalendarDay {
        date: v_date,
        open: v_open,
        close: v_close,
        settlement_date: v_settlement_date,
    })
}

/// Decoding an encoded `CalendarDay` gives back the same data.
#[verifier::rlimit(100)]
pub proof fn lemma_calendar_day_roundtrip(a: CalendarDayV)
    ensures
        spec_dec_calendar_day(spec_enc_calendar_day(a)) == Some(a),
{
    reveal_with_fuel(spec_lookup, 8);
    reveal_strlit("close");
    reveal_strlit("date");
    reveal_strlit("open");
    reveal_strlit("settlement_date");
    assert("close"@.len() == 5);
    assert("date"@.len() == 4);
    assert("open"@.len() == 4);
    assert("settlement_date"@.len() == 15);
    assert("date"@ != "open"@) by {
        assert("date"@[0] == 'd');
        assert("open"@[0] == 'o');
    }
}

/// The models of a list of `CalendarDay` values.
pub open spec fn calendar_day_views(s: Seq<CalendarDay>) -> Seq<CalendarDayV> {
    Seq::new(s.len(), |i: int| s[i]@)
}

/// The encoded items of a list of `CalendarDay` models.
pub open spec fn spec_enc_calendar_day_seq(ss: Seq<CalendarDayV>) -> Seq<JsonV>
    decreases ss.len(),
{
    if ss.len() == 0 {
        Seq::empty()
    } else {
        spec_enc_calendar_day_seq(ss.drop_last()).push(spec_enc_calendar_day(ss[ss.len() - 1]))
    }
}

/// What decoding an array of `CalendarDay` items yields.
pub open spec fn spec_dec_calendar_day_seq(items: Seq<JsonV>) -> Option<Seq<CalendarDayV>>
    decreases items.len(),
{
    if items.len() == 0 {
        Some(Seq::empty())
    } else {
        match spec_dec_calendar_day_seq(items.drop_last()) {
            Some(pre) => match spec_dec_calendar_day(items[items.len() - 1]) {
                Some(x) => Some(pre.push(x)),
                None => None,
            },
            None => None,
        }
    }
}

/// Encoding a list of `CalendarDay` models and decoding it gives them back.
pub proof fn lemma_calendar_day_seq_roundtrip(ss: Seq<CalendarDayV>)
    ensures
        spec_dec_calendar_day_seq(spec_enc_calendar_day_seq(ss)) == Some(ss),
    decreases ss.len(),
{
    if ss.len() > 0 {
        lemma_calendar_day_seq_roundtrip(ss.drop_last());
        lemma_calendar_day_roundtrip(ss[ss.len() - 1]);
        let enc = spec_enc_calendar_day_seq(ss);
        assert(enc.drop_last() =~= spec_enc_calendar_day_seq(ss.drop_last()));
        assert(spec_dec_calendar_day_seq(enc).unwrap() =~= ss);
    } else {
        assert(spec_dec_calendar_day_seq(spec_enc_calendar_day_seq(ss)).unwrap() =~= ss);
    }
}

/// Encodes a list of `CalendarDay` values as a JSON array.
#[verifier::loop_isolation(false)]
pub fn encode_calendar_day_seq(v: &Vec<CalendarDay>) -> (j: Json)
    ensures
        j@ == JsonV::Arr(spec_enc_calendar_day_seq(calendar_day_views(v@))),
{
    let ghost dv = calendar_day_views(v@);
    let mut items: Vec<Json> = Vec::new();
    let mut i: usize = 0;
    while i < v.len()
        invariant
            0 <= i <= v@.len(),
            dv == calendar_day_views(v@),
            dv.len() == v@.len(),
            json_views(items@) == spec_enc_calendar_day_seq(dv.take(i as int)),
            items@.len() == i,
        decreases v@.len() - i,
    {
        let ghost pre = items@;
        let elem = encode_calendar_day(&v[i]);
        let ghost ev = elem;
        items.push(elem);
        proof {
            assert(items@.drop_last() =~= pre);
            assert(items@[items@.len() - 1] == ev);
            assert(json_views(items@) == json_views(pre).push(json_view(ev)));
            assert(dv.take(i + 1).drop_last() =~= dv.take(i as int));
            assert(dv.take(i + 1)[i as int] == dv[i as int]);
            assert(spec_enc_calendar_day_seq(dv.take(i + 1)) == spec_enc_calendar_day_seq(
                dv.take(i as int),
            ).push(spec_enc_calendar_day(dv[i as int])));
        }
        i = i + 1;
    }
    proof {
        assert(dv.take(v@.len() as int) =~= dv);
    }
    Json::Arr(items)
}

/// `spec_dec_calendar_day_seq` succeeds exactly when every item decodes, and
/// then decodes them in place.
pub proof fn lemma_dec_calendar_day_seq_index(s: Seq<JsonV>)
    ensures
        (spec_dec_calendar_day_seq(s) is Some) <==> (forall|i: int|
            0 <= i < s.len() ==> spec_dec_calendar_day(#[trigger] s[i]) is Some),
        spec_dec_calendar_day_seq(s) is Some ==> spec_dec_calendar_day_seq(s).unwrap().len() == s.len(),
        spec_dec_calendar_day_seq(s) is Some ==> forall|i: int|
            0 <= i < s.len() ==> #[trigger] spec_dec_calendar_day_seq(s).unwrap()[i]
                == spec_dec_calendar_day(s[i]).unwrap(),
    decreases s.len(),
{
    if s.len() > 0 {
        lemma_dec_calendar_day_seq_index(s.drop_last());
        assert(forall|i: int| 0 <= i < s.len() - 1 ==> #[trigger] s.drop_last()[i] == s[i]);
        if spec_dec_calendar_day_seq(s) is Some {
            assert(spec_dec_calendar_day_seq(s.drop_last()) is Some);
            assert(spec_dec_calendar_day(s[s.len() - 1]) is Some);
            assert forall|i: int| 0 <= i < s.len() implies spec_dec_calendar_day(
                #[trigger] s[i],
            ) is Some by {
                if i < s.len() - 1 {
                    assert(spec_dec_calendar_day(s.drop_last()[i]) is Some);
                }
            }
            assert forall|i: int|
                0 <= i < s.len() implies #[trigger] spec_dec_calendar_day_seq(s).unwrap()[i]
                == spec_dec_calendar_day(s[i]).unwrap() by {
                if i < s.len() - 1 {
                    assert(spec_dec_calendar_day_seq(s.drop_last()).unwrap()[i] == spec_dec_calendar_day(
                        s.drop_last()[i],
                    ).unwrap());
                }
            }
        } else {
            if forall|i: int| 0 <= i < s.len() ==> spec_dec_calendar_day(#[trigger] s[i]) is Some {
                assert forall|i: int|
                    0 <= i < s.len() - 1 implies spec_dec_calendar_day(
                    #[trigger] s.drop_last()[i],
                ) is Some by {
                    assert(s.drop_last()[i] == s[i]);
                }
                assert(spec_dec_calendar_day_seq(s.drop_last()) is Some);
                assert(spec_dec_calendar_day(s[s.len() - 1]) is Some);
                assert(spec_dec_calendar_day_seq(s) is Some);
            }
        }
    }
}

/// Decodes a JSON array of `CalendarDay` items.
#[verifier::loop_isolation(false)]
pub fn decode_calendar_day_seq(j: &Json) -> (r: Option<Vec<CalendarDay>>)
    ensures
        match r {
            Some(v) => j@ matches JsonV::Arr(items) && spec_dec_calendar_day_seq(items) == Some(
                calendar_day_views(v@),
            ),
            None => match j@ {
                JsonV::Arr(items) => spec_dec_calendar_day_seq(items) is None,
                _ => true,
            },
        },
{
    let items = match j.as_arr() {
        Some(items) => items,
        None => {
            return None;
        },
    };
    proof {
        lemma_json_views_index(items@);
    }
    let ghost iv = json_views(items@);
    let mut out: Vec<CalendarDay> = Vec::new();
    let mut i: usize = 0;
    while i < items.len()
        invariant
            0 <= i <= items@.len(),
            iv == json_views(items@),
            iv.len() == items@.len(),
            forall|q: int| 0 <= q < items@.len() ==> iv[q] == json_view(#[trigger] items@[q]),
            spec_dec_calendar_day_seq(iv.take(i as int)) is Some,
            calendar_day_views(out@) == spec_dec_calendar_day_seq(iv.take(i as int)).unwrap(),
            out@.len() == i,
        decreases items@.len() - i,
    {
        let x = match decode_calendar_day(&items[i]) {
            Some(x) => x,
            None => {
                proof {
                    lemma_dec_calendar_day_seq_index(iv);
                    assert(iv[i as int] == json_view(items@[i as int]));
                    assert(spec_dec_calendar_day(iv[i as int]) is None);
                }
                return None;
            },
        };
        let ghost preout = out@;
        let ghost xv = x@;
        out.push(x);
        proof {
            assert(out@.drop_last() =~= preout);
            assert(calendar_day_views(out@) =~= calendar_day_views(preout).push(xv));
            assert(iv.take(i + 1).drop_last() =~= iv.take(i as int));
            assert(iv.take(i + 1)[i as int] == iv[i as int]);
            assert(spec_dec_calendar_day_seq(iv.take(i + 1)).unwrap() =~= spec_dec_calendar_day_seq(
                iv.take(i as int),
            ).unwrap().push(xv));
        }
        i = i + 1;
    }
    proof {
        assert(iv.take(items@.len() as int) =~= iv);
    }
    Some(out)
}

/// One aggregated price bar; prices arrive as raw JSON numbers, kept lexically.
#[derive(Debug, Clone)]
pub struct HistoricalBar {
    pub timestamp: String,
    pub opening_price: String,
    pub high_price: String,
    pub low_price: String,
    pub closing_price: String,
    pub volume: i64,
    pub trade_count: i64,
    pub avg_vol_weighted: String,
}

/// The model of a `HistoricalBar`.
pub struct HistoricalBarV {
    pub timestamp: Seq<char>,
    pub opening_price: Seq<char>,
    pub high_price: Seq<char>,
    pub low_price: Seq<char>,
    pub closing_price: Seq<char>,
    pub volume: i64,
    pub trade_count: i64,
    pub avg_vol_weighted: Seq<char>,
}

impl View for HistoricalBar {
    type V = HistoricalBarV;

    open spec fn view(&self) -> HistoricalBarV {
        HistoricalBarV {
            timestamp: self.timestamp@,
            opening_price: self.opening_price@,
            high_price: self.high_price@,
            low_price: self.low_price@,
            closing_price: self.closing_price@,
            volume: self.volume,
            trade_count: self.trade_count,
            avg_vol_weighted: self.avg_vol_weighted@,
        }
    }
}

impl HistoricalBarV {
    /// Numeric fields hold well-formed number literals, so encoding
    /// yields valid JSON source.
    pub open spec fn wf(self) -> bool {
        crate::json::wf_number(self.opening_price) && crate::json::wf_number(self.high_price) && crate::json::wf_number(self.low_price) && crate::json::wf_number(self.closing_price) && crate::json::wf_number(self.avg_vol_weighted)
    }
}

/// The wire members of an encoded `HistoricalBar`, in order, optional fields
/// contributing nothing when unset.
pub open spec fn spec_historical_bar_members(a: HistoricalBarV) -> Seq<(Seq<char>, JsonV)> {
    seq![("t"@, JsonV::Str(a.timestamp)), ("o"@, JsonV::Num(a.opening_price)), ("h"@, JsonV::Num(a.high_price)), ("l"@, JsonV::Num(a.low_price)), ("c"@, JsonV::Num(a.closing_price)), ("v"@, JsonV::Num(crate::util::dec_digits_signed(a.volume as int))), ("n"@, JsonV::Num(crate::util::dec_digits_signed(a.trade_count as int))), ("vw"@, JsonV::Num(a.avg_vol_weighted))]
}

/// The encoded form of a `HistoricalBar`.
pub open spec fn spec_enc_historical_bar(a: HistoricalBarV) -> JsonV {
    JsonV::Obj(spec_historical_bar_members(a))
}

/// What decoding a JSON value as a `HistoricalBar` yields.
pub open spec fn spec_dec_historical_bar(j: JsonV) -> Option<HistoricalBarV> {
    match j {
        JsonV::Obj(f) => {
            if lookup_str(f, "t"@) is Some && lookup_num(f, "o"@) is Some && lookup_num(f, "h"@) is Some && lookup_num(f, "l"@) is Some && lookup_num(f, "c"@) is Some && lookup_i64_num(f, "v"@) is Some && lookup_i64_num(f, "n"@) is Some && lookup_num(f, "vw"@) is Some {
                Some(HistoricalBarV {
                    timestamp: lookup_str(f, "t"@).unwrap(),
                    opening_price: lookup_num(f, "o"@).unwrap(),
                    high_price: lookup_num(f, "h"@).unwrap(),
                    low_price: lookup_num(f, "l"@).unwrap(),
                    closing_price: lookup_num(f, "c"@).unwrap(),
                    volume: lookup_i64_num(f, "v"@).unwrap(),
                    trade_count: lookup_i64_num(f, "n"@).unwrap(),
                    avg_vol_weighted: lookup_num(f, "vw"@).unwrap(),
                })
            } else {
                None
            }
        },
        _ => None,
    }
}

/// Encodes a `HistoricalBar` as its wire object.
pub fn encode_historical_bar(x: &HistoricalBar) -> (j: Json)
    ensures
        j@ == spec_enc_historical_bar(x@),
{
    let mut f: Vec<(String, Json)> = Vec::new();
    obj_push(&mut f, "t", Json::Str(x.timestamp.clone()));
    obj_push(&mut f, "o", Json::Num(x.opening_price.clone()));
    obj_push(&mut f, "h", Json::Num(x.high_price.clone()));
    obj_push(&mut f, "l", Json::Num(x.low_price.clone()));
    obj_push(&mut f, "c", Json::Num(x.closing_price.clone()));
    obj_push(&mut f, "v", Json::Num(crate::util::i64_to_string(x.volume)));
    obj_push(&mut f, "n", Json::Num(crate::util::i64_to_string(x.trade_count)));
    obj_push(&mut f, "vw", Json::Num(x.avg_vol_weighted.clone()));
    proof {
        assert(member_views(f@) =~= seq![("t"@, JsonV::Str(x@.timestamp)), ("o"@, JsonV::Num(x@.opening_price)), ("h"@, JsonV::Num(x@.high_price)), ("l"@, JsonV::Num(x@.low_price)), ("c"@, JsonV::Num(x@.closing_price)), ("v"@, JsonV::Num(crate::util::dec_digits_signed(x@.volume as int))), ("n"@, JsonV::Num(crate::util::dec_digits_signed(x@.trade_count as int))), ("vw"@, JsonV::Num(x@.avg_vol_weighted))]);
    }
    let j = Json::Obj(f);
    proof {
        assert(member_views(f@) =~= spec_historical_bar_members(x@));
    }
    j
}

/// Decodes a `HistoricalBar` from a JSON value.
pub fn decode_historical_bar(j: &Json) -> (r: Option<HistoricalBar>)
    ensures
        match r {
            Some(x) => spec_dec_historical_bar(j@) == Some(x@),
            None => spec_dec_historical_bar(j@) is None,
        },
{
    let v_timestamp = match j.get_str("t") {
        Some(v) => v,
        None => {
            return None;
        },
    };
    let v_opening_price = match j.get_num("o") {
        Some(v) => v,
        None => {
            return None;
        },
    };
    let v_high_price = match j.get_num("h") {
        Some(v) => v,
        None => {
            return None;
        },
    };
    let v_low_price = match j.get_num("l") {
        Some(v) => v,
        None => {
            return None;
        },
    };
    let v_closing_price = match j.get_num("c") {
        Some(v) => v,
        None => {
            return None;
        },
    };
    let v_volume = match j.get_i64_num("v") {
        Some(v) => v,
        None => {
            return None;
        },
    };
    let v_trade_count = match j.get_i64_num("n") {
        Some(v) => v,
        None => {
            return None;
        },
    };
    let v_avg_vol_weighted = match j.get_num("vw") {
        Some(v) => v,
        None => {
            return None;
        },
    };
    Some(HistoricalBar {
        timestamp: v_timestamp,
        opening_price: v_opening_price,
        high_price: v_high_price,
        low_price: v_low_price,
        closing_price: v_closing_price,
        volume: v_volume,
        trade_count: v_trade_count,
        avg_vol_weighted: v_avg_vol_weighted,
    })
}

/// Decoding an encoded `HistoricalBar` gives back the same data.
#[verifier::rlimit(100)]
pub proof fn lemma_historical_bar_roundtrip(a: HistoricalBarV)
    requires
        a.wf(),
    ensures
        spec_dec_historical_bar(spec_enc_historical_bar(a)) == Some(a),
{
    reveal_with_fuel(spec_lookup, 12);
    reveal_strlit("c");
    reveal_strlit("h");
    reveal_strlit("l");
    reveal_strlit("n");
    reveal_strlit("o");
    reveal_strlit("t");
    reveal_strlit("v");
    reveal_strlit("vw");
    assert("c"@.len() == 1);
    assert("h"@.len() == 1);
    assert("l"@.len() == 1);
    assert("n"@.len() == 1);
    assert("o"@.len() == 1);
    assert("t"@.len() == 1);
    assert("v"@.len() == 1);
    assert("vw"@.len() == 2);
    assert("t"@ != "v"@) by {
        assert("t"@[0] == 't');
        assert("v"@[0] == 'v');
    }
    assert("o"@ != "t"@) by {
        assert("o"@[0] == 'o');
        assert("t"@[0] == 't');
    }
    assert("o"@ != "v"@) by {
        assert("o"@[0] == 'o');
        assert("v"@[0] == 'v');
    }
    assert("h"@ != "t"@) by {
        assert("h"@[0] == 'h');
        assert("t"@[0] == 't');
    }
    assert("h"@ != "o"@) by {
        assert("h"@[0] == 'h');
        assert("o"@[0] == 'o');
    }
    assert("h"@ != "l"@) by {
        assert("h"@[0] == 'h');
        assert("l"@[0] == 'l');
    }
    assert("h"@ != "v"@) by {
        assert("h"@[0] == 'h');
        assert("v"@[0] == 'v');
    }
    assert("h"@ != "n"@) by {
        assert("h"@[0] == 'h');
        assert("n"@[0] == 'n');
    }
    assert("l"@ != "t"@) by {
        assert("l"@[0] == 'l');
        assert("t"@[0] == 't');
    }
    assert("l"@ != "o"@) by {
        assert("l"@[0] == 'l');
        assert("o"@[0] == 'o');
    }
    assert("l"@ != "v"@) by {
        assert("l"@[0] == 'l');
        assert("v"@[0] == 'v');
    }
    assert("l"@ != "n"@) by {
        assert("l"@[0] == 'l');
        assert("n"@[0] == 'n');
    }
    assert("c"@ != "t"@) by {
        assert("c"@[0] == 'c');
        assert("t"@[0] == 't');
    }
    assert("c"@ != "o"@) by {
        assert("c"@[0] == 'c');
        assert("o"@[0] == 'o');
    }
    assert("c"@ != "h"@) by {
        assert("c"@[0] == 'c');
        assert("h"@[0] == 'h');
    }
    assert("c"@ != "l"@) by {
        assert("c"@[0] == 'c');
        assert("l"@[0] == 'l');
    }
    assert("c"@ != "v"@) by {
        assert("c"@[0] == 'c');
        assert("v"@[0] == 'v');
    }
    assert("c"@ != "n"@) by {
        assert("c"@[0] == 'c');
        assert("n"@[0] == 'n');
    }
    assert("n"@ != "t"@) by {
        assert("n"@[0] == 'n');
        assert("t"@[0] == 't');
    }
    assert("n"@ != "o"@) by {
        assert("n"@[0] == 'n');
        assert("o"@[0] == 'o');
    }
    assert("n"@ != "v"@) by {
        assert("n"@[0] == 'n');
        assert("v"@[0] == 'v');
    }
    crate::util::lemma_i64_digits_roundtrip(a.volume);
    crate::util::lemma_i64_digits_roundtrip(a.trade_count);
}

/// The models of a list of `HistoricalBar` values.
pub open spec fn historical_bar_views(s: Seq<HistoricalBar>) -> Seq<HistoricalBarV> {
    Seq::new(s.len(), |i: int| s[i]@)
}

/// The encoded items of a list of `HistoricalBar` models.
pub open spec fn spec_enc_historical_bar_seq(ss: Seq<HistoricalBarV>) -> Seq<JsonV>
    decreases ss.len(),
{
    if ss.len() == 0 {
        Seq::empty()
    } else {
        spec_enc_historical_bar_seq(ss.drop_last()).push(spec_enc_historical_bar(ss[ss.len() - 1]))
    }
}

/// What decoding an array of `HistoricalBar` items yields.
pub open spec fn spec_dec_historical_bar_seq(items: Seq<JsonV>) -> Option<Seq<HistoricalBarV>>
    decreases items.len(),
{
    if items.len() == 0 {
        Some(Seq::empty())
    } else {
        match spec_dec_historical_bar_seq(items.drop_last()) {
            Some(pre) => match spec_dec_historical_bar(items[items.len() - 1]) {
                Some(x) => Some(pre.push(x)),
                None => None,
            },
            None => None,
        }
    }
}

/// Encoding a list of `HistoricalBar` models and decoding it gives them back.
pub proof fn lemma_historical_bar_seq_roundtrip(ss: Seq<HistoricalBarV>)
    requires
        forall|i: int| 0 <= i < ss.len() ==> (#[trigger] ss[i]).wf(),
    ensures
        spec_dec_historical_bar_seq(spec_enc_historical_bar_seq(ss)) == Some(ss),
    decreases ss.len(),
{
    if ss.len() > 0 {
        assert(forall|i: int|
            0 <= i < ss.len() - 1 ==> (#[trigger] ss.drop_last()[i]) == ss[i]);
        lemma_historical_bar_seq_roundtrip(ss.drop_last());
        lemma_historical_bar_roundtrip(ss[ss.len() - 1]);
        let enc = spec_enc_historical_bar_seq(ss);
        assert(enc.drop_last() =~= spec_enc_historical_bar_seq(ss.drop_last()));
        assert(spec_dec_historical_bar_seq(enc).unwrap() =~= ss);
    } else {
        assert(spec_dec_historical_bar_seq(spec_enc_historical_bar_seq(ss)).unwrap() =~= ss);
    }
}

/// Encodes a list of `HistoricalBar` values as a JSON array.
#[verifier::loop_isolation(false)]
pub fn encode_historical_bar_seq(v: &Vec<HistoricalBar>) -> (j: Json)
    ensures
        j@ == JsonV::Arr(spec_enc_historical_bar_seq(historical_bar_views(v@))),
{
    let ghost dv = historical_bar_views(v@);
    let mut items: Vec<Json> = Vec::new();
    let mut i: usize = 0;
    while i < v.len()
        invariant
            0 <= i <= v@.len(),
            dv == historical_bar_views(v@),
            dv.len() == v@.len(),
            json_views(items@) == spec_enc_historical_bar_seq(dv.take(i as int)),
            items@.len() == i,
        decreases v@.len() - i,
    {
        let ghost pre = items@;
        let elem = encode_historical_bar(&v[i]);
        let ghost ev = elem;
        items.push(elem);
        proof {
            assert(items@.drop_last() =~= pre);
            assert(items@[items@.len() - 1] == ev);
            assert(json_views(items@) == json_views(pre).push(json_view(ev)));
            assert(dv.take(i + 1).drop_last() =~= dv.take(i as int));
            assert(dv.take(i + 1)[i as int] == dv[i as int]);
            assert(spec_enc_historical_bar_seq(dv.take(i + 1)) == spec_enc_historical_bar_seq(
                dv.take(i as int),
            ).push(spec_enc_historical_bar(dv[i as int])));
        }
        i = i + 1;
    }
    proof {
        assert(dv.take(v@.len() as int) =~= dv);
    }
    Json::Arr(items)
}

/// `spec_dec_historical_bar_seq` succeeds exactly when every item decodes, and
/// then decodes them in place.
pub proof fn lemma_dec_historical_bar_seq_index(s: Seq<JsonV>)
    ensures
        (spec_dec_historical_bar_seq(s) is Some) <==> (forall|i: int|
            0 <= i < s.len() ==> spec_dec_historical_bar(#[trigger] s[i]) is Some),
        spec_dec_historical_bar_seq(s) is Some ==> spec_dec_historical_bar_seq(s).unwrap().len() == s.len(),
        spec_dec_historical_bar_seq(s) is Some ==> forall|i: int|
            0 <= i < s.len() ==> #[trigger] spec_dec_historical_bar_seq(s).unwrap()[i]
                == spec_dec_historical_bar(s[i]).unwrap(),
    decreases s.len(),
{
    if s.len() > 0 {
        lemma_dec_historical_bar_seq_index(s.drop_last());
        assert(forall|i: int| 0 <= i < s.len() - 1 ==> #[trigger] s.drop_last()[i] == s[i]);
        if spec_dec_historical_bar_seq(s) is Some {
            assert(spec_dec_historical_bar_seq(s.drop_last()) is Some);
            assert(spec_dec_historical_bar(s[s.len() - 1]) is Some);
            assert forall|i: int| 0 <= i < s.len() implies spec_dec_historical_bar(
                #[trigger] s[i],
            ) is Some by {
                if i < s.len() - 1 {
                    assert(spec_dec_historical_bar(s.drop_last()[i]) is Some);
                }
            }
            assert forall|i: int|
                0 <= i < s.len() implies #[trigger] spec_dec_historical_bar_seq(s).unwrap()[i]
                == spec_dec_historical_bar(s[i]).unwrap() by {
                if i < s.len() - 1 {
                    assert(spec_dec_historical_bar_seq(s.drop_last()).unwrap()[i] == spec_dec_historical_bar(
                        s.drop_last()[i],
                    ).unwrap());
                }
            }
        } else {
            if forall|i: int| 0 <= i < s.len() ==> spec_dec_historical_bar(#[trigger] s[i]) is Some {
                assert forall|i: int|
                    0 <= i < s.len() - 1 implies spec_dec_historical_bar(
                    #[trigger] s.drop_last()[i],
                ) is Some by {
                    assert(s.drop_last()[i] == s[i]);
                }
                assert(spec_dec_historical_bar_seq(s.drop_last()) is Some);
                assert(spec_dec_historical_bar(s[s.len() - 1]) is Some);
                assert(spec_dec_historical_bar_seq(s) is Some);
            }
        }
    }
}

/// Decodes a JSON array of `HistoricalBar` items.
#[verifier::loop_isolation(false)]
pub fn decode_historical_bar_seq(j: &Json) -> (r: Option<Vec<HistoricalBar>>)
    ensures
        match r {
            Some(v) => j@ matches JsonV::Arr(items) && spec_dec_historical_bar_seq(items) == Some(
                historical_bar_views(v@),
            ),
            None => match j@ {
                JsonV::Arr(items) => spec_dec_historical_bar_seq(items) is None,
                _ => true,
            },
        },
{
    let items = match j.as_arr() {
        Some(items) => items,
        None => {
            return None;
        },
    };
    proof {
        lemma_json_views_index(items@);
    }
    let ghost iv = json_views(items@);
    let mut out: Vec<HistoricalBar> = Vec::new();
    let mut i: usize = 0;
    while i < items.len()
        invariant
            0 <= i <= items@.len(),
            iv == json_views(items@),
            iv.len() == items@.len(),
            forall|q: int| 0 <= q < items@.len() ==> iv[q] == json_view(#[trigger] items@[q]),
            spec_dec_historical_bar_seq(iv.take(i as int)) is Some,
            historical_bar_views(out@) == spec_dec_historical_bar_seq(iv.take(i as int)).unwrap(),
            out@.len() == i,
        decreases items@.len() - i,
    {
        let x = match decode_historical_bar(&items[i]) {
            Some(x) => x,
            None => {
                proof {
                    lemma_dec_historical_bar_seq_index(iv);
                    assert(iv[i as int] == json_view(items@[i as int]));
                    assert(spec_dec_historical_bar(iv[i as int]) is None);
                }
                return None;
            },
        };
        let ghost preout = out@;
        let ghost xv = x@;
        out.push(x);
        proof {
            assert(out@.drop_last() =~= preout);
            assert(historical_bar_views(out@) =~= historical_bar_views(preout).push(xv));
            assert(iv.take(i + 1).drop_last() =~= iv.take(i as int));
            assert(iv.take(i + 1)[i as int] == iv[i as int]);
            assert(spec_dec_historical_bar_seq(iv.take(i + 1)).unwrap() =~= spec_dec_historical_bar_seq(
                iv.take(i as int),
            ).unwrap().push(xv));
        }
        i = i + 1;
    }
    proof {
        assert(iv.take(items@.len() as int) =~= iv);
    }
    Some(out)
}

/// The most recent bars of the requested symbols.
#[derive(Debug, Clone)]
pub struct LatestBars {
    pub bars: Vec<HistoricalBar>,
    pub currency: Option<String>,
}

/// The model of a `LatestBars`.
pub struct LatestBarsV {
    pub bars: Seq<HistoricalBarV>,
    pub currency: Option<Seq<char>>,
}

impl View for LatestBars {
    type V = LatestBarsV;

    open spec fn view(&self) -> LatestBarsV {
        LatestBarsV {
            bars: Seq::new(self.bars@.len() as nat, |i: int| self.bars@[i]@),
            currency: match self.currency { Some(s) => Some(s@), None => None },
        }
    }
}

impl LatestBarsV {
    /// Numeric fields hold well-formed number literals, so encoding
    /// yields valid JSON source.
    pub open spec fn wf(self) -> bool {
        forall|i: int| 0 <= i < self.bars.len() ==> (#[trigger] self.bars[i]).wf()
    }
}

/// The wire members of an encoded `LatestBars`, in order, optional fields
/// contributing nothing when unset.
pub open spec fn spec_latest_bars_members(a: LatestBarsV) -> Seq<(Seq<char>, JsonV)> {
    seq![("bars"@, JsonV::Arr(spec_enc_historical_bar_seq(a.bars)))] + opt_member_str("currency"@, a.currency)
}

/// The encoded form of a `LatestBars`.
pub open spec fn spec_enc_latest_bars(a: LatestBarsV) -> JsonV {
    JsonV::Obj(spec_latest_bars_members(a))
}

/// What decoding a JSON value as a `LatestBars` yields.
pub open spec fn spec_dec_latest_bars(j: JsonV) -> Option<LatestBarsV> {
    match j {
        JsonV::Obj(f) => {
            if (match spec_lookup(f, "bars"@) { Some(JsonV::Arr(items)) => spec_dec_historical_bar_seq(items), Some(_) => None, None => None }) is Some && lookup_opt_str(f, "currency"@) is Some {
                Some(LatestBarsV {
                    bars: (match spec_lookup(f, "bars"@) { Some(JsonV::Arr(items)) => spec_dec_historical_bar_seq(items), Some(_) => None, None => None }).unwrap(),
                    currency: lookup_opt_str(f, "currency"@).unwrap(),
                })
            } else {
                None
            }
        },
        _ => None,
    }
}

/// Encodes a `LatestBars` as its wire object.
pub fn encode_latest_bars(x: &LatestBars) -> (j: Json)
    ensures
        j@ == spec_enc_latest_bars(x@),
{
    let mut f: Vec<(String, Json)> = Vec::new();
    obj_push(&mut f, "bars", encode_historical_bar_seq(&x.bars));
    proof {
        assert(member_views(f@) =~= seq![("bars"@, JsonV::Arr(spec_enc_historical_bar_seq(x@.bars)))]);
    }
    let ghost seg0 = member_views(f@);
    match &x.currency {
        Some(v) => {
            obj_push(&mut f, "currency", Json::Str(v.clone()));
        },
        None => {},
    }
    proof {
        assert(member_views(f@) =~= seg0 + opt_member_str("currency"@, x@.currency));
    }
    let j = Json::Obj(f);
    proof {
        assert(member_views(f@) =~= spec_latest_bars_members(x@));
    }
    j
}

/// Decodes a `LatestBars` from a JSON value.
pub fn decode_latest_bars(j: &Json) -> (r: Option<LatestBars>)
    ensures
        match r {
            Some(x) => spec_dec_latest_bars(j@) == Some(x@),
            None => spec_dec_latest_bars(j@) is None,
        },
{
    let v_bars = match j.get("bars") {
        Some(m) => match decode_historical_bar_seq(m) {
            Some(x) => x,
            None => {
                return None;
            },
        },
        None => {
            return None;
        },
    };
    let v_currency = match j.get_opt_str("currency") {
        Some(v) => v,
        None => {
            return None;
        },
    };
    Some(LatestBars {
        bars: v_bars,
        currency: v_currency,
    })
}

/// Decoding an encoded `LatestBars` gives back the same data.
#[verifier::rlimit(100)]
pub proof fn lemma_latest_bars_roundtrip(a: LatestBarsV)
    requires
        a.wf(),
    ensures
        spec_dec_latest_bars(spec_enc_latest_bars(a)) == Some(a),
{
    reveal_with_fuel(spec_lookup, 6);
    reveal_strlit("bars");
    reveal_strlit("currency");
    assert("bars"@.len() == 4);
    assert("currency"@.len() == 8);
    lemma_historical_bar_seq_roundtrip(a.bars);
    let base = seq![("bars"@, JsonV::Arr(spec_enc_historical_bar_seq(a.bars)))];
    let seg0 = opt_member_str("currency"@, a.currency);
    let pre0 = base + seg0;
    assert(spec_latest_bars_members(a) == pre0);
    lemma_lookup_append(base, seg0, "bars"@);
    lemma_lookup_append(base, seg0, "currency"@);
}

/// One top-of-book quote; prices arrive as raw JSON numbers.
#[derive(Debug, Clone)]
pub struct Quote {
    pub timestamp: String,
    pub bid_exchange: String,
    pub bid_price: String,
    pub bid_size: i64,
    pub ask_exchange: String,
    pub ask_price: String,
    pub ask_size: i64,
    pub condition_flags: Vec<String>,
    pub zone: QuoteZone,
}

/// The model of a `Quote`.
pub struct QuoteV {
    pub timestamp: Seq<char>,
    pub bid_exchange: Seq<char>,
    pub bid_price: Seq<char>,
    pub bid_size: i64,
    pub ask_exchange: Seq<char>,
    pub ask_price: Seq<char>,
    pub ask_size: i64,
    pub condition_flags: Seq<Seq<char>>,
    pub zone: QuoteZone,
}

impl View for Quote {
    type V = QuoteV;

    open spec fn view(&self) -> QuoteV {
        QuoteV {
            timestamp: self.timestamp@,
            bid_exchange: self.bid_exchange@,
            bid_price: self.bid_price@,
            bid_size: self.bid_size,
            ask_exchange: self.ask_exchange@,
            ask_price: self.ask_price@,
            ask_size: self.ask_size,
            condition_flags: self.condition_flags.deep_view(),
            zone: self.zone,
        }
    }
}

impl QuoteV {
    /// Numeric fields hold well-formed number literals, so encoding
    /// yields valid JSON source.
    pub open spec fn wf(self) -> bool {
        crate::json::wf_number(self.bid_price) && crate::json::wf_number(self.ask_price)
    }
}

/// The wire members of an encoded `Quote`, in order, optional fields
/// contributing nothing when unset.
pub open spec fn spec_quote_members(a: QuoteV) -> Seq<(Seq<char>, JsonV)> {
    seq![("t"@, JsonV::Str(a.timestamp)), ("bx"@, JsonV::Str(a.bid_exchange)), ("bp"@, JsonV::Num(a.bid_price)), ("bs"@, JsonV::Num(crate::util::dec_digits_signed(a.bid_size as int))), ("ax"@, JsonV::Str(a.ask_exchange)), ("ap"@, JsonV::Num(a.ask_price)), ("as"@, JsonV::Num(crate::util::dec_digits_signed(a.ask_size as int))), ("c"@, JsonV::Arr(strs_jsonv(a.condition_flags))), ("z"@, JsonV::Str(a.zone.spec_wire()))]
}

/// The encoded form of a `Quote`.
pub open spec fn spec_enc_quote(a: QuoteV) -> JsonV {
    JsonV::Obj(spec_quote_members(a))
}

/// What decoding a JSON value as a `Quote` yields.
pub open spec fn spec_dec_quote(j: JsonV) -> Option<QuoteV> {
    match j {
        JsonV::Obj(f) => {
            if lookup_str(f, "t"@) is Some && lookup_str(f, "bx"@) is Some && lookup_num(f, "bp"@) is Some && lookup_i64_num(f, "bs"@) is Some && lookup_str(f, "ax"@) is Some && lookup_num(f, "ap"@) is Some && lookup_i64_num(f, "as"@) is Some && lookup_strs(f, "c"@) is Some && (match lookup_str(f, "z"@) { Some(s) => QuoteZone::spec_from_wire(s), None => None }) is Some {
                Some(QuoteV {
                    timestamp: lookup_str(f, "t"@).unwrap(),
                    bid_exchange: lookup_str(f, "bx"@).unwrap(),
                    bid_price: lookup_num(f, "bp"@).unwrap(),
                    bid_size: lookup_i64_num(f, "bs"@).unwrap(),
                    ask_exchange: lookup_str(f, "ax"@).unwrap(),
                    ask_price: lookup_num(f, "ap"@).unwrap(),
                    ask_size: lookup_i64_num(f, "as"@).unwrap(),
                    condition_flags: lookup_strs(f, "c"@).unwrap(),
                    zone: (match lookup_str(f, "z"@) { Some(s) => QuoteZone::spec_from_wire(s), None => None }).unwrap(),
                })
            } else {
                None
            }
        },
        _ => None,
    }
}

/// Encodes a `Quote` as its wire object.
pub fn encode_quote(x: &Quote) -> (j: Json)
    ensures
        j@ == spec_enc_quote(x@),
{
    let mut f: Vec<(String, Json)> = Vec::new();
    obj_push(&mut f, "t", Json::Str(x.timestamp.clone()));
    obj_push(&mut f, "bx", Json::Str(x.bid_exchange.clone()));
    obj_push(&mut f, "bp", Json::Num(x.bid_price.clone()));
    obj_push(&mut f, "bs", Json::Num(crate::util::i64_to_string(x.bid_size)));
    obj_push(&mut f, "ax", Json::Str(x.ask_exchange.clone()));
    obj_push(&mut f, "ap", Json::Num(x.ask_price.clone()));
    obj_push(&mut f, "as", Json::Num(crate::util::i64_to_string(x.ask_size)));
    obj_push(&mut f, "c", strs_to_json(&x.condition_flags));
    obj_push(&mut f, "z", Json::Str(x.zone.wire_name().to_owned()));
    proof {
        assert(member_views(f@) =~= seq![("t"@, JsonV::Str(x@.timestamp)), ("bx"@, JsonV::Str(x@.bid_exchange)), ("bp"@, JsonV::Num(x@.bid_price)), ("bs"@, JsonV::Num(crate::util::dec_digits_signed(x@.bid_size as int))), ("ax"@, JsonV::Str(x@.ask_exchange)), ("ap"@, JsonV::Num(x@.ask_price)), ("as"@, JsonV::Num(crate::util::dec_digits_signed(x@.ask_size as int))), ("c"@, JsonV::Arr(strs_jsonv(x@.condition_flags))), ("z"@, JsonV::Str(x@.zone.spec_wire()))]);
    }
    let j = Json::Obj(f);
    proof {
        assert(member_views(f@) =~= spec_quote_members(x@));
    }
    j
}

/// Decodes a `Quote` from a JSON value.
pub fn decode_quote(j: &Json) -> (r: Option<Quote>)
    ensures
        match r {
            Some(x) => spec_dec_quote(j@) == Some(x@),
            None => spec_dec_quote(j@) is None,
        },
{
    let v_timestamp = match j.get_str("t") {
        Some(v) => v,
        None => {
            return None;
        },
    };
    let v_bid_exchange = match j.get_str("bx") {
        Some(v) => v,
        None => {
            return None;
        },
    };
    let v_bid_price = match j.get_num("bp") {
        Some(v) => v,
        None => {
            return None;
        },
    };
    let v_bid_size = match j.get_i64_num("bs") {
        Some(v) => v,
        None => {
            return None;
        },
    };
    let v_ask_exchange = match j.get_str("ax") {
        Some(v) => v,
        None => {
            return None;
        },
    };
    let v_ask_price = match j.get_num("ap") {
        Some(v) => v,
        None => {
            return None;
        },
    };
    let v_ask_size = match j.get_i64_num("as") {
        Some(v) => v,
        None => {
            return None;
        },
    };
    let v_condition_flags = match j.get_strs("c") {
        Some(v) => v,
        None => {
            return None;
        },
    };
    let v_zone = match j.get_str("z") {
        Some(s) => match QuoteZone::from_wire(s.as_str()) {
            Some(e) => e,
            None => {
                return None;
            },
        },
        None => {
            return None;
        },
    };
    Some(Quote {
        timestamp: v_timestamp,
        bid_exchange: v_bid_exchange,
        bid_price: v_bid_price,
        bid_size: v_bid_size,
        ask_exchange: v_ask_exchange,
        ask_price: v_ask_price,
        ask_size: v_ask_size,
        condition_flags: v_condition_flags,
        zone: v_zone,
    })
}

/// Decoding an encoded `Quote` gives back the same data.
#[verifier::rlimit(100)]
pub proof fn lemma_quote_roundtrip(a: QuoteV)
    requires
        a.wf(),
    ensures
        spec_dec_quote(spec_enc_quote(a)) == Some(a),
{
    reveal_with_fuel(spec_lookup, 13);
    reveal_strlit("ap");
    reveal_strlit("as");
    reveal_strlit("ax");
    reveal_strlit("bp");
    reveal_strlit("bs");
    reveal_strlit("bx");
    reveal_strlit("c");
    reveal_strlit("t");
    reveal_strlit("z");
    assert("ap"@.len() == 2);
    assert("as"@.len() == 2);
    assert("ax"@.len() == 2);
    assert("bp"@.len() == 2);
    assert("bs"@.len() == 2);
    assert("bx"@.len() == 2);
    assert("c"@.len() == 1);
    assert("t"@.len() == 1);
    assert("z"@.len() == 1);
    assert("t"@ != "z"@) by {
        assert("t"@[0] == 't');
        assert("z"@[0] == 'z');
    }
    assert("bp"@ != "bx"@) by {
        assert("bp"@[1] == 'p');
        assert("bx"@[1] == 'x');
    }
    assert("bp"@ != "bs"@) by {
        assert("bp"@[1] == 'p');
        assert("bs"@[1] == 's');
    }
    assert("bs"@ != "bx"@) by {
        assert("bs"@[1] == 's');
        assert("bx"@[1] == 'x');
    }
    assert("ax"@ != "bx"@) by {
        assert("ax"@[0] == 'a');
        assert("bx"@[0] == 'b');
    }
    assert("ax"@ != "bp"@) by {
        assert("ax"@[0] == 'a');
        assert("bp"@[0] == 'b');
    }
    assert("ax"@ != "bs"@) by {
        assert("ax"@[0] == 'a');
        assert("bs"@[0] == 'b');
    }
    assert("ap"@ != "bx"@) by {
        assert("ap"@[0] == 'a');
        assert("bx"@[0] == 'b');
    }
    assert("ap"@ != "bp"@) by {
        assert("ap"@[0] == 'a');
        assert("bp"@[0] == 'b');
    }
    assert("ap"@ != "bs"@) by {
        assert("ap"@[0] == 'a');
        assert("bs"@[0] == 'b');
    }
    assert("ap"@ != "ax"@) by {
        assert("ap"@[1] == 'p');
        assert("ax"@[1] == 'x');
    }
    assert("ap"@ != "as"@) by {
        assert("ap"@[1] == 'p');
        assert("as"@[1] == 's');
    }
    assert("as"@ != "bx"@) by {
        assert("as"@[0] == 'a');
        assert("bx"@[0] == 'b');
    }
    assert("as"@ != "bp"@) by {
        assert("as"@[0] == 'a');
        assert("bp"@[0] == 'b');
    }
    assert("as"@ != "bs"@) by {
        assert("as"@[0] == 'a');
        assert("bs"@[0] == 'b');
    }
    assert("as"@ != "ax"@) by {
        assert("as"@[1] == 's');
        assert("ax"@[1] == 'x');
    }
    assert("c"@ != "t"@) by {
        assert("c"@[0] == 'c');
        assert("t"@[0] == 't');
    }
    assert("c"@ != "z"@) by {
        assert("c"@[0] == 'c');
        assert("z"@[0] == 'z');
    }
    crate::util::lemma_i64_digits_roundtrip(a.bid_size);
    crate::util::lemma_i64_digits_roundtrip(a.ask_size);
    lemma_strs_jsonv_roundtrip(a.condition_flags);
    lemma_quote_zone_wire_roundtrip(a.zone);
}

/// The models of a list of `Quote` values.
pub open spec fn quote_views(s: Seq<Quote>) -> Seq<QuoteV> {
    Seq::new(s.len(), |i: int| s[i]@)
}

/// The encoded items of a list of `Quote` models.
pub open spec fn spec_enc_quote_seq(ss: Seq<QuoteV>) -> Seq<JsonV>
    decreases ss.len(),
{
    if ss.len() == 0 {
        Seq::empty()
    } else {
        spec_enc_quote_seq(ss.drop_last()).push(spec_enc_quote(ss[ss.len() - 1]))
    }
}

/// What decoding an array of `Quote` items yields.
pub open spec fn spec_dec_quote_seq(items: Seq<JsonV>) -> Option<Seq<QuoteV>>
    decreases items.len(),
{
    if items.len() == 0 {
        Some(Seq::empty())
    } else {
        match spec_dec_quote_seq(items.drop_last()) {
            Some(pre) => match spec_dec_quote(items[items.len() - 1]) {
                Some(x) => Some(pre.push(x)),
                None => None,
            },
            None => None,
        }
    }
}

/// Encoding a list of `Quote` models and decoding it gives them back.
pub proof fn lemma_quote_seq_roundtrip(ss: Seq<QuoteV>)
    requires
        forall|i: int| 0 <= i < ss.len() ==> (#[trigger] ss[i]).wf(),
    ensures
        spec_dec_quote_seq(spec_enc_quote_seq(ss)) == Some(ss),
    decreases ss.len(),
{
    if ss.len() > 0 {
        assert(forall|i: int|
            0 <= i < ss.len() - 1 ==> (#[trigger] ss.drop_last()[i]) == ss[i]);
        lemma_quote_seq_roundtrip(ss.drop_last());
        lemma_quote_roundtrip(ss[ss.len() - 1]);
        let enc = spec_enc_quote_seq(ss);
        assert(enc.drop_last() =~= spec_enc_quote_seq(ss.drop_last()));
        assert(spec_dec_quote_seq(enc).unwrap() =~= ss);
    } else {
        assert(spec_dec_quote_seq(spec_enc_quote_seq(ss)).unwrap() =~= ss);
    }
}

/// Encodes a list of `Quote` values as a JSON array.
#[verifier::loop_isolation(false)]
pub fn encode_quote_seq(v: &Vec<Quote>) -> (j: Json)
    ensures
        j@ == JsonV::Arr(spec_enc_quote_seq(quote_views(v@))),
{
    let ghost dv = quote_views(v@);
    let mut items: Vec<Json> = Vec::new();
    let mut i: usize = 0;
    while i < v.len()
        invariant
            0 <= i <= v@.len(),
            dv == quote_views(v@),
            dv.len() == v@.len(),
            json_views(items@) == spec_enc_quote_seq(dv.take(i as int)),
            items@.len() == i,
        decreases v@.len() - i,
    {
        let ghost pre = items@;
        let elem = encode_quote(&v[i]);
        let ghost ev = elem;
        items.push(elem);
        proof {
            assert(items@.drop_last() =~= pre);
            assert(items@[items@.len() - 1] == ev);
            assert(json_views(items@) == json_views(pre).push(json_view(ev)));
            assert(dv.take(i + 1).drop_last() =~= dv.take(i as int));
            assert(dv.take(i + 1)[i as int] == dv[i as int]);
            assert(spec_enc_quote_seq(dv.take(i + 1)) == spec_enc_quote_seq(
                dv.take(i as int),
            ).push(spec_enc_quote(dv[i as int])));
        }
        i = i + 1;
    }
    proof {
        assert(dv.take(v@.len() as int) =~= dv);
    }
    Json::Arr(items)
}

/// `spec_dec_quote_seq` succeeds exactly when every item decodes, and
/// then decodes them in place.
pub proof fn lemma_dec_quote_seq_index(s: Seq<JsonV>)
    ensures
        (spec_dec_quote_seq(s) is Some) <==> (forall|i: int|
            0 <= i < s.len() ==> spec_dec_quote(#[trigger] s[i]) is Some),
        spec_dec_quote_seq(s) is Some ==> spec_dec_quote_seq(s).unwrap().len() == s.len(),
        spec_dec_quote_seq(s) is Some ==> forall|i: int|
            0 <= i < s.len() ==> #[trigger] spec_dec_quote_seq(s).unwrap()[i]
                == spec_dec_quote(s[i]).unwrap(),
    decreases s.len(),
{
    if s.len() > 0 {
        lemma_dec_quote_seq_index(s.drop_last());
        assert(forall|i: int| 0 <= i < s.len() - 1 ==> #[trigger] s.drop_last()[i] == s[i]);
        if spec_dec_quote_seq(s) is Some {
            assert(spec_dec_quote_seq(s.drop_last()) is Some);
            assert(spec_dec_quote(s[s.len() - 1]) is Some);
            assert forall|i: int| 0 <= i < s.len() implies spec_dec_quote(
                #[trigger] s[i],
            ) is Some by {
                if i < s.len() - 1 {
                    assert(spec_dec_quote(s.drop_last()[i]) is Some);
                }
            }
            assert forall|i: int|
                0 <= i < s.len() implies #[trigger] spec_dec_quote_seq(s).unwrap()[i]
                == spec_dec_quote(s[i]).unwrap() by {
                if i < s.len() - 1 {
                    assert(spec_dec_quote_seq(s.drop_last()).unwrap()[i] == spec_dec_quote(
                        s.drop_last()[i],
                    ).unwrap());
                }
            }
        } else {
            if forall|i: int| 0 <= i < s.len() ==> spec_dec_quote(#[trigger] s[i]) is Some {
                assert forall|i: int|
                    0 <= i < s.len() - 1 implies spec_dec_quote(
                    #[trigger] s.drop_last()[i],
                ) is Some by {
                    assert(s.drop_last()[i] == s[i]);
                }
                assert(spec_dec_quote_seq(s.drop_last()) is Some);
                assert(spec_dec_quote(s[s.len() - 1]) is Some);
                assert(spec_dec_quote_seq(s) is Some);
            }
        }
    }
}

/// Decodes a JSON array of `Quote` items.
#[verifier::loop_isolation(false)]
pub fn decode_quote_seq(j: &Json) -> (r: Option<Vec<Quote>>)
    ensures
        match r {
            Some(v) => j@ matches JsonV::Arr(items) && spec_dec_quote_seq(items) == Some(
                quote_views(v@),
            ),
            None => match j@ {
                JsonV::Arr(items) => spec_dec_quote_seq(items) is None,
                _ => true,
            },
        },
{
    let items = match j.as_arr() {
        Some(items) => items,
        None => {
            return None;
        },
    };
    proof {
        lemma_json_views_index(items@);
    }
    let ghost iv = json_views(items@);
    let mut out: Vec<Quote> = Vec::new();
    let mut i: usize = 0;
    while i < items.len()
        invariant
            0 <= i <= items@.len(),
            iv == json_views(items@),
            iv.len() == items@.len(),
            forall|q: int| 0 <= q < items@.len() ==> iv[q] == json_view(#[trigger] items@[q]),
            spec_dec_quote_seq(iv.take(i as int)) is Some,
            quote_views(out@) == spec_dec_quote_seq(iv.take(i as int)).unwrap(),
            out@.len() == i,
        decreases items@.len() - i,
    {
        let x = match decode_quote(&items[i]) {
            Some(x) => x,
            None => {
                proof {
                    lemma_dec_quote_seq_index(iv);
                    assert(iv[i as int] == json_view(items@[i as int]));
                    assert(spec_dec_quote(iv[i as int]) is None);
                }
                return None;
            },
        };
        let ghost preout = out@;
        let ghost xv = x@;
        out.push(x);
        proof {
            assert(out@.drop_last() =~= preout);
            assert(quote_views(out@) =~= quote_views(preout).push(xv));
            assert(iv.take(i + 1).drop_last() =~= iv.take(i as int));
            assert(iv.take(i + 1)[i as int] == iv[i as int]);
            assert(spec_dec_quote_seq(iv.take(i + 1)).unwrap() =~= spec_dec_quote_seq(
                iv.take(i as int),
            ).unwrap().push(xv));
        }
        i = i + 1;
    }
    proof {
        assert(iv.take(items@.len() as int) =~= iv);
    }
    Some(out)
}

/// A page of historical quotes with its continuation token.
#[derive(Debug, Clone)]
pub struct HistoricalQuotes {
    pub quotes: Vec<Quote>,
    pub currency: Option<String>,
    pub next_page_token: Option<String>,
}

/// The model of a `HistoricalQuotes`.
pub struct HistoricalQuotesV {
    pub quotes: Seq<QuoteV>,
    pub currency: Option<Seq<char>>,
    pub next_page_token: Option<Seq<char>>,
}

impl View for HistoricalQuotes {
    type V = HistoricalQuotesV;

    open spec fn view(&self) -> HistoricalQuotesV {
        HistoricalQuotesV {
            quotes: Seq::new(self.quotes@.len() as nat, |i: int| self.quotes@[i]@),
            currency: match self.currency { Some(s) => Some(s@), None => None },
            next_page_token: match self.next_page_token { Some(s) => Some(s@), None => None },
        }
    }
}

impl HistoricalQuotesV {
    /// Numeric fields hold well-formed number literals, so encoding
    /// yields valid JSON source.
    pub open spec fn wf(self) -> bool {
        forall|i: int| 0 <= i < self.quotes.len() ==> (#[trigger] self.quotes[i]).wf()
    }
}

/// The wire members of an encoded `HistoricalQuotes`, in order, optional fields
/// contributing nothing when unset.
pub open spec fn spec_historical_quotes_members(a: HistoricalQuotesV) -> Seq<(Seq<char>, JsonV)> {
    seq![("quotes"@, JsonV::Arr(spec_enc_quote_seq(a.quotes)))] + opt_member_str("currency"@, a.currency) + opt_member_str("next_page_token"@, a.next_page_token)
}

/// The encoded form of a `HistoricalQuotes`.
pub open spec fn spec_enc_historical_quotes(a: HistoricalQuotesV) -> JsonV {
    JsonV::Obj(spec_historical_quotes_members(a))
}

/// What decoding a JSON value as a `HistoricalQuotes` yields.
pub open spec fn spec_dec_historical_quotes(j: JsonV) -> Option<HistoricalQuotesV> {
    match j {
        JsonV::Obj(f) => {
            if (match spec_lookup(f, "quotes"@) { Some(JsonV::Arr(items)) => spec_dec_quote_seq(items), Some(_) => None, None => None }) is Some && lookup_opt_str(f, "currency"@) is Some && lookup_opt_str(f, "next_page_token"@) is Some {
                Some(HistoricalQuotesV {
                    quotes: (match spec_lookup(f, "quotes"@) { Some(JsonV::Arr(items)) => spec_dec_quote_seq(items), Some(_) => None, None => None }).unwrap(),
                    currency: lookup_opt_str(f, "currency"@).unwrap(),
                    next_page_token: lookup_opt_str(f, "next_page_token"@).unwrap(),
                })
            } else {
                None
            }
        },
        _ => None,
    }
}

/// Encodes a `HistoricalQuotes` as its wire object.
pub fn encode_historical_quotes(x: &HistoricalQuotes) -> (j: Json)
    ensures
        j@ == spec_enc_historical_quotes(x@),
{
    let mut f: Vec<(String, Json)> = Vec::new();
    obj_push(&mut f, "quotes", encode_quote_seq(&x.quotes));
    proof {
        assert(member_views(f@) =~= seq![("quotes"@, JsonV::Arr(spec_enc_quote_seq(x@.quotes)))]);
    }
    let ghost seg0 = member_views(f@);
    match &x.currency {
        Some(v) => {
            obj_push(&mut f, "currency", Json::Str(v.clone()));
        },
        None => {},
    }
    proof {
        assert(member_views(f@) =~= seg0 + opt_member_str("currency"@, x@.currency));
    }
    let ghost seg1 = member_views(f@);
    match &x.next_page_token {
        Some(v) => {
            obj_push(&mut f, "next_page_token", Json::Str(v.clone()));
        },
        None => {},
    }
    proof {
        assert(member_views(f@) =~= seg1 + opt_member_str("next_page_token"@, x@.next_page_token));
    }
    let j = Json::Obj(f);
    proof {
        assert(member_views(f@) =~= spec_historical_quotes_members(x@));
    }
    j
}

/// Decodes a `HistoricalQuotes` from a JSON value.
pub fn decode_historical_quotes(j: &Json) -> (r: Option<HistoricalQuotes>)
    ensures
        match r {
            Some(x) => spec_dec_historical_quotes(j@) == Some(x@),
            None => spec_dec_historical_quotes(j@) is None,
        },
{
    let v_quotes = match j.get("quotes") {
        Some(m) => match decode_quote_seq(m) {
            Some(x) => x,
            None => {
                return None;
            },
        },
        None => {
            return None;
        },
    };
    let v_currency = match j.get_opt_str("currency") {
        Some(v) => v,
        None => {
            return None;
        },
    };
    let v_next_page_token = match j.get_opt_str("next_page_token") {
        Some(v) => v,
        None => {
            return None;
        },
    };
    Some(HistoricalQuotes {
        quotes: v_quotes,
        currency: v_currency,
        next_page_token: v_next_page_token,
    })
}

/// Decoding an encoded `HistoricalQuotes` gives back the same data.
#[verifier::rlimit(100)]
pub proof fn lemma_historical_quotes_roundtrip(a: HistoricalQuotesV)
    requires
        a.wf(),
    ensures
        spec_dec_historical_quotes(spec_enc_historical_quotes(a)) == Some(a),
{
    reveal_with_fuel(spec_lookup, 7);
    reveal_strlit("currency");
    reveal_strlit("next_page_token");
    reveal_strlit("quotes");
    assert("currency"@.len() == 8);
    assert("next_page_token"@.len() == 15);
    assert("quotes"@.len() == 6);
    lemma_quote_seq_roundtrip(a.quotes);
    let base = seq![("quotes"@, JsonV::Arr(spec_enc_quote_seq(a.quotes)))];
    let seg0 = opt_member_str("currency"@, a.currency);
    let seg1 = opt_member_str("next_page_token"@, a.next_page_token);
    let pre0 = base + seg0;
    let pre1 = pre0 + seg1;
    assert(spec_historical_quotes_members(a) == pre1);
    lemma_lookup_append(pre0, seg1, "currency"@);
    lemma_lookup_append(base, seg0, "currency"@);
    lemma_lookup_append(pre0, seg1, "next_page_token"@);
    lemma_lookup_append(base, seg0, "next_page_token"@);
    lemma_lookup_append(pre0, seg1, "quotes"@);
    lemma_lookup_append(base, seg0, "quotes"@);
}

/// The most recent quotes of the requested symbols.
#[derive(Debug, Clone)]
pub struct LatestQuotes {
    pub quotes: Vec<Quote>,
    pub currency: Option<String>,
}

/// The model of a `LatestQuotes`.
pub struct LatestQuotesV {
    pub quotes: Seq<QuoteV>,
    pub currency: Option<Seq<char>>,
}

impl View for LatestQuotes {
    type V = LatestQuotesV;

    open spec fn view(&self) -> LatestQuotesV {
        LatestQuotesV {
            quotes: Seq::new(self.quotes@.len() as nat, |i: int| self.quotes@[i]@),
            currency: match self.currency { Some(s) => Some(s@), None => None },
        }
    }
}

impl LatestQuotesV {
    /// Numeric fields hold well-formed number literals, so encoding
    /// yields valid JSON source.
    pub open spec fn wf(self) -> bool {
        forall|i: int| 0 <= i < self.quotes.len() ==> (#[trigger] self.quotes[i]).wf()
    }
}

/// The wire members of an encoded `LatestQuotes`, in order, optional fields
/// contributing nothing when unset.
pub open spec fn spec_latest_quotes_members(a: LatestQuotesV) -> Seq<(Seq<char>, JsonV)> {
    seq![("quotes"@, JsonV::Arr(spec_enc_quote_seq(a.quotes)))] + opt_member_str("currency"@, a.currency)
}

/// The encoded form of a `LatestQuotes`.
pub open spec fn spec_enc_latest_quotes(a: LatestQuotesV) -> JsonV {
    JsonV::Obj(spec_latest_quotes_members(a))
}

/// What decoding a JSON value as a `LatestQuotes` yields.
pub open spec fn spec_dec_latest_quotes(j: JsonV) -> Option<LatestQuotesV> {
    match j {
        JsonV::Obj(f) => {
            if (match spec_lookup(f, "quotes"@) { Some(JsonV::Arr(items)) => spec_dec_quote_seq(items), Some(_) => None, None => None }) is Some && lookup_opt_str(f, "currency"@) is Some {
                Some(LatestQuotesV {
                    quotes: (match spec_lookup(f, "quotes"@) { Some(JsonV::Arr(items)) => spec_dec_quote_seq(items), Some(_) => None, None => None }).unwrap(),
                    currency: lookup_opt_str(f, "currency"@).unwrap(),
                })
            } else {
                None
            }
        },
        _ => None,
    }
}

/// Encodes a `LatestQuotes` as its wire object.
pub fn encode_latest_quotes(x: &LatestQuotes) -> (j: Json)
    ensures
        j@ == spec_enc_latest_quotes(x@),
{
    let mut f: Vec<(String, Json)> = Vec::new();
    obj_push(&mut f, "quotes", encode_quote_seq(&x.quotes));
    proof {
        assert(member_views(f@) =~= seq![("quotes"@, JsonV::Arr(spec_enc_quote_seq(x@.quotes)))]);
    }
    let ghost seg0 = member_views(f@);
    match &x.currency {
        Some(v) => {
            obj_push(&mut f, "currency", Json::Str(v.clone()));
        },
        None => {},
    }
    proof {
        assert(member_views(f@) =~= seg0 + opt_member_str("currency"@, x@.currency));
    }
    let j = Json::Obj(f);
    proof {
        assert(member_views(f@) =~= spec_latest_quotes_members(x@));
    }
    j
}

/// Decodes a `LatestQuotes` from a JSON value.
pub fn decode_latest_quotes(j: &Json) -> (r: Option<LatestQuotes>)
    ensures
        match r {
            Some(x) => spec_dec_latest_quotes(j@) == Some(x@),
            None => spec_dec_latest_quotes(j@) is None,
        },
{
    let v_quotes = match j.get("quotes") {
        Some(m) => match decode_quote_seq(m) {
            Some(x) => x,
            None => {
                return None;
            },
        },
        None => {
            return None;
        },
    };
    let v_currency = match j.get_opt_str("currency") {
        Some(v) => v,
        None => {
            return None;
        },
    };
    Some(LatestQuotes {
        quotes: v_quotes,
        currency: v_currency,
    })
}

/// Decoding an encoded `LatestQuotes` gives back the same data.
#[verifier::rlimit(100)]
pub proof fn lemma_latest_quotes_roundtrip(a: LatestQuotesV)
    requires
        a.wf(),
    ensures
        spec_dec_latest_quotes(spec_enc_latest_quotes(a)) == Some(a),
{
    reveal_with_fuel(spec_lookup, 6);
    reveal_strlit("currency");
    reveal_strlit("quotes");
    assert("currency"@.len() == 8);
    assert("quotes"@.len() == 6);
    lemma_quote_seq_roundtrip(a.quotes);
    let base = seq![("quotes"@, JsonV::Arr(spec_enc_quote_seq(a.quotes)))];
    let seg0 = opt_member_str("currency"@, a.currency);
    let pre0 = base + seg0;
    assert(spec_latest_quotes_members(a) == pre0);
    lemma_lookup_append(base, seg0, "currency"@);
    lemma_lookup_append(base, seg0, "quotes"@);
}

/// One executed trade; the price arrives as a raw JSON number.
#[derive(Debug, Clone)]
pub struct HistoricalTrade {
    pub timestamp: String,
    pub exchange_code: String,
    pub price: String,
    pub size: i64,
    pub trade_id: i64,
    pub condition_flags: Vec<String>,
    pub tape: String,
}

/// The model of a `HistoricalTrade`.
pub struct HistoricalTradeV {
    pub timestamp: Seq<char>,
    pub exchange_code: Seq<char>,
    pub price: Seq<char>,
    pub size: i64,
    pub trade_id: i64,
    pub condition_flags: Seq<Seq<char>>,
    pub tape: Seq<char>,
}

impl View for HistoricalTrade {
    type V = HistoricalTradeV;

    open spec fn view(&self) -> HistoricalTradeV {
        HistoricalTradeV {
            timestamp: self.timestamp@,
            exchange_code: self.exchange_code@,
            price: self.price@,
            size: self.size,
            trade_id: self.trade_id,
            condition_flags: self.condition_flags.deep_view(),
            tape: self.tape@,
        }
    }
}

impl HistoricalTradeV {
    /// Numeric fields hold well-formed number literals, so encoding
    /// yields valid JSON source.
    pub open spec fn wf(self) -> bool {
        crate::json::wf_number(self.price)
    }
}

/// The wire members of an encoded `HistoricalTrade`, in order, optional fields
/// contributing nothing when unset.
pub open spec fn spec_historical_trade_members(a: HistoricalTradeV) -> Seq<(Seq<char>, JsonV)> {
    seq![("t"@, JsonV::Str(a.timestamp)), ("x"@, JsonV::Str(a.exchange_code)), ("p"@, JsonV::Num(a.price)), ("s"@, JsonV::Num(crate::util::dec_digits_signed(a.size as int))), ("i"@, JsonV::Num(crate::util::dec_digits_signed(a.trade_id as int))), ("c"@, JsonV::Arr(strs_jsonv(a.condition_flags))), ("z"@, JsonV::Str(a.tape))]
}

/// The encoded form of a `HistoricalTrade`.
pub open spec fn spec_enc_historical_trade(a: HistoricalTradeV) -> JsonV {
    JsonV::Obj(spec_historical_trade_members(a))
}

/// What decoding a JSON value as a `HistoricalTrade` yields.
pub open spec fn spec_dec_historical_trade(j: JsonV) -> Option<HistoricalTradeV> {
    match j {
        JsonV::Obj(f) => {
            if lookup_str(f, "t"@) is Some && lookup_str(f, "x"@) is Some && lookup_num(f, "p"@) is Some && lookup_i64_num(f, "s"@) is Some && lookup_i64_num(f, "i"@) is Some && lookup_strs(f, "c"@) is Some && lookup_str(f, "z"@) is Some {
                Some(HistoricalTradeV {
                    timestamp: lookup_str(f, "t"@).unwrap(),
                    exchange_code: lookup_str(f, "x"@).unwrap(),
                    price: lookup_num(f, "p"@).unwrap(),
                    size: lookup_i64_num(f, "s"@).unwrap(),
                    trade_id: lookup_i64_num(f, "i"@).unwrap(),
                    condition_flags: lookup_strs(f, "c"@).unwrap(),
                    tape: lookup_str(f, "z"@).unwrap(),
                })
            } else {
                None
            }
        },
        _ => None,
    }
}

/// Encodes a `HistoricalTrade` as its wire object.
pub fn encode_historical_trade(x: &HistoricalTrade) -> (j: Json)
    ensures
        j@ == spec_enc_historical_trade(x@),
{
    let mut f: Vec<(String, Json)> = Vec::new();
    obj_push(&mut f, "t", Json::Str(x.timestamp.clone()));
    obj_push(&mut f, "x", Json::Str(x.exchange_code.clone()));
    obj_push(&mut f, "p", Json::Num(x.price.clone()));
    obj_push(&mut f, "s", Json::Num(crate::util::i64_to_string(x.size)));
    obj_push(&mut f, "i", Json::Num(crate::util::i64_to_string(x.trade_id)));
    obj_push(&mut f, "c", strs_to_json(&x.condition_flags));
    obj_push(&mut f, "z", Json::Str(x.tape.clone()));
    proof {
        assert(member_views(f@) =~= seq![("t"@, JsonV::Str(x@.timestamp)), ("x"@, JsonV::Str(x@.exchange_code)), ("p"@, JsonV::Num(x@.price)), ("s"@, JsonV::Num(crate::util::dec_digits_signed(x@.size as int))), ("i"@, JsonV::Num(crate::util::dec_digits_signed(x@.trade_id as int))), ("c"@, JsonV::Arr(strs_jsonv(x@.condition_flags))), ("z"@, JsonV::Str(x@.tape))]);
    }
    let j = Json::Obj(f);
    proof {
        assert(member_views(f@) =~= spec_historical_trade_members(x@));
    }
    j
}

/// Decodes a `HistoricalTrade` from a JSON value.
pub fn decode_historical_trade(j: &Json) -> (r: Option<HistoricalTrade>)
    ensures
        match r {
            Some(x) => spec_dec_historical_trade(j@) == Some(x@),
            None => spec_dec_historical_trade(j@) is None,
        },
{
    let v_timestamp = match j.get_str("t") {
        Some(v) => v,
        None => {
            return None;
        },
    };
    let v_exchange_code = match j.get_str("x") {
        Some(v) => v,
        None => {
            return None;
        },
    };
    let v_price = match j.get_num("p") {
        Some(v) => v,
        None => {
            return None;
        },
    };
    let v_size = match j.get_i64_num("s") {
        Some(v) => v,
        None => {
            return None;
        },
    };
    let v_trade_id = match j.get_i64_num("i") {
        Some(v) => v,
        None => {
            return None;
        },
    };
    let v_condition_flags = match j.get_strs("c") {
        Some(v) => v,
        None => {
            return None;
        },
    };
    let v_tape = match j.get_str("z") {
        Some(v) => v,
        None => {
            return None;
        },
    };
    Some(HistoricalTrade {
        timestamp: v_timestamp,
        exchange_code: v_exchange_code,
        price: v_price,
        size: v_size,
        trade_id: v_trade_id,
        condition_flags: v_condition_flags,
        tape: v_tape,
    })
}

/// Decoding an encoded `HistoricalTrade` gives back the same data.
#[verifier::rlimit(100)]
pub proof fn lemma_historical_trade_roundtrip(a: HistoricalTradeV)
    requires
        a.wf(),
    ensures
        spec_dec_historical_trade(spec_enc_historical_trade(a)) == Some(a),
{
    reveal_with_fuel(spec_lookup, 11);
    reveal_strlit("c");
    reveal_strlit("i");
    reveal_strlit("p");
    reveal_strlit("s");
    reveal_strlit("t");
    reveal_strlit("x");
    reveal_strlit("z");
    assert("c"@.len() == 1);
    assert("i"@.len() == 1);
    assert("p"@.len() == 1);
    assert("s"@.len() == 1);
    assert("t"@.len() == 1);
    assert("x"@.len() == 1);
    assert("z"@.len() == 1);
    assert("t"@ != "x"@) by {
        assert("t"@[0] == 't');
        assert("x"@[0] == 'x');
    }
    assert("t"@ != "z"@) by {
        assert("t"@[0] == 't');
        assert("z"@[0] == 'z');
    }
    assert("x"@ != "z"@) by {
        assert("x"@[0] == 'x');
        assert("z"@[0] == 'z');
    }
    assert("p"@ != "t"@) by {
        assert("p"@[0] == 'p');
        assert("t"@[0] == 't');
    }
    assert("p"@ != "x"@) by {
        assert("p"@[0] == 'p');
        assert("x"@[0] == 'x');
    }
    assert("p"@ != "s"@) by {
        assert("p"@[0] == 'p');
        assert("s"@[0] == 's');
    }
    assert("p"@ != "z"@) by {
        assert("p"@[0] == 'p');
        assert("z"@[0] == 'z');
    }
    assert("s"@ != "t"@) by {
        assert("s"@[0] == 's');
        assert("t"@[0] == 't');
    }
    assert("s"@ != "x"@) by {
        assert("s"@[0] == 's');
        assert("x"@[0] == 'x');
    }
    assert("s"@ != "z"@) by {
        assert("s"@[0] == 's');
        assert("z"@[0] == 'z');
    }
    assert("i"@ != "t"@) by {
        assert("i"@[0] == 'i');
        assert("t"@[0] == 't');
    }
    assert("i"@ != "x"@) by {
        assert("i"@[0] == 'i');
        assert("x"@[0] == 'x');
    }
    assert("i"@ != "p"@) by {
        assert("i"@[0] == 'i');
        assert("p"@[0] == 'p');
    }
    assert("i"@ != "s"@) by {
        assert("i"@[0] == 'i');
        assert("s"@[0] == 's');
    }
    assert("i"@ != "z"@) by {
        assert("i"@[0] == 'i');
        assert("z"@[0] == 'z');
    }
    assert("c"@ != "t"@) by {
        assert("c"@[0] == 'c');
        assert("t"@[0] == 't');
    }
    assert("c"@ != "x"@) by {
        assert("c"@[0] == 'c');
        assert("x"@[0] == 'x');
    }
    assert("c"@ != "p"@) by {
        assert("c"@[0] == 'c');
        assert("p"@[0] == 'p');
    }
    assert("c"@ != "s"@) by {
        assert("c"@[0] == 'c');
        assert("s"@[0] == 's');
    }
    assert("c"@ != "i"@) by {
        assert("c"@[0] == 'c');
        assert("i"@[0] == 'i');
    }
    assert("c"@ != "z"@) by {
        assert("c"@[0] == 'c');
        assert("z"@[0] == 'z');
    }
    crate::util::lemma_i64_digits_roundtrip(a.size);
    crate::util::lemma_i64_digits_roundtrip(a.trade_id);
    lemma_strs_jsonv_roundtrip(a.condition_flags);
}

/// The models of a list of `HistoricalTrade` values.
pub open spec fn historical_trade_views(s: Seq<HistoricalTrade>) -> Seq<HistoricalTradeV> {
    Seq::new(s.len(), |i: int| s[i]@)
}

/// The encoded items of a list of `HistoricalTrade` models.
pub open spec fn spec_enc_historical_trade_seq(ss: Seq<HistoricalTradeV>) -> Seq<JsonV>
    decreases ss.len(),
{
    if ss.len() == 0 {
        Seq::empty()
    } else {
        spec_enc_historical_trade_seq(ss.drop_last()).push(spec_enc_historical_trade(ss[ss.len() - 1]))
    }
}

/// What decoding an array of `HistoricalTrade` items yields.
pub open spec fn spec_dec_historical_trade_seq(items: Seq<JsonV>) -> Option<Seq<HistoricalTradeV>>
    decreases items.len(),
{
    if items.len() == 0 {
        Some(Seq::empty())
    } else {
        match spec_dec_historical_trade_seq(items.drop_last()) {
            Some(pre) => match spec_dec_historical_trade(items[items.len() - 1]) {
                Some(x) => Some(pre.push(x)),
                None => None,
            },
            None => None,
        }
    }
}

/// Encoding a list of `HistoricalTrade` models and decoding it gives them back.
pub proof fn lemma_historical_trade_seq_roundtrip(ss: Seq<HistoricalTradeV>)
    requires
        forall|i: int| 0 <= i < ss.len() ==> (#[trigger] ss[i]).wf(),
    ensures
        spec_dec_historical_trade_seq(spec_enc_historical_trade_seq(ss)) == Some(ss),
    decreases ss.len(),
{
    if ss.len() > 0 {
        assert(forall|i: int|
            0 <= i < ss.len() - 1 ==> (#[trigger] ss.drop_last()[i]) == ss[i]);
        lemma_historical_trade_seq_roundtrip(ss.drop_last());
        lemma_historical_trade_roundtrip(ss[ss.len() - 1]);
        let enc = spec_enc_historical_trade_seq(ss);
        assert(enc.drop_last() =~= spec_enc_historical_trade_seq(ss.drop_last()));
        assert(spec_dec_historical_trade_seq(enc).unwrap() =~= ss);
    } else {
        assert(spec_dec_historical_trade_seq(spec_enc_historical_trade_seq(ss)).unwrap() =~= ss);
    }
}

/// Encodes a list of `HistoricalTrade` values as a JSON array.
#[verifier::loop_isolation(false)]
pub fn encode_historical_trade_seq(v: &Vec<HistoricalTrade>) -> (j: Json)
    ensures
        j@ == JsonV::Arr(spec_enc_historical_trade_seq(historical_trade_views(v@))),
{
    let ghost dv = historical_trade_views(v@);
    let mut items: Vec<Json> = Vec::new();
    let mut i: usize = 0;
    while i < v.len()
        invariant
            0 <= i <= v@.len(),
            dv == historical_trade_views(v@),
            dv.len() == v@.len(),
            json_views(items@) == spec_enc_historical_trade_seq(dv.take(i as int)),
            items@.len() == i,
        decreases v@.len() - i,
    {
        let ghost pre = items@;
        let elem = encode_historical_trade(&v[i]);
        let ghost ev = elem;
        items.push(elem);
        proof {
            assert(items@.drop_last() =~= pre);
            assert(items@[items@.len() - 1] == ev);
            assert(json_views(items@) == json_views(pre).push(json_view(ev)));
            assert(dv.take(i + 1).drop_last() =~= dv.take(i as int));
            assert(dv.take(i + 1)[i as int] == dv[i as int]);
            assert(spec_enc_historical_trade_seq(dv.take(i + 1)) == spec_enc_historical_trade_seq(
                dv.take(i as int),
            ).push(spec_enc_historical_trade(dv[i as int])));
        }
        i = i + 1;
    }
    proof {
        assert(dv.take(v@.len() as int) =~= dv);
    }
    Json::Arr(items)
}

/// `spec_dec_historical_trade_seq` succeeds exactly when every item decodes, and
/// then decodes them in place.
pub proof fn lemma_dec_historical_trade_seq_index(s: Seq<JsonV>)
    ensures
        (spec_dec_historical_trade_seq(s) is Some) <==> (forall|i: int|
            0 <= i < s.len() ==> spec_dec_historical_trade(#[trigger] s[i]) is Some),
        spec_dec_historical_trade_seq(s) is Some ==> spec_dec_historical_trade_seq(s).unwrap().len() == s.len(),
        spec_dec_historical_trade_seq(s) is Some ==> forall|i: int|
            0 <= i < s.len() ==> #[trigger] spec_dec_historical_trade_seq(s).unwrap()[i]
                == spec_dec_historical_trade(s[i]).unwrap(),
    decreases s.len(),
{
    if s.len() > 0 {
        lemma_dec_historical_trade_seq_index(s.drop_last());
        assert(forall|i: int| 0 <= i < s.len() - 1 ==> #[trigger] s.drop_last()[i] == s[i]);
        if spec_dec_historical_trade_seq(s) is Some {
            assert(spec_dec_historical_trade_seq(s.drop_last()) is Some);
            assert(spec_dec_historical_trade(s[s.len() - 1]) is Some);
            assert forall|i: int| 0 <= i < s.len() implies spec_dec_historical_trade(
                #[trigger] s[i],
            ) is Some by {
                if i < s.len() - 1 {
                    assert(spec_dec_historical_trade(s.drop_last()[i]) is Some);
                }
            }
            assert forall|i: int|
                0 <= i < s.len() implies #[trigger] spec_dec_historical_trade_seq(s).unwrap()[i]
                == spec_dec_historical_trade(s[i]).unwrap() by {
                if i < s.len() - 1 {
                    assert(spec_dec_historical_trade_seq(s.drop_last()).unwrap()[i] == spec_dec_historical_trade(
                        s.drop_last()[i],
                    ).unwrap());
                }
            }
        } else {
            if forall|i: int| 0 <= i < s.len() ==> spec_dec_historical_trade(#[trigger] s[i]) is Some {
                assert forall|i: int|
                    0 <= i < s.len() - 1 implies spec_dec_historical_trade(
                    #[trigger] s.drop_last()[i],
                ) is Some by {
                    assert(s.drop_last()[i] == s[i]);
                }
                assert(spec_dec_historical_trade_seq(s.drop_last()) is Some);
                assert(spec_dec_historical_trade(s[s.len() - 1]) is Some);
                assert(spec_dec_historical_trade_seq(s) is Some);
            }
        }
    }
}

/// Decodes a JSON array of `HistoricalTrade` items.
#[verifier::loop_isolation(false)]
pub fn decode_historical_trade_seq(j: &Json) -> (r: Option<Vec<HistoricalTrade>>)
    ensures
        match r {
            Some(v) => j@ matches JsonV::Arr(items) && spec_dec_historical_trade_seq(items) == Some(
                historical_trade_views(v@),
            ),
            None => match j@ {
                JsonV::Arr(items) => spec_dec_historical_trade_seq(items) is None,
                _ => true,
            },
        },
{
    let items = match j.as_arr() {
        Some(items) => items,
        None => {
            return None;
        },
    };
    proof {
        lemma_json_views_index(items@);
    }
    let ghost iv = json_views(items@);
    let mut out: Vec<HistoricalTrade> = Vec::new();
    let mut i: usize = 0;
    while i < items.len()
        invariant
            0 <= i <= items@.len(),
            iv == json_views(items@),
            iv.len() == items@.len(),
            forall|q: int| 0 <= q < items@.len() ==> iv[q] == json_view(#[trigger] items@[q]),
            spec_dec_historical_trade_seq(iv.take(i as int)) is Some,
            historical_trade_views(out@) == spec_dec_historical_trade_seq(iv.take(i as int)).unwrap(),
            out@.len() == i,
        decreases items@.len() - i,
    {
        let x = match decode_historical_trade(&items[i]) {
            Some(x) => x,
            None => {
                proof {
                    lemma_dec_historical_trade_seq_index(iv);
                    assert(iv[i as int] == json_view(items@[i as int]));
                    assert(spec_dec_historical_trade(iv[i as int]) is None);
                }
                return None;
            },
        };
        let ghost preout = out@;
        let ghost xv = x@;
        out.push(x);
        proof {
            assert(out@.drop_last() =~= preout);
            assert(historical_trade_views(out@) =~= historical_trade_views(preout).push(xv));
            assert(iv.take(i + 1).drop_last() =~= iv.take(i as int));
            assert(iv.take(i + 1)[i as int] == iv[i as int]);
            assert(spec_dec_historical_trade_seq(iv.take(i + 1)).unwrap() =~= spec_dec_historical_trade_seq(
                iv.take(i as int),
            ).unwrap().push(xv));
        }
        i = i + 1;
    }
    proof {
        assert(iv.take(items@.len() as int) =~= iv);
    }
    Some(out)
}

/// A page of historical trades with its continuation token.
#[derive(Debug, Clone)]
pub struct HistoricalTrades {
    pub trades: Vec<HistoricalTrade>,
    pub next_page_token: Option<String>,
    pub currency: Option<String>,
}

/// The model of a `HistoricalTrades`.
pub struct HistoricalTradesV {
    pub trades: Seq<HistoricalTradeV>,
    pub next_page_token: Option<Seq<char>>,
    pub currency: Option<Seq<char>>,
}

impl View for HistoricalTrades {
    type V = HistoricalTradesV;

    open spec fn view(&self) -> HistoricalTradesV {
        HistoricalTradesV {
            trades: Seq::new(self.trades@.len() as nat, |i: int| self.trades@[i]@),
            next_page_token: match self.next_page_token { Some(s) => Some(s@), None => None },
            currency: match self.currency { Some(s) => Some(s@), None => None },
        }
    }
}

impl HistoricalTradesV {
    /// Numeric fields hold well-formed number literals, so encoding
    /// yields valid JSON source.
    pub open spec fn wf(self) -> bool {
        forall|i: int| 0 <= i < self.trades.len() ==> (#[trigger] self.trades[i]).wf()
    }
}

/// The wire members of an encoded `HistoricalTrades`, in order, optional fields
/// contributing nothing when unset.
pub open spec fn spec_historical_trades_members(a: HistoricalTradesV) -> Seq<(Seq<char>, JsonV)> {
    seq![("trades"@, JsonV::Arr(spec_enc_historical_trade_seq(a.trades)))] + opt_member_str("next_page_token"@, a.next_page_token) + opt_member_str("currency"@, a.currency)
}

/// The encoded form of a `HistoricalTrades`.
pub open spec fn spec_enc_historical_trades(a: HistoricalTradesV) -> JsonV {
    JsonV::Obj(spec_historical_trades_members(a))
}

/// What decoding a JSON value as a `HistoricalTrades` yields.
pub open spec fn spec_dec_historical_trades(j: JsonV) -> Option<HistoricalTradesV> {
    match j {
        JsonV::Obj(f) => {
            if (match spec_lookup(f, "trades"@) { Some(JsonV::Arr(items)) => spec_dec_historical_trade_seq(items), Some(_) => None, None => None }) is Some && lookup_opt_str(f, "next_page_token"@) is Some && lookup_opt_str(f, "currency"@) is Some {
                Some(HistoricalTradesV {
                    trades: (match spec_lookup(f, "trades"@) { Some(JsonV::Arr(items)) => spec_dec_historical_trade_seq(items), Some(_) => None, None => None }).unwrap(),
                    next_page_token: lookup_opt_str(f, "next_page_token"@).unwrap(),
                    currency: lookup_opt_str(f, "currency"@).unwrap(),
                })
            } else {
                None
            }
        },
        _ => None,
    }
}

/// Encodes a `HistoricalTrades` as its wire object.
pub fn encode_historical_trades(x: &HistoricalTrades) -> (j: Json)
    ensures
        j@ == spec_enc_historical_trades(x@),
{
    let mut f: Vec<(String, Json)> = Vec::new();
    obj_push(&mut f, "trades", encode_historical_trade_seq(&x.trades));
    proof {
        assert(member_views(f@) =~= seq![("trades"@, JsonV::Arr(spec_enc_historical_trade_seq(x@.trades)))]);
    }
    let ghost seg0 = member_views(f@);
    match &x.next_page_token {
        Some(v) => {
            obj_push(&mut f, "next_page_token", Json::Str(v.clone()));
        },
        None => {},
    }
    proof {
        assert(member_views(f@) =~= seg0 + opt_member_str("next_page_token"@, x@.next_page_token));
    }
    let ghost seg1 = member_views(f@);
    match &x.currency {
        Some(v) => {
            obj_push(&mut f, "currency", Json::Str(v.clone()));
        },
        None => {},
    }
    proof {
        assert(member_views(f@) =~= seg1 + opt_member_str("currency"@, x@.currency));
    }
    let j = Json::Obj(f);
    proof {
        assert(member_views(f@) =~= spec_historical_trades_members(x@));
    }
    j
}

/// Decodes a `HistoricalTrades` from a JSON value.
pub fn decode_historical_trades(j: &Json) -> (r: Option<HistoricalTrades>)
    ensures
        match r {
            Some(x) => spec_dec_historical_trades(j@) == Some(x@),
            None => spec_dec_historical_trades(j@) is None,
        },
{
    let v_trades = match j.get("trades") {
        Some(m) => match decode_historical_trade_seq(m) {
            Some(x) => x,
            None => {
                return None;
            },
        },
        None => {
            return None;
        },
    };
    let v_next_page_token = match j.get_opt_str("next_page_token") {
        Some(v) => v,
        None => {
            return None;
        },
    };
    let v_currency = match j.get_opt_str("currency") {
        Some(v) => v,
        None => {
            return None;
        },
    };
    Some(HistoricalTrades {
        trades: v_trades,
        next_page_token: v_next_page_token,
        currency: v_currency,
    })
}

/// Decoding an encoded `HistoricalTrades` gives back the same data.
#[verifier::rlimit(100)]
pub proof fn lemma_historical_trades_roundtrip(a: HistoricalTradesV)
    requires
        a.wf(),
    ensures
        spec_dec_historical_trades(spec_enc_historical_trades(a)) == Some(a),
{
    reveal_with_fuel(spec_lookup, 7);
    reveal_strlit("currency");
    reveal_strlit("next_page_token");
    reveal_strlit("trades");
    assert("currency"@.len() == 8);
    assert("next_page_token"@.len() == 15);
    assert("trades"@.len() == 6);
    lemma_historical_trade_seq_roundtrip(a.trades);
    let base = seq![("trades"@, JsonV::Arr(spec_enc_historical_trade_seq(a.trades)))];
    let seg0 = opt_member_str("next_page_token"@, a.next_page_token);
    let seg1 = opt_member_str("currency"@, a.currency);
    let pre0 = base + seg0;
    let pre1 = pre0 + seg1;
    assert(spec_historical_trades_members(a) == pre1);
    lemma_lookup_append(pre0, seg1, "currency"@);
    lemma_lookup_append(base, seg0, "currency"@);
    lemma_lookup_append(pre0, seg1, "next_page_token"@);
    lemma_lookup_append(base, seg0, "next_page_token"@);
    lemma_lookup_append(pre0, seg1, "trades"@);
    lemma_lookup_append(base, seg0, "trades"@);
}

/// The most recent trades of the requested symbols.
#[derive(Debug, Clone)]
pub struct LatestTrades {
    pub trades: Vec<HistoricalTrade>,
    pub currency: Option<String>,
}

/// The model of a `LatestTrades`.
pub struct LatestTradesV {
    pub trades: Seq<HistoricalTradeV>,
    pub currency: Option<Seq<char>>,
}

impl View for LatestTrades {
    type V = LatestTradesV;

    open spec fn view(&self) -> LatestTradesV {
        LatestTradesV {
            trades: Seq::new(self.trades@.len() as nat, |i: int| self.trades@[i]@),
            currency: match self.currency { Some(s) => Some(s@), None => None },
        }
    }
}

impl LatestTradesV {
    /// Numeric fields hold well-formed number literals, so encoding
    /// yields valid JSON source.
    pub open spec fn wf(self) -> bool {
        forall|i: int| 0 <= i < self.trades.len() ==> (#[trigger] self.trades[i]).wf()
    }
}

/// The wire members of an encoded `LatestTrades`, in order, optional fields
/// contributing nothing when unset.
pub open spec fn spec_latest_trades_members(a: LatestTradesV) -> Seq<(Seq<char>, JsonV)> {
    seq![("trades"@, JsonV::Arr(spec_enc_historical_trade_seq(a.trades)))] + opt_member_str("currency"@, a.currency)
}

/// The encoded form of a `LatestTrades`.
pub open spec fn spec_enc_latest_trades(a: LatestTradesV) -> JsonV {
    JsonV::Obj(spec_latest_trades_members(a))
}

/// What decoding a JSON value as a `LatestTrades` yields.
pub open spec fn spec_dec_latest_trades(j: JsonV) -> Option<LatestTradesV> {
    match j {
        JsonV::Obj(f) => {
            if (match spec_lookup(f, "trades"@) { Some(JsonV::Arr(items)) => spec_dec_historical_trade_seq(items), Some(_) => None, None => None }) is Some && lookup_opt_str(f, "currency"@) is Some {
                Some(LatestTradesV {
                    trades: (match spec_lookup(f, "trades"@) { Some(JsonV::Arr(items)) => spec_dec_historical_trade_seq(items), Some(_) => None, None => None }).unwrap(),
                    currency: lookup_opt_str(f, "currency"@).unwrap(),
                })
            } else {
                None
            }
        },
        _ => None,
    }
}

/// Encodes a `LatestTrades` as its wire object.
pub fn encode_latest_trades(x: &LatestTrades) -> (j: Json)
    ensures
        j@ == spec_enc_latest_trades(x@),
{
    let mut f: Vec<(String, Json)> = Vec::new();
    obj_push(&mut f, "trades", encode_historical_trade_seq(&x.trades));
    proof {
        assert(member_views(f@) =~= seq![("trades"@, JsonV::Arr(spec_enc_historical_trade_seq(x@.trades)))]);
    }
    let ghost seg0 = member_views(f@);
    match &x.currency {
        Some(v) => {
            obj_push(&mut f, "currency", Json::Str(v.clone()));
        },
        None => {},
    }
    proof {
        assert(member_views(f@) =~= seg0 + opt_member_str("currency"@, x@.currency));
    }
    let j = Json::Obj(f);
    proof {
        assert(member_views(f@) =~= spec_latest_trades_members(x@));
    }
    j
}

/// Decodes a `LatestTrades` from a JSON value.
pub fn decode_latest_trades(j: &Json) -> (r: Option<LatestTrades>)
    ensures
        match r {
            Some(x) => spec_dec_latest_trades(j@) == Some(x@),
            None => spec_dec_latest_trades(j@) is None,
        },
{
    let v_trades = match j.get("trades") {
        Some(m) => match decode_historical_trade_seq(m) {
            Some(x) => x,
            None => {
                return None;
            },
        },
        None => {
            return None;
        },
    };
    let v_currency = match j.get_opt_str("currency") {
        Some(v) => v,
        None => {
            return None;
        },
    };
    Some(LatestTrades {
        trades: v_trades,
        currency: v_currency,
    })
}

/// Decoding an encoded `LatestTrades` gives back the same data.
#[verifier::rlimit(100)]
pub proof fn lemma_latest_trades_roundtrip(a: LatestTradesV)
    requires
        a.wf(),
    ensures
        spec_dec_latest_trades(spec_enc_latest_trades(a)) == Some(a),
{
    reveal_with_fuel(spec_lookup, 6);
    reveal_strlit("currency");
    reveal_strlit("trades");
    assert("currency"@.len() == 8);
    assert("trades"@.len() == 6);
    lemma_historical_trade_seq_roundtrip(a.trades);
    let base = seq![("trades"@, JsonV::Arr(spec_enc_historical_trade_seq(a.trades)))];
    let seg0 = opt_member_str("currency"@, a.currency);
    let pre0 = base + seg0;
    assert(spec_latest_trades_members(a) == pre0);
    lemma_lookup_append(base, seg0, "currency"@);
    lemma_lookup_append(base, seg0, "trades"@);
}

/// One auction print of an auction day.
#[derive(Debug, Clone)]
pub struct SingleAuction {
    pub timestamp: String,
    pub exchange_code: String,
    pub price: String,
    pub size: Option<i64>,
    pub condition: String,
}

/// The model of a `SingleAuction`.
pub struct SingleAuctionV {
    pub timestamp: Seq<char>,
    pub exchange_code: Seq<char>,
    pub price: Seq<char>,
    pub size: Option<i64>,
    pub condition: Seq<char>,
}

impl View for SingleAuction {
    type V = SingleAuctionV;

    open spec fn view(&self) -> SingleAuctionV {
        SingleAuctionV {
            timestamp: self.timestamp@,
            exchange_code: self.exchange_code@,
            price: self.price@,
            size: self.size,
            condition: self.condition@,
        }
    }
}

impl SingleAuctionV {
    /// Numeric fields hold well-formed number literals, so encoding
    /// yields valid JSON source.
    pub open spec fn wf(self) -> bool {
        crate::json::wf_number(self.price)
    }
}

/// The wire members of an encoded `SingleAuction`, in order, optional fields
/// contributing nothing when unset.
pub open spec fn spec_single_auction_members(a: SingleAuctionV) -> Seq<(Seq<char>, JsonV)> {
    seq![("t"@, JsonV::Str(a.timestamp)), ("x"@, JsonV::Str(a.exchange_code)), ("p"@, JsonV::Num(a.price)), ("c"@, JsonV::Str(a.condition))] + opt_member_i64_num("s"@, a.size)
}

/// The encoded form of a `SingleAuction`.
pub open spec fn spec_enc_single_auction(a: SingleAuctionV) -> JsonV {
    JsonV::Obj(spec_single_auction_members(a))
}

/// What decoding a JSON value as a `SingleAuction` yields.
pub open spec fn spec_dec_single_auction(j: JsonV) -> Option<SingleAuctionV> {
    match j {
        JsonV::Obj(f) => {
            if lookup_str(f, "t"@) is Some && lookup_str(f, "x"@) is Some && lookup_num(f, "p"@) is Some && lookup_opt_i64_num(f, "s"@) is Some && lookup_str(f, "c"@) is Some {
                Some(SingleAuctionV {
                    timestamp: lookup_str(f, "t"@).unwrap(),
                    exchange_code: lookup_str(f, "x"@).unwrap(),
                    price: lookup_num(f, "p"@).unwrap(),
                    size: lookup_opt_i64_num(f, "s"@).unwrap(),
                    condition: lookup_str(f, "c"@).unwrap(),
                })
            } else {
                None
            }
        },
        _ => None,
    }
}

/// Encodes a `SingleAuction` as its wire object.
pub fn encode_single_auction(x: &SingleAuction) -> (j: Json)
    ensures
        j@ == spec_enc_single_auction(x@),
{
    let mut f: Vec<(String, Json)> = Vec::new();
    obj_push(&mut f, "t", Json::Str(x.timestamp.clone()));
    obj_push(&mut f, "x", Json::Str(x.exchange_code.clone()));
    obj_push(&mut f, "p", Json::Num(x.price.clone()));
    obj_push(&mut f, "c", Json::Str(x.condition.clone()));
    proof {
        assert(member_views(f@) =~= seq![("t"@, JsonV::Str(x@.timestamp)), ("x"@, JsonV::Str(x@.exchange_code)), ("p"@, JsonV::Num(x@.price)), ("c"@, JsonV::Str(x@.condition))]);
    }
    let ghost seg0 = member_views(f@);
    match &x.size {
        Some(v) => {
            obj_push(&mut f, "s", Json::Num(crate::util::i64_to_string(*v)));
        },
        None => {},
    }
    proof {
        assert(member_views(f@) =~= seg0 + opt_member_i64_num("s"@, x@.size));
    }
    let j = Json::Obj(f);
    proof {
        assert(member_views(f@) =~= spec_single_auction_members(x@));
    }
    j
}

/// Decodes a `SingleAuction` from a JSON value.
pub fn decode_single_auction(j: &Json) -> (r: Option<SingleAuction>)
    ensures
        match r {
            Some(x) => spec_dec_single_auction(j@) == Some(x@),
            None => spec_dec_single_auction(j@) is None,
        },
{
    let v_timestamp = match j.get_str("t") {
        Some(v) => v,
        None => {
            return None;
        },
    };
    let v_exchange_code = match j.get_str("x") {
        Some(v) => v,
        None => {
            return None;
        },
    };
    let v_price = match j.get_num("p") {
        Some(v) => v,
        None => {
            return None;
        },
    };
    let v_size = match j.get_opt_i64_num("s") {
        Some(v) => v,
        None => {
            return None;
        },
    };
    let v_condition = match j.get_str("c") {
        Some(v) => v,
        None => {
            return None;
        },
    };
    Some(SingleAuction {
        timestamp: v_timestamp,
        exchange_code: v_exchange_code,
        price: v_price,
        size: v_size,
        condition: v_condition,
    })
}

/// Decoding an encoded `SingleAuction` gives back the same data.
#[verifier::rlimit(100)]
pub proof fn lemma_single_auction_roundtrip(a: SingleAuctionV)
    requires
        a.wf(),
    ensures
        spec_dec_single_auction(spec_enc_single_auction(a)) == Some(a),
{
    reveal_with_fuel(spec_lookup, 9);
    reveal_strlit("c");
    reveal_strlit("p");
    reveal_strlit("s");
    reveal_strlit("t");
    reveal_strlit("x");
    assert("c"@.len() == 1);
    assert("p"@.len() == 1);
    assert("s"@.len() == 1);
    assert("t"@.len() == 1);
    assert("x"@.len() == 1);
    assert("t"@ != "x"@) by {
        assert("t"@[0] == 't');
        assert("x"@[0] == 'x');
    }
    assert("p"@ != "t"@) by {
        assert("p"@[0] == 'p');
        assert("t"@[0] == 't');
    }
    assert("p"@ != "x"@) by {
        assert("p"@[0] == 'p');
        assert("x"@[0] == 'x');
    }
    assert("p"@ != "s"@) by {
        assert("p"@[0] == 'p');
        assert("s"@[0] == 's');
    }
    assert("s"@ != "t"@) by {
        assert("s"@[0] == 's');
        assert("t"@[0] == 't');
    }
    assert("s"@ != "x"@) by {
        assert("s"@[0] == 's');
        assert("x"@[0] == 'x');
    }
    assert("c"@ != "t"@) by {
        assert("c"@[0] == 'c');
        assert("t"@[0] == 't');
    }
    assert("c"@ != "x"@) by {
        assert("c"@[0] == 'c');
        assert("x"@[0] == 'x');
    }
    assert("c"@ != "p"@) by {
        assert("c"@[0] == 'c');
        assert("p"@[0] == 'p');
    }
    assert("c"@ != "s"@) by {
        assert("c"@[0] == 'c');
        assert("s"@[0] == 's');
    }
    match a.size {
        Some(v) => {
            crate::util::lemma_i64_digits_roundtrip(v);
        },
        None => {},
    }
    let base = seq![("t"@, JsonV::Str(a.timestamp)), ("x"@, JsonV::Str(a.exchange_code)), ("p"@, JsonV::Num(a.price)), ("c"@, JsonV::Str(a.condition))];
    let seg0 = opt_member_i64_num("s"@, a.size);
    let pre0 = base + seg0;
    assert(spec_single_auction_members(a) == pre0);
    lemma_lookup_append(base, seg0, "c"@);
    lemma_lookup_append(base, seg0, "p"@);
    lemma_lookup_append(base, seg0, "s"@);
    lemma_lookup_append(base, seg0, "t"@);
    lemma_lookup_append(base, seg0, "x"@);
}

/// The models of a list of `SingleAuction` values.
pub open spec fn single_auction_views(s: Seq<SingleAuction>) -> Seq<SingleAuctionV> {
    Seq::new(s.len(), |i: int| s[i]@)
}

/// The encoded items of a list of `SingleAuction` models.
pub open spec fn spec_enc_single_auction_seq(ss: Seq<SingleAuctionV>) -> Seq<JsonV>
    decreases ss.len(),
{
    if ss.len() == 0 {
        Seq::empty()
    } else {
        spec_enc_single_auction_seq(ss.drop_last()).push(spec_enc_single_auction(ss[ss.len() - 1]))
    }
}

/// What decoding an array of `SingleAuction` items yields.
pub open spec fn spec_dec_single_auction_seq(items: Seq<JsonV>) -> Option<Seq<SingleAuctionV>>
    decreases items.len(),
{
    if items.len() == 0 {
        Some(Seq::empty())
    } else {
        match spec_dec_single_auction_seq(items.drop_last()) {
            Some(pre) => match spec_dec_single_auction(items[items.len() - 1]) {
                Some(x) => Some(pre.push(x)),
                None => None,
            },
            None => None,
        }
    }
}

/// Encoding a list of `SingleAuction` models and decoding it gives them back.
pub proof fn lemma_single_auction_seq_roundtrip(ss: Seq<SingleAuctionV>)
    requires
        forall|i: int| 0 <= i < ss.len() ==> (#[trigger] ss[i]).wf(),
    ensures
        spec_dec_single_auction_seq(spec_enc_single_auction_seq(ss)) == Some(ss),
    decreases ss.len(),
{
    if ss.len() > 0 {
        assert(forall|i: int|
            0 <= i < ss.len() - 1 ==> (#[trigger] ss.drop_last()[i]) == ss[i]);
        lemma_single_auction_seq_roundtrip(ss.drop_last());
        lemma_single_auction_roundtrip(ss[ss.len() - 1]);
        let enc = spec_enc_single_auction_seq(ss);
        assert(enc.drop_last() =~= spec_enc_single_auction_seq(ss.drop_last()));
        assert(spec_dec_single_auction_seq(enc).unwrap() =~= ss);
    } else {
        assert(spec_dec_single_auction_seq(spec_enc_single_auction_seq(ss)).unwrap() =~= ss);
    }
}

/// Encodes a list of `SingleAuction` values as a JSON array.
#[verifier::loop_isolation(false)]
pub fn encode_single_auction_seq(v: &Vec<SingleAuction>) -> (j: Json)
    ensures
        j@ == JsonV::Arr(spec_enc_single_auction_seq(single_auction_views(v@))),
{
    let ghost dv = single_auction_views(v@);
    let mut items: Vec<Json> = Vec::new();
    let mut i: usize = 0;
    while i < v.len()
        invariant
            0 <= i <= v@.len(),
            dv == single_auction_views(v@),
            dv.len() == v@.len(),
            json_views(items@) == spec_enc_single_auction_seq(dv.take(i as int)),
            items@.len() == i,
        decreases v@.len() - i,
    {
        let ghost pre = items@;
        let elem = encode_single_auction(&v[i]);
        let ghost ev = elem;
        items.push(elem);
        proof {
            assert(items@.drop_last() =~= pre);
            assert(items@[items@.len() - 1] == ev);
            assert(json_views(items@) == json_views(pre).push(json_view(ev)));
            assert(dv.take(i + 1).drop_last() =~= dv.take(i as int));
            assert(dv.take(i + 1)[i as int] == dv[i as int]);
            assert(spec_enc_single_auction_seq(dv.take(i + 1)) == spec_enc_single_auction_seq(
                dv.take(i as int),
            ).push(spec_enc_single_auction(dv[i as int])));
        }
        i = i + 1;
    }
    proof {
        assert(dv.take(v@.len() as int) =~= dv);
    }
    Json::Arr(items)
}

/// `spec_dec_single_auction_seq` succeeds exactly when every item decodes, and
/// then decodes them in place.
pub proof fn lemma_dec_single_auction_seq_index(s: Seq<JsonV>)
    ensures
        (spec_dec_single_auction_seq(s) is Some) <==> (forall|i: int|
            0 <= i < s.len() ==> spec_dec_single_auction(#[trigger] s[i]) is Some),
        spec_dec_single_auction_seq(s) is Some ==> spec_dec_single_auction_seq(s).unwrap().len() == s.len(),
        spec_dec_single_auction_seq(s) is Some ==> forall|i: int|
            0 <= i < s.len() ==> #[trigger] spec_dec_single_auction_seq(s).unwrap()[i]
                == spec_dec_single_auction(s[i]).unwrap(),
    decreases s.len(),
{
    if s.len() > 0 {
        lemma_dec_single_auction_seq_index(s.drop_last());
        assert(forall|i: int| 0 <= i < s.len() - 1 ==> #[trigger] s.drop_last()[i] == s[i]);
        if spec_dec_single_auction_seq(s) is Some {
            assert(spec_dec_single_auction_seq(s.drop_last()) is Some);
            assert(spec_dec_single_auction(s[s.len() - 1]) is Some);
            assert forall|i: int| 0 <= i < s.len() implies spec_dec_single_auction(
                #[trigger] s[i],
            ) is Some by {
                if i < s.len() - 1 {
                    assert(spec_dec_single_auction(s.drop_last()[i]) is Some);
                }
            }
            assert forall|i: int|
                0 <= i < s.len() implies #[trigger] spec_dec_single_auction_seq(s).unwrap()[i]
                == spec_dec_single_auction(s[i]).unwrap() by {
                if i < s.len() - 1 {
                    assert(spec_dec_single_auction_seq(s.drop_last()).unwrap()[i] == spec_dec_single_auction(
                        s.drop_last()[i],
                    ).unwrap());
                }
            }
        } else {
            if forall|i: int| 0 <= i < s.len() ==> spec_dec_single_auction(#[trigger] s[i]) is Some {
                assert forall|i: int|
                    0 <= i < s.len() - 1 implies spec_dec_single_auction(
                    #[trigger] s.drop_last()[i],
                ) is Some by {
                    assert(s.drop_last()[i] == s[i]);
                }
                assert(spec_dec_single_auction_seq(s.drop_last()) is Some);
                assert(spec_dec_single_auction(s[s.len() - 1]) is Some);
                assert(spec_dec_single_auction_seq(s) is Some);
            }
        }
    }
}

/// Decodes a JSON array of `SingleAuction` items.
#[verifier::loop_isolation(false)]
pub fn decode_single_auction_seq(j: &Json) -> (r: Option<Vec<SingleAuction>>)
    ensures
        match r {
            Some(v) => j@ matches JsonV::Arr(items) && spec_dec_single_auction_seq(items) == Some(
                single_auction_views(v@),
            ),
            None => match j@ {
                JsonV::Arr(items) => spec_dec_single_auction_seq(items) is None,
                _ => true,
            },
        },
{
    let items = match j.as_arr() {
        Some(items) => items,
        None => {
            return None;
        },
    };
    proof {
        lemma_json_views_index(items@);
    }
    let ghost iv = json_views(items@);
    let mut out: Vec<SingleAuction> = Vec::new();
    let mut i: usize = 0;
    while i < items.len()
        invariant
            0 <= i <= items@.len(),
            iv == json_views(items@),
            iv.len() == items@.len(),
            forall|q: int| 0 <= q < items@.len() ==> iv[q] == json_view(#[trigger] items@[q]),
            spec_dec_single_auction_seq(iv.take(i as int)) is Some,
            single_auction_views(out@) == spec_dec_single_auction_seq(iv.take(i as int)).unwrap(),
            out@.len() == i,
        decreases items@.len() - i,
    {
        let x = match decode_single_auction(&items[i]) {
            Some(x) => x,
            None => {
                proof {
                    lemma_dec_single_auction_seq_index(iv);
                    assert(iv[i as int] == json_view(items@[i as int]));
                    assert(spec_dec_single_auction(iv[i as int]) is None);
                }
                return None;
            },
        };
        let ghost preout = out@;
        let ghost xv = x@;
        out.push(x);
        proof {
            assert(out@.drop_last() =~= preout);
            assert(single_auction_views(out@) =~= single_auction_views(preout).push(xv));
            assert(iv.take(i + 1).drop_last() =~= iv.take(i as int));
            assert(iv.take(i + 1)[i as int] == iv[i as int]);
            assert(spec_dec_single_auction_seq(iv.take(i + 1)).unwrap() =~= spec_dec_single_auction_seq(
                iv.take(i as int),
            ).unwrap().push(xv));
        }
        i = i + 1;
    }
    proof {
        assert(iv.take(items@.len() as int) =~= iv);
    }
    Some(out)
}

/// The opening and closing auctions of one day.
#[derive(Debug, Clone)]
pub struct HistoricalAuction {
    pub date: String,
    pub opening: Vec<SingleAuction>,
    pub closing: Vec<SingleAuction>,
}

/// The model of a `HistoricalAuction`.
pub struct HistoricalAuctionV {
    pub date: Seq<char>,
    pub opening: Seq<SingleAuctionV>,
    pub closing: Seq<SingleAuctionV>,
}

impl View for HistoricalAuction {
    type V = HistoricalAuctionV;

    open spec fn view(&self) -> HistoricalAuctionV {
        HistoricalAuctionV {
            date: self.date@,
            opening: Seq::new(self.opening@.len() as nat, |i: int| self.opening@[i]@),
            closing: Seq::new(self.closing@.len() as nat, |i: int| self.closing@[i]@),
        }
    }
}

impl HistoricalAuctionV {
    /// Numeric fields hold well-formed number literals, so encoding
    /// yields valid JSON source.
    pub open spec fn wf(self) -> bool {
        (forall|i: int| 0 <= i < self.opening.len() ==> (#[trigger] self.opening[i]).wf())
            && (forall|i: int| 0 <= i < self.closing.len() ==> (#[trigger] self.closing[i]).wf())
    }
}

/// The wire members of an encoded `HistoricalAuction`, in order, optional fields
/// contributing nothing when unset.
pub open spec fn spec_historical_auction_members(a: HistoricalAuctionV) -> Seq<(Seq<char>, JsonV)> {
    seq![("d"@, JsonV::Str(a.date)), ("o"@, JsonV::Arr(spec_enc_single_auction_seq(a.opening))), ("c"@, JsonV::Arr(spec_enc_single_auction_seq(a.closing)))]
}

/// The encoded form of a `HistoricalAuction`.
pub open spec fn spec_enc_historical_auction(a: HistoricalAuctionV) -> JsonV {
    JsonV::Obj(spec_historical_auction_members(a))
}

/// What decoding a JSON value as a `HistoricalAuction` yields.
pub open spec fn spec_dec_historical_auction(j: JsonV) -> Option<HistoricalAuctionV> {
    match j {
        JsonV::Obj(f) => {
            if lookup_str(f, "d"@) is Some && (match spec_lookup(f, "o"@) { Some(JsonV::Arr(items)) => spec_dec_single_auction_seq(items), Some(_) => None, None => None }) is Some && (match spec_lookup(f, "c"@) { Some(JsonV::Arr(items)) => spec_dec_single_auction_seq(items), Some(_) => None, None => None }) is Some {
                Some(HistoricalAuctionV {
                    date: lookup_str(f, "d"@).unwrap(),
                    opening: (match spec_lookup(f, "o"@) { Some(JsonV::Arr(items)) => spec_dec_single_auction_seq(items), Some(_) => None, None => None }).unwrap(),
                    closing: (match spec_lookup(f, "c"@) { Some(JsonV::Arr(items)) => spec_dec_single_auction_seq(items), Some(_) => None, None => None }).unwrap(),
                })
            } else {
                None
            }
        },
        _ => None,
    }
}

/// Encodes a `HistoricalAuction` as its wire object.
pub fn encode_historical_auction(x: &HistoricalAuction) -> (j: Json)
    ensures
        j@ == spec_enc_historical_auction(x@),
{
    let mut f: Vec<(String, Json)> = Vec::new();
    obj_push(&mut f, "d", Json::Str(x.date.clone()));
    obj_push(&mut f, "o", encode_single_auction_seq(&x.opening));
    obj_push(&mut f, "c", encode_single_auction_seq(&x.closing));
    proof {
        assert(member_views(f@) =~= seq![("d"@, JsonV::Str(x@.date)), ("o"@, JsonV::Arr(spec_enc_single_auction_seq(x@.opening))), ("c"@, JsonV::Arr(spec_enc_single_auction_seq(x@.closing)))]);
    }
    let j = Json::Obj(f);
    proof {
        assert(member_views(f@) =~= spec_historical_auction_members(x@));
    }
    j
}

/// Decodes a `HistoricalAuction` from a JSON value.
pub fn decode_historical_auction(j: &Json) -> (r: Option<HistoricalAuction>)
    ensures
        match r {
            Some(x) => spec_dec_historical_auction(j@) == Some(x@),
            None => spec_dec_historical_auction(j@) is None,
        },
{
    let v_date = match j.get_str("d") {
        Some(v) => v,
        None => {
            return None;
        },
    };
    let v_opening = match j.get("o") {
        Some(m) => match decode_single_auction_seq(m) {
            Some(x) => x,
            None => {
                return None;
            },
        },
        None => {
            return None;
        },
    };
    let v_closing = match j.get("c") {
        Some(m) => match decode_single_auction_seq(m) {
            Some(x) => x,
            None => {
                return None;
            },
        },
        None => {
            return None;
        },
    };
    Some(HistoricalAuction {
        date: v_date,
        opening: v_opening,
        closing: v_closing,
    })
}

/// Decoding an encoded `HistoricalAuction` gives back the same data.
#[verifier::rlimit(100)]
pub proof fn lemma_historical_auction_roundtrip(a: HistoricalAuctionV)
    requires
        a.wf(),
    ensures
        spec_dec_historical_auction(spec_enc_historical_auction(a)) == Some(a),
{
    reveal_with_fuel(spec_lookup, 7);
    reveal_strlit("c");
    reveal_strlit("d");
    reveal_strlit("o");
    assert("c"@.len() == 1);
    assert("d"@.len() == 1);
    assert("o"@.len() == 1);
    assert("d"@ != "o"@) by {
        assert("d"@[0] == 'd');
        assert("o"@[0] == 'o');
    }
    assert("c"@ != "d"@) by {
        assert("c"@[0] == 'c');
        assert("d"@[0] == 'd');
    }
    assert("c"@ != "o"@) by {
        assert("c"@[0] == 'c');
        assert("o"@[0] == 'o');
    }
    lemma_single_auction_seq_roundtrip(a.opening);
    lemma_single_auction_seq_roundtrip(a.closing);
}

/// The models of a list of `HistoricalAuction` values.
pub open spec fn historical_auction_views(s: Seq<HistoricalAuction>) -> Seq<HistoricalAuctionV> {
    Seq::new(s.len(), |i: int| s[i]@)
}

/// The encoded items of a list of `HistoricalAuction` models.
pub open spec fn spec_enc_historical_auction_seq(ss: Seq<HistoricalAuctionV>) -> Seq<JsonV>
    decreases ss.len(),
{
    if ss.len() == 0 {
        Seq::empty()
    } else {
        spec_enc_historical_auction_seq(ss.drop_last()).push(spec_enc_historical_auction(ss[ss.len() - 1]))
    }
}

/// What decoding an array of `HistoricalAuction` items yields.
pub open spec fn spec_dec_historical_auction_seq(items: Seq<JsonV>) -> Option<Seq<HistoricalAuctionV>>
    decreases items.len(),
{
    if items.len() == 0 {
        Some(Seq::empty())
    } else {
        match spec_dec_historical_auction_seq(items.drop_last()) {
            Some(pre) => match spec_dec_historical_auction(items[items.len() - 1]) {
                Some(x) => Some(pre.push(x)),
                None => None,
            },
            None => None,
        }
    }
}

/// Encoding a list of `HistoricalAuction` models and decoding it gives them back.
pub proof fn lemma_historical_auction_seq_roundtrip(ss: Seq<HistoricalAuctionV>)
    requires
        forall|i: int| 0 <= i < ss.len() ==> (#[trigger] ss[i]).wf(),
    ensures
        spec_dec_historical_auction_seq(spec_enc_historical_auction_seq(ss)) == Some(ss),
    decreases ss.len(),
{
    if ss.len() > 0 {
        assert(forall|i: int|
            0 <= i < ss.len() - 1 ==> (#[trigger] ss.drop_last()[i]) == ss[i]);
        lemma_historical_auction_seq_roundtrip(ss.drop_last());
        lemma_historical_auction_roundtrip(ss[ss.len() - 1]);
        let enc = spec_enc_historical_auction_seq(ss);
        assert(enc.drop_last() =~= spec_enc_historical_auction_seq(ss.drop_last()));
        assert(spec_dec_historical_auction_seq(enc).unwrap() =~= ss);
    } else {
        assert(spec_dec_historical_auction_seq(spec_enc_historical_auction_seq(ss)).unwrap() =~= ss);
    }
}

/// Encodes a list of `HistoricalAuction` values as a JSON array.
#[verifier::loop_isolation(false)]
pub fn encode_historical_auction_seq(v: &Vec<HistoricalAuction>) -> (j: Json)
    ensures
        j@ == JsonV::Arr(spec_enc_historical_auction_seq(historical_auction_views(v@))),
{
    let ghost dv = historical_auction_views(v@);
    let mut items: Vec<Json> = Vec::new();
    let mut i: usize = 0;
    while i < v.len()
        invariant
            0 <= i <= v@.len(),
            dv == historical_auction_views(v@),
            dv.len() == v@.len(),
            json_views(items@) == spec_enc_historical_auction_seq(dv.take(i as int)),
            items@.len() == i,
        decreases v@.len() - i,
    {
        let ghost pre = items@;
        let elem = encode_historical_auction(&v[i]);
        let ghost ev = elem;
        items.push(elem);
        proof {
            assert(items@.drop_last() =~= pre);
            assert(items@[items@.len() - 1] == ev);
            assert(json_views(items@) == json_views(pre).push(json_view(ev)));
            assert(dv.take(i + 1).drop_last() =~= dv.take(i as int));
            assert(dv.take(i + 1)[i as int] == dv[i as int]);
            assert(spec_enc_historical_auction_seq(dv.take(i + 1)) == spec_enc_historical_auction_seq(
                dv.take(i as int),
            ).push(spec_enc_historical_auction(dv[i as int])));
        }
        i = i + 1;
    }
    proof {
        assert(dv.take(v@.len() as int) =~= dv);
    }
    Json::Arr(items)
}

/// `spec_dec_historical_auction_seq` succeeds exactly when every item decodes, and
/// then decodes them in place.
pub proof fn lemma_dec_historical_auction_seq_index(s: Seq<JsonV>)
    ensures
        (spec_dec_historical_auction_seq(s) is Some) <==> (forall|i: int|
            0 <= i < s.len() ==> spec_dec_historical_auction(#[trigger] s[i]) is Some),
        spec_dec_historical_auction_seq(s) is Some ==> spec_dec_historical_auction_seq(s).unwrap().len() == s.len(),
        spec_dec_historical_auction_seq(s) is Some ==> forall|i: int|
            0 <= i < s.len() ==> #[trigger] spec_dec_historical_auction_seq(s).unwrap()[i]
                == spec_dec_historical_auction(s[i]).unwrap(),
    decreases s.len(),
{
    if s.len() > 0 {
        lemma_dec_historical_auction_seq_index(s.drop_last());
        assert(forall|i: int| 0 <= i < s.len() - 1 ==> #[trigger] s.drop_last()[i] == s[i]);
        if spec_dec_historical_auction_seq(s) is Some {
            assert(spec_dec_historical_auction_seq(s.drop_last()) is Some);
            assert(spec_dec_historical_auction(s[s.len() - 1]) is Some);
            assert forall|i: int| 0 <= i < s.len() implies spec_dec_historical_auction(
                #[trigger] s[i],
            ) is Some by {
                if i < s.len() - 1 {
                    assert(spec_dec_historical_auction(s.drop_last()[i]) is Some);
                }
            }
            assert forall|i: int|
                0 <= i < s.len() implies #[trigger] spec_dec_historical_auction_seq(s).unwrap()[i]
                == spec_dec_historical_auction(s[i]).unwrap() by {
                if i < s.len() - 1 {
                    assert(spec_dec_historical_auction_seq(s.drop_last()).unwrap()[i] == spec_dec_historical_auction(
                        s.drop_last()[i],
                    ).unwrap());
                }
            }
        } else {
            if forall|i: int| 0 <= i < s.len() ==> spec_dec_historical_auction(#[trigger] s[i]) is Some {
                assert forall|i: int|
                    0 <= i < s.len() - 1 implies spec_dec_historical_auction(
                    #[trigger] s.drop_last()[i],
                ) is Some by {
                    assert(s.drop_last()[i] == s[i]);
                }
                assert(spec_dec_historical_auction_seq(s.drop_last()) is Some);
                assert(spec_dec_historical_auction(s[s.len() - 1]) is Some);
                assert(spec_dec_historical_auction_seq(s) is Some);
            }
        }
    }
}

/// Decodes a JSON array of `HistoricalAuction` items.
#[verifier::loop_isolation(false)]
pub fn decode_historical_auction_seq(j: &Json) -> (r: Option<Vec<HistoricalAuction>>)
    ensures
        match r {
            Some(v) => j@ matches JsonV::Arr(items) && spec_dec_historical_auction_seq(items) == Some(
                historical_auction_views(v@),
            ),
            None => match j@ {
                JsonV::Arr(items) => spec_dec_historical_auction_seq(items) is None,
                _ => true,
            },
        },
{
    let items = match j.as_arr() {
        Some(items) => items,
        None => {
            return None;
        },
    };
    proof {
        lemma_json_views_index(items@);
    }
    let ghost iv = json_views(items@);
    let mut out: Vec<HistoricalAuction> = Vec::new();
    let mut i: usize = 0;
    while i < items.len()
        invariant
            0 <= i <= items@.len(),
            iv == json_views(items@),
            iv.len() == items@.len(),
            forall|q: int| 0 <= q < items@.len() ==> iv[q] == json_view(#[trigger] items@[q]),
            spec_dec_historical_auction_seq(iv.take(i as int)) is Some,
            historical_auction_views(out@) == spec_dec_historical_auction_seq(iv.take(i as int)).unwrap(),
            out@.len() == i,
        decreases items@.len() - i,
    {
        let x = match decode_historical_auction(&items[i]) {
            Some(x) => x,
            None => {
                proof {
                    lemma_dec_historical_auction_seq_index(iv);
                    assert(iv[i as int] == json_view(items@[i as int]));
                    assert(spec_dec_historical_auction(iv[i as int]) is None);
                }
                return None;
            },
        };
        let ghost preout = out@;
        let ghost xv = x@;
        out.push(x);
        proof {
            assert(out@.drop_last() =~= preout);
            assert(historical_auction_views(out@) =~= historical_auction_views(preout).push(xv));
            assert(iv.take(i + 1).drop_last() =~= iv.take(i as int));
            assert(iv.take(i + 1)[i as int] == iv[i as int]);
            assert(spec_dec_historical_auction_seq(iv.take(i + 1)).unwrap() =~= spec_dec_historical_auction_seq(
                iv.take(i as int),
            ).unwrap().push(xv));
        }
        i = i + 1;
    }
    proof {
        assert(iv.take(items@.len() as int) =~= iv);
    }
    Some(out)
}

/// A page of historical auctions with its continuation token.
#[derive(Debug, Clone)]
pub struct HistoricalAuctions {
    pub next_page_token: Option<String>,
    pub currency: Option<String>,
    pub auctions: Vec<HistoricalAuction>,
}

/// The model of a `HistoricalAuctions`.
pub struct HistoricalAuctionsV {
    pub next_page_token: Option<Seq<char>>,
    pub currency: Option<Seq<char>>,
    pub auctions: Seq<HistoricalAuctionV>,
}

impl View for HistoricalAuctions {
    type V = HistoricalAuctionsV;

    open spec fn view(&self) -> HistoricalAuctionsV {
        HistoricalAuctionsV {
            next_page_token: match self.next_page_token { Some(s) => Some(s@), None => None },
            currency: match self.currency { Some(s) => Some(s@), None => None },
            auctions: Seq::new(self.auctions@.len() as nat, |i: int| self.auctions@[i]@),
        }
    }
}

impl HistoricalAuctionsV {
    /// Numeric fields hold well-formed number literals, so encoding
    /// yields valid JSON source.
    pub open spec fn wf(self) -> bool {
        forall|i: int| 0 <= i < self.auctions.len() ==> (#[trigger] self.auctions[i]).wf()
    }
}

/// The wire members of an encoded `HistoricalAuctions`, in order, optional fields
/// contributing nothing when unset.
pub open spec fn spec_historical_auctions_members(a: HistoricalAuctionsV) -> Seq<(Seq<char>, JsonV)> {
    seq![("auctions"@, JsonV::Arr(spec_enc_historical_auction_seq(a.auctions)))] + opt_member_str("next_page_token"@, a.next_page_token) + opt_member_str("currency"@, a.currency)
}

/// The encoded form of a `HistoricalAuctions`.
pub open spec fn spec_enc_historical_auctions(a: HistoricalAuctionsV) -> JsonV {
    JsonV::Obj(spec_historical_auctions_members(a))
}

/// What decoding a JSON value as a `HistoricalAuctions` yields.
pub open spec fn spec_dec_historical_auctions(j: JsonV) -> Option<HistoricalAuctionsV> {
    match j {
        JsonV::Obj(f) => {
            if lookup_opt_str(f, "next_page_token"@) is Some && lookup_opt_str(f, "currency"@) is Some && (match spec_lookup(f, "auctions"@) { Some(JsonV::Arr(items)) => spec_dec_historical_auction_seq(items), Some(_) => None, None => None }) is Some {
                Some(HistoricalAuctionsV {
                    next_page_token: lookup_opt_str(f, "next_page_token"@).unwrap(),
                    currency: lookup_opt_str(f, "currency"@).unwrap(),
                    auctions: (match spec_lookup(f, "auctions"@) { Some(JsonV::Arr(items)) => spec_dec_historical_auction_seq(items), Some(_) => None, None => None }).unwrap(),
                })
            } else {
                None
            }
        },
        _ => None,
    }
}

/// Encodes a `HistoricalAuctions` as its wire object.
pub fn encode_historical_auctions(x: &HistoricalAuctions) -> (j: Json)
    ensures
        j@ == spec_enc_historical_auctions(x@),
{
    let mut f: Vec<(String, Json)> = Vec::new();
    obj_push(&mut f, "auctions", encode_historical_auction_seq(&x.auctions));
    proof {
        assert(member_views(f@) =~= seq![("auctions"@, JsonV::Arr(spec_enc_historical_auction_seq(x@.auctions)))]);
    }
    let ghost seg0 = member_views(f@);
    match &x.next_page_token {
        Some(v) => {
            obj_push(&mut f, "next_page_token", Json::Str(v.clone()));
        },
        None => {},
    }
    proof {
        assert(member_views(f@) =~= seg0 + opt_member_str("next_page_token"@, x@.next_page_token));
    }
    let ghost seg1 = member_views(f@);
    match &x.currency {
        Some(v) => {
            obj_push(&mut f, "currency", Json::Str(v.clone()));
        },
        None => {},
    }
    proof {
        assert(member_views(f@) =~= seg1 + opt_member_str("currency"@, x@.currency));
    }
    let j = Json::Obj(f);
    proof {
        assert(member_views(f@) =~= spec_historical_auctions_members(x@));
    }
    j
}

/// Decodes a `HistoricalAuctions` from a JSON value.
pub fn decode_historical_auctions(j: &Json) -> (r: Option<HistoricalAuctions>)
    ensures
        match r {
            Some(x) => spec_dec_historical_auctions(j@) == Some(x@),
            None => spec_dec_historical_auctions(j@) is None,
        },
{
    let v_next_page_token = match j.get_opt_str("next_page_token") {
        Some(v) => v,
        None => {
            return None;
        },
    };
    let v_currency = match j.get_opt_str("currency") {
        Some(v) => v,
        None => {
            return None;
        },
    };
    let v_auctions = match j.get("auctions") {
        Some(m) => match decode_historical_auction_seq(m) {
            Some(x) => x,
            None => {
                return None;
            },
        },
        None => {
            return None;
        },
    };
    Some(HistoricalAuctions {
        next_page_token: v_next_page_token,
        currency: v_currency,
        auctions: v_auctions,
    })
}

/// Decoding an encoded `HistoricalAuctions` gives back the same data.
#[verifier::rlimit(100)]
pub proof fn lemma_historical_auctions_roundtrip(a: HistoricalAuctionsV)
    requires
        a.wf(),
    ensures
        spec_dec_historical_auctions(spec_enc_historical_auctions(a)) == Some(a),
{
    reveal_with_fuel(spec_lookup, 7);
    reveal_strlit("auctions");
    reveal_strlit("currency");
    reveal_strlit("next_page_token");
    assert("auctions"@.len() == 8);
    assert("currency"@.len() == 8);
    assert("next_page_token"@.len() == 15);
    assert("auctions"@ != "currency"@) by {
        assert("auctions"@[0] == 'a');
        assert("currency"@[0] == 'c');
    }
    lemma_historical_auction_seq_roundtrip(a.auctions);
    let base = seq![("auctions"@, JsonV::Arr(spec_enc_historical_auction_seq(a.auctions)))];
    let seg0 = opt_member_str("next_page_token"@, a.next_page_token);
    let seg1 = opt_member_str("currency"@, a.currency);
    let pre0 = base + seg0;
    let pre1 = pre0 + seg1;
    assert(spec_historical_auctions_members(a) == pre1);
    lemma_lookup_append(pre0, seg1, "auctions"@);
    lemma_lookup_append(base, seg0, "auctions"@);
    lemma_lookup_append(pre0, seg1, "currency"@);
    lemma_lookup_append(base, seg0, "currency"@);
    lemma_lookup_append(pre0, seg1, "next_page_token"@);
    lemma_lookup_append(base, seg0, "next_page_token"@);
}

/// A snapshot of one symbol: its current bars, latest quote and latest trade.
#[derive(Debug, Clone)]
pub struct Snapshot {
    pub daily_bar: HistoricalBar,
    pub latest_quote: Quote,
    pub latest_trade: HistoricalTrade,
    pub minute_bar: HistoricalBar,
    pub previous_daily_bar: HistoricalBar,
}

/// The model of a `Snapshot`.
pub struct SnapshotV {
    pub daily_bar: HistoricalBarV,
    pub latest_quote: QuoteV,
    pub latest_trade: HistoricalTradeV,
    pub minute_bar: HistoricalBarV,
    pub previous_daily_bar: HistoricalBarV,
}

impl View for Snapshot {
    type V = SnapshotV;

    open spec fn view(&self) -> SnapshotV {
        SnapshotV {
            daily_bar: self.daily_bar@,
            latest_quote: self.latest_quote@,
            latest_trade: self.latest_trade@,
            minute_bar: self.minute_bar@,
            previous_daily_bar: self.previous_daily_bar@,
        }
    }
}

impl SnapshotV {
    /// Numeric fields hold well-formed number literals, so encoding
    /// yields valid JSON source.
    pub open spec fn wf(self) -> bool {
        self.daily_bar.wf() && self.latest_quote.wf() && self.latest_trade.wf() && self.minute_bar.wf() && self.previous_daily_bar.wf()
    }
}

/// The wire members of an encoded `Snapshot`, in order, optional fields
/// contributing nothing when unset.
pub open spec fn spec_snapshot_members(a: SnapshotV) -> Seq<(Seq<char>, JsonV)> {
    seq![("dailyBar"@, spec_enc_historical_bar(a.daily_bar)), ("latestQuote"@, spec_enc_quote(a.latest_quote)), ("latestTrade"@, spec_enc_historical_trade(a.latest_trade)), ("minuteBar"@, spec_enc_historical_bar(a.minute_bar)), ("prev_daily_bar"@, spec_enc_historical_bar(a.previous_daily_bar))]
}

/// The encoded form of a `Snapshot`.
pub open spec fn spec_enc_snapshot(a: SnapshotV) -> JsonV {
    JsonV::Obj(spec_snapshot_members(a))
}

/// What decoding a JSON value as a `Snapshot` yields.
pub open spec fn spec_dec_snapshot(j: JsonV) -> Option<SnapshotV> {
    match j {
        JsonV::Obj(f) => {
            if (match spec_lookup(f, "dailyBar"@) { Some(jv) => spec_dec_historical_bar(jv), None => None }) is Some && (match spec_lookup(f, "latestQuote"@) { Some(jv) => spec_dec_quote(jv), None => None }) is Some && (match spec_lookup(f, "latestTrade"@) { Some(jv) => spec_dec_historical_trade(jv), None => None }) is Some && (match spec_lookup(f, "minuteBar"@) { Some(jv) => spec_dec_historical_bar(jv), None => None }) is Some && (match spec_lookup(f, "prev_daily_bar"@) { Some(jv) => spec_dec_historical_bar(jv), None => None }) is Some {
                Some(SnapshotV {
                    daily_bar: (match spec_lookup(f, "dailyBar"@) { Some(jv) => spec_dec_historical_bar(jv), None => None }).unwrap(),
                    latest_quote: (match spec_lookup(f, "latestQuote"@) { Some(jv) => spec_dec_quote(jv), None => None }).unwrap(),
                    latest_trade: (match spec_lookup(f, "latestTrade"@) { Some(jv) => spec_dec_historical_trade(jv), None => None }).unwrap(),
                    minute_bar: (match spec_lookup(f, "minuteBar"@) { Some(jv) => spec_dec_historical_bar(jv), None => None }).unwrap(),
                    previous_daily_bar: (match spec_lookup(f, "prev_daily_bar"@) { Some(jv) => spec_dec_historical_bar(jv), None => None }).unwrap(),
                })
            } else {
                None
            }
        },
        _ => None,
    }
}

/// Encodes a `Snapshot` as its wire object.
pub fn encode_snapshot(x: &Snapshot) -> (j: Json)
    ensures
        j@ == spec_enc_snapshot(x@),
{
    let mut f: Vec<(String, Json)> = Vec::new();
    obj_push(&mut f, "dailyBar", encode_historical_bar(&x.daily_bar));
    obj_push(&mut f, "latestQuote", encode_quote(&x.latest_quote));
    obj_push(&mut f, "latestTrade", encode_historical_trade(&x.latest_trade));
    obj_push(&mut f, "minuteBar", encode_historical_bar(&x.minute_bar));
    obj_push(&mut f, "prev_daily_bar", encode_historical_bar(&x.previous_daily_bar));
    proof {
        assert(member_views(f@) =~= seq![("dailyBar"@, spec_enc_historical_bar(x@.daily_bar)), ("latestQuote"@, spec_enc_quote(x@.latest_quote)), ("latestTrade"@, spec_enc_historical_trade(x@.latest_trade)), ("minuteBar"@, spec_enc_historical_bar(x@.minute_bar)), ("prev_daily_bar"@, spec_enc_historical_bar(x@.previous_daily_bar))]);
    }
    let j = Json::Obj(f);
    proof {
        assert(member_views(f@) =~= spec_snapshot_members(x@));
    }
    j
}

/// Decodes a `Snapshot` from a JSON value.
pub fn decode_snapshot(j: &Json) -> (r: Option<Snapshot>)
    ensures
        match r {
            Some(x) => spec_dec_snapshot(j@) == Some(x@),
            None => spec_dec_snapshot(j@) is None,
        },
{
    let v_daily_bar = match j.get("dailyBar") {
        Some(m) => match decode_historical_bar(m) {
            Some(x) => x,
            None => {
                return None;
            },
        },
        None => {
            return None;
        },
    };
    let v_latest_quote = match j.get("latestQuote") {
        Some(m) => match decode_quote(m) {
            Some(x) => x,
            None => {
                return None;
            },
        },
        None => {
            return None;
        },
    };
    let v_latest_trade = match j.get("latestTrade") {
        Some(m) => match decode_historical_trade(m) {
            Some(x) => x,
            None => {
                return None;
            },
        },
        None => {
            return None;
        },
    };
    let v_minute_bar = match j.get("minuteBar") {
        Some(m) => match decode_historical_bar(m) {
            Some(x) => x,
            None => {
                return None;
            },
        },
        None => {
            return None;
        },
    };
    let v_previous_daily_bar = match j.get("prev_daily_bar") {
        Some(m) => match decode_historical_bar(m) {
            Some(x) => x,
            None => {
                return None;
            },
        },
        None => {
            return None;
        },
    };
    Some(Snapshot {
        daily_bar: v_daily_bar,
        latest_quote: v_latest_quote,
        latest_trade: v_latest_trade,
        minute_bar: v_minute_bar,
        previous_daily_bar: v_previous_daily_bar,
    })
}

/// Decoding an encoded `Snapshot` gives back the same data.
#[verifier::rlimit(100)]
pub proof fn lemma_snapshot_roundtrip(a: SnapshotV)
    requires
        a.wf(),
    ensures
        spec_dec_snapshot(spec_enc_snapshot(a)) == Some(a),
{
    reveal_with_fuel(spec_lookup, 9);
    reveal_strlit("dailyBar");
    reveal_strlit("latestQuote");
    reveal_strlit("latestTrade");
    reveal_strlit("minuteBar");
    reveal_strlit("prev_daily_bar");
    assert("dailyBar"@.len() == 8);
    assert("latestQuote"@.len() == 11);
    assert("latestTrade"@.len() == 11);
    assert("minuteBar"@.len() == 9);
    assert("prev_daily_bar"@.len() == 14);
    assert("latestQuote"@ != "latestTrade"@) by {
        assert("latestQuote"@[6] == 'Q');
        assert("latestTrade"@[6] == 'T');
    }
    lemma_historical_bar_roundtrip(a.daily_bar);
    lemma_quote_roundtrip(a.latest_quote);
    lemma_historical_trade_roundtrip(a.latest_trade);
    lemma_historical_bar_roundtrip(a.minute_bar);
    lemma_historical_bar_roundtrip(a.previous_daily_bar);
}

/// The models of a list of `Snapshot` values.
pub open spec fn snapshot_views(s: Seq<Snapshot>) -> Seq<SnapshotV> {
    Seq::new(s.len(), |i: int| s[i]@)
}

/// The encoded items of a list of `Snapshot` models.
pub open spec fn spec_enc_snapshot_seq(ss: Seq<SnapshotV>) -> Seq<JsonV>
    decreases ss.len(),
{
    if ss.len() == 0 {
        Seq::empty()
    } else {
        spec_enc_snapshot_seq(ss.drop_last()).push(spec_enc_snapshot(ss[ss.len() - 1]))
    }
}

/// What decoding an array of `Snapshot` items yields.
pub open spec fn spec_dec_snapshot_seq(items: Seq<JsonV>) -> Option<Seq<SnapshotV>>
    decreases items.len(),
{
    if items.len() == 0 {
        Some(Seq::empty())
    } else {
        match spec_dec_snapshot_seq(items.drop_last()) {
            Some(pre) => match spec_dec_snapshot(items[items.len() - 1]) {
                Some(x) => Some(pre.push(x)),
                None => None,
            },
            None => None,
        }
    }
}

/// Encoding a list of `Snapshot` models and decoding it gives them back.
pub proof fn lemma_snapshot_seq_roundtrip(ss: Seq<SnapshotV>)
    requires
        forall|i: int| 0 <= i < ss.len() ==> (#[trigger] ss[i]).wf(),
    ensures
        spec_dec_snapshot_seq(spec_enc_snapshot_seq(ss)) == Some(ss),
    decreases ss.len(),
{
    if ss.len() > 0 {
        assert(forall|i: int|
            0 <= i < ss.len() - 1 ==> (#[trigger] ss.drop_last()[i]) == ss[i]);
        lemma_snapshot_seq_roundtrip(ss.drop_last());
        lemma_snapshot_roundtrip(ss[ss.len() - 1]);
        let enc = spec_enc_snapshot_seq(ss);
        assert(enc.drop_last() =~= spec_enc_snapshot_seq(ss.drop_last()));
        assert(spec_dec_snapshot_seq(enc).unwrap() =~= ss);
    } else {
        assert(spec_dec_snapshot_seq(spec_enc_snapshot_seq(ss)).unwrap() =~= ss);
    }
}

/// Encodes a list of `Snapshot` values as a JSON array.
#[verifier::loop_isolation(false)]
pub fn encode_snapshot_seq(v: &Vec<Snapshot>) -> (j: Json)
    ensures
        j@ == JsonV::Arr(spec_enc_snapshot_seq(snapshot_views(v@))),
{
    let ghost dv = snapshot_views(v@);
    let mut items: Vec<Json> = Vec::new();
    let mut i: usize = 0;
    while i < v.len()
        invariant
            0 <= i <= v@.len(),
            dv == snapshot_views(v@),
            dv.len() == v@.len(),
            json_views(items@) == spec_enc_snapshot_seq(dv.take(i as int)),
            items@.len() == i,
        decreases v@.len() - i,
    {
        let ghost pre = items@;
        let elem = encode_snapshot(&v[i]);
        let ghost ev = elem;
        items.push(elem);
        proof {
            assert(items@.drop_last() =~= pre);
            assert(items@[items@.len() - 1] == ev);
            assert(json_views(items@) == json_views(pre).push(json_view(ev)));
            assert(dv.take(i + 1).drop_last() =~= dv.take(i as int));
            assert(dv.take(i + 1)[i as int] == dv[i as int]);
            assert(spec_enc_snapshot_seq(dv.take(i + 1)) == spec_enc_snapshot_seq(
                dv.take(i as int),
            ).push(spec_enc_snapshot(dv[i as int])));
        }
        i = i + 1;
    }
    proof {
        assert(dv.take(v@.len() as int) =~= dv);
    }
    Json::Arr(items)
}

/// `spec_dec_snapshot_seq` succeeds exactly when every item decodes, and
/// then decodes them in place.
pub proof fn lemma_dec_snapshot_seq_index(s: Seq<JsonV>)
    ensures
        (spec_dec_snapshot_seq(s) is Some) <==> (forall|i: int|
            0 <= i < s.len() ==> spec_dec_snapshot(#[trigger] s[i]) is Some),
        spec_dec_snapshot_seq(s) is Some ==> spec_dec_snapshot_seq(s).unwrap().len() == s.len(),
        spec_dec_snapshot_seq(s) is Some ==> forall|i: int|
            0 <= i < s.len() ==> #[trigger] spec_dec_snapshot_seq(s).unwrap()[i]
                == spec_dec_snapshot(s[i]).unwrap(),
    decreases s.len(),
{
    if s.len() > 0 {
        lemma_dec_snapshot_seq_index(s.drop_last());
        assert(forall|i: int| 0 <= i < s.len() - 1 ==> #[trigger] s.drop_last()[i] == s[i]);
        if spec_dec_snapshot_seq(s) is Some {
            assert(spec_dec_snapshot_seq(s.drop_last()) is Some);
            assert(spec_dec_snapshot(s[s.len() - 1]) is Some);
            assert forall|i: int| 0 <= i < s.len() implies spec_dec_snapshot(
                #[trigger] s[i],
            ) is Some by {
                if i < s.len() - 1 {
                    assert(spec_dec_snapshot(s.drop_last()[i]) is Some);
                }
            }
            assert forall|i: int|
                0 <= i < s.len() implies #[trigger] spec_dec_snapshot_seq(s).unwrap()[i]
                == spec_dec_snapshot(s[i]).unwrap() by {
                if i < s.len() - 1 {
                    assert(spec_dec_snapshot_seq(s.drop_last()).unwrap()[i] == spec_dec_snapshot(
                        s.drop_last()[i],
                    ).unwrap());
                }
            }
        } else {
            if forall|i: int| 0 <= i < s.len() ==> spec_dec_snapshot(#[trigger] s[i]) is Some {
                assert forall|i: int|
                    0 <= i < s.len() - 1 implies spec_dec_snapshot(
                    #[trigger] s.drop_last()[i],
                ) is Some by {
                    assert(s.drop_last()[i] == s[i]);
                }
                assert(spec_dec_snapshot_seq(s.drop_last()) is Some);
                assert(spec_dec_snapshot(s[s.len() - 1]) is Some);
                assert(spec_dec_snapshot_seq(s) is Some);
            }
        }
    }
}

/// Decodes a JSON array of `Snapshot` items.
#[verifier::loop_isolation(false)]
pub fn decode_snapshot_seq(j: &Json) -> (r: Option<Vec<Snapshot>>)
    ensures
        match r {
            Some(v) => j@ matches JsonV::Arr(items) && spec_dec_snapshot_seq(items) == Some(
                snapshot_views(v@),
            ),
            None => match j@ {
                JsonV::Arr(items) => spec_dec_snapshot_seq(items) is None,
                _ => true,
            },
        },
{
    let items = match j.as_arr() {
        Some(items) => items,
        None => {
            return None;
        },
    };
    proof {
        lemma_json_views_index(items@);
    }
    let ghost iv = json_views(items@);
    let mut out: Vec<Snapshot> = Vec::new();
    let mut i: usize = 0;
    while i < items.len()
        invariant
            0 <= i <= items@.len(),
            iv == json_views(items@),
            iv.len() == items@.len(),
            forall|q: int| 0 <= q < items@.len() ==> iv[q] == json_view(#[trigger] items@[q]),
            spec_dec_snapshot_seq(iv.take(i as int)) is Some,
            snapshot_views(out@) == spec_dec_snapshot_seq(iv.take(i as int)).unwrap(),
            out@.len() == i,
        decreases items@.len() - i,
    {
        let x = match decode_snapshot(&items[i]) {
            Some(x) => x,
            None => {
                proof {
                    lemma_dec_snapshot_seq_index(iv);
                    assert(iv[i as int] == json_view(items@[i as int]));
                    assert(spec_dec_snapshot(iv[i as int]) is None);
                }
                return None;
            },
        };
        let ghost preout = out@;
        let ghost xv = x@;
        out.push(x);
        proof {
            assert(out@.drop_last() =~= preout);
            assert(snapshot_views(out@) =~= snapshot_views(preout).push(xv));
            assert(iv.take(i + 1).drop_last() =~= iv.take(i as int));
            assert(iv.take(i + 1)[i as int] == iv[i as int]);
            assert(spec_dec_snapshot_seq(iv.take(i + 1)).unwrap() =~= spec_dec_snapshot_seq(
                iv.take(i as int),
            ).unwrap().push(xv));
        }
        i = i + 1;
    }
    proof {
        assert(iv.take(items@.len() as int) =~= iv);
    }
    Some(out)
}

/// The trading calendar: the returned days in order.
#[derive(Debug, Clone)]
pub struct Calendar(pub Vec<CalendarDay>);

/// The model of a `Calendar`.
pub struct CalendarV(pub Seq<CalendarDayV>);

impl View for Calendar {
    type V = CalendarV;

    open spec fn view(&self) -> CalendarV {
        CalendarV(calendar_day_views(self.0@))
    }
}

/// The encoded form of a `Calendar`: a JSON array of its days.
pub open spec fn spec_enc_calendar(a: CalendarV) -> JsonV {
    JsonV::Arr(spec_enc_calendar_day_seq(a.0))
}

/// What decoding a JSON value as a `Calendar` yields.
pub open spec fn spec_dec_calendar(j: JsonV) -> Option<CalendarV> {
    match j {
        JsonV::Arr(items) => match spec_dec_calendar_day_seq(items) {
            Some(days) => Some(CalendarV(days)),
            None => None,
        },
        _ => None,
    }
}

/// Encodes a `Calendar` as a JSON array.
pub fn encode_calendar(x: &Calendar) -> (j: Json)
    ensures
        j@ == spec_enc_calendar(x@),
{
    encode_calendar_day_seq(&x.0)
}

/// Decodes a `Calendar` from a JSON value.
pub fn decode_calendar(j: &Json) -> (r: Option<Calendar>)
    ensures
        match r {
            Some(x) => spec_dec_calendar(j@) == Some(x@),
            None => spec_dec_calendar(j@) is None,
        },
{
    match decode_calendar_day_seq(j) {
        Some(days) => Some(Calendar(days)),
        None => None,
    }
}

/// Decoding an encoded `Calendar` gives back the same days.
pub proof fn lemma_calendar_roundtrip(a: CalendarV)
    ensures
        spec_dec_calendar(spec_enc_calendar(a)) == Some(a),
{
    lemma_calendar_day_seq_roundtrip(a.0);
}

/// Bars grouped by symbol, an association list in wire order.
#[derive(Debug, Clone)]
pub struct HistoricalBars {
    pub bars: Vec<(String, Vec<HistoricalBar>)>,
    pub next_page_token: Option<String>,
    pub currency: Option<String>,
}

/// The model of a `HistoricalBars`.
pub struct HistoricalBarsV {
    pub bars: Seq<(Seq<char>, Seq<HistoricalBarV>)>,
    pub next_page_token: Option<Seq<char>>,
    pub currency: Option<Seq<char>>,
}

impl View for HistoricalBars {
    type V = HistoricalBarsV;

    open spec fn view(&self) -> HistoricalBarsV {
        HistoricalBarsV {
            bars: Seq::new(
                self.bars@.len(),
                |i: int| (self.bars@[i].0@, historical_bar_views(self.bars@[i].1@)),
            ),
            next_page_token: match self.next_page_token {
                Some(s) => Some(s@),
                None => None,
            },
            currency: match self.currency {
                Some(s) => Some(s@),
                None => None,
            },
        }
    }
}

impl HistoricalBarsV {
    /// Every bar in the map holds well-formed number literals.
    pub open spec fn wf(self) -> bool {
        forall|i: int, q: int|
            0 <= i < self.bars.len() && 0 <= q < self.bars[i].1.len() ==> (#[trigger] (
            self.bars[i].1[q])).wf()
    }
}

/// The members of the by-symbol bar object.
pub open spec fn spec_enc_bar_map(m: Seq<(Seq<char>, Seq<HistoricalBarV>)>) -> Seq<
    (Seq<char>, JsonV),
>
    decreases m.len(),
{
    if m.len() == 0 {
        Seq::empty()
    } else {
        spec_enc_bar_map(m.drop_last()).push(
            (m[m.len() - 1].0, JsonV::Arr(spec_enc_historical_bar_seq(m[m.len() - 1].1))),
        )
    }
}

/// What decoding the by-symbol bar object yields.
pub open spec fn spec_dec_bar_map(f: Seq<(Seq<char>, JsonV)>) -> Option<
    Seq<(Seq<char>, Seq<HistoricalBarV>)>,
>
    decreases f.len(),
{
    if f.len() == 0 {
        Some(Seq::empty())
    } else {
        match spec_dec_bar_map(f.drop_last()) {
            Some(pre) => match f[f.len() - 1].1 {
                JsonV::Arr(items) => match spec_dec_historical_bar_seq(items) {
                    Some(bars) => Some(pre.push((f[f.len() - 1].0, bars))),
                    None => None,
                },
                _ => None,
            },
            None => None,
        }
    }
}

/// Encoding a bar map and decoding it gives back the same groups.
pub proof fn lemma_bar_map_roundtrip(m: Seq<(Seq<char>, Seq<HistoricalBarV>)>)
    requires
        forall|i: int, q: int|
            0 <= i < m.len() && 0 <= q < m[i].1.len() ==> (#[trigger] m[i].1[q]).wf(),
    ensures
        spec_dec_bar_map(spec_enc_bar_map(m)) == Some(m),
    decreases m.len(),
{
    if m.len() > 0 {
        assert(forall|i: int| 0 <= i < m.len() - 1 ==> (#[trigger] m.drop_last()[i]) == m[i]);
        lemma_bar_map_roundtrip(m.drop_last());
        assert(forall|q: int|
            0 <= q < m[m.len() - 1].1.len() ==> (#[trigger] m[m.len() - 1].1[q]).wf());
        lemma_historical_bar_seq_roundtrip(m[m.len() - 1].1);
        let enc = spec_enc_bar_map(m);
        assert(enc.drop_last() =~= spec_enc_bar_map(m.drop_last()));
        assert(spec_dec_bar_map(enc).unwrap() =~= m);
    } else {
        assert(spec_dec_bar_map(spec_enc_bar_map(m)).unwrap() =~= m);
    }
}

/// Encodes the by-symbol bar groups as a JSON object.
#[verifier::loop_isolation(false)]
pub fn encode_bar_map(v: &Vec<(String, Vec<HistoricalBar>)>) -> (j: Json)
    ensures
        j@ == JsonV::Obj(
            spec_enc_bar_map(
                Seq::new(v@.len(), |i: int| (v@[i].0@, historical_bar_views(v@[i].1@))),
            ),
        ),
{
    let ghost dv = Seq::new(v@.len(), |i: int| (v@[i].0@, historical_bar_views(v@[i].1@)));
    let mut fields: Vec<(String, Json)> = Vec::new();
    let mut i: usize = 0;
    while i < v.len()
        invariant
            0 <= i <= v@.len(),
            dv == Seq::new(v@.len(), |q: int| (v@[q].0@, historical_bar_views(v@[q].1@))),
            dv.len() == v@.len(),
            member_views(fields@) == spec_enc_bar_map(dv.take(i as int)),
            fields@.len() == i,
        decreases v@.len() - i,
    {
        let arr = encode_historical_bar_seq(&v[i].1);
        let ghost av = arr;
        obj_push(&mut fields, v[i].0.as_str(), arr);
        proof {
            assert(dv[i as int] == (v@[i as int].0@, historical_bar_views(v@[i as int].1@)));
            assert(json_view(av) == JsonV::Arr(spec_enc_historical_bar_seq(dv[i as int].1)));
            assert(dv.take(i + 1).drop_last() =~= dv.take(i as int));
            assert(dv.take(i + 1)[i as int] == dv[i as int]);
            assert(spec_enc_bar_map(dv.take(i + 1)) == spec_enc_bar_map(dv.take(i as int)).push(
                (dv[i as int].0, JsonV::Arr(spec_enc_historical_bar_seq(dv[i as int].1))),
            ));
        }
        i = i + 1;
    }
    proof {
        assert(dv.take(v@.len() as int) =~= dv);
    }
    Json::Obj(fields)
}

/// Decodes the by-symbol bar groups from a JSON object.
#[verifier::loop_isolation(false)]
pub fn decode_bar_map(j: &Json) -> (r: Option<Vec<(String, Vec<HistoricalBar>)>>)
    ensures
        match r {
            Some(v) => j@ matches JsonV::Obj(f) && spec_dec_bar_map(f) == Some(
                Seq::new(v@.len(), |i: int| (v@[i].0@, historical_bar_views(v@[i].1@))),
            ),
            None => match j@ {
                JsonV::Obj(f) => spec_dec_bar_map(f) is None,
                _ => true,
            },
        },
{
    let fields = match j.as_obj() {
        Some(fields) => fields,
        None => {
            return None;
        },
    };
    proof {
        lemma_member_views_index(fields@);
    }
    let ghost fv = member_views(fields@);
    let mut out: Vec<(String, Vec<HistoricalBar>)> = Vec::new();
    let mut i: usize = 0;
    while i < fields.len()
        invariant
            0 <= i <= fields@.len(),
            fv == member_views(fields@),
            fv.len() == fields@.len(),
            forall|q: int|
                0 <= q < fields@.len() ==> fv[q] == ((#[trigger] fields@[q]).0@, json_view(
                    fields@[q].1,
                )),
            spec_dec_bar_map(fv.take(i as int)) is Some,
            spec_dec_bar_map(fv.take(i as int)).unwrap() =~= Seq::new(
                out@.len(),
                |q: int| (out@[q].0@, historical_bar_views(out@[q].1@)),
            ),
            out@.len() == i,
        decreases fields@.len() - i,
    {
        let bars = match decode_historical_bar_seq(&fields[i].1) {
            Some(bars) => bars,
            None => {
                proof {
                    lemma_dec_bar_map_prefix(fv, i as int);
                }
                return None;
            },
        };
        let key = fields[i].0.clone();
        let ghost preout = out@;
        let ghost kv = (key@, historical_bar_views(bars@));
        out.push((key, bars));
        proof {
            assert(out@.drop_last() =~= preout);
            assert(fv.take(i + 1).drop_last() =~= fv.take(i as int));
            assert(fv.take(i + 1)[i as int] == fv[i as int]);
            assert(spec_dec_bar_map(fv.take(i + 1)).unwrap() =~= Seq::new(
                out@.len(),
                |q: int| (out@[q].0@, historical_bar_views(out@[q].1@)),
            ));
        }
        i = i + 1;
    }
    proof {
        assert(fv.take(fields@.len() as int) =~= fv);
        assert(spec_dec_bar_map(fv).unwrap() =~= Seq::new(
            out@.len(),
            |q: int| (out@[q].0@, historical_bar_views(out@[q].1@)),
        ));
    }
    Some(out)
}

/// A failing group makes the whole bar-map decode fail.
proof fn lemma_dec_bar_map_prefix(f: Seq<(Seq<char>, JsonV)>, i: int)
    requires
        0 <= i < f.len(),
        match f[i].1 {
            JsonV::Arr(items) => spec_dec_historical_bar_seq(items) is None,
            _ => true,
        },
        !(f[i].1 is Arr) || (f[i].1 matches JsonV::Arr(items) && spec_dec_historical_bar_seq(
            items,
        ) is None),
    ensures
        spec_dec_bar_map(f) is None,
    decreases f.len(),
{
    if f.len() > 0 {
        if i == f.len() - 1 {
        } else {
            assert(f.drop_last()[i] == f[i]);
            lemma_dec_bar_map_prefix(f.drop_last(), i);
        }
    }
}

/// The wire members of an encoded `HistoricalBars`.
pub open spec fn spec_historical_bars_members(a: HistoricalBarsV) -> Seq<(Seq<char>, JsonV)> {
    seq![("bars"@, JsonV::Obj(spec_enc_bar_map(a.bars)))] + opt_member_str(
        "next_page_token"@,
        a.next_page_token,
    ) + opt_member_str("currency"@, a.currency)
}

/// The encoded form of a `HistoricalBars`.
pub open spec fn spec_enc_historical_bars(a: HistoricalBarsV) -> JsonV {
    JsonV::Obj(spec_historical_bars_members(a))
}

/// What decoding a JSON value as a `HistoricalBars` yields.
pub open spec fn spec_dec_historical_bars(j: JsonV) -> Option<HistoricalBarsV> {
    match j {
        JsonV::Obj(f) => {
            if (match spec_lookup(f, "bars"@) {
                Some(JsonV::Obj(bf)) => spec_dec_bar_map(bf),
                _ => None,
            }) is Some && lookup_opt_str(f, "next_page_token"@) is Some && lookup_opt_str(
                f,
                "currency"@,
            ) is Some {
                Some(HistoricalBarsV {
                    bars: (match spec_lookup(f, "bars"@) {
                        Some(JsonV::Obj(bf)) => spec_dec_bar_map(bf),
                        _ => None,
                    }).unwrap(),
                    next_page_token: lookup_opt_str(f, "next_page_token"@).unwrap(),
                    currency: lookup_opt_str(f, "currency"@).unwrap(),
                })
            } else {
                None
            }
        },
        _ => None,
    }
}

/// Encodes a `HistoricalBars` as its wire object.
pub fn encode_historical_bars(x: &HistoricalBars) -> (j: Json)
    ensures
        j@ == spec_enc_historical_bars(x@),
{
    let mut f: Vec<(String, Json)> = Vec::new();
    obj_push(&mut f, "bars", encode_bar_map(&x.bars));
    proof {
        assert(member_views(f@) =~= seq![("bars"@, JsonV::Obj(spec_enc_bar_map(x@.bars)))]);
    }
    let ghost seg0 = member_views(f@);
    match &x.next_page_token {
        Some(v) => {
            obj_push(&mut f, "next_page_token", Json::Str(v.clone()));
        },
        None => {},
    }
    proof {
        assert(member_views(f@) =~= seg0 + opt_member_str("next_page_token"@, x@.next_page_token));
    }
    let ghost seg1 = member_views(f@);
    match &x.currency {
        Some(v) => {
            obj_push(&mut f, "currency", Json::Str(v.clone()));
        },
        None => {},
    }
    proof {
        assert(member_views(f@) =~= seg1 + opt_member_str("currency"@, x@.currency));
    }
    let j = Json::Obj(f);
    proof {
        assert(member_views(f@) =~= spec_historical_bars_members(x@));
    }
    j
}

/// Decodes a `HistoricalBars` from a JSON value.
pub fn decode_historical_bars(j: &Json) -> (r: Option<HistoricalBars>)
    ensures
        match r {
            Some(x) => spec_dec_historical_bars(j@) == Some(x@),
            None => spec_dec_historical_bars(j@) is None,
        },
{
    let v_bars = match j.get("bars") {
        Some(m) => match decode_bar_map(m) {
            Some(v) => v,
            None => {
                return None;
            },
        },
        None => {
            return None;
        },
    };
    let v_tok = match j.get_opt_str("next_page_token") {
        Some(v) => v,
        None => {
            return None;
        },
    };
    let v_cur = match j.get_opt_str("currency") {
        Some(v) => v,
        None => {
            return None;
        },
    };
    Some(HistoricalBars { bars: v_bars, next_page_token: v_tok, currency: v_cur })
}

/// Decoding an encoded `HistoricalBars` gives back the same data.
#[verifier::rlimit(100)]
pub proof fn lemma_historical_bars_roundtrip(a: HistoricalBarsV)
    requires
        a.wf(),
    ensures
        spec_dec_historical_bars(spec_enc_historical_bars(a)) == Some(a),
{
    reveal_with_fuel(spec_lookup, 8);
    reveal_strlit("bars");
    reveal_strlit("next_page_token");
    reveal_strlit("currency");
    assert("bars"@.len() == 4);
    assert("next_page_token"@.len() == 15);
    assert("currency"@.len() == 8);
    lemma_bar_map_roundtrip(a.bars);
    let base = seq![("bars"@, JsonV::Obj(spec_enc_bar_map(a.bars)))];
    let seg0 = opt_member_str("next_page_token"@, a.next_page_token);
    let seg1 = opt_member_str("currency"@, a.currency);
    let pre0 = base + seg0;
    let pre1 = pre0 + seg1;
    assert(spec_historical_bars_members(a) == pre1);
    lemma_lookup_append(pre0, seg1, "bars"@);
    lemma_lookup_append(base, seg0, "bars"@);
    lemma_lookup_append(pre0, seg1, "next_page_token"@);
    lemma_lookup_append(base, seg0, "next_page_token"@);
    lemma_lookup_append(pre0, seg1, "currency"@);
    lemma_lookup_append(base, seg0, "currency"@);
}

impl crate::pagination::PaginationEndpoint for HistoricalQuotes {
    open spec fn spec_next_page_token(&self) -> Option<Seq<char>> {
        match self.next_page_token {
            Some(s) => Some(s@),
            None => None,
        }
    }

    fn next_page_token(&self) -> (r: Option<String>)
        ensures
            match r {
                Some(t) => self.spec_next_page_token() == Some(t@),
                None => self.spec_next_page_token() is None,
            },
    {
        match &self.next_page_token {
            Some(t) => Some(t.clone()),
            None => None,
        }
    }
}

impl crate::pagination::PaginationEndpoint for HistoricalTrades {
    open spec fn spec_next_page_token(&self) -> Option<Seq<char>> {
        match self.next_page_token {
            Some(s) => Some(s@),
            None => None,
        }
    }

    fn next_page_token(&self) -> (r: Option<String>)
        ensures
            match r {
                Some(t) => self.spec_next_page_token() == Some(t@),
                None => self.spec_next_page_token() is None,
            },
    {
        match &self.next_page_token {
            Some(t) => Some(t.clone()),
            None => None,
        }
    }
}

impl crate::pagination::PaginationEndpoint for HistoricalBars {
    open spec fn spec_next_page_token(&self) -> Option<Seq<char>> {
        match self.next_page_token {
            Some(s) => Some(s@),
            None => None,
        }
    }

    fn next_page_token(&self) -> (r: Option<String>)
        ensures
            match r {
                Some(t) => self.spec_next_page_token() == Some(t@),
                None => self.spec_next_page_token() is None,
            },
    {
        match &self.next_page_token {
            Some(t) => Some(t.clone()),
            None => None,
        }
    }
}

impl crate::pagination::PaginationEndpoint for HistoricalAuctions {
    open spec fn spec_next_page_token(&self) -> Option<Seq<char>> {
        match self.next_page_token {
            Some(s) => Some(s@),
            None => None,
        }
    }

    fn next_page_token(&self) -> (r: Option<String>)
        ensures
            match r {
                Some(t) => self.spec_next_page_token() == Some(t@),
                None => self.spec_next_page_token() is None,
            },
    {
        match &self.next_page_token {
            Some(t) => Some(t.clone()),
            None => None,
        }
    }
}

impl crate::api::ApiResponse for Clock {
    type Model = ClockV;

    open spec fn spec_decode_response(j: JsonV) -> Option<ClockV> {
        spec_dec_clock(j)
    }

    open spec fn model(&self) -> ClockV {
        self@
    }

    fn decode_response(j: &Json) -> (r: Option<Self>) {
        decode_clock(j)
    }
}

impl crate::api::ApiResponse for LatestBars {
    type Model = LatestBarsV;

    open spec fn spec_decode_response(j: JsonV) -> Option<LatestBarsV> {
        spec_dec_latest_bars(j)
    }

    open spec fn model(&self) -> LatestBarsV {
        self@
    }

    fn decode_response(j: &Json) -> (r: Option<Self>) {
        decode_latest_bars(j)
    }
}

impl crate::api::ApiResponse for HistoricalBars {
    type Model = HistoricalBarsV;

    open spec fn spec_decode_response(j: JsonV) -> Option<HistoricalBarsV> {
        spec_dec_historical_bars(j)
    }

    open spec fn model(&self) -> HistoricalBarsV {
        self@
    }

    fn decode_response(j: &Json) -> (r: Option<Self>) {
        decode_historical_bars(j)
    }
}

impl crate::api::ApiResponse for HistoricalQuotes {
    type Model = HistoricalQuotesV;

    open spec fn spec_decode_response(j: JsonV) -> Option<HistoricalQuotesV> {
        spec_dec_historical_quotes(j)
    }

    open spec fn model(&self) -> HistoricalQuotesV {
        self@
    }

    fn decode_response(j: &Json) -> (r: Option<Self>) {
        decode_historical_quotes(j)
    }
}

impl crate::api::ApiResponse for LatestQuotes {
    type Model = LatestQuotesV;

    open spec fn spec_decode_response(j: JsonV) -> Option<LatestQuotesV> {
        spec_dec_latest_quotes(j)
    }

    open spec fn model(&self) -> LatestQuotesV {
        self@
    }

    fn decode_response(j: &Json) -> (r: Option<Self>) {
        decode_latest_quotes(j)
    }
}

impl crate::api::ApiResponse for HistoricalTrades {
    type Model = HistoricalTradesV;

    open spec fn spec_decode_response(j: JsonV) -> Option<HistoricalTradesV> {
        spec_dec_historical_trades(j)
    }

    open spec fn model(&self) -> HistoricalTradesV {
        self@
    }

    fn decode_response(j: &Json) -> (r: Option<Self>) {
        decode_historical_trades(j)
    }
}

impl crate::api::ApiResponse for LatestTrades {
    type Model = LatestTradesV;

    open spec fn spec_decode_response(j: JsonV) -> Option<LatestTradesV> {
        spec_dec_latest_trades(j)
    }

    open spec fn model(&self) -> LatestTradesV {
        self@
    }

    fn decode_response(j: &Json) -> (r: Option<Self>) {
        decode_latest_trades(j)
    }
}

impl crate::api::ApiResponse for HistoricalAuctions {
    type Model = HistoricalAuctionsV;

    open spec fn spec_decode_response(j: JsonV) -> Option<HistoricalAuctionsV> {
        spec_dec_historical_auctions(j)
    }

    open spec fn model(&self) -> HistoricalAuctionsV {
        self@
    }

    fn decode_response(j: &Json) -> (r: Option<Self>) {
        decode_historical_auctions(j)
    }
}

impl crate::api::ApiResponse for Snapshot {
    type Model = SnapshotV;

    open spec fn spec_decode_response(j: JsonV) -> Option<SnapshotV> {
        spec_dec_snapshot(j)
    }

    open spec fn model(&self) -> SnapshotV {
        self@
    }

    fn decode_response(j: &Json) -> (r: Option<Self>) {
        decode_snapshot(j)
    }
}

impl crate::api::ApiResponse for Calendar {
    type Model = CalendarV;

    open spec fn spec_decode_response(j: JsonV) -> Option<CalendarV> {
        spec_dec_calendar(j)
    }

    open spec fn model(&self) -> CalendarV {
        self@
    }

    fn decode_response(j: &Json) -> (r: Option<Self>) {
        decode_calendar(j)
    }
}

} // verus!
