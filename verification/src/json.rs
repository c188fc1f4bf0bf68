//! A small JSON value model with a verified printer, verified object
//! lookup, and a parser.  Request bodies are framed with the printer and
//! response bodies are checked and taken apart with the parser, so that the
//! typed codecs of the domain records are ordinary verified functions.

use vstd::prelude::*;

use crate::util::all_digits;

verus! {

/// The mathematical model of a JSON value.  Numbers keep their lexical
/// form, so no precision is lost in either direction.
pub enum JsonV {
    Null,
    Bool(bool),
    Num(Seq<char>),
    Str(Seq<char>),
    Arr(Seq<JsonV>),
    Obj(Seq<(Seq<char>, JsonV)>),
}

/// A JSON value.  Object members keep their order; numbers keep the exact
/// characters they were written with.
#[derive(Debug)]
pub enum Json {
    Null,
    Bool(bool),
    Num(String),
    Str(String),
    Arr(Vec<Json>),
    Obj(Vec<(String, Json)>),
}

/// The model of a JSON value: each string replaced by its characters.
pub open spec fn json_view(j: Json) -> JsonV
    decreases j,
    via json_view_decreases
{
    match j {
        Json::Null => JsonV::Null,
        Json::Bool(b) => JsonV::Bool(b),
        Json::Num(s) => JsonV::Num(s@),
        Json::Str(s) => JsonV::Str(s@),
        Json::Arr(items) => JsonV::Arr(json_views(items@)),
        Json::Obj(fields) => JsonV::Obj(member_views(fields@)),
    }
}

/// The models of the items of an array.
pub open spec fn json_views(s: Seq<Json>) -> Seq<JsonV>
    decreases s,
    via json_views_decreases
{
    if s.len() == 0 {
        Seq::empty()
    } else {
        json_views(s.drop_last()).push(json_view(s[s.len() - 1]))
    }
}

/// The models of the members of an object.
pub open spec fn member_views(s: Seq<(String, Json)>) -> Seq<(Seq<char>, JsonV)>
    decreases s,
    via member_views_decreases
{
    if s.len() == 0 {
        Seq::empty()
    } else {
        member_views(s.drop_last()).push((s[s.len() - 1].0@, json_view(s[s.len() - 1].1)))
    }
}

#[via_fn]
proof fn json_view_decreases(j: Json) {
    match j {
        Json::Arr(items) => {
            assert(j->Arr_0 == items);
            assert(decreases_to!(j => j->Arr_0));
            assert(decreases_to!(items => items@));
        },
        Json::Obj(fields) => {
            assert(j->Obj_0 == fields);
            assert(decreases_to!(j => j->Obj_0));
            assert(decreases_to!(fields => fields@));
        },
        _ => {},
    }
}

#[via_fn]
proof fn json_views_decreases(s: Seq<Json>) {
    if s.len() > 0 {
        assert(s.drop_last() == s.subrange(0, s.len() - 1));
        assert(decreases_to!(s => s.subrange(0, s.len() - 1)));
        assert(decreases_to!(s => s[s.len() - 1]));
    }
}

#[via_fn]
proof fn member_views_decreases(s: Seq<(String, Json)>) {
    if s.len() > 0 {
        assert(s.drop_last() == s.subrange(0, s.len() - 1));
        assert(decreases_to!(s => s.subrange(0, s.len() - 1)));
        assert(decreases_to!(s => s[s.len() - 1]));
        assert(decreases_to!(s[s.len() - 1] => s[s.len() - 1].1));
    }
}

impl View for Json {
    type V = JsonV;

    open spec fn view(&self) -> JsonV {
        json_view(*self)
    }
}

/// The length and items of `json_views`, element by element.
pub proof fn lemma_json_views_index(s: Seq<Json>)
    ensures
        json_views(s).len() == s.len(),
        forall|i: int| 0 <= i < s.len() ==> json_views(s)[i] == json_view(#[trigger] s[i]),
        forall|i: int| 0 <= i < s.len() ==> #[trigger] json_views(s)[i] == json_view(s[i]),
    decreases s.len(),
{
    if s.len() > 0 {
        lemma_json_views_index(s.drop_last());
        assert forall|i: int| 0 <= i < s.len() implies json_views(s)[i] == json_view(
            #[trigger] s[i],
        ) by {
            if i < s.len() - 1 {
                assert(s.drop_last()[i] == s[i]);
                assert(json_views(s.drop_last())[i] == json_view(s.drop_last()[i]));
            }
        }
    }
}

/// The length and items of `member_views`, element by element.
pub proof fn lemma_member_views_index(s: Seq<(String, Json)>)
    ensures
        member_views(s).len() == s.len(),
        forall|i: int|
            0 <= i < s.len() ==> member_views(s)[i] == ((#[trigger] s[i]).0@, json_view(s[i].1)),
        forall|i: int|
            0 <= i < s.len() ==> #[trigger] member_views(s)[i] == (s[i].0@, json_view(s[i].1)),
    decreases s.len(),
{
    if s.len() > 0 {
        lemma_member_views_index(s.drop_last());
        assert forall|i: int| 0 <= i < s.len() implies member_views(s)[i] == ((#[trigger] s[i]).0@,
        json_view(s[i].1)) by {
            if i < s.len() - 1 {
                assert(s.drop_last()[i] == s[i]);
                assert(member_views(s.drop_last())[i] == (s.drop_last()[i].0@, json_view(
                    s.drop_last()[i].1,
                )));
            }
        }
    }
}

/// A string that can stand in JSON source unescaped: no quote, no
/// backslash, no control character.
pub open spec fn wf_string(s: Seq<char>) -> bool {
    forall|i: int|
        0 <= i < s.len() ==> (#[trigger] s[i]) != '"' && s[i] != '\\' && (s[i] as u32) >= 32
}

/// An unsigned JSON number literal without an exponent: one or more
/// digits, optionally followed by a point and one or more digits.
pub open spec fn wf_number_frac(t: Seq<char>) -> bool {
    exists|k: int|
        1 <= k <= t.len() && all_digits(#[trigger] t.take(k)) && (k == t.len() || (t[k] == '.' && k
            + 1 < t.len() && all_digits(t.subrange(k + 1, t.len() as int))))
}

/// A JSON number literal without an exponent, optionally negative.
pub open spec fn wf_number(s: Seq<char>) -> bool {
    if s.len() > 0 && s[0] == '-' {
        wf_number_frac(s.subrange(1, s.len() as int))
    } else {
        wf_number_frac(s)
    }
}

/// A JSON value whose strings need no escaping and whose numbers are
/// well-formed literals, so that printing it yields valid JSON source.
pub open spec fn wf_json(v: JsonV) -> bool
    decreases v,
{
    match v {
        JsonV::Null => true,
        JsonV::Bool(_) => true,
        JsonV::Num(s) => wf_number(s),
        JsonV::Str(s) => wf_string(s),
        JsonV::Arr(items) => forall|i: int| 0 <= i < items.len() ==> wf_json(#[trigger] items[i]),
        JsonV::Obj(fields) => forall|i: int|
            0 <= i < fields.len() ==> wf_string((#[trigger] fields[i]).0) && wf_json(fields[i].1),
    }
}

/// The printed form of a JSON value: no whitespace, members in order,
/// strings raw between quotes.
pub open spec fn spec_print(v: JsonV) -> Seq<char>
    decreases v,
{
    match v {
        JsonV::Null => "null"@,
        JsonV::Bool(b) => if b {
            "true"@
        } else {
            "false"@
        },
        JsonV::Num(s) => s,
        JsonV::Str(s) => seq!['"'] + s + seq!['"'],
        JsonV::Arr(items) => seq!['['] + spec_print_items(items) + seq![']'],
        JsonV::Obj(fields) => seq!['{'] + spec_print_fields(fields) + seq!['}'],
    }
}

/// The printed items of an array, comma separated.
pub open spec fn spec_print_items(items: Seq<JsonV>) -> Seq<char>
    decreases items,
{
    if items.len() == 0 {
        Seq::empty()
    } else if items.len() == 1 {
        spec_print(items[0])
    } else {
        spec_print_items(items.drop_last()) + seq![','] + spec_print(items[items.len() - 1])
    }
}

/// The printed members of an object, comma separated, each as
/// `"key":value`.
pub open spec fn spec_print_fields(fields: Seq<(Seq<char>, JsonV)>) -> Seq<char>
    decreases fields,
{
    if fields.len() == 0 {
        Seq::empty()
    } else if fields.len() == 1 {
        spec_print_member(fields[0])
    } else {
        spec_print_fields(fields.drop_last()) + seq![','] + spec_print_member(
            fields[fields.len() - 1],
        )
    }
}

/// One printed object member.
pub open spec fn spec_print_member(field: (Seq<char>, JsonV)) -> Seq<char>
    decreases field,
{
    seq!['"'] + field.0 + seq!['"'] + seq![':'] + spec_print(field.1)
}

/// Prints a JSON value with no whitespace.
#[verifier::loop_isolation(false)]
pub fn print_json(v: &Json) -> (r: String)
    ensures
        r@ == spec_print(v@),
    decreases v,
{
    match v {
        Json::Null => {
            let r = String::from_str("null");
            r
        },
        Json::Bool(b) => {
            if *b {
                String::from_str("true")
            } else {
                String::from_str("false")
            }
        },
        Json::Num(s) => s.clone(),
        Json::Str(s) => {
            let mut out = String::from_str("\"");
            out.append(s.as_str());
            out.append("\"");
            proof {
                reveal_strlit("\"");
                assert(out@ =~= seq!['"'] + s@ + seq!['"']);
            }
            out
        },
        Json::Arr(items) => {
            let mut out = String::from_str("[");
            proof {
                reveal_strlit("[");
                assert(out@ =~= seq!['[']);
                lemma_json_views_index(items@);
            }
            let ghost iv = json_views(items@);
            let mut i: usize = 0;
            while i < items.len()
                invariant
                    0 <= i <= items@.len(),
                    iv == json_views(items@),
                    iv.len() == items@.len(),
                    forall|k: int| 0 <= k < items@.len() ==> iv[k] == json_view(#[trigger] items@[k]),
                    out@ == seq!['['] + spec_print_items(iv.take(i as int)),
                    v@ == JsonV::Arr(iv),
                decreases items@.len() - i,
            {
                if i > 0 {
                    out.append(",");
                }
                proof {
                    assert(*v matches Json::Arr(x) && x == *items);
                    assert((*v)->Arr_0 == *items);
                    assert(decreases_to!(*v => (*v)->Arr_0));
                    assert(decreases_to!(*items => items@));
                    assert(decreases_to!(items@ => items@[i as int]));
                }
                let piece = print_json(&items[i]);
                out.append(piece.as_str());
                proof {
                    reveal_strlit(",");
                    assert(iv.take(i + 1).drop_last() =~= iv.take(i as int));
                    assert(iv.take(i + 1)[i as int] == iv[i as int]);
                    if i == 0 {
                        assert(out@ =~= seq!['['] + spec_print_items(iv.take(1)));
                    } else {
                        assert(out@ =~= seq!['['] + spec_print_items(iv.take(i + 1)));
                    }
                }
                i = i + 1;
            }
            out.append("]");
            proof {
                reveal_strlit("]");
                assert(iv.take(items@.len() as int) =~= iv);
                assert(out@ =~= seq!['['] + spec_print_items(iv) + seq![']']);
            }
            out
        },
        Json::Obj(fields) => {
            let mut out = String::from_str("{");
            proof {
                reveal_strlit("{");
                assert(out@ =~= seq!['{']);
                lemma_member_views_index(fields@);
            }
            let ghost fv = member_views(fields@);
            let mut i: usize = 0;
            while i < fields.len()
                invariant
                    0 <= i <= fields@.len(),
                    fv == member_views(fields@),
                    fv.len() == fields@.len(),
                    forall|k: int|
                        0 <= k < fields@.len() ==> fv[k] == ((#[trigger] fields@[k]).0@, json_view(
                            fields@[k].1,
                        )),
                    out@ == seq!['{'] + spec_print_fields(fv.take(i as int)),
                    v@ == JsonV::Obj(fv),
                decreases fields@.len() - i,
            {
                if i > 0 {
                    out.append(",");
                }
                out.append("\"");
                out.append(fields[i].0.as_str());
                out.append("\":");
                proof {
                    assert(*v matches Json::Obj(x) && x == *fields);
                    assert((*v)->Obj_0 == *fields);
                    assert(decreases_to!(*v => (*v)->Obj_0));
                    assert(decreases_to!(*fields => fields@));
                    assert(decreases_to!(fields@ => fields@[i as int]));
                    assert(decreases_to!(fields@[i as int] => fields@[i as int].1));
                }
                let piece = print_json(&fields[i].1);
                out.append(piece.as_str());
                proof {
                    reveal_strlit(",");
                    reveal_strlit("\"");
                    reveal_strlit("\":");
                    assert(fv.take(i + 1).drop_last() =~= fv.take(i as int));
                    assert(fv.take(i + 1)[i as int] == fv[i as int]);
                    assert(spec_print_member(fv[i as int]) =~= seq!['"'] + fields@[i as int].0@
                        + seq!['"'] + seq![':'] + spec_print(json_view(fields@[i as int].1)));
                    if i == 0 {
                        assert(out@ =~= seq!['{'] + spec_print_fields(fv.take(1)));
                    } else {
                        assert(out@ =~= seq!['{'] + spec_print_fields(fv.take(i + 1)));
                    }
                }
                i = i + 1;
            }
            out.append("}");
            proof {
                reveal_strlit("}");
                assert(fv.take(fields@.len() as int) =~= fv);
                assert(out@ =~= seq!['{'] + spec_print_fields(fv) + seq!['}']);
            }
            out
        },
    }
}

/// The first member of an object with the given key, scanning in order.
pub open spec fn spec_lookup(fields: Seq<(Seq<char>, JsonV)>, key: Seq<char>) -> Option<JsonV>
    decreases fields.len(),
{
    if fields.len() == 0 {
        None
    } else if fields[0].0 == key {
        Some(fields[0].1)
    } else {
        spec_lookup(fields.drop_first(), key)
    }
}

impl Json {
    /// Looks a key up in an object value; yields nothing on any other
    /// shape of value.
    #[verifier::loop_isolation(false)]
    pub fn get<'a>(&'a self, key: &str) -> (r: Option<&'a Json>)
        ensures
            match r {
                Some(m) => self@ matches JsonV::Obj(f) && spec_lookup(f, key@) == Some(m@),
                None => match self@ {
                    JsonV::Obj(f) => spec_lookup(f, key@) is None,
                    _ => true,
                },
            },
    {
        match self {
            Json::Obj(fields) => {
                proof {
                    lemma_member_views_index(fields@);
                }
                let ghost fv = member_views(fields@);
                proof {
                    assert(fv.skip(0) =~= fv);
                }
                let mut i: usize = 0;
                while i < fields.len()
                    invariant
                        0 <= i <= fields@.len(),
                        fv == member_views(fields@),
                        fv.len() == fields@.len(),
                        forall|k: int|
                            0 <= k < fields@.len() ==> fv[k] == ((#[trigger] fields@[k]).0@,
                            json_view(fields@[k].1)),
                        self@ == JsonV::Obj(fv),
                        spec_lookup(fv, key@) == spec_lookup(fv.skip(i as int), key@),
                    decreases fields@.len() - i,
                {
                    if crate::util::str_eq(fields[i].0.as_str(), key) {
                        proof {
                            assert(fv.skip(i as int)[0] == fv[i as int]);
                        }
                        return Some(&fields[i].1);
                    }
                    proof {
                        assert(fv.skip(i as int)[0] == fv[i as int]);
                        assert(fv.skip(i as int).drop_first() =~= fv.skip(i + 1));
                    }
                    i = i + 1;
                }
                proof {
                    assert(fv.skip(fields@.len() as int) =~= Seq::<(Seq<char>, JsonV)>::empty());
                }
                None
            },
            _ => None,
        }
    }

    /// The characters of a string value.
    pub fn as_str(&self) -> (r: Option<&String>)
        ensures
            match r {
                Some(s) => self@ == JsonV::Str(s@),
                None => !(self@ is Str),
            },
    {
        match self {
            Json::Str(s) => Some(s),
            _ => None,
        }
    }

    /// The lexical form of a number value.
    pub fn as_num(&self) -> (r: Option<&String>)
        ensures
            match r {
                Some(s) => self@ == JsonV::Num(s@),
                None => !(self@ is Num),
            },
    {
        match self {
            Json::Num(s) => Some(s),
            _ => None,
        }
    }

    /// The value of a boolean.
    pub fn as_bool(&self) -> (r: Option<bool>)
        ensures
            match r {
                Some(b) => self@ == JsonV::Bool(b),
                None => !(self@ is Bool),
            },
    {
        match self {
            Json::Bool(b) => Some(*b),
            _ => None,
        }
    }

    /// The items of an array value.
    pub fn as_arr(&self) -> (r: Option<&Vec<Json>>)
        ensures
            match r {
                Some(items) => self@ == JsonV::Arr(json_views(items@)),
                None => !(self@ is Arr),
            },
    {
        match self {
            Json::Arr(items) => Some(items),
            _ => None,
        }
    }

    /// The members of an object value.
    pub fn as_obj(&self) -> (r: Option<&Vec<(String, Json)>>)
        ensures
            match r {
                Some(fields) => self@ == JsonV::Obj(member_views(fields@)),
                None => !(self@ is Obj),
            },
    {
        match self {
            Json::Obj(fields) => Some(fields),
            _ => None,
        }
    }
}

/// Pushes one member onto an object under construction.
pub fn obj_push(fields: &mut Vec<(String, Json)>, key: &str, value: Json)
    ensures
        member_views(final(fields)@) == member_views(old(fields)@).push((key@, value@)),
        final(fields)@.len() == old(fields)@.len() + 1,
{
    let ghost before = old(fields)@;
    let kv = (key.to_owned(), value);
    let ghost vv = kv.1;
    fields.push(kv);
    proof {
        assert(fields@.drop_last() =~= before);
        assert(fields@[fields@.len() - 1].0@ == key@);
        assert(json_view(fields@[fields@.len() - 1].1) == json_view(vv));
    }
}

/// Whether `c` is JSON whitespace.
pub open spec fn is_ws_char(c: char) -> bool {
    c == ' ' || c == '\t' || c == '\n' || c == '\r'
}

/// The first position at or after `i` that does not hold whitespace.
pub open spec fn spec_skip_ws(s: Seq<char>, i: int) -> int
    decreases s.len() - i,
{
    if 0 <= i < s.len() && is_ws_char(s[i]) {
        spec_skip_ws(s, i + 1)
    } else {
        i
    }
}

/// The position of the closing quote of a string body starting at `j`,
/// if the body runs only over characters that need no escaping.
pub open spec fn spec_string_end(s: Seq<char>, j: int) -> Option<int>
    decreases s.len() - j,
{
    if !(0 <= j < s.len()) {
        None
    } else if s[j] == '"' {
        Some(j)
    } else if s[j] == '\\' || (s[j] as u32) < 32 {
        None
    } else {
        spec_string_end(s, j + 1)
    }
}

/// What reading a string whose opening quote stands at `i` yields: its
/// body and the position after the closing quote.
pub open spec fn spec_parse_string_at(s: Seq<char>, i: int) -> Option<(Seq<char>, int)> {
    match spec_string_end(s, i + 1) {
        Some(e) => Some((s.subrange(i + 1, e), e + 1)),
        None => None,
    }
}

/// The first position at or after `j` that does not hold a digit.
pub open spec fn spec_digits_end(s: Seq<char>, j: int) -> int
    decreases s.len() - j,
{
    if 0 <= j < s.len() && crate::util::is_digit_char(s[j]) {
        spec_digits_end(s, j + 1)
    } else {
        j
    }
}

/// What reading a number literal starting at `i` yields: its exact
/// characters and the position after them.
pub open spec fn spec_parse_number_at(s: Seq<char>, i: int) -> Option<(Seq<char>, int)> {
    if !(0 <= i < s.len()) {
        None
    } else {
        let dstart = if s[i] == '-' {
            i + 1
        } else {
            i
        };
        let j = spec_digits_end(s, dstart);
        if j == dstart {
            None
        } else if j < s.len() && s[j] == '.' {
            let j2 = spec_digits_end(s, j + 1);
            if j2 == j + 1 {
                None
            } else {
                Some((s.subrange(i, j2), j2))
            }
        } else {
            Some((s.subrange(i, j), j))
        }
    }
}

/// What reading one JSON value starting exactly at `i` yields: its
/// model and the position just past it.
pub open spec fn spec_parse_value_at(s: Seq<char>, i: int) -> Option<(JsonV, int)>
    decreases s.len() - i, 0int,
{
    if !(0 <= i < s.len()) {
        None
    } else {
        let c = s[i];
        if c == 'n' {
            if i + 4 <= s.len() && s[i + 1] == 'u' && s[i + 2] == 'l' && s[i + 3] == 'l' {
                Some((JsonV::Null, i + 4))
            } else {
                None
            }
        } else if c == 't' {
            if i + 4 <= s.len() && s[i + 1] == 'r' && s[i + 2] == 'u' && s[i + 3] == 'e' {
                Some((JsonV::Bool(true), i + 4))
            } else {
                None
            }
        } else if c == 'f' {
            if i + 5 <= s.len() && s[i + 1] == 'a' && s[i + 2] == 'l' && s[i + 3] == 's' && s[i
                + 4] == 'e' {
                Some((JsonV::Bool(false), i + 5))
            } else {
                None
            }
        } else if c == '"' {
            match spec_parse_string_at(s, i) {
                Some((t, j)) => Some((JsonV::Str(t), j)),
                None => None,
            }
        } else if c == '-' || crate::util::is_digit_char(c) {
            match spec_parse_number_at(s, i) {
                Some((t, j)) => Some((JsonV::Num(t), j)),
                None => None,
            }
        } else if c == '[' {
            let j = spec_skip_ws(s, i + 1);
            if j < i + 1 || j > s.len() {
                None
            } else if j < s.len() && s[j] == ']' {
                Some((JsonV::Arr(Seq::empty()), j + 1))
            } else {
                match spec_parse_elems(s, j) {
                    Some((items, j2)) => Some((JsonV::Arr(items), j2)),
                    None => None,
                }
            }
        } else if c == '{' {
            let j = spec_skip_ws(s, i + 1);
            if j < i + 1 || j > s.len() {
                None
            } else if j < s.len() && s[j] == '}' {
                Some((JsonV::Obj(Seq::empty()), j + 1))
            } else {
                match spec_parse_members(s, j) {
                    Some((fields, j2)) => Some((JsonV::Obj(fields), j2)),
                    None => None,
                }
            }
        } else {
            None
        }
    }
}

/// What reading the remaining items of an array yields, standing at the
/// first character of the next item: the items and the position after
/// the closing bracket.
pub open spec fn spec_parse_elems(s: Seq<char>, i: int) -> Option<(Seq<JsonV>, int)>
    decreases s.len() - i, 1int,
{
    match spec_parse_value_at(s, i) {
        Some((v, j)) => {
            if j <= i || j > s.len() {
                None
            } else {
                let j3 = spec_skip_ws(s, j);
                if j3 < j || j3 > s.len() {
                    None
                } else if j3 < s.len() && s[j3] == ',' {
                    let j4 = spec_skip_ws(s, j3 + 1);
                    if j4 < j3 + 1 || j4 >= s.len() {
                        None
                    } else {
                        match spec_parse_elems(s, j4) {
                            Some((rest, end)) => Some((seq![v] + rest, end)),
                            None => None,
                        }
                    }
                } else if j3 < s.len() && s[j3] == ']' {
                    Some((seq![v], j3 + 1))
                } else {
                    None
                }
            }
        },
        None => None,
    }
}

/// What reading the remaining members of an object yields, standing at
/// the opening quote of the next key: the members and the position
/// after the closing brace.
pub open spec fn spec_parse_members(s: Seq<char>, i: int) -> Option<
    (Seq<(Seq<char>, JsonV)>, int),
>
    decreases s.len() - i, 1int,
{
    if !(0 <= i < s.len() && s[i] == '"') {
        None
    } else {
        match spec_parse_string_at(s, i) {
            Some((key, j2)) => {
                if j2 <= i || j2 > s.len() {
                    None
                } else {
                    let j3 = spec_skip_ws(s, j2);
                    if j3 < j2 || j3 > s.len() {
                        None
                    } else if !(j3 < s.len() && s[j3] == ':') {
                        None
                    } else {
                        let j4 = spec_skip_ws(s, j3 + 1);
                        if j4 < j3 + 1 || j4 > s.len() {
                            None
                        } else {
                            match spec_parse_value_at(s, j4) {
                                Some((v, j5)) => {
                                    if j5 <= j4 || j5 > s.len() {
                                        None
                                    } else {
                                        let j6 = spec_skip_ws(s, j5);
                                        if j6 < j5 || j6 > s.len() {
                                            None
                                        } else if j6 < s.len() && s[j6] == ',' {
                                            let j7 = spec_skip_ws(s, j6 + 1);
                                            if j7 < j6 + 1 || j7 >= s.len() {
                                                None
                                            } else {
                                                match spec_parse_members(s, j7) {
                                                    Some((rest, end)) => Some(
                                                        (seq![(key, v)] + rest, end),
                                                    ),
                                                    None => None,
                                                }
                                            }
                                        } else if j6 < s.len() && s[j6] == '}' {
                                            Some((seq![(key, v)], j6 + 1))
                                        } else {
                                            None
                                        }
                                    }
                                },
                                None => None,
                            }
                        }
                    }
                }
            },
            None => None,
        }
    }
}

/// What parsing a complete document yields: one value, optionally
/// surrounded by whitespace, nothing else before the end of the text.
pub open spec fn spec_parse_json(s: Seq<char>) -> Option<JsonV> {
    match spec_parse_value_at(s, spec_skip_ws(s, 0)) {
        Some((v, j)) => {
            if spec_skip_ws(s, j) == s.len() {
                Some(v)
            } else {
                None
            }
        },
        None => None,
    }
}

/// Advances past whitespace.
fn skip_ws(s: &str, i: usize) -> (r: usize)
    requires
        i <= s@.len() <= usize::MAX,
    ensures
        i <= r <= s@.len(),
        r == spec_skip_ws(s@, i as int),
    decreases s@.len() - i,
{
    if i < s.unicode_len() {
        let c = s.get_char(i);
        if c == ' ' || c == '\t' || c == '\n' || c == '\r' {
            skip_ws(s, i + 1)
        } else {
            i
        }
    } else {
        i
    }
}

/// Finds the closing quote of a string body.
fn string_end_from(s: &str, j: usize) -> (r: Option<usize>)
    requires
        j <= s@.len() <= usize::MAX,
    ensures
        match r {
            Some(e) => spec_string_end(s@, j as int) == Some(e as int) && j <= e < s@.len(),
            None => spec_string_end(s@, j as int) is None,
        },
    decreases s@.len() - j,
{
    if j < s.unicode_len() {
        let c = s.get_char(j);
        if c == '"' {
            Some(j)
        } else if c == '\\' || (c as u32) < 32 {
            None
        } else {
            string_end_from(s, j + 1)
        }
    } else {
        None
    }
}

/// The characters a closed string body runs over need no escaping.
proof fn lemma_string_end_chars(s: Seq<char>, j: int, e: int)
    requires
        spec_string_end(s, j) == Some(e),
        0 <= j,
    ensures
        j <= e < s.len(),
        forall|k: int|
            j <= k < e ==> (#[trigger] s[k]) != '"' && s[k] != '\\' && (s[k] as u32) >= 32,
    decreases s.len() - j,
{
    if j < s.len() && s[j] != '"' {
        lemma_string_end_chars(s, j + 1, e);
    }
}

/// Reads a string body after an opening quote at `i`; accepts only
/// strings that need no escaping.
fn parse_string(s: &str, i: usize) -> (r: Option<(String, usize)>)
    requires
        i < s@.len() <= usize::MAX,
        s@[i as int] == '"',
    ensures
        match r {
            Some((text, j)) => i < j <= s@.len() && wf_string(text@) && spec_parse_string_at(
                s@,
                i as int,
            ) == Some((text@, j as int)),
            None => spec_parse_string_at(s@, i as int) is None,
        },
{
    match string_end_from(s, i + 1) {
        Some(e) => {
            let body = s.substring_char(i + 1, e);
            let text = body.to_owned();
            proof {
                assert(text@ =~= s@.subrange(i + 1, e as int));
                lemma_string_end_chars(s@, i + 1, e as int);
            }
            Some((text, e + 1))
        },
        None => None,
    }
}

/// Scans past digits.
fn digits_end_from(s: &str, j: usize) -> (r: usize)
    requires
        j <= s@.len() <= usize::MAX,
    ensures
        j <= r <= s@.len(),
        r == spec_digits_end(s@, j as int),
    decreases s@.len() - j,
{
    if j < s.unicode_len() {
        let c = s.get_char(j) as u32;
        if 48 <= c && c <= 57 {
            digits_end_from(s, j + 1)
        } else {
            j
        }
    } else {
        j
    }
}

/// The characters a digit scan runs over are digits.
proof fn lemma_digits_end_chars(s: Seq<char>, j: int)
    requires
        0 <= j,
    ensures
        j <= spec_digits_end(s, j),
        forall|k: int|
            j <= k < spec_digits_end(s, j) ==> crate::util::is_digit_char(#[trigger] s[k]),
    decreases s.len() - j,
{
    if 0 <= j < s.len() && crate::util::is_digit_char(s[j]) {
        lemma_digits_end_chars(s, j + 1);
    }
}

/// Reads a number literal starting at `i`, keeping its exact characters.
fn parse_number(s: &str, i: usize) -> (r: Option<(String, usize)>)
    requires
        i < s@.len() <= usize::MAX,
    ensures
        match r {
            Some((text, j)) => i < j <= s@.len() && wf_number(text@) && spec_parse_number_at(
                s@,
                i as int,
            ) == Some((text@, j as int)),
            None => spec_parse_number_at(s@, i as int) is None,
        },
{
    let n = s.unicode_len();
    let neg = s.get_char(i) == '-';
    let dstart: usize = if neg {
        i + 1
    } else {
        i
    };
    if dstart > n {
        return None;
    }
    let j = digits_end_from(s, dstart);
    proof {
        lemma_digits_end_chars(s@, dstart as int);
    }
    if j == dstart {
        return None;
    }
    if j < n && s.get_char(j) == '.' {
        let j2 = digits_end_from(s, j + 1);
        proof {
            lemma_digits_end_chars(s@, j + 1);
        }
        if j2 == j + 1 {
            return None;
        }
        let body = s.substring_char(i, j2);
        let text = body.to_owned();
        proof {
            assert(text@ =~= s@.subrange(i as int, j2 as int));
            let t = if neg {
                text@.subrange(1, text@.len() as int)
            } else {
                text@
            };
            let kk: int = j - dstart;
            assert(forall|m: int| 0 <= m < t.len() ==> #[trigger] t[m] == s@[dstart + m]);
            assert(crate::util::all_digits(t.take(kk)));
            assert(t[kk] == '.');
            assert(crate::util::all_digits(t.subrange(kk + 1, t.len() as int)));
            assert(wf_number_frac(t));
            if neg {
                assert(text@[0] == '-');
            }
        }
        Some((text, j2))
    } else {
        let body = s.substring_char(i, j);
        let text = body.to_owned();
        proof {
            assert(text@ =~= s@.subrange(i as int, j as int));
            let t = if neg {
                text@.subrange(1, text@.len() as int)
            } else {
                text@
            };
            let kk: int = t.len() as int;
            assert(forall|m: int| 0 <= m < t.len() ==> #[trigger] t[m] == s@[dstart + m]);
            assert(t.take(kk) =~= t);
            assert(crate::util::all_digits(t.take(kk)));
            assert(wf_number_frac(t));
            if neg {
                assert(text@[0] == '-');
            }
        }
        Some((text, j))
    }
}

/// Reads one JSON value starting exactly at `i`.
#[verifier::loop_isolation(false)]
#[verifier::rlimit(100)]
fn parse_value(s: &str, i: usize) -> (r: Option<(Json, usize)>)
    requires
        i <= s@.len() <= usize::MAX,
    ensures
        match r {
            Some((v, j)) => i < j <= s@.len() && wf_json(v@) && spec_parse_value_at(s@, i as int)
                == Some((v@, j as int)),
            None => spec_parse_value_at(s@, i as int) is None,
        },
    decreases s@.len() - i,
{
    let n = s.unicode_len();
    if i >= n {
        return None;
    }
    let c = s.get_char(i);
    if c == 'n' {
        if n - i >= 4 && s.get_char(i + 1) == 'u' && s.get_char(i + 2) == 'l' && s.get_char(i + 3)
            == 'l' {
            Some((Json::Null, i + 4))
        } else {
            None
        }
    } else if c == 't' {
        if n - i >= 4 && s.get_char(i + 1) == 'r' && s.get_char(i + 2) == 'u' && s.get_char(i + 3)
            == 'e' {
            Some((Json::Bool(true), i + 4))
        } else {
            None
        }
    } else if c == 'f' {
        if n - i >= 5 && s.get_char(i + 1) == 'a' && s.get_char(i + 2) == 'l' && s.get_char(i + 3)
            == 's' && s.get_char(i + 4) == 'e' {
            Some((Json::Bool(false), i + 5))
        } else {
            None
        }
    } else if c == '"' {
        match parse_string(s, i) {
            Some((text, j)) => Some((Json::Str(text), j)),
            None => None,
        }
    } else if c == '-' || (48 <= (c as u32) && (c as u32) <= 57) {
        match parse_number(s, i) {
            Some((text, j)) => Some((Json::Num(text), j)),
            None => None,
        }
    } else if c == '[' {
        let mut items: Vec<Json> = Vec::new();
        let ghost first: int = spec_skip_ws(s@, i + 1);
        let mut j = skip_ws(s, i + 1);
        if j < n && s.get_char(j) == ']' {
            proof {
                lemma_json_views_index(items@);
                assert(json_views(items@) =~= Seq::<JsonV>::empty());
            }
            return Some((Json::Arr(items), j + 1));
        }
        loop
            invariant
                i < j <= n == s@.len(),
                first == spec_skip_ws(s@, i + 1),
                i + 1 <= first <= s@.len(),
                !(first < s@.len() && s@[first] == ']'),
                s@[i as int] == '[',
                forall|k: int|
                    0 <= k < items@.len() ==> wf_json(json_view(#[trigger] items@[k])),
                match spec_parse_elems(s@, j as int) {
                    Some((rest, end)) => spec_parse_elems(s@, first) == Some(
                        (json_views(items@) + rest, end),
                    ),
                    None => spec_parse_elems(s@, first) is None,
                },
            decreases n - j,
        {
            let ghost j0: int = j as int;
            let ghost pref = json_views(items@);
            match parse_value(s, j) {
                Some((v, j2)) => {
                    let ghost vv = v;
                    let ghost pre = items@;
                    items.push(v);
                    proof {
                        assert(items@ == pre.push(vv));
                        assert(items@.drop_last() =~= pre);
                        assert(json_views(items@) =~= pref.push(json_view(vv)));
                        assert forall|k: int|
                            0 <= k < items@.len() implies wf_json(json_view(
                            #[trigger] items@[k],
                        )) by {
                            if k < pre.len() {
                                assert(items@[k] == pre[k]);
                            } else {
                                assert(items@[k] == vv);
                            }
                        }
                    }
                    let j3 = skip_ws(s, j2);
                    if j3 < n && s.get_char(j3) == ',' {
                        j = skip_ws(s, j3 + 1);
                        if j >= n {
                            proof {
                                assert(spec_parse_elems(s@, j0) is None);
                            }
                            return None;
                        }
                        proof {
                            assert(spec_parse_elems(s@, j0) == (match spec_parse_elems(
                                s@,
                                j as int,
                            ) {
                                Some((rest, end)) => Some((seq![vv@] + rest, end)),
                                None => None::<(Seq<JsonV>, int)>,
                            }));
                            match spec_parse_elems(s@, j as int) {
                                Some((rest, end)) => {
                                    assert(pref + (seq![vv@] + rest) =~= json_views(items@)
                                        + rest);
                                },
                                None => {},
                            }
                        }
                    } else if j3 < n && s.get_char(j3) == ']' {
                        proof {
                            lemma_json_views_index(items@);
                            assert(spec_parse_elems(s@, j0) == Some(
                                (seq![vv@], j3 + 1 as int),
                            ));
                            assert(pref + seq![vv@] =~= json_views(items@));
                            assert(spec_parse_elems(s@, first) == Some(
                                (json_views(items@), j3 + 1 as int),
                            ));
                            assert(spec_parse_value_at(s@, i as int) == Some(
                                (JsonV::Arr(json_views(items@)), j3 + 1 as int),
                            ));
                        }
                        return Some((Json::Arr(items), j3 + 1));
                    } else {
                        proof {
                            assert(spec_parse_elems(s@, j0) is None);
                        }
                        return None;
                    }
                },
                None => {
                    proof {
                        assert(spec_parse_elems(s@, j0) is None);
                    }
                    return None;
                },
            }
        }
    } else if c == '{' {
        let mut fields: Vec<(String, Json)> = Vec::new();
        let ghost first: int = spec_skip_ws(s@, i + 1);
        let mut j = skip_ws(s, i + 1);
        if j < n && s.get_char(j) == '}' {
            proof {
                lemma_member_views_index(fields@);
                assert(member_views(fields@) =~= Seq::<(Seq<char>, JsonV)>::empty());
            }
            return Some((Json::Obj(fields), j + 1));
        }
        loop
            invariant
                i < j <= n == s@.len(),
                first == spec_skip_ws(s@, i + 1),
                i + 1 <= first <= s@.len(),
                !(first < s@.len() && s@[first] == '}'),
                s@[i as int] == '{',
                forall|k: int|
                    0 <= k < fields@.len() ==> wf_string((#[trigger] fields@[k]).0@) && wf_json(
                        json_view(fields@[k].1),
                    ),
                match spec_parse_members(s@, j as int) {
                    Some((rest, end)) => spec_parse_members(s@, first) == Some(
                        (member_views(fields@) + rest, end),
                    ),
                    None => spec_parse_members(s@, first) is None,
                },
            decreases n - j,
        {
            let ghost j0: int = j as int;
            let ghost pref = member_views(fields@);
            if !(j < n && s.get_char(j) == '"') {
                proof {
                    assert(spec_parse_members(s@, j0) is None);
                }
                return None;
            }
            match parse_string(s, j) {
                Some((key, j2)) => {
                    let ghost keyv = key@;
                    let j3 = skip_ws(s, j2);
                    if !(j3 < n && s.get_char(j3) == ':') {
                        proof {
                            assert(spec_parse_members(s@, j0) is None);
                        }
                        return None;
                    }
                    let j4 = skip_ws(s, j3 + 1);
                    match parse_value(s, j4) {
                        Some((v, j5)) => {
                            let ghost vv = v;
                            let ghost pre = fields@;
                            let ghost kv = (key, v);
                            fields.push((key, v));
                            proof {
                                assert(fields@ == pre.push(kv));
                                assert(fields@.drop_last() =~= pre);
                                assert(member_views(fields@) =~= pref.push(
                                    (keyv, json_view(vv)),
                                ));
                                assert forall|k: int|
                                    0 <= k < fields@.len() implies wf_string(
                                    (#[trigger] fields@[k]).0@,
                                ) && wf_json(json_view(fields@[k].1)) by {
                                    if k < pre.len() {
                                        assert(fields@[k] == pre[k]);
                                    } else {
                                        assert(fields@[k] == kv);
                                    }
                                }
                            }
                            let j6 = skip_ws(s, j5);
                            if j6 < n && s.get_char(j6) == ',' {
                                j = skip_ws(s, j6 + 1);
                                if j >= n {
                                    proof {
                                        assert(spec_parse_members(s@, j0) is None);
                                    }
                                    return None;
                                }
                                proof {
                                    assert(spec_parse_members(s@, j0) == (match
                                    spec_parse_members(s@, j as int) {
                                        Some((rest, end)) => Some(
                                            (seq![(keyv, vv@)] + rest, end),
                                        ),
                                        None => None::<(Seq<(Seq<char>, JsonV)>, int)>,
                                    }));
                                    match spec_parse_members(s@, j as int) {
                                        Some((rest, end)) => {
                                            assert(pref + (seq![(keyv, vv@)] + rest)
                                                =~= member_views(fields@) + rest);
                                        },
                                        None => {},
                                    }
                                }
                            } else if j6 < n && s.get_char(j6) == '}' {
                                proof {
                                    lemma_member_views_index(fields@);
                                    assert(spec_parse_members(s@, j0) == Some(
                                        (seq![(keyv, vv@)], j6 + 1 as int),
                                    ));
                                    assert(pref + seq![(keyv, vv@)] =~= member_views(fields@));
                                    assert(spec_parse_members(s@, first) == Some(
                                        (member_views(fields@), j6 + 1 as int),
                                    ));
                                    assert(spec_parse_value_at(s@, i as int) == Some(
                                        (JsonV::Obj(member_views(fields@)), j6 + 1 as int),
                                    ));
                                }
                                return Some((Json::Obj(fields), j6 + 1));
                            } else {
                                proof {
                                    assert(spec_parse_members(s@, j0) is None);
                                }
                                return None;
                            }
                        },
                        None => {
                            proof {
                                assert(spec_parse_members(s@, j0) is None);
                            }
                            return None;
                        },
                    }
                },
                None => {
                    proof {
                        assert(spec_parse_members(s@, j0) is None);
                    }
                    return None;
                },
            }
        }
    } else {
        None
    }
}

/// Parses a complete JSON document: one value, optionally surrounded by
/// whitespace.  The result is exactly what `spec_parse_json` assigns to
/// the text — nothing when no parse exists — and whatever is accepted
/// is well formed, so re-printing it yields valid JSON source.
pub fn parse_json(s: &str) -> (r: Option<Json>)
    ensures
        match r {
            Some(v) => spec_parse_json(s@) == Some(v@) && wf_json(v@),
            None => spec_parse_json(s@) is None,
        },
{
    let n = s.unicode_len();
    let i = skip_ws(s, 0);
    match parse_value(s, i) {
        Some((v, j)) => {
            let j2 = skip_ws(s, j);
            if j2 == n {
                Some(v)
            } else {
                None
            }
        },
        None => None,
    }
}

/// The string content of an object member.
pub open spec fn lookup_str(f: Seq<(Seq<char>, JsonV)>, k: Seq<char>) -> Option<Seq<char>> {
    match spec_lookup(f, k) {
        Some(JsonV::Str(s)) => Some(s),
        _ => None,
    }
}

/// The boolean value of an object member.
pub open spec fn lookup_bool(f: Seq<(Seq<char>, JsonV)>, k: Seq<char>) -> Option<bool> {
    match spec_lookup(f, k) {
        Some(JsonV::Bool(b)) => Some(b),
        _ => None,
    }
}

/// The lexical form of a numeric object member.
pub open spec fn lookup_num(f: Seq<(Seq<char>, JsonV)>, k: Seq<char>) -> Option<Seq<char>> {
    match spec_lookup(f, k) {
        Some(JsonV::Num(s)) => Some(s),
        _ => None,
    }
}

/// The integer carried by a string-valued member, as list endpoints write
/// whole numbers inside strings.
pub open spec fn lookup_i64_str(f: Seq<(Seq<char>, JsonV)>, k: Seq<char>) -> Option<i64> {
    match lookup_str(f, k) {
        Some(s) => crate::util::spec_parse_i64(s),
        None => None,
    }
}

/// The integer carried by a numeric member.
pub open spec fn lookup_i64_num(f: Seq<(Seq<char>, JsonV)>, k: Seq<char>) -> Option<i64> {
    match lookup_num(f, k) {
        Some(s) => crate::util::spec_parse_i64(s),
        None => None,
    }
}

/// An optional string member: absent and null both mean "not given"; a
/// present non-string is a shape error.
pub open spec fn lookup_opt_str(f: Seq<(Seq<char>, JsonV)>, k: Seq<char>) -> Option<
    Option<Seq<char>>,
> {
    match spec_lookup(f, k) {
        None => Some(None),
        Some(JsonV::Null) => Some(None),
        Some(JsonV::Str(s)) => Some(Some(s)),
        Some(_) => None,
    }
}

/// An optional boolean member.
pub open spec fn lookup_opt_bool(f: Seq<(Seq<char>, JsonV)>, k: Seq<char>) -> Option<
    Option<bool>,
> {
    match spec_lookup(f, k) {
        None => Some(None),
        Some(JsonV::Null) => Some(None),
        Some(JsonV::Bool(b)) => Some(Some(b)),
        Some(_) => None,
    }
}


/// An optional whole-number member written as a raw number.
pub open spec fn lookup_opt_i64_num(f: Seq<(Seq<char>, JsonV)>, k: Seq<char>) -> Option<
    Option<i64>,
> {
    match spec_lookup(f, k) {
        None => Some(None),
        Some(JsonV::Null) => Some(None),
        Some(JsonV::Num(s)) => match crate::util::spec_parse_i64(s) {
            Some(v) => Some(Some(v)),
            None => None,
        },
        Some(_) => None,
    }
}

/// The member contributed by an optional whole-number field.
pub open spec fn opt_member_i64_num(k: Seq<char>, v: Option<i64>) -> Seq<(Seq<char>, JsonV)> {
    match v {
        Some(n) => seq![(k, JsonV::Num(crate::util::dec_digits_signed(n as int)))],
        None => Seq::empty(),
    }
}

/// The strings of an all-string array.
pub open spec fn strs_of(items: Seq<JsonV>) -> Option<Seq<Seq<char>>>
    decreases items.len(),
{
    if items.len() == 0 {
        Some(Seq::empty())
    } else {
        match strs_of(items.drop_last()) {
            Some(pre) => match items[items.len() - 1] {
                JsonV::Str(s) => Some(pre.push(s)),
                _ => None,
            },
            None => None,
        }
    }
}

/// A member that must be an array of strings.
pub open spec fn lookup_strs(f: Seq<(Seq<char>, JsonV)>, k: Seq<char>) -> Option<Seq<Seq<char>>> {
    match spec_lookup(f, k) {
        Some(JsonV::Arr(items)) => strs_of(items),
        _ => None,
    }
}

/// `strs_of` succeeds exactly on all-string items, and then keeps each
/// string in place.
pub proof fn lemma_strs_of_index(s: Seq<JsonV>)
    ensures
        (strs_of(s) is Some) <==> (forall|i: int| 0 <= i < s.len() ==> (#[trigger] s[i]) is Str),
        strs_of(s) is Some ==> strs_of(s).unwrap().len() == s.len(),
        strs_of(s) is Some ==> forall|i: int|
            0 <= i < s.len() ==> #[trigger] strs_of(s).unwrap()[i] == s[i]->Str_0,
    decreases s.len(),
{
    if s.len() > 0 {
        lemma_strs_of_index(s.drop_last());
        assert(forall|i: int| 0 <= i < s.len() - 1 ==> #[trigger] s.drop_last()[i] == s[i]);
        if strs_of(s) is Some {
            assert(strs_of(s.drop_last()) is Some);
            assert(s[s.len() - 1] is Str);
            assert forall|i: int| 0 <= i < s.len() implies (#[trigger] s[i]) is Str by {
                if i < s.len() - 1 {
                    assert(s.drop_last()[i] is Str);
                }
            }
            assert forall|i: int|
                0 <= i < s.len() implies #[trigger] strs_of(s).unwrap()[i] == s[i]->Str_0 by {
                if i < s.len() - 1 {
                    assert(strs_of(s.drop_last()).unwrap()[i] == s.drop_last()[i]->Str_0);
                }
            }
        } else {
            if forall|i: int| 0 <= i < s.len() ==> (#[trigger] s[i]) is Str {
                assert forall|i: int|
                    0 <= i < s.len() - 1 implies (#[trigger] s.drop_last()[i]) is Str by {
                    assert(s.drop_last()[i] == s[i]);
                }
                assert(strs_of(s.drop_last()) is Some);
                assert(s[s.len() - 1] is Str);
                assert(strs_of(s) is Some);
            }
        }
    }
}

impl Json {
    /// Reads a string member of an object.
    pub fn get_str(&self, k: &str) -> (r: Option<String>)
        ensures
            match r {
                Some(s) => self@ matches JsonV::Obj(f) && lookup_str(f, k@) == Some(s@),
                None => match self@ {
                    JsonV::Obj(f) => lookup_str(f, k@) is None,
                    _ => true,
                },
            },
    {
        match self.get(k) {
            Some(m) => match m.as_str() {
                Some(s) => Some(s.clone()),
                None => None,
            },
            None => None,
        }
    }

    /// Reads a boolean member of an object.
    pub fn get_bool(&self, k: &str) -> (r: Option<bool>)
        ensures
            match r {
                Some(b) => self@ matches JsonV::Obj(f) && lookup_bool(f, k@) == Some(b),
                None => match self@ {
                    JsonV::Obj(f) => lookup_bool(f, k@) is None,
                    _ => true,
                },
            },
    {
        match self.get(k) {
            Some(m) => match m.as_bool() {
                Some(b) => Some(b),
                None => None,
            },
            None => None,
        }
    }

    /// Reads the lexical form of a numeric member of an object.
    pub fn get_num(&self, k: &str) -> (r: Option<String>)
        ensures
            match r {
                Some(s) => self@ matches JsonV::Obj(f) && lookup_num(f, k@) == Some(s@),
                None => match self@ {
                    JsonV::Obj(f) => lookup_num(f, k@) is None,
                    _ => true,
                },
            },
    {
        match self.get(k) {
            Some(m) => match m.as_num() {
                Some(s) => Some(s.clone()),
                None => None,
            },
            None => None,
        }
    }

    /// Reads a whole number written inside a string member.
    pub fn get_i64_str(&self, k: &str) -> (r: Option<i64>)
        ensures
            match r {
                Some(v) => self@ matches JsonV::Obj(f) && lookup_i64_str(f, k@) == Some(v),
                None => match self@ {
                    JsonV::Obj(f) => lookup_i64_str(f, k@) is None,
                    _ => true,
                },
            },
    {
        match self.get_str(k) {
            Some(s) => crate::util::parse_i64(s.as_str()),
            None => None,
        }
    }

    /// Reads a whole number written as a numeric member.
    pub fn get_i64_num(&self, k: &str) -> (r: Option<i64>)
        ensures
            match r {
                Some(v) => self@ matches JsonV::Obj(f) && lookup_i64_num(f, k@) == Some(v),
                None => match self@ {
                    JsonV::Obj(f) => lookup_i64_num(f, k@) is None,
                    _ => true,
                },
            },
    {
        match self.get_num(k) {
            Some(s) => crate::util::parse_i64(s.as_str()),
            None => None,
        }
    }

    /// Reads an optional string member; absent and null both yield
    /// "not given".
    pub fn get_opt_str(&self, k: &str) -> (r: Option<Option<String>>)
        ensures
            match r {
                Some(o) => self@ matches JsonV::Obj(f) && lookup_opt_str(f, k@) == Some(
                    match o {
                        Some(s) => Some(s@),
                        None => None,
                    },
                ),
                None => match self@ {
                    JsonV::Obj(f) => lookup_opt_str(f, k@) is None,
                    _ => true,
                },
            },
    {
        match self {
            Json::Obj(_) => {},
            _ => {
                return None;
            },
        }
        match self.get(k) {
            Some(m) => match m {
                Json::Null => Some(None),
                Json::Str(s) => Some(Some(s.clone())),
                _ => None,
            },
            None => Some(None),
        }
    }

    /// Reads an optional boolean member; absent and null both yield
    /// "not given".
    pub fn get_opt_bool(&self, k: &str) -> (r: Option<Option<bool>>)
        ensures
            match r {
                Some(o) => self@ matches JsonV::Obj(f) && lookup_opt_bool(f, k@) == Some(o),
                None => match self@ {
                    JsonV::Obj(f) => lookup_opt_bool(f, k@) is None,
                    _ => true,
                },
            },
    {
        match self {
            Json::Obj(_) => {},
            _ => {
                return None;
            },
        }
        match self.get(k) {
            Some(m) => match m {
                Json::Null => Some(None),
                Json::Bool(b) => Some(Some(*b)),
                _ => None,
            },
            None => Some(None),
        }
    }


    /// Reads an optional whole-number member written as a raw number;
    /// absent and null both yield "not given".
    pub fn get_opt_i64_num(&self, k: &str) -> (r: Option<Option<i64>>)
        ensures
            match r {
                Some(o) => self@ matches JsonV::Obj(f) && lookup_opt_i64_num(f, k@) == Some(o),
                None => match self@ {
                    JsonV::Obj(f) => lookup_opt_i64_num(f, k@) is None,
                    _ => true,
                },
            },
    {
        match self {
            Json::Obj(_) => {},
            _ => {
                return None;
            },
        }
        match self.get(k) {
            Some(m) => match m {
                Json::Null => Some(None),
                Json::Num(s) => match crate::util::parse_i64(s.as_str()) {
                    Some(v) => Some(Some(v)),
                    None => None,
                },
                _ => None,
            },
            None => Some(None),
        }
    }

    /// Reads a member that must be an array of strings.
    #[verifier::loop_isolation(false)]
    pub fn get_strs(&self, k: &str) -> (r: Option<Vec<String>>)
        ensures
            match r {
                Some(v) => self@ matches JsonV::Obj(f) && lookup_strs(f, k@) == Some(
                    v.deep_view(),
                ),
                None => match self@ {
                    JsonV::Obj(f) => lookup_strs(f, k@) is None,
                    _ => true,
                },
            },
    {
        let m = match self.get(k) {
            Some(m) => m,
            None => {
                return None;
            },
        };
        let items = match m.as_arr() {
            Some(items) => items,
            None => {
                return None;
            },
        };
        proof {
            lemma_json_views_index(items@);
        }
        let ghost iv = json_views(items@);
        let mut out: Vec<String> = Vec::new();
        let mut i: usize = 0;
        while i < items.len()
            invariant
                0 <= i <= items@.len(),
                iv == json_views(items@),
                iv.len() == items@.len(),
                forall|q: int| 0 <= q < items@.len() ==> iv[q] == json_view(#[trigger] items@[q]),
                strs_of(iv.take(i as int)) is Some,
                out.deep_view() == strs_of(iv.take(i as int)).unwrap(),
            decreases items@.len() - i,
        {
            let s = match items[i].as_str() {
                Some(s) => s,
                None => {
                    proof {
                        lemma_strs_of_index(iv);
                        assert(iv[i as int] == json_view(items@[i as int]));
                        assert(!(iv[i as int] is Str));
                    }
                    return None;
                },
            };
            let ghost preout = out.deep_view();
            out.push(s.clone());
            proof {
                assert(out.deep_view() =~= preout.push(s@));
                assert(iv.take(i + 1).drop_last() =~= iv.take(i as int));
                assert(iv.take(i + 1)[i as int] == iv[i as int]);
            }
            i = i + 1;
        }
        proof {
            assert(iv.take(items@.len() as int) =~= iv);
        }
        Some(out)
    }
}

/// Looking a key up in joined member lists scans the first, then the
/// second.
pub proof fn lemma_lookup_append(a: Seq<(Seq<char>, JsonV)>, b: Seq<(Seq<char>, JsonV)>, k: Seq<char>)
    ensures
        spec_lookup(a + b, k) == match spec_lookup(a, k) {
            Some(v) => Some(v),
            None => spec_lookup(b, k),
        },
    decreases a.len(),
{
    if a.len() == 0 {
        assert(a + b =~= b);
    } else {
        assert((a + b)[0] == a[0]);
        assert((a + b).drop_first() =~= a.drop_first() + b);
        lemma_lookup_append(a.drop_first(), b, k);
    }
}

/// The member contributed by an optional string field: nothing when the
/// field is unset, never a null.
pub open spec fn opt_member_str(k: Seq<char>, v: Option<Seq<char>>) -> Seq<(Seq<char>, JsonV)> {
    match v {
        Some(s) => seq![(k, JsonV::Str(s))],
        None => Seq::empty(),
    }
}

/// The member contributed by an optional boolean field.
pub open spec fn opt_member_bool(k: Seq<char>, v: Option<bool>) -> Seq<(Seq<char>, JsonV)> {
    match v {
        Some(b) => seq![(k, JsonV::Bool(b))],
        None => Seq::empty(),
    }
}

/// String sequences as JSON string values.
pub open spec fn strs_jsonv(ss: Seq<Seq<char>>) -> Seq<JsonV>
    decreases ss.len(),
{
    if ss.len() == 0 {
        Seq::empty()
    } else {
        strs_jsonv(ss.drop_last()).push(JsonV::Str(ss[ss.len() - 1]))
    }
}

/// An all-string array built from strings reads back as those strings.
pub proof fn lemma_strs_jsonv_roundtrip(ss: Seq<Seq<char>>)
    ensures
        strs_of(strs_jsonv(ss)) == Some(ss),
        strs_jsonv(ss).len() == ss.len(),
    decreases ss.len(),
{
    if ss.len() > 0 {
        lemma_strs_jsonv_roundtrip(ss.drop_last());
        assert(strs_jsonv(ss).drop_last() =~= strs_jsonv(ss.drop_last()));
        assert(strs_of(strs_jsonv(ss)).unwrap() =~= ss);
    } else {
        assert(strs_of(strs_jsonv(ss)).unwrap() =~= ss);
    }
}

/// Builds a JSON array of strings.
#[verifier::loop_isolation(false)]
pub fn strs_to_json(v: &Vec<String>) -> (j: Json)
    ensures
        j@ == JsonV::Arr(strs_jsonv(v.deep_view())),
{
    let ghost dv = v.deep_view();
    let mut items: Vec<Json> = Vec::new();
    let mut i: usize = 0;
    while i < v.len()
        invariant
            0 <= i <= v@.len(),
            dv == v.deep_view(),
            dv.len() == v@.len(),
            forall|q: int| 0 <= q < v@.len() ==> #[trigger] dv[q] == v@[q]@,
            json_views(items@) == strs_jsonv(dv.take(i as int)),
            items@.len() == i,
        decreases v@.len() - i,
    {
        let ghost pre = items@;
        let elem = Json::Str(v[i].clone());
        let ghost ev = elem;
        items.push(elem);
        proof {
            assert(items@.drop_last() =~= pre);
            assert(items@[items@.len() - 1] == ev);
            assert(json_view(ev) == JsonV::Str(dv[i as int]));
            assert(json_views(items@) == json_views(pre).push(JsonV::Str(dv[i as int])));
            assert(dv.take(i + 1).drop_last() =~= dv.take(i as int));
            assert(dv.take(i + 1)[i as int] == dv[i as int]);
            assert(strs_jsonv(dv.take(i + 1)) == strs_jsonv(dv.take(i as int)).push(
                JsonV::Str(dv[i as int]),
            ));
        }
        i = i + 1;
    }
    proof {
        assert(dv.take(v@.len() as int) =~= dv);
    }
    Json::Arr(items)
}

} // verus!
