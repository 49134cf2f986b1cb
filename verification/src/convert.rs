//! The value codec: engine values to structured values and back.

use vstd::prelude::*;
use crate::json::{items_view, members_view, well_formed, Json, JsonModel, JsonNumber};
use crate::text::optional_text;
use crate::value::{
    bigint_to_decimal, bigint_to_i64, decimal_text, entries_view, fits_i64, float_is_finite,
    float_is_nan, float_of_large, float_sign_negative, is_finite_bits, is_nan_bits,
    is_sign_positive_bits, large_to_float, values_view, BigInteger, EngineModel, EngineValue,
};

verus! {

/// The structured form of an integer of arbitrary size: a number where it is
/// in the range of `i64`, else its decimal text.
pub open spec fn encode_bigint(v: int) -> JsonModel {
    if fits_i64(v) {
        JsonModel::Number(JsonNumber::Int(v as i64))
    } else {
        JsonModel::Text(decimal_text(v))
    }
}

/// The structured form of a floating point number: a number where it is
/// finite, else the text `NaN`, `Infinity` or `-Infinity`.
pub open spec fn encode_float(bits: u64) -> JsonModel {
    if float_is_finite(bits) {
        JsonModel::Number(JsonNumber::Float(bits))
    } else if float_is_nan(bits) {
        JsonModel::Text("NaN"@)
    } else if !float_sign_negative(bits) {
        JsonModel::Text("Infinity"@)
    } else {
        JsonModel::Text("-Infinity"@)
    }
}

/// The text of an exception object: the name of its type, then a colon, a
/// space and its argument where it has one.
pub open spec fn exception_text(exc_type: Seq<char>, arg: Option<Seq<char>>) -> Seq<char> {
    match arg {
        Some(a) => exc_type + ": "@ + a,
        None => exc_type,
    }
}

/// The structured forms of a byte sequence: one number per byte.
pub open spec fn encode_bytes(bytes: Seq<u8>) -> Seq<JsonModel> {
    Seq::new(bytes.len(), |i: int| JsonModel::Number(JsonNumber::Int(bytes[i] as i64)))
}

/// Whether the key of every entry is a string.
pub open spec fn all_text_keys(entries: Seq<(EngineModel, EngineModel)>) -> bool {
    forall|i: int| 0 <= i < entries.len() ==> (#[trigger] entries[i]).0 is Text
}

/// The structured form of an engine value.
pub open spec fn encode(v: EngineModel) -> JsonModel
    decreases v, 0int,
{
    match v {
        EngineModel::Null => JsonModel::Null,
        EngineModel::Ellipsis => JsonModel::Text("..."@),
        EngineModel::NotImplemented => JsonModel::Text("..."@),
        EngineModel::Bool(b) => JsonModel::Bool(b),
        EngineModel::Int(n) => JsonModel::Number(JsonNumber::Int(n)),
        EngineModel::BigInt(n) => encode_bigint(n),
        EngineModel::Float(bits) => encode_float(bits),
        EngineModel::Text(s) => JsonModel::Text(s),
        EngineModel::Bytes(b) => JsonModel::Array(encode_bytes(b)),
        EngineModel::List(items) => JsonModel::Array(encode_items(items)),
        EngineModel::Tuple(items) => JsonModel::Array(encode_items(items)),
        EngineModel::NamedTuple(items) => JsonModel::Array(encode_items(items)),
        EngineModel::Dict(entries) => encode_entries(entries),
        EngineModel::MutableSet(items) => JsonModel::Array(encode_items(items)),
        EngineModel::FrozenSet(items) => JsonModel::Array(encode_items(items)),
        EngineModel::Path(p) => JsonModel::Text(p),
        EngineModel::Instance(attrs) => encode_entries(attrs),
        EngineModel::Exception { exc_type, arg } => JsonModel::Text(exception_text(exc_type, arg)),
        EngineModel::Type(t) => JsonModel::Text(t),
        EngineModel::BuiltinFunction(t) => JsonModel::Text(t),
        EngineModel::Repr(t) => JsonModel::Text(t),
        EngineModel::Cycle(t) => JsonModel::Text(t),
        EngineModel::Opaque(t) => JsonModel::Text(t),
    }
}

/// The structured forms of a sequence of engine values, element by element.
pub open spec fn encode_items(items: Seq<EngineModel>) -> Seq<JsonModel>
    decreases items, 0int,
{
    Seq::new(
        items.len(),
        |i: int|
            if 0 <= i < items.len() {
                encode(items[i])
            } else {
                JsonModel::Null
            },
    )
}

/// The members of the object that stands for entries with string keys.
pub open spec fn encode_members(entries: Seq<(EngineModel, EngineModel)>) -> Seq<(Seq<char>, JsonModel)>
    decreases entries, 0int,
{
    Seq::new(
        entries.len(),
        |i: int|
            if 0 <= i < entries.len() {
                (entries[i].0->Text_0, encode(entries[i].1))
            } else {
                (Seq::empty(), JsonModel::Null)
            },
    )
}

/// The two-element arrays that stand for entries with arbitrary keys.
pub open spec fn encode_pairs(entries: Seq<(EngineModel, EngineModel)>) -> Seq<JsonModel>
    decreases entries, 0int,
{
    Seq::new(
        entries.len(),
        |i: int|
            if 0 <= i < entries.len() {
                JsonModel::Array(seq![encode(entries[i].0), encode(entries[i].1)])
            } else {
                JsonModel::Null
            },
    )
}

/// The structured form of a mapping: an object where every key is a string,
/// else an array of two-element arrays, key first.
pub open spec fn encode_entries(entries: Seq<(EngineModel, EngineModel)>) -> JsonModel
    decreases entries, 1int,
{
    if all_text_keys(entries) {
        JsonModel::Object(encode_members(entries))
    } else {
        JsonModel::Array(encode_pairs(entries))
    }
}

/// The engine value that a number stands for: an integer in the range of
/// `i64` is that integer, an integer above it the nearest floating point
/// number, and a floating point number itself.
pub open spec fn decode_number(n: JsonNumber) -> EngineModel {
    match n {
        JsonNumber::Int(i) => EngineModel::Int(i),
        JsonNumber::Unsigned(u) => if u <= i64::MAX {
            EngineModel::Int(u as i64)
        } else {
            EngineModel::Float(float_of_large(u))
        },
        JsonNumber::Float(bits) => EngineModel::Float(bits),
    }
}

/// The engine value that a structured value stands for.
pub open spec fn decode(j: JsonModel) -> EngineModel
    decreases j,
{
    match j {
        JsonModel::Null => EngineModel::Null,
        JsonModel::Bool(b) => EngineModel::Bool(b),
        JsonModel::Number(n) => decode_number(n),
        JsonModel::Text(s) => EngineModel::Text(s),
        JsonModel::Array(items) => EngineModel::List(decode_items(items)),
        JsonModel::Object(members) => EngineModel::Dict(decode_members(members)),
    }
}

/// The engine values that a sequence of structured values stands for.
pub open spec fn decode_items(items: Seq<JsonModel>) -> Seq<EngineModel>
    decreases items,
{
    Seq::new(
        items.len(),
        |i: int|
            if 0 <= i < items.len() {
                decode(items[i])
            } else {
                EngineModel::Null
            },
    )
}

/// The entries that the members of an object stand for.
pub open spec fn decode_members(members: Seq<(Seq<char>, JsonModel)>) -> Seq<(EngineModel, EngineModel)>
    decreases members,
{
    Seq::new(
        members.len(),
        |i: int|
            if 0 <= i < members.len() {
                (EngineModel::Text(members[i].0), decode(members[i].1))
            } else {
                (EngineModel::Null, EngineModel::Null)
            },
    )
}

/// Whether an engine value is of the kinds a host can supply: null, boolean,
/// fixed-width integer, floating point number, string, list, and mapping
/// with string keys.
pub open spec fn host_data(v: EngineModel) -> bool
    decreases v,
{
    match v {
        EngineModel::Null => true,
        EngineModel::Bool(_) => true,
        EngineModel::Int(_) => true,
        EngineModel::Float(_) => true,
        EngineModel::Text(_) => true,
        EngineModel::List(items) => forall|i: int| 0 <= i < items.len() ==> host_data(#[trigger] items[i]),
        EngineModel::Dict(entries) => forall|i: int|
            0 <= i < entries.len() ==> (#[trigger] entries[i]).0 is Text && host_data(entries[i].1),
        _ => false,
    }
}

/// Whether every floating point number in an engine value is finite.
pub open spec fn finite_floats(v: EngineModel) -> bool
    decreases v,
{
    match v {
        EngineModel::Float(bits) => float_is_finite(bits),
        EngineModel::List(items) => forall|i: int| 0 <= i < items.len() ==> finite_floats(#[trigger] items[i]),
        EngineModel::Dict(entries) => forall|i: int|
            0 <= i < entries.len() ==> finite_floats((#[trigger] entries[i]).1),
        _ => true,
    }
}

/// Encodes an integer of arbitrary size.
pub fn bigint_to_json(n: &BigInteger) -> (j: Json)
    ensures
        j@ == encode_bigint(n@),
        well_formed(j@),
{
    match bigint_to_i64(n) {
        Some(i) => Json::Number(JsonNumber::Int(i)),
        None => Json::String(bigint_to_decimal(n)),
    }
}

/// Encodes a floating point number given as its bit pattern.
pub fn float_to_json(bits: u64) -> (j: Json)
    ensures
        j@ == encode_float(bits),
        well_formed(j@),
{
    if is_finite_bits(bits) {
        Json::Number(JsonNumber::Float(bits))
    } else if is_nan_bits(bits) {
        Json::String("NaN".to_owned())
    } else if is_sign_positive_bits(bits) {
        Json::String("Infinity".to_owned())
    } else {
        Json::String("-Infinity".to_owned())
    }
}

/// Decodes a number.
pub fn number_to_monty_object(n: &JsonNumber) -> (v: EngineValue)
    ensures
        v@ == decode_number(*n),
        host_data(v@),
{
    match n {
        JsonNumber::Int(i) => EngineValue::Int(*i),
        JsonNumber::Unsigned(u) => if *u <= 0x7fff_ffff_ffff_ffff {
            EngineValue::Int(*u as i64)
        } else {
            EngineValue::Float(large_to_float(*u))
        },
        JsonNumber::Float(bits) => EngineValue::Float(*bits),
    }
}

/// Renders an exception object.
fn exception_to_text(exc_type: &String, arg: &Option<String>) -> (s: String)
    ensures
        s@ == exception_text(exc_type@, optional_text(*arg)),
{
    match arg {
        Some(a) => {
            let mut s = exc_type.clone();
            s.append(": ");
            s.append(a.as_str());
            s
        },
        None => exc_type.clone(),
    }
}

/// Encodes a byte sequence as one number per byte.
fn bytes_to_json(bytes: &Vec<u8>) -> (out: Vec<Json>)
    ensures
        items_view(out@) == encode_bytes(bytes@),
        well_formed(JsonModel::Array(items_view(out@))),
{
    let mut out: Vec<Json> = Vec::new();
    let mut i: usize = 0;
    while i < bytes.len()
        invariant
            i <= bytes.len(),
            out.len() == i,
            forall|k: int| 0 <= k < i ==> (#[trigger] out@[k])@ == JsonModel::Number(JsonNumber::Int(bytes@[k] as i64)),
        decreases bytes.len() - i,
    {
        let b: u8 = bytes[i];
        out.push(Json::Number(JsonNumber::Int(b as i64)));
        i += 1;
    }
    assert(items_view(out@) =~= encode_bytes(bytes@));
    assert forall|k: int| 0 <= k < out.len() implies well_formed(
        #[trigger] items_view(out@)[k],
    ) by {
        assert(out@[k]@ == JsonModel::Number(JsonNumber::Int(bytes@[k] as i64)));
    }
    out
}

/// Encodes a sequence of engine values, element by element.
fn values_to_json(items: &Vec<EngineValue>) -> (out: Vec<Json>)
    ensures
        items_view(out@) == encode_items(values_view(items@)),
        well_formed(JsonModel::Array(items_view(out@))),
    decreases items,
{
    let mut out: Vec<Json> = Vec::new();
    let mut i: usize = 0;
    while i < items.len()
        invariant
            i <= items.len(),
            out.len() == i,
            forall|k: int| 0 <= k < i ==> (#[trigger] out@[k])@ == encode(items@[k]@),
            forall|k: int| 0 <= k < i ==> well_formed(#[trigger] out@[k]@),
        decreases items.len() - i,
    {
        let j = monty_object_to_json(&items[i]);
        out.push(j);
        i += 1;
    }
    assert(items_view(out@) =~= encode_items(values_view(items@)));
    out
}

/// Tells whether the key of every entry is a string.
fn keys_are_strings(pairs: &Vec<(EngineValue, EngineValue)>) -> (r: bool)
    ensures
        r == all_text_keys(entries_view(pairs@)),
{
    let mut i: usize = 0;
    while i < pairs.len()
        invariant
            i <= pairs.len(),
            forall|k: int| 0 <= k < i ==> (#[trigger] pairs@[k]).0 is String,
        decreases pairs.len() - i,
    {
        match &pairs[i].0 {
            EngineValue::String(_) => {},
            _ => {
                assert(!(entries_view(pairs@)[i as int].0 is Text));
                return false;
            },
        }
        i += 1;
    }
    assert forall|k: int| 0 <= k < entries_view(pairs@).len() implies (#[trigger] entries_view(pairs@)[k]).0 is Text by {
        assert(pairs@[k].0 is String);
    }
    true
}

/// Encodes a mapping: an object where every key is a string, else an array
/// of two-element arrays, key first.
pub fn dict_to_json(pairs: &Vec<(EngineValue, EngineValue)>) -> (j: Json)
    ensures
        j@ == encode_entries(entries_view(pairs@)),
        well_formed(j@),
    decreases pairs,
{
    if keys_are_strings(pairs) {
        let mut members: Vec<(String, Json)> = Vec::new();
        let mut i: usize = 0;
        while i < pairs.len()
            invariant
                i <= pairs.len(),
                members.len() == i,
                all_text_keys(entries_view(pairs@)),
                forall|k: int| 0 <= k < i ==> (#[trigger] members@[k]).0@ == pairs@[k].0@->Text_0,
                forall|k: int| 0 <= k < i ==> (#[trigger] members@[k]).1@ == encode(pairs@[k].1@),
                forall|k: int| 0 <= k < i ==> well_formed((#[trigger] members@[k]).1@),
            decreases pairs.len() - i,
        {
            assert(entries_view(pairs@)[i as int].0 is Text);
            let key = match &pairs[i].0 {
                EngineValue::String(s) => s.clone(),
                _ => String::new(),
            };
            let value = monty_object_to_json(&pairs[i].1);
            members.push((key, value));
            i += 1;
        }
        let j = Json::Object(members);
        assert(j@->Object_0 =~= encode_members(entries_view(pairs@)));
        j
    } else {
        let mut out: Vec<Json> = Vec::new();
        let mut i: usize = 0;
        while i < pairs.len()
            invariant
                i <= pairs.len(),
                out.len() == i,
                forall|k: int| 0 <= k < i ==> (#[trigger] out@[k])@ == JsonModel::Array(
                    seq![encode(pairs@[k].0@), encode(pairs@[k].1@)],
                ),
                forall|k: int| 0 <= k < i ==> well_formed(#[trigger] out@[k]@),
            decreases pairs.len() - i,
        {
            let key = monty_object_to_json(&pairs[i].0);
            let value = monty_object_to_json(&pairs[i].1);
            let mut pair: Vec<Json> = Vec::new();
            pair.push(key);
            pair.push(value);
            let entry = Json::Array(pair);
            assert(entry@->Array_0 =~= seq![encode(pairs@[i as int].0@), encode(pairs@[i as int].1@)]);
            out.push(entry);
            i += 1;
        }
        let j = Json::Array(out);
        assert(j@->Array_0 =~= encode_pairs(entries_view(pairs@)));
        j
    }
}

/// Encodes an engine value as a structured value.
pub fn monty_object_to_json(obj: &EngineValue) -> (j: Json)
    ensures
        j@ == encode(obj@),
        well_formed(j@),
    decreases obj,
{
    match obj {
        EngineValue::Null => Json::Null,
        EngineValue::Ellipsis => Json::String("...".to_owned()),
        EngineValue::NotImplemented => Json::String("...".to_owned()),
        EngineValue::Bool(b) => Json::Bool(*b),
        EngineValue::Int(n) => Json::Number(JsonNumber::Int(*n)),
        EngineValue::BigInt(n) => bigint_to_json(n),
        EngineValue::Float(bits) => float_to_json(*bits),
        EngineValue::String(s) => Json::String(s.clone()),
        EngineValue::Bytes(bytes) => Json::Array(bytes_to_json(bytes)),
        EngineValue::List(items) => Json::Array(values_to_json(items)),
        EngineValue::Tuple(items) => Json::Array(values_to_json(items)),
        EngineValue::NamedTuple(items) => Json::Array(values_to_json(items)),
        EngineValue::Dict(entries) => dict_to_json(entries),
        EngineValue::MutableSet(items) => Json::Array(values_to_json(items)),
        EngineValue::FrozenSet(items) => Json::Array(values_to_json(items)),
        EngineValue::Path(p) => Json::String(p.clone()),
        EngineValue::Instance(attrs) => dict_to_json(attrs),
        EngineValue::Exception { exc_type, arg } => Json::String(exception_to_text(exc_type, arg)),
        EngineValue::Type(t) => Json::String(t.clone()),
        EngineValue::BuiltinFunction(t) => Json::String(t.clone()),
        EngineValue::Repr(t) => Json::String(t.clone()),
        EngineValue::Cycle(t) => Json::String(t.clone()),
        EngineValue::Opaque(t) => Json::String(t.clone()),
    }
}

/// Decodes a structured value as an engine value.
pub fn json_to_monty_object(val: &Json) -> (v: EngineValue)
    ensures
        v@ == decode(val@),
        host_data(v@),
    decreases val,
{
    match val {
        Json::Null => EngineValue::Null,
        Json::Bool(b) => EngineValue::Bool(*b),
        Json::Number(n) => number_to_monty_object(n),
        Json::String(s) => EngineValue::String(s.clone()),
        Json::Array(items) => {
            let mut out: Vec<EngineValue> = Vec::new();
            let mut i: usize = 0;
            while i < items.len()
                invariant
                    i <= items.len(),
                    out.len() == i,
                    val is Array && val->Array_0 == items,
                    forall|k: int| 0 <= k < i ==> (#[trigger] out@[k])@ == decode(items@[k]@),
                    forall|k: int| 0 <= k < i ==> host_data(#[trigger] out@[k]@),
                decreases items.len() - i,
            {
                let v = json_to_monty_object(&items[i]);
                out.push(v);
                i += 1;
            }
            let v = EngineValue::List(out);
            assert(v@->List_0 =~= decode_items(items_view(items@)));
            v
        },
        Json::Object(members) => {
            let mut out: Vec<(EngineValue, EngineValue)> = Vec::new();
            let mut i: usize = 0;
            while i < members.len()
                invariant
                    i <= members.len(),
                    out.len() == i,
                    val is Object && val->Object_0 == members,
                    forall|k: int| 0 <= k < i ==> (#[trigger] out@[k]).0@ == EngineModel::Text(members@[k].0@),
                    forall|k: int| 0 <= k < i ==> (#[trigger] out@[k]).1@ == decode(members@[k].1@),
                    forall|k: int| 0 <= k < i ==> host_data((#[trigger] out@[k]).1@),
                decreases members.len() - i,
            {
                let key = EngineValue::String(members[i].0.clone());
                let value = json_to_monty_object(&members[i].1);
                out.push((key, value));
                i += 1;
            }
            let v = EngineValue::Dict(out);
            assert(v@->Dict_0 =~= decode_members(members_view(members@)));
            v
        },
    }
}

/// Round trip of structured values: decoding a structured value whose
/// floating point numbers are all finite and whose integers are all in the
/// exact range of the transport, and encoding what comes out, gives the
/// value back.
pub proof fn encode_inverts_decode(j: JsonModel)
    requires
        well_formed(j),
    ensures
        encode(decode(j)) == j,
    decreases j,
{
    match j {
        JsonModel::Array(items) => {
            assert forall|i: int| 0 <= i < items.len() implies encode(decode(items[i])) == items[i] by {
                encode_inverts_decode(items[i]);
            }
            assert(encode_items(decode_items(items)) =~= items);
        },
        JsonModel::Object(members) => {
            let entries = decode_members(members);
            assert(all_text_keys(entries));
            assert forall|i: int| 0 <= i < members.len() implies encode(decode(members[i].1))
                == members[i].1 by {
                encode_inverts_decode(members[i].1);
            }
            assert(encode_members(entries) =~= members);
        },
        _ => {},
    }
}

/// Round trip of engine values: encoding a value of the kinds a host can
/// supply, whose floating point numbers are all finite, and decoding what
/// comes out, gives the value back.
pub proof fn decode_inverts_encode(v: EngineModel)
    requires
        host_data(v),
        finite_floats(v),
    ensures
        decode(encode(v)) == v,
    decreases v,
{
    match v {
        EngineModel::List(items) => {
            assert forall|i: int| 0 <= i < items.len() implies decode(encode(items[i])) == items[i] by {
                decode_inverts_encode(items[i]);
            }
            assert(decode_items(encode_items(items)) =~= items);
        },
        EngineModel::Dict(entries) => {
            assert(all_text_keys(entries));
            assert forall|i: int| 0 <= i < entries.len() implies decode(encode(entries[i].1))
                == entries[i].1 by {
                decode_inverts_encode(entries[i].1);
            }
            assert(decode_members(encode_members(entries)) =~= entries);
        },
        _ => {},
    }
}

/// What decoding gives is of the kinds a host can supply, and its floating
/// point numbers are finite where those of the structured value are.
pub proof fn decode_gives_host_data(j: JsonModel)
    ensures
        host_data(decode(j)),
        well_formed(j) ==> finite_floats(decode(j)),
    decreases j,
{
    match j {
        JsonModel::Array(items) => {
            let out = decode_items(items);
            assert forall|i: int| 0 <= i < out.len() implies host_data(#[trigger] out[i]) by {
                decode_gives_host_data(items[i]);
            }
            if well_formed(j) {
                assert forall|i: int| 0 <= i < out.len() implies finite_floats(#[trigger] out[i]) by {
                    assert(well_formed(items[i]));
                    decode_gives_host_data(items[i]);
                }
            }
        },
        JsonModel::Object(members) => {
            let out = decode_members(members);
            assert forall|i: int| 0 <= i < out.len() implies (#[trigger] out[i]).0 is Text && host_data(
                out[i].1,
            ) by {
                decode_gives_host_data(members[i].1);
            }
            if well_formed(j) {
                assert forall|i: int| 0 <= i < out.len() implies finite_floats((#[trigger] out[i]).1) by {
                    assert(well_formed(members[i].1));
                    decode_gives_host_data(members[i].1);
                }
            }
        },
        _ => {},
    }
}

} // verus!
