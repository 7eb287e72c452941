//! A JSON document tree held as plain values.
//!
//! Every reply of the remote services is JSON; the decisions of this crate
//! read fields out of such documents with the same rules as `serde_json`'s
//! `Value` indexing: a missing key, a key of a non-object, or an index out
//! of range all read as `null`.
use vstd::prelude::*;
use serde_json::Value;

verus! {

broadcast use {vstd::seq::group_seq_axioms, vstd::std_specs::vec::group_vec_axioms};

/// A parsed JSON value. Numbers keep the class `serde_json` gives them:
/// non-negative integers, negative integers, and other numbers, the last
/// kept by their textual form.
#[derive(Debug)]
pub enum JsonValue {
    Null,
    Bool(bool),
    PosInt(u64),
    NegInt(i64),
    Float(String),
    Str(String),
    Array(Vec<JsonValue>),
    Object(Vec<(String, JsonValue)>),
}

/// The mathematical model of a JSON value.
pub enum JsonView {
    Null,
    Bool(bool),
    PosInt(u64),
    NegInt(i64),
    Float(Seq<char>),
    Str(Seq<char>),
    Array(Seq<JsonView>),
    Object(Seq<(Seq<char>, JsonView)>),
}

impl JsonValue {
    pub open spec fn view_of(self) -> JsonView
        decreases self,
    {
        match self {
            JsonValue::Null => JsonView::Null,
            JsonValue::Bool(b) => JsonView::Bool(b),
            JsonValue::PosInt(n) => JsonView::PosInt(n),
            JsonValue::NegInt(n) => JsonView::NegInt(n),
            JsonValue::Float(t) => JsonView::Float(t@),
            JsonValue::Str(s) => JsonView::Str(s@),
            JsonValue::Array(items) => JsonView::Array(
                Seq::new(
                    items@.len(),
                    |i: int|
                        if 0 <= i < items@.len() {
                            items@[i].view_of()
                        } else {
                            JsonView::Null
                        },
                ),
            ),
            JsonValue::Object(entries) => JsonView::Object(
                Seq::new(
                    entries@.len(),
                    |i: int|
                        if 0 <= i < entries@.len() {
                            (entries@[i].0@, entries@[i].1.view_of())
                        } else {
                            (Seq::empty(), JsonView::Null)
                        },
                ),
            ),
        }
    }
}

impl View for JsonValue {
    type V = JsonView;

    open spec fn view(&self) -> JsonView {
        self.view_of()
    }
}


#[verifier::external_type_specification]
#[verifier::external_body]
pub struct ExJsonDocument(serde_json::Value);

/// What `serde_json` parses `bytes` into, as a tree of plain values; `None`
/// when the bytes are not one JSON document.
pub uninterp spec fn json_from_bytes(bytes: Seq<u8>) -> Option<JsonView>;

/// Moves a `serde_json::Value` into the crate's own tree, variant for
/// variant; a number goes to the first of `as_u64`, `as_i64` that holds,
/// else keeps its text.
#[verifier::external_body]
fn from_serde(v: Value) -> JsonValue {
    match v {
        Value::Null => JsonValue::Null,
        Value::Bool(b) => JsonValue::Bool(b),
        Value::Number(n) => match (n.as_u64(), n.as_i64()) {
            (Some(u), _) => JsonValue::PosInt(u),
            (None, Some(i)) => JsonValue::NegInt(i),
            (None, None) => JsonValue::Float(n.to_string()),
        },
        Value::String(s) => JsonValue::Str(s),
        Value::Array(items) => JsonValue::Array(items.into_iter().map(from_serde).collect()),
        Value::Object(m) => JsonValue::Object(m.into_iter().map(|(k, v)| (k, from_serde(v))).collect()),
    }
}

/// `serde_json::from_slice::<serde_json::Value>(bytes)`, moved into a
/// `JsonValue`. Stated: the result is the named parse of the bytes.
#[verifier::external_body]
fn parse_bytes(bytes: &[u8]) -> (r: Option<JsonValue>)
    ensures
        match r {
            Some(v) => json_from_bytes(bytes@) == Some(v@),
            None => json_from_bytes(bytes@) is None,
        },
{
    match serde_json::from_slice::<Value>(bytes) {
        Ok(v) => Some(from_serde(v)),
        Err(_) => None,
    }
}

impl JsonValue {
    /// Parses one JSON document.
    pub fn parse(bytes: &[u8]) -> (r: Option<JsonValue>)
        ensures
            match r {
                Some(v) => json_from_bytes(bytes@) == Some(v@),
                None => json_from_bytes(bytes@) is None,
            },
    {
        parse_bytes(bytes)
    }
}

impl JsonValue {
    /// A copy of the value.
    pub fn duplicate(&self) -> (r: JsonValue)
        ensures
            r@ == self@,
        decreases self,
    {
        match self {
            JsonValue::Null => JsonValue::Null,
            JsonValue::Bool(b) => JsonValue::Bool(*b),
            JsonValue::PosInt(n) => JsonValue::PosInt(*n),
            JsonValue::NegInt(n) => JsonValue::NegInt(*n),
            JsonValue::Float(t) => JsonValue::Float(t.clone()),
            JsonValue::Str(s) => JsonValue::Str(s.clone()),
            JsonValue::Array(items) => {
                let mut out: Vec<JsonValue> = Vec::new();
                let mut i: usize = 0;
                while i < items.len()
                    invariant
                        i <= items@.len(),
                        out@.len() == i,
                        forall|j: int| 0 <= j < i ==> (#[trigger] out@[j])@ == items@[j]@,
                        *self == JsonValue::Array(*items),
                    decreases items@.len() - i,
                {
                    proof {
                        assert(decreases_to!(*self => (*self)->Array_0));
                        assert(decreases_to!(*items => items@));
                        assert(decreases_to!(items@ => items@[i as int]));
                        assert(decreases_to!(*self => items@[i as int]));
                    }
                    let d = items[i].duplicate();
                    out.push(d);
                    i = i + 1;
                }
                let r = JsonValue::Array(out);
                proof {
                    let a = match r@ {
                        JsonView::Array(a) => a,
                        _ => Seq::empty(),
                    };
                    let b = match self@ {
                        JsonView::Array(b) => b,
                        _ => Seq::empty(),
                    };
                    assert(a =~= b);
                }
                r
            },
            JsonValue::Object(entries) => {
                let mut out: Vec<(String, JsonValue)> = Vec::new();
                let mut i: usize = 0;
                while i < entries.len()
                    invariant
                        i <= entries@.len(),
                        out@.len() == i,
                        forall|j: int|
                            0 <= j < i ==> (#[trigger] out@[j]).0@ == entries@[j].0@ && out@[j].1@
                                == entries@[j].1@,
                        *self == JsonValue::Object(*entries),
                    decreases entries@.len() - i,
                {
                    proof {
                        assert(decreases_to!(*self => (*self)->Object_0));
                        assert(decreases_to!(*entries => entries@));
                        assert(decreases_to!(entries@ => entries@[i as int]));
                        assert(decreases_to!(entries@[i as int] => entries@[i as int].1));
                        assert(decreases_to!(*self => entries@[i as int].1));
                    }
                    let d = entries[i].1.duplicate();
                    let k = entries[i].0.clone();
                    out.push((k, d));
                    i = i + 1;
                }
                let r = JsonValue::Object(out);
                proof {
                    let a = match r@ {
                        JsonView::Object(a) => a,
                        _ => Seq::empty(),
                    };
                    let b = match self@ {
                        JsonView::Object(b) => b,
                        _ => Seq::empty(),
                    };
                    assert(a =~= b);
                }
                r
            },
        }
    }
}

/// The compact text `serde_json` writes for a value (`Value::to_string`),
/// the value first moved into a `serde_json::Value`.
pub uninterp spec fn json_text(v: JsonView) -> Seq<char>;

/// Moves the crate's tree into a `serde_json::Value`, variant for variant;
/// a number kept by its text is read back with `Number`'s `FromStr` (`null`
/// when that refuses it), and an object's members go into a `Map`.
#[verifier::external_body]
fn to_serde(v: &JsonValue) -> Value {
    match v {
        JsonValue::Null => Value::Null,
        JsonValue::Bool(b) => Value::Bool(*b),
        JsonValue::PosInt(n) => Value::from(*n),
        JsonValue::NegInt(n) => Value::from(*n),
        JsonValue::Float(t) => match t.parse::<serde_json::Number>() {
            Ok(n) => Value::Number(n),
            Err(_) => Value::Null,
        },
        JsonValue::Str(s) => Value::String(s.clone()),
        JsonValue::Array(items) => Value::Array(items.iter().map(to_serde).collect()),
        JsonValue::Object(entries) => Value::Object(entries.iter().map(|(k, x)| (k.clone(), to_serde(x))).collect()),
    }
}

/// `serde_json::Value::to_string` of the value moved into a
/// `serde_json::Value`. Stated: the result is the named text of the value.
#[verifier::external_body]
fn serde_text(v: &JsonValue) -> (r: String)
    ensures
        r@ == json_text(v@),
{
    to_serde(v).to_string()
}

/// `v.to_string()`: the compact JSON text of `v`.
pub fn to_json_text(v: &JsonValue) -> (r: String)
    ensures
        r@ == json_text(v@),
{
    serde_text(v)
}

/// The model of an object built from its entries, in order.
pub open spec fn entries_view(e: Seq<(String, JsonValue)>) -> Seq<(Seq<char>, JsonView)> {
    e.map_values(|p: (String, JsonValue)| (p.0@, p.1@))
}

pub proof fn lemma_object_view(e: Vec<(String, JsonValue)>)
    ensures
        JsonValue::Object(e)@ == JsonView::Object(entries_view(e@)),
{
    let es = match JsonValue::Object(e)@ {
        JsonView::Object(es) => es,
        _ => Seq::empty(),
    };
    assert(es =~= entries_view(e@));
}

/// An object of the given members, in the given order.
pub fn object(entries: Vec<(String, JsonValue)>) -> (r: JsonValue)
    ensures
        r@ == JsonView::Object(entries_view(entries@)),
{
    proof {
        lemma_object_view(entries);
    }
    JsonValue::Object(entries)
}

/// One member `key: value`.
pub fn member(k: &str, v: JsonValue) -> (r: (String, JsonValue))
    ensures
        r.0@ == k@,
        r.1@ == v@,
{
    (k.to_owned(), v)
}

/// A JSON string.
pub fn text_value(s: &str) -> (r: JsonValue)
    ensures
        r@ == JsonView::Str(s@),
{
    JsonValue::Str(s.to_owned())
}

/// The value of `key` in an object's entries: the first entry with that key,
/// `null` when there is none.
pub open spec fn lookup(entries: Seq<(Seq<char>, JsonView)>, key: Seq<char>) -> JsonView
    decreases entries.len(),
{
    if entries.len() == 0 {
        JsonView::Null
    } else if entries[0].0 == key {
        entries[0].1
    } else {
        lookup(entries.drop_first(), key)
    }
}

/// `v[key]`: the member of an object, `null` for anything else.
pub open spec fn get(v: JsonView, key: Seq<char>) -> JsonView {
    match v {
        JsonView::Object(entries) => lookup(entries, key),
        _ => JsonView::Null,
    }
}

/// `v[i]`: the element of an array, `null` when out of range or not an array.
pub open spec fn at(v: JsonView, i: int) -> JsonView {
    match v {
        JsonView::Array(items) => if 0 <= i < items.len() {
            items[i]
        } else {
            JsonView::Null
        },
        _ => JsonView::Null,
    }
}

pub open spec fn as_str(v: JsonView) -> Option<Seq<char>> {
    match v {
        JsonView::Str(s) => Some(s),
        _ => None,
    }
}

pub open spec fn as_u64(v: JsonView) -> Option<u64> {
    match v {
        JsonView::PosInt(n) => Some(n),
        _ => None,
    }
}

pub open spec fn as_i64(v: JsonView) -> Option<i64> {
    match v {
        JsonView::PosInt(n) => if n <= i64::MAX {
            Some(n as i64)
        } else {
            None
        },
        JsonView::NegInt(n) => Some(n),
        _ => None,
    }
}

pub open spec fn is_string(v: JsonView) -> bool {
    v is Str
}

pub open spec fn is_number(v: JsonView) -> bool {
    v is PosInt || v is NegInt || v is Float
}

pub open spec fn is_object(v: JsonView) -> bool {
    v is Object
}

pub open spec fn as_array(v: JsonView) -> Option<Seq<JsonView>> {
    match v {
        JsonView::Array(items) => Some(items),
        _ => None,
    }
}

/// The value a place in a document reads as: an absent place reads as `null`.
pub open spec fn slot_view(slot: Option<&JsonValue>) -> JsonView {
    match slot {
        Some(v) => v@,
        None => JsonView::Null,
    }
}

pub open spec fn opt_text(o: Option<&String>) -> Option<Seq<char>> {
    match o {
        Some(s) => Some(s@),
        None => None,
    }
}

pub open spec fn owned_text(o: Option<String>) -> Option<Seq<char>> {
    match o {
        Some(s) => Some(s@),
        None => None,
    }
}

/// Whether a `String` holds the same text as a `&str`.
pub fn same_text(a: &String, b: &str) -> (r: bool)
    ensures
        r == (a@ == b@),
{
    let owned = b.to_owned();
    *a == owned
}

/// `slot[key]`.
pub fn key<'a>(slot: Option<&'a JsonValue>, k: &str) -> (r: Option<&'a JsonValue>)
    ensures
        slot_view(r) == get(slot_view(slot), k@),
{
    match slot {
        Some(JsonValue::Object(entries)) => {
            let ghost whole = slot_view(slot);
            let ghost es = match whole {
                JsonView::Object(e) => e,
                _ => Seq::empty(),
            };
            assert(es.len() == entries@.len());
            assert(es.skip(0) =~= es);
            assert(get(slot_view(slot), k@) == lookup(es, k@));
            let mut i: usize = 0;
            while i < entries.len()
                invariant
                    i <= entries@.len(),
                    es.len() == entries@.len(),
                    forall|j: int| 0 <= j < entries@.len() ==> #[trigger] es[j] == (entries@[j].0@, entries@[j].1@),
                    lookup(es, k@) == lookup(es.skip(i as int), k@),
                    get(slot_view(slot), k@) == lookup(es, k@),
                decreases entries@.len() - i,
            {
                assert(es.skip(i as int).drop_first() =~= es.skip(i as int + 1));
                if same_text(&entries[i].0, k) {
                    assert(es.skip(i as int)[0] == es[i as int]);
                    return Some(&entries[i].1);
                }
                i = i + 1;
            }
            assert(es.skip(i as int).len() == 0);
            None
        },
        _ => None,
    }
}

/// `slot[i]`.
pub fn pos<'a>(slot: Option<&'a JsonValue>, i: usize) -> (r: Option<&'a JsonValue>)
    ensures
        slot_view(r) == at(slot_view(slot), i as int),
{
    match slot {
        Some(JsonValue::Array(items)) => {
            if i < items.len() {
                Some(&items[i])
            } else {
                None
            }
        },
        _ => None,
    }
}

/// `slot.as_str()`.
pub fn str_of<'a>(slot: Option<&'a JsonValue>) -> (r: Option<&'a String>)
    ensures
        opt_text(r) == as_str(slot_view(slot)),
{
    match slot {
        Some(JsonValue::Str(s)) => Some(s),
        _ => None,
    }
}

/// `slot.as_u64()`.
pub fn u64_of(slot: Option<&JsonValue>) -> (r: Option<u64>)
    ensures
        r == as_u64(slot_view(slot)),
{
    match slot {
        Some(JsonValue::PosInt(n)) => Some(*n),
        _ => None,
    }
}

/// `slot.as_i64()`.
pub fn i64_of(slot: Option<&JsonValue>) -> (r: Option<i64>)
    ensures
        r == as_i64(slot_view(slot)),
{
    match slot {
        Some(JsonValue::PosInt(n)) => {
            if *n <= 9223372036854775807u64 {
                Some(*n as i64)
            } else {
                None
            }
        },
        Some(JsonValue::NegInt(n)) => Some(*n),
        _ => None,
    }
}

/// `slot.is_string()`.
pub fn is_str(slot: Option<&JsonValue>) -> (r: bool)
    ensures
        r == is_string(slot_view(slot)),
{
    match slot {
        Some(JsonValue::Str(_)) => true,
        _ => false,
    }
}

/// `slot.is_number()`.
pub fn is_num(slot: Option<&JsonValue>) -> (r: bool)
    ensures
        r == is_number(slot_view(slot)),
{
    match slot {
        Some(JsonValue::PosInt(_)) => true,
        Some(JsonValue::NegInt(_)) => true,
        Some(JsonValue::Float(_)) => true,
        _ => false,
    }
}

/// `slot.is_object()`.
pub fn is_obj(slot: Option<&JsonValue>) -> (r: bool)
    ensures
        r == is_object(slot_view(slot)),
{
    match slot {
        Some(JsonValue::Object(_)) => true,
        _ => false,
    }
}

/// `slot.as_array()`.
pub fn items_of<'a>(slot: Option<&'a JsonValue>) -> (r: Option<&'a Vec<JsonValue>>)
    ensures
        match r {
            Some(items) => as_array(slot_view(slot)) == Some(items@.map_values(|e: JsonValue| e@)),
            None => as_array(slot_view(slot)) is None,
        },
{
    match slot {
        Some(JsonValue::Array(items)) => {
            proof {
                assert(items@.map_values(|e: JsonValue| e@) =~= match slot_view(slot) {
                    JsonView::Array(s) => s,
                    _ => Seq::empty(),
                });
            }
            Some(items)
        },
        _ => None,
    }
}

} // verus!
