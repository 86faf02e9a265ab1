//! JSON documents, read through `serde_json`, and the field schemas that the
//! service's payloads are held to.
//!
//! Parsing and the accessors of a parsed value are `serde_json`'s and are
//! trusted: each has a name for what it returns. What a payload must hold,
//! and which fault is reported when it does not, is decided here.

use vstd::prelude::*;
use vstd::string::*;
use crate::error::{Error, ErrorView};
use crate::models::{PriceLevel, PriceLevelView, levels_view, texts_view};
use crate::text::join2;

verus! {

/// A JSON document of `serde_json`. It is opaque here: what is known of one
/// is what the accessors below report.
#[verifier::external_type_specification]
#[verifier::external_body]
pub struct ExJsonValue(serde_json::Value);

/// What `serde_json::from_str` makes of a text: the document, or the text of
/// the error that says why it is none.
pub uninterp spec fn json_parse(text: Seq<char>) -> std::result::Result<
    serde_json::Value,
    Seq<char>,
>;

/// The member of an object under a key; `None` for a missing key or a value
/// that is no object.
pub uninterp spec fn json_member(v: serde_json::Value, key: Seq<char>) -> Option<serde_json::Value>;

/// The elements of an array; `None` for a value that is no array.
pub uninterp spec fn json_items(v: serde_json::Value) -> Option<Seq<serde_json::Value>>;

/// The characters of a string; `None` for a value that is no string.
pub uninterp spec fn json_string(v: serde_json::Value) -> Option<Seq<char>>;

/// The number, where the value is an integer that fits in 64 signed bits.
pub uninterp spec fn json_i64(v: serde_json::Value) -> Option<i64>;

/// The truth value; `None` for a value that is no boolean.
pub uninterp spec fn json_bool(v: serde_json::Value) -> Option<bool>;

/// A parse result with its error text as a character sequence.
pub open spec fn parsed_view(r: std::result::Result<serde_json::Value, String>)
    -> std::result::Result<serde_json::Value, Seq<char>>
{
    match r {
        Ok(v) => Ok(v),
        Err(m) => Err(m@),
    }
}

/// `serde_json::from_str` at `serde_json::Value`, the error turned into its
/// displayed text: the result is what [`json_parse`] names for this text.
#[verifier::external_body]
pub(crate) fn parse(text: &str) -> (r: std::result::Result<serde_json::Value, String>)
    ensures
        parsed_view(r) == json_parse(text@),
{
    serde_json::from_str::<serde_json::Value>(text).map_err(|e| e.to_string())
}

/// `serde_json::Value::get` with a string key.
#[verifier::external_body]
pub(crate) fn member<'a>(v: &'a serde_json::Value, key: &str) -> (r: Option<&'a serde_json::Value>)
    ensures
        r matches Some(m) ==> json_member(*v, key@) == Some(*m),
        r is None ==> json_member(*v, key@) is None,
{
    v.get(key)
}

/// `serde_json::Value::as_array`.
#[verifier::external_body]
pub(crate) fn items<'a>(v: &'a serde_json::Value) -> (r: Option<&'a Vec<serde_json::Value>>)
    ensures
        r matches Some(a) ==> json_items(*v) == Some(a@),
        r is None ==> json_items(*v) is None,
{
    v.as_array()
}

/// `serde_json::Value::as_str`.
#[verifier::external_body]
pub(crate) fn string<'a>(v: &'a serde_json::Value) -> (r: Option<&'a str>)
    ensures
        r matches Some(s) ==> json_string(*v) == Some(s@),
        r is None ==> json_string(*v) is None,
{
    v.as_str()
}

/// `serde_json::Value::as_i64`.
#[verifier::external_body]
pub(crate) fn integer(v: &serde_json::Value) -> (r: Option<i64>)
    ensures
        r == json_i64(*v),
{
    v.as_i64()
}

/// `serde_json::Value::as_bool`.
#[verifier::external_body]
pub(crate) fn boolean(v: &serde_json::Value) -> (r: Option<bool>)
    ensures
        r == json_bool(*v),
{
    v.as_bool()
}

/// What a payload field must hold.
#[derive(Debug, Clone, Copy, PartialEq, Eq, Structural)]
pub enum FieldKind {
    /// A string.
    Text,
    /// An integer of 64 signed bits.
    Integer,
    /// An integer of 32 signed bits.
    Integer32,
    /// A boolean.
    Flag,
    /// An array of strings.
    Texts,
    /// An array of price levels: each a two-element array of strings.
    Levels,
    /// Any value at all.
    Present,
}

/// Whether every element of `items` is a string.
pub open spec fn all_strings(items: Seq<serde_json::Value>) -> bool {
    forall|i: int| 0 <= i < items.len() ==> (#[trigger] json_string(items[i])) is Some
}

/// Whether a value is a price level: an array of exactly two strings.
pub open spec fn is_level(v: serde_json::Value) -> bool {
    json_items(v) matches Some(pair) && pair.len() == 2 && json_string(pair[0]) is Some
        && json_string(pair[1]) is Some
}

/// Whether every element of `items` is a price level.
pub open spec fn all_levels(items: Seq<serde_json::Value>) -> bool {
    forall|i: int| 0 <= i < items.len() ==> #[trigger] is_level(items[i])
}

/// Whether a value is of a kind.
pub open spec fn value_conforms(v: serde_json::Value, kind: FieldKind) -> bool {
    match kind {
        FieldKind::Text => json_string(v) is Some,
        FieldKind::Integer => json_i64(v) is Some,
        FieldKind::Integer32 => json_i64(v) matches Some(n) && i32::MIN <= n <= i32::MAX,
        FieldKind::Flag => json_bool(v) is Some,
        FieldKind::Texts => json_items(v) matches Some(a) && all_strings(a),
        FieldKind::Levels => json_items(v) matches Some(a) && all_levels(a),
        FieldKind::Present => true,
    }
}

/// A named field of an object and the kind it must be of.
#[derive(Debug, Clone, Copy)]
pub struct Field {
    pub key: &'static str,
    pub kind: FieldKind,
}

/// Whether object `v` has the field, of the right kind.
pub open spec fn field_conforms(v: serde_json::Value, field: Field) -> bool {
    json_member(v, field.key@) matches Some(m) && value_conforms(m, field.kind)
}

/// The index of the first field of `schema`, from `from` on, that `v` lacks
/// or holds with the wrong kind; `None` where every one conforms.
pub open spec fn first_fault(v: serde_json::Value, schema: Seq<Field>, from: int) -> Option<int>
    decreases schema.len() - from,
{
    if from < 0 || from >= schema.len() {
        None
    } else if !field_conforms(v, schema[from]) {
        Some(from)
    } else {
        first_fault(v, schema, from + 1)
    }
}

/// Where no fault is found from `from` on, every field from there conforms.
pub proof fn lemma_no_fault(v: serde_json::Value, schema: Seq<Field>, from: int, i: int)
    requires
        0 <= from <= i < schema.len(),
        first_fault(v, schema, from) is None,
    ensures
        field_conforms(v, schema[i]),
    decreases schema.len() - from,
{
    if from < i {
        lemma_no_fault(v, schema, from + 1, i);
    }
}

/// The error for a payload that lacks a field or holds it with the wrong kind.
pub open spec fn fault_view(key: Seq<char>) -> ErrorView {
    ErrorView::DeserializationError("missing or invalid field: "@ + key)
}

pub fn fault(key: &str) -> (e: Error)
    ensures
        e@ == fault_view(key@),
{
    Error::DeserializationError(join2("missing or invalid field: ", key))
}

fn check_strings(a: &Vec<serde_json::Value>) -> (r: bool)
    ensures
        r == all_strings(a@),
{
    let mut i: usize = 0;
    while i < a.len()
        invariant
            i <= a.len(),
            forall|j: int| 0 <= j < i ==> (#[trigger] json_string(a@[j])) is Some,
        decreases a.len() - i,
    {
        if string(&a[i]).is_none() {
            return false;
        }
        i = i + 1;
    }
    true
}

fn check_level(v: &serde_json::Value) -> (r: bool)
    ensures
        r == is_level(*v),
{
    match items(v) {
        Some(pair) => pair.len() == 2 && string(&pair[0]).is_some() && string(&pair[1]).is_some(),
        None => false,
    }
}

fn check_levels(a: &Vec<serde_json::Value>) -> (r: bool)
    ensures
        r == all_levels(a@),
{
    let mut i: usize = 0;
    while i < a.len()
        invariant
            i <= a.len(),
            forall|j: int| 0 <= j < i ==> #[trigger] is_level(a@[j]),
        decreases a.len() - i,
    {
        if !check_level(&a[i]) {
            return false;
        }
        i = i + 1;
    }
    true
}

/// Whether `v` is of `kind`.
pub fn check_value(v: &serde_json::Value, kind: FieldKind) -> (r: bool)
    ensures
        r == value_conforms(*v, kind),
{
    match kind {
        FieldKind::Text => string(v).is_some(),
        FieldKind::Integer => integer(v).is_some(),
        FieldKind::Integer32 => match integer(v) {
            Some(n) => -2147483648 <= n && n <= 2147483647,
            None => false,
        },
        FieldKind::Flag => boolean(v).is_some(),
        FieldKind::Texts => match items(v) {
            Some(a) => check_strings(a),
            None => false,
        },
        FieldKind::Levels => match items(v) {
            Some(a) => check_levels(a),
            None => false,
        },
        FieldKind::Present => true,
    }
}

/// Holds object `v` to `schema`: the first field at fault, if any.
pub fn check_schema(v: &serde_json::Value, schema: &Vec<Field>) -> (r: Option<usize>)
    ensures
        r matches Some(i) ==> first_fault(*v, schema@, 0) == Some(i as int) && i < schema.len(),
        r is None ==> first_fault(*v, schema@, 0) is None,
{
    let mut i: usize = 0;
    while i < schema.len()
        invariant
            i <= schema.len(),
            first_fault(*v, schema@, 0) == first_fault(*v, schema@, i as int),
        decreases schema.len() - i,
    {
        let field = schema[i];
        let ok = match member(v, field.key) {
            Some(m) => check_value(m, field.kind),
            None => false,
        };
        if !ok {
            return Some(i);
        }
        i = i + 1;
    }
    None
}

/// The string under `key`, where the object holds one.
pub open spec fn text_of(v: serde_json::Value, key: Seq<char>) -> Seq<char> {
    json_string(json_member(v, key).unwrap()).unwrap()
}

/// The integer under `key`, where the object holds one.
pub open spec fn integer_of(v: serde_json::Value, key: Seq<char>) -> int {
    json_i64(json_member(v, key).unwrap()).unwrap() as int
}

/// The boolean under `key`, where the object holds one.
pub open spec fn flag_of(v: serde_json::Value, key: Seq<char>) -> bool {
    json_bool(json_member(v, key).unwrap()).unwrap()
}

/// The array elements under `key`, where the object holds an array there.
pub open spec fn items_of(v: serde_json::Value, key: Seq<char>) -> Seq<serde_json::Value> {
    json_items(json_member(v, key).unwrap()).unwrap()
}

fn get_text(v: &serde_json::Value, key: &str) -> (r: String)
    requires
        json_member(*v, key@) matches Some(m) && json_string(m) is Some,
    ensures
        r@ == text_of(*v, key@),
{
    match member(v, key) {
        Some(m) => match string(m) {
            Some(s) => s.to_owned(),
            None => String::new(),
        },
        None => String::new(),
    }
}

fn get_integer(v: &serde_json::Value, key: &str) -> (r: i64)
    requires
        json_member(*v, key@) matches Some(m) && json_i64(m) is Some,
    ensures
        r == integer_of(*v, key@),
{
    match member(v, key) {
        Some(m) => match integer(m) {
            Some(n) => n,
            None => 0,
        },
        None => 0,
    }
}

fn get_flag(v: &serde_json::Value, key: &str) -> (r: bool)
    requires
        json_member(*v, key@) matches Some(m) && json_bool(m) is Some,
    ensures
        r == flag_of(*v, key@),
{
    match member(v, key) {
        Some(m) => match boolean(m) {
            Some(b) => b,
            None => false,
        },
        None => false,
    }
}

/// The price levels that an array of two-string arrays spells out.
pub open spec fn levels_of(items: Seq<serde_json::Value>) -> Seq<PriceLevelView> {
    Seq::new(
        items.len(),
        |i: int|
            PriceLevelView {
                price: json_string(json_items(items[i]).unwrap()[0]).unwrap(),
                quantity: json_string(json_items(items[i]).unwrap()[1]).unwrap(),
            },
    )
}

/// The texts that an array of strings spells out.
pub open spec fn texts_of(items: Seq<serde_json::Value>) -> Seq<Seq<char>> {
    Seq::new(items.len(), |i: int| json_string(items[i]).unwrap())
}

fn level_from(v: &serde_json::Value) -> (r: PriceLevel)
    requires
        is_level(*v),
    ensures
        r@.price == json_string(json_items(*v).unwrap()[0]).unwrap(),
        r@.quantity == json_string(json_items(*v).unwrap()[1]).unwrap(),
{
    match items(v) {
        Some(pair) => {
            let price = match string(&pair[0]) {
                Some(s) => s.to_owned(),
                None => String::new(),
            };
            let quantity = match string(&pair[1]) {
                Some(s) => s.to_owned(),
                None => String::new(),
            };
            PriceLevel { price, quantity }
        },
        None => PriceLevel { price: String::new(), quantity: String::new() },
    }
}

/// The price levels of an array that holds nothing else.
pub fn levels_from(a: &Vec<serde_json::Value>) -> (r: Vec<PriceLevel>)
    requires
        all_levels(a@),
    ensures
        levels_view(r@) == levels_of(a@),
{
    let mut r: Vec<PriceLevel> = Vec::new();
    let mut i: usize = 0;
    while i < a.len()
        invariant
            i <= a.len(),
            r.len() == i,
            all_levels(a@),
            forall|j: int| 0 <= j < i ==> (#[trigger] r@[j])@ == levels_of(a@)[j],
        decreases a.len() - i,
    {
        assert(is_level(a@[i as int]));
        let level = level_from(&a[i]);
        r.push(level);
        i = i + 1;
    }
    assert(levels_view(r@) =~= levels_of(a@));
    r
}

/// The texts of an array that holds nothing but strings.
pub fn texts_from(a: &Vec<serde_json::Value>) -> (r: Vec<String>)
    requires
        all_strings(a@),
    ensures
        texts_view(r@) == texts_of(a@),
{
    let mut r: Vec<String> = Vec::new();
    let mut i: usize = 0;
    while i < a.len()
        invariant
            i <= a.len(),
            r.len() == i,
            all_strings(a@),
            forall|j: int| 0 <= j < i ==> (#[trigger] r@[j])@ == texts_of(a@)[j],
        decreases a.len() - i,
    {
        assert(json_string(a@[i as int]) is Some);
        let text = match string(&a[i]) {
            Some(s) => s.to_owned(),
            None => String::new(),
        };
        r.push(text);
        i = i + 1;
    }
    assert(texts_view(r@) =~= texts_of(a@));
    r
}

/// The string of field `index` of a schema that `v` conforms to.
pub fn schema_text(v: &serde_json::Value, schema: &Vec<Field>, index: usize) -> (r: String)
    requires
        first_fault(*v, schema@, 0) is None,
        index < schema.len(),
        schema@[index as int].kind == FieldKind::Text,
    ensures
        r@ == text_of(*v, schema@[index as int].key@),
{
    proof {
        lemma_no_fault(*v, schema@, 0, index as int);
    }
    get_text(v, schema[index].key)
}

/// The integer of field `index` of a schema that `v` conforms to.
pub fn schema_integer(v: &serde_json::Value, schema: &Vec<Field>, index: usize) -> (r: i64)
    requires
        first_fault(*v, schema@, 0) is None,
        index < schema.len(),
        schema@[index as int].kind == FieldKind::Integer || schema@[index as int].kind
            == FieldKind::Integer32,
    ensures
        r == integer_of(*v, schema@[index as int].key@),
        schema@[index as int].kind == FieldKind::Integer32 ==> i32::MIN <= r <= i32::MAX,
{
    proof {
        lemma_no_fault(*v, schema@, 0, index as int);
    }
    get_integer(v, schema[index].key)
}

/// The boolean of field `index` of a schema that `v` conforms to.
pub fn schema_flag(v: &serde_json::Value, schema: &Vec<Field>, index: usize) -> (r: bool)
    requires
        first_fault(*v, schema@, 0) is None,
        index < schema.len(),
        schema@[index as int].kind == FieldKind::Flag,
    ensures
        r == flag_of(*v, schema@[index as int].key@),
{
    proof {
        lemma_no_fault(*v, schema@, 0, index as int);
    }
    get_flag(v, schema[index].key)
}

/// The price levels of field `index` of a schema that `v` conforms to.
pub fn schema_levels(v: &serde_json::Value, schema: &Vec<Field>, index: usize) -> (r: Vec<
    PriceLevel,
>)
    requires
        first_fault(*v, schema@, 0) is None,
        index < schema.len(),
        schema@[index as int].kind == FieldKind::Levels,
    ensures
        levels_view(r@) == levels_of(items_of(*v, schema@[index as int].key@)),
{
    proof {
        lemma_no_fault(*v, schema@, 0, index as int);
    }
    match member(v, schema[index].key) {
        Some(m) => match items(m) {
            Some(a) => levels_from(a),
            None => Vec::new(),
        },
        None => Vec::new(),
    }
}

/// The texts of field `index` of a schema that `v` conforms to.
pub fn schema_texts(v: &serde_json::Value, schema: &Vec<Field>, index: usize) -> (r: Vec<String>)
    requires
        first_fault(*v, schema@, 0) is None,
        index < schema.len(),
        schema@[index as int].kind == FieldKind::Texts,
    ensures
        texts_view(r@) == texts_of(items_of(*v, schema@[index as int].key@)),
{
    proof {
        lemma_no_fault(*v, schema@, 0, index as int);
    }
    match member(v, schema[index].key) {
        Some(m) => match items(m) {
            Some(a) => texts_from(a),
            None => Vec::new(),
        },
        None => Vec::new(),
    }
}

} // verus!
