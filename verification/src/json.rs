//! JSON documents as Spotify's responses carry them: parsing a body, and
//! reading fields, strings and integers out of the parsed value.
use vstd::prelude::*;
use crate::player::{JsonText, TextView};
use crate::text::{chars_eq, chars_of};

verus! {

/// A parsed JSON value. A number keeps only what the client reads of it: its
/// value when it is a non-negative integer that fits in a `u64`. An object
/// keeps its entries in the parser's order.
pub enum Json {
    Null,
    Bool(bool),
    Number(Option<u64>),
    Text(String),
    Array(Vec<Json>),
    Object(Vec<(String, Json)>),
}

/// The value of a [`Json`].
pub enum JsonView {
    Null,
    Bool(bool),
    Number(Option<u64>),
    Text(Seq<char>),
    Array(Seq<JsonView>),
    Object(Seq<(Seq<char>, JsonView)>),
}

/// The value of a parsed JSON document.
pub open spec fn json_view(j: Json) -> JsonView
    decreases j,
{
    match j {
        Json::Null => JsonView::Null,
        Json::Bool(b) => JsonView::Bool(b),
        Json::Number(n) => JsonView::Number(n),
        Json::Text(s) => JsonView::Text(s@),
        Json::Array(items) => JsonView::Array(item_views(items@)),
        Json::Object(entries) => JsonView::Object(entry_views(entries@)),
    }
}

/// The values of the items of an array, in order.
pub open spec fn item_views(s: Seq<Json>) -> Seq<JsonView>
    decreases s,
{
    if s.len() == 0 {
        Seq::empty()
    } else {
        item_views(s.drop_last()).push(json_view(s.last()))
    }
}

/// The values of the entries of an object, in order.
pub open spec fn entry_views(s: Seq<(String, Json)>) -> Seq<(Seq<char>, JsonView)>
    decreases s,
{
    if s.len() == 0 {
        Seq::empty()
    } else {
        entry_views(s.drop_last()).push((s.last().0@, json_view(s.last().1)))
    }
}

pub proof fn lemma_item_views(s: Seq<Json>)
    ensures
        item_views(s).len() == s.len(),
        forall|j: int| 0 <= j < s.len() ==> #[trigger] item_views(s)[j] == json_view(s[j]),
    decreases s.len(),
{
    if s.len() > 0 {
        lemma_item_views(s.drop_last());
    }
}

pub proof fn lemma_entry_views(s: Seq<(String, Json)>)
    ensures
        entry_views(s).len() == s.len(),
        forall|j: int| 0 <= j < s.len() ==> #[trigger] entry_views(s)[j] == (s[j].0@, json_view(s[j].1)),
    decreases s.len(),
{
    if s.len() > 0 {
        lemma_entry_views(s.drop_last());
    }
}

/// The value of an optional reference to a JSON value.
pub open spec fn opt_json(o: Option<&Json>) -> Option<JsonView> {
    match o {
        Some(j) => Some(json_view(*j)),
        None => None,
    }
}

/// What `serde_json::from_slice` makes of a body as a `serde_json::Value`,
/// read as a [`JsonView`], or the text of its error.
pub uninterp spec fn json_parsed(body: Seq<u8>) -> Result<JsonView, Seq<char>>;

#[verifier::external_type_specification]
#[verifier::external_body]
pub struct ExJsonValue(serde_json::Value);

/// Turns a `serde_json::Value` into a [`Json`], variant by variant; a number
/// through `Number::as_u64`, an object's entries in the map's order.
#[verifier::external_body]
fn json_of(v: &serde_json::Value) -> Json {
    match v {
        serde_json::Value::Null => Json::Null,
        serde_json::Value::Bool(b) => Json::Bool(*b),
        serde_json::Value::Number(n) => Json::Number(n.as_u64()),
        serde_json::Value::String(s) => Json::Text(s.clone()),
        serde_json::Value::Array(items) => Json::Array(items.iter().map(json_of).collect()),
        serde_json::Value::Object(map) => Json::Object(map.iter().map(|(k, x)| (k.clone(), json_of(x))).collect()),
    }
}

/// `serde_json::from_slice::<serde_json::Value>`, its error as text (its
/// `Display`); named by [`json_parsed`].
#[verifier::external_body]
fn parse_json(body: &[u8]) -> (r: Result<Json, String>)
    ensures
        match r {
            Ok(j) => json_parsed(body@) == Ok::<JsonView, Seq<char>>(json_view(j)),
            Err(e) => json_parsed(body@) == Err::<JsonView, Seq<char>>(e@),
        },
{
    match serde_json::from_slice::<serde_json::Value>(body) {
        Ok(v) => Ok(json_of(&v)),
        Err(e) => Err(e.to_string()),
    }
}

/// Parses a response body as JSON.
pub fn parse_body(body: &[u8]) -> (r: Result<Json, String>)
    ensures
        match r {
            Ok(j) => json_parsed(body@) == Ok::<JsonView, Seq<char>>(json_view(j)),
            Err(e) => json_parsed(body@) == Err::<JsonView, Seq<char>>(e@),
        },
{
    parse_json(body)
}

/// A Web API response body as JSON: `null` when the body is empty (a `204`
/// answer), else what parsing gives.
pub open spec fn body_json(body: Seq<u8>) -> Result<JsonView, Seq<char>> {
    if body.len() == 0 {
        Ok(JsonView::Null)
    } else {
        json_parsed(body)
    }
}

/// Reads a Web API response body as JSON, an empty body as `null`.
pub fn api_body(body: &[u8]) -> (r: Result<Json, String>)
    ensures
        match r {
            Ok(j) => body_json(body@) == Ok::<JsonView, Seq<char>>(json_view(j)),
            Err(e) => body_json(body@) == Err::<JsonView, Seq<char>>(e@),
        },
{
    if body.len() == 0 {
        Ok(Json::Null)
    } else {
        parse_json(body)
    }
}

/// The value of the last entry of `entries` under `key`.
pub open spec fn lookup(entries: Seq<(Seq<char>, JsonView)>, key: Seq<char>) -> Option<JsonView>
    decreases entries.len(),
{
    if entries.len() == 0 {
        None
    } else if entries.last().0 == key {
        Some(entries.last().1)
    } else {
        lookup(entries.drop_last(), key)
    }
}

/// The field `key` of an object (`None` for anything else).
pub open spec fn field(v: Option<JsonView>, key: Seq<char>) -> Option<JsonView> {
    match v {
        Some(JsonView::Object(entries)) => lookup(entries, key),
        _ => None,
    }
}

/// A value read where a string is expected.
pub open spec fn text_at(v: Option<JsonView>) -> TextView {
    match v {
        None => TextView::Missing,
        Some(JsonView::Text(s)) => TextView::Text(s),
        Some(_) => TextView::Other,
    }
}

/// A value read where a non-negative integer is expected.
pub open spec fn u64_at(v: Option<JsonView>) -> Option<u64> {
    match v {
        Some(JsonView::Number(n)) => n,
        _ => None,
    }
}

/// The field `key` of `v` when `v` is an object that has it.
pub fn json_field<'a>(v: Option<&'a Json>, key: &str) -> (r: Option<&'a Json>)
    ensures
        opt_json(r) == field(opt_json(v), key@),
{
    match v {
        Some(Json::Object(entries)) => {
            let ghost view_entries = entry_views(entries@);
            proof {
                lemma_entry_views(entries@);
                assert(view_entries.subrange(0, entries.len() as int) =~= view_entries);
                assert(opt_json(v) == Some(JsonView::Object(view_entries)));
            }
            let k = chars_of(key);
            let mut i: usize = entries.len();
            while i > 0
                invariant
                    i <= entries.len(),
                    k@ == key@,
                    opt_json(v) == Some(JsonView::Object(view_entries)),
                    view_entries == entry_views(entries@),
                    view_entries.len() == entries@.len(),
                    forall|j: int| 0 <= j < entries@.len() ==> #[trigger] view_entries[j] == (entries@[j].0@, json_view(entries@[j].1)),
                    lookup(view_entries, key@) == lookup(view_entries.subrange(0, i as int), key@),
                decreases i,
            {
                let ghost sub = view_entries.subrange(0, i as int);
                assert(sub.drop_last() =~= view_entries.subrange(0, i - 1));
                assert(sub.last() == view_entries[i - 1]);
                if chars_eq(&k, entries[i - 1].0.as_str()) {
                    assert(view_entries[i - 1] == (entries@[i - 1].0@, json_view(entries@[i - 1].1)));
                    assert(lookup(sub, key@) == Some(json_view(entries@[i - 1].1)));
                    return Some(&entries[i - 1].1);
                }
                i = i - 1;
            }
            None
        },
        _ => None,
    }
}

/// A value read where a string is expected.
pub fn json_text(v: Option<&Json>) -> (r: JsonText)
    ensures
        r@ == text_at(opt_json(v)),
{
    match v {
        None => JsonText::Missing,
        Some(Json::Text(s)) => JsonText::Text(s.clone()),
        Some(_) => JsonText::Other,
    }
}

/// A value read where a non-negative integer is expected.
pub fn json_u64(v: Option<&Json>) -> (r: Option<u64>)
    ensures
        r == u64_at(opt_json(v)),
{
    match v {
        Some(Json::Number(n)) => *n,
        _ => None,
    }
}

} // verus!
