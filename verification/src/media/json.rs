//! JSON documents as plain values.

use std::time::Duration;

use vstd::prelude::*;

use crate::text;
use crate::text::same_text;

verus! {

/// A JSON document, as the contracts speak of it. Of a number only the span of
/// time matters that it stands for in seconds, if it stands for one.
pub enum JsonView {
    Null,
    Bool(bool),
    Number(Option<Duration>),
    Text(Seq<char>),
    Array(Seq<JsonView>),
    Object(Seq<(Seq<char>, JsonView)>),
}

/// The value of the first entry with a key.
pub open spec fn entry_of(entries: Seq<(Seq<char>, JsonView)>, key: Seq<char>) -> Option<JsonView>
    decreases entries.len(),
{
    if entries.len() == 0 {
        None
    } else if entries[0].0 == key {
        Some(entries[0].1)
    } else {
        entry_of(entries.drop_first(), key)
    }
}

impl JsonView {
    /// The field `key` of an object.
    pub open spec fn get(self, key: Seq<char>) -> Option<JsonView> {
        match self {
            JsonView::Object(entries) => entry_of(entries, key),
            _ => None,
        }
    }

    /// The field `key` of an object, if it is a string.
    pub open spec fn get_text(self, key: Seq<char>) -> Option<Seq<char>> {
        match self.get(key) {
            Some(JsonView::Text(text)) => Some(text),
            _ => None,
        }
    }
}

/// A JSON document.
#[derive(Debug)]
pub enum Json {
    Null,
    Bool(bool),
    Number(Option<Duration>),
    Text(String),
    Array(Vec<Json>),
    Object(Vec<(String, Json)>),
}

impl Json {
    /// The document that a value stands for.
    pub open spec fn document(self) -> JsonView
        decreases self,
    {
        match self {
            Json::Null => JsonView::Null,
            Json::Bool(value) => JsonView::Bool(value),
            Json::Number(span) => JsonView::Number(span),
            Json::Text(text) => JsonView::Text(text@),
            Json::Array(items) => JsonView::Array(
                Seq::new(
                    items@.len(),
                    |i: int|
                        if 0 <= i < items@.len() {
                            items@[i].document()
                        } else {
                            JsonView::Null
                        },
                ),
            ),
            Json::Object(entries) => JsonView::Object(
                Seq::new(
                    entries@.len(),
                    |i: int|
                        if 0 <= i < entries@.len() {
                            (entries@[i].0@, entries@[i].1.document())
                        } else {
                            (Seq::empty(), JsonView::Null)
                        },
                ),
            ),
        }
    }
}

/// A JSON value of `serde_json`.
#[verifier::external_type_specification]
#[verifier::external_body]
pub struct ExValue(serde_json::Value);

/// A JSON number of `serde_json`.
#[verifier::external_type_specification]
#[verifier::external_body]
pub struct ExNumber(serde_json::Number);

/// Why `serde_json` refused a text.
#[verifier::external_type_specification]
#[verifier::external_body]
pub struct ExError(serde_json::Error);

/// The document that `serde_json::from_slice` reads from a text, or the words
/// in which it says why it reads none.
pub uninterp spec fn json_outcome(bytes: Seq<u8>) -> Result<JsonView, Seq<char>>;

/// The document that a text holds, if it holds one.
pub open spec fn json_text(bytes: Seq<u8>) -> Option<JsonView> {
    match json_outcome(bytes) {
        Ok(document) => Some(document),
        Err(_) => None,
    }
}

/// The document that a `serde_json::Value` holds.
pub uninterp spec fn json_contents(value: serde_json::Value) -> JsonView;

/// The span of time that a `serde_json::Number` stands for in seconds.
pub uninterp spec fn number_seconds(number: serde_json::Number) -> Option<Duration>;

/// The text that `serde_json::Error`'s `Display` gives.
pub uninterp spec fn json_fault(error: serde_json::Error) -> Seq<char>;

/// `serde_json::Error`'s `Display`: why a text is no JSON, and where. Its
/// wording is left unsaid.
#[verifier::external_body]
pub(crate) fn error_text(error: &serde_json::Error) -> (text: String)
    ensures
        text@ == json_fault(*error),
{
    format!("{error}")
}

/// `serde_json::from_slice` into a `serde_json::Value`: reads a JSON text, or
/// says why it is none. What it reads, and in which words it refuses, is a
/// matter of the text alone.
#[verifier::external_body]
fn read_value(bytes: &[u8]) -> (result: Result<serde_json::Value, serde_json::Error>)
    ensures
        match result {
            Ok(value) => json_outcome(bytes@) == Ok::<JsonView, Seq<char>>(json_contents(value)),
            Err(error) => json_outcome(bytes@) == Err::<JsonView, Seq<char>>(json_fault(error)),
        },
{
    serde_json::from_slice(bytes)
}

/// `serde_json::Number::as_f64`, handed on to `Duration::try_from_secs_f64`:
/// the span of time that a number stands for in seconds, or nothing where it
/// is negative or too large.
#[verifier::external_body]
fn seconds_of(number: serde_json::Number) -> (span: Option<Duration>)
    ensures
        span == number_seconds(number),
{
    number.as_f64().and_then(|seconds| Duration::try_from_secs_f64(seconds).ok())
}

/// One level of a JSON document.
enum Node {
    Null,
    Bool(bool),
    Number(serde_json::Number),
    Text(String),
    Array(Vec<serde_json::Value>),
    Object(Vec<(String, serde_json::Value)>),
}

/// Tells the variants of `serde_json::Value` apart and hands out what they
/// hold. The entries of an object come in the order of its map.
#[verifier::external_body]
fn node_of(value: serde_json::Value) -> (node: Node)
    ensures
        json_contents(value) == match node {
            Node::Null => JsonView::Null,
            Node::Bool(value) => JsonView::Bool(value),
            Node::Number(number) => JsonView::Number(number_seconds(number)),
            Node::Text(text) => JsonView::Text(text@),
            Node::Array(items) => JsonView::Array(
                items@.map_values(|item: serde_json::Value| json_contents(item)),
            ),
            Node::Object(entries) => JsonView::Object(
                entries@.map_values(
                    |entry: (String, serde_json::Value)| (entry.0@, json_contents(entry.1)),
                ),
            ),
        },
{
    match value {
        serde_json::Value::Null => Node::Null,
        serde_json::Value::Bool(value) => Node::Bool(value),
        serde_json::Value::Number(number) => Node::Number(number),
        serde_json::Value::String(text) => Node::Text(text),
        serde_json::Value::Array(items) => Node::Array(items),
        serde_json::Value::Object(entries) => Node::Object(entries.into_iter().collect()),
    }
}

/// Reads a JSON text.
pub fn parse_json(bytes: &[u8]) -> (result: Result<Json, serde_json::Error>)
    ensures
        match result {
            Ok(json) => json_outcome(bytes@) == Ok::<JsonView, Seq<char>>(json.document()),
            Err(error) => json_outcome(bytes@) == Err::<JsonView, Seq<char>>(json_fault(error)),
        },
{
    match read_value(bytes) {
        Ok(value) => Ok(json_of(value)),
        Err(error) => Err(error),
    }
}

fn json_of(value: serde_json::Value) -> (json: Json)
    ensures
        json.document() == json_contents(value),
    decreases json_contents(value),
{
    match node_of(value) {
        Node::Null => Json::Null,
        Node::Bool(value) => Json::Bool(value),
        Node::Number(number) => Json::Number(seconds_of(number)),
        Node::Text(text) => Json::Text(text),
        Node::Array(items) => {
            let ghost all = items@;
            let ghost contents = json_contents(value)->Array_0;
            let mut items: Vec<serde_json::Value> = items;
            let mut reversed: Vec<Json> = Vec::new();
            while items.len() > 0
                invariant
                    items@.len() + reversed@.len() == all.len(),
                    items@ == all.take(items@.len() as int),
                    json_contents(value) == JsonView::Array(contents),
                    contents == all.map_values(|item: serde_json::Value| json_contents(item)),
                    forall|i: int|
                        0 <= i < reversed@.len() ==> (#[trigger] reversed@[i]).document()
                            == contents[all.len() - 1 - i],
                decreases items@.len(),
            {
                let ghost at = items@.len() - 1;
                if let Some(item) = items.pop() {
                    assert(json_contents(item) == contents[at]);
                    assert(decreases_to!(json_contents(value) => json_contents(value)->Array_0));
                    assert(decreases_to!(contents => contents[at]));
                    reversed.push(json_of(item));
                }
            }
            let mut out: Vec<Json> = Vec::new();
            let ghost turned = reversed@;
            while reversed.len() > 0
                invariant
                    turned.len() == all.len() == contents.len(),
                    reversed@ == turned.take(reversed@.len() as int),
                    out@.len() + reversed@.len() == turned.len(),
                    forall|i: int|
                        0 <= i < turned.len() ==> (#[trigger] turned[i]).document()
                            == contents[all.len() - 1 - i],
                    forall|i: int|
                        0 <= i < out@.len() ==> (#[trigger] out@[i]).document() == contents[i],
                decreases reversed@.len(),
            {
                if let Some(item) = reversed.pop() {
                    out.push(item);
                }
            }
            let json: Json = Json::Array(out);
            assert(json.document()->Array_0 =~= contents);
            json
        },
        Node::Object(entries) => {
            let ghost all = entries@;
            let ghost contents = json_contents(value)->Object_0;
            let mut entries: Vec<(String, serde_json::Value)> = entries;
            let mut reversed: Vec<(String, Json)> = Vec::new();
            while entries.len() > 0
                invariant
                    entries@.len() + reversed@.len() == all.len(),
                    entries@ == all.take(entries@.len() as int),
                    json_contents(value) == JsonView::Object(contents),
                    contents == all.map_values(
                        |entry: (String, serde_json::Value)| (entry.0@, json_contents(entry.1)),
                    ),
                    forall|i: int|
                        0 <= i < reversed@.len() ==> (
                            (#[trigger] reversed@[i]).0@,
                            reversed@[i].1.document(),
                        ) == contents[all.len() - 1 - i],
                decreases entries@.len(),
            {
                let ghost at = entries@.len() - 1;
                if let Some((key, item)) = entries.pop() {
                    assert(json_contents(item) == contents[at].1);
                    assert(decreases_to!(json_contents(value) => json_contents(value)->Object_0));
                    assert(decreases_to!(contents => contents[at]));
                    assert(decreases_to!(contents[at] => contents[at].1));
                    reversed.push((key, json_of(item)));
                }
            }
            let mut out: Vec<(String, Json)> = Vec::new();
            let ghost turned = reversed@;
            while reversed.len() > 0
                invariant
                    turned.len() == all.len() == contents.len(),
                    reversed@ == turned.take(reversed@.len() as int),
                    out@.len() + reversed@.len() == turned.len(),
                    forall|i: int|
                        0 <= i < turned.len() ==> (
                            (#[trigger] turned[i]).0@,
                            turned[i].1.document(),
                        ) == contents[all.len() - 1 - i],
                    forall|i: int|
                        0 <= i < out@.len() ==> ((#[trigger] out@[i]).0@, out@[i].1.document())
                            == contents[i],
                decreases reversed@.len(),
            {
                if let Some(entry) = reversed.pop() {
                    out.push(entry);
                }
            }
            let json: Json = Json::Object(out);
            assert(json.document()->Object_0 =~= contents);
            json
        },
    }
}

impl Json {
    /// The field `key` of an object.
    pub fn get(&self, key: &str) -> (field: Option<&Json>)
        ensures
            match field {
                Some(value) => self.document().get(key@) == Some(value.document()),
                None => self.document().get(key@) is None,
            },
    {
        match self {
            Json::Object(entries) => {
                let ghost all = self.document()->Object_0;
                let mut i: usize = 0;
                assert(all.skip(0) =~= all);
                while i < entries.len()
                    invariant
                        i <= entries@.len() == all.len(),
                        self.document() == JsonView::Object(all),
                        forall|j: int|
                            0 <= j < all.len() ==> #[trigger] all[j] == (
                                entries@[j].0@,
                                entries@[j].1.document(),
                            ),
                        entry_of(all, key@) == entry_of(all.skip(i as int), key@),
                    decreases entries@.len() - i,
                {
                    assert(all.skip(i as int)[0] == all[i as int]);
                    assert(all.skip(i as int).drop_first() =~= all.skip(i + 1));
                    if same_text(entries[i].0.as_str(), key) {
                        return Some(&entries[i].1);
                    }
                    i += 1;
                }
                None
            },
            _ => None,
        }
    }

    /// The field `key` of an object, if it is a string.
    pub fn get_text(&self, key: &str) -> (text: Option<&str>)
        ensures
            match text {
                Some(text) => self.document().get_text(key@) == Some(text@),
                None => self.document().get_text(key@) is None,
            },
    {
        match self.get(key) {
            Some(Json::Text(text)) => Some(text.as_str()),
            _ => None,
        }
    }
}

} // verus!
