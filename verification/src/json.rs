//! JSON documents, read and built through `serde_json`.
//!
//! A document is a `serde_json::Value`. Verus sees nothing inside one, so the
//! contracts speak of its model, a `Json` tree. Every function in this file that
//! touches a `Value` is a thin call into `serde_json` whose contract is believed,
//! not proved: it says over the model what the crate's source shows of the call.

use vstd::prelude::*;

verus! {

/// Makes `serde_json::Value` known as a type whose inside is not looked at.
#[verifier::external_type_specification]
#[verifier::external_body]
pub struct ExValue(serde_json::Value);

/// A JSON number: a non-negative integer that fits 64 bits, or anything else,
/// held as the digits it is printed with.
pub enum JsonNumber {
    Unsigned(u64),
    Other(Seq<char>),
}

/// The content of a JSON document.
pub enum Json {
    Null,
    Bool(bool),
    Number(JsonNumber),
    Text(Seq<char>),
    Array(Seq<Json>),
    Object(Map<Seq<char>, Json>),
}

impl Json {
    /// The member `key` of an object; `None` for a missing key and for anything
    /// that is no object.
    pub open spec fn member(self, key: Seq<char>) -> Option<Json> {
        match self {
            Json::Object(members) => if members.contains_key(key) {
                Some(members[key])
            } else {
                None
            },
            _ => None,
        }
    }

    /// The characters of a string.
    pub open spec fn text(self) -> Option<Seq<char>> {
        match self {
            Json::Text(s) => Some(s),
            _ => None,
        }
    }

    /// The value of a non-negative integer that fits 64 bits.
    pub open spec fn unsigned(self) -> Option<u64> {
        match self {
            Json::Number(JsonNumber::Unsigned(n)) => Some(n),
            _ => None,
        }
    }

    /// The value of `true` or `false`.
    pub open spec fn boolean(self) -> Option<bool> {
        match self {
            Json::Bool(b) => Some(b),
            _ => None,
        }
    }

    /// The elements of an array.
    pub open spec fn items(self) -> Option<Seq<Json>> {
        match self {
            Json::Array(items) => Some(items),
            _ => None,
        }
    }

    /// The texts of an array whose elements are all strings.
    pub open spec fn texts(self) -> Option<Seq<Seq<char>>> {
        match self {
            Json::Array(items) => if forall|i: int| 0 <= i < items.len() ==> items[i] is Text {
                Some(Seq::new(items.len(), |i: int| items[i]->Text_0))
            } else {
                None
            },
            _ => None,
        }
    }

    /// The characters of the string under `key`.
    pub open spec fn text_at(self, key: Seq<char>) -> Option<Seq<char>> {
        match self.member(key) {
            Some(child) => child.text(),
            None => None,
        }
    }

    /// The value of the number under `key`.
    pub open spec fn unsigned_at(self, key: Seq<char>) -> Option<u64> {
        match self.member(key) {
            Some(child) => child.unsigned(),
            None => None,
        }
    }

    /// The value of the boolean under `key`.
    pub open spec fn boolean_at(self, key: Seq<char>) -> Option<bool> {
        match self.member(key) {
            Some(child) => child.boolean(),
            None => None,
        }
    }

    /// The texts of the array of strings under `key`.
    pub open spec fn texts_at(self, key: Seq<char>) -> Option<Seq<Seq<char>>> {
        match self.member(key) {
            Some(child) => child.texts(),
            None => None,
        }
    }
}

/// The content of a document.
pub uninterp spec fn json_model(v: serde_json::Value) -> Json;

/// What `serde_json` reads out of a text: the document's content, or `None` where
/// it refuses the text.
pub uninterp spec fn json_parse(text: Seq<char>) -> Option<Json>;

/// The indented text that `serde_json` prints for a document, or `None` where it
/// reports a failure.
pub uninterp spec fn json_pretty(doc: Json) -> Option<Seq<char>>;

/// The models of a run of documents.
pub open spec fn json_models(items: Seq<serde_json::Value>) -> Seq<Json> {
    Seq::new(items.len(), |i: int| json_model(items[i]))
}

/// Calls `serde_json::from_str` for a `Value` and drops the error's detail. The
/// result is named by `json_parse`; nothing is claimed of which texts are accepted.
#[verifier::external_body]
pub(crate) fn parse(text: &str) -> (r: Option<serde_json::Value>)
    ensures
        match r {
            Some(v) => json_parse(text@) == Some(json_model(v)),
            None => json_parse(text@) is None,
        },
{
    serde_json::from_str::<serde_json::Value>(text).ok()
}

/// Calls `serde_json::to_string_pretty`. The result is named by `json_pretty`.
#[verifier::external_body]
pub(crate) fn pretty(v: &serde_json::Value) -> (r: Option<String>)
    ensures
        match r {
            Some(s) => json_pretty(json_model(*v)) == Some(s@),
            None => json_pretty(json_model(*v)) is None,
        },
{
    serde_json::to_string_pretty(v).ok()
}

/// Calls `Value::get` with a text key: the member of an object under that key,
/// `None` where the key is missing or the value is no object.
#[verifier::external_body]
pub(crate) fn member<'a>(v: &'a serde_json::Value, key: &str) -> (r: Option<&'a serde_json::Value>)
    ensures
        match r {
            Some(child) => json_model(*v).member(key@) == Some(json_model(*child)),
            None => json_model(*v).member(key@) is None,
        },
{
    v.get(key)
}

/// Calls `Value::as_array`: the elements of an array, `None` for anything else.
#[verifier::external_body]
pub(crate) fn elements<'a>(v: &'a serde_json::Value) -> (r: Option<&'a Vec<serde_json::Value>>)
    ensures
        match r {
            Some(items) => json_model(*v).items() == Some(json_models(items@)),
            None => json_model(*v).items() is None,
        },
{
    v.as_array()
}

/// Calls `Value::as_str`: the characters of a string, `None` for anything else.
#[verifier::external_body]
pub(crate) fn as_text<'a>(v: &'a serde_json::Value) -> (r: Option<&'a str>)
    ensures
        match r {
            Some(s) => json_model(*v).text() == Some(s@),
            None => json_model(*v).text() is None,
        },
{
    v.as_str()
}

/// Calls `Value::as_u64`: the value of a non-negative integer that fits 64 bits,
/// `None` for any other number and for anything that is no number.
#[verifier::external_body]
pub(crate) fn as_unsigned(v: &serde_json::Value) -> (r: Option<u64>)
    ensures
        r == json_model(*v).unsigned(),
{
    v.as_u64()
}

/// Calls `Value::as_bool`: the value of `true` or `false`, `None` for anything else.
#[verifier::external_body]
pub(crate) fn as_boolean(v: &serde_json::Value) -> (r: Option<bool>)
    ensures
        r == json_model(*v).boolean(),
{
    v.as_bool()
}

/// Calls `Value::is_null`.
#[verifier::external_body]
pub(crate) fn is_null(v: &serde_json::Value) -> (r: bool)
    ensures
        r == (json_model(*v) is Null),
{
    v.is_null()
}

/// Calls `Value::from` on a text: the string with those characters.
#[verifier::external_body]
pub(crate) fn text_value(s: &str) -> (r: serde_json::Value)
    ensures
        json_model(r) == Json::Text(s@),
{
    serde_json::Value::from(s)
}

/// Calls `Value::from` on a `u64`: the number with that value.
#[verifier::external_body]
pub(crate) fn unsigned_value(n: u64) -> (r: serde_json::Value)
    ensures
        json_model(r) == Json::Number(JsonNumber::Unsigned(n)),
{
    serde_json::Value::from(n)
}

/// Calls `Value::from` on a vector of documents: the array of them, in order.
#[verifier::external_body]
pub(crate) fn array_value(items: Vec<serde_json::Value>) -> (r: serde_json::Value)
    ensures
        json_model(r) == Json::Array(json_models(items@)),
{
    serde_json::Value::from(items)
}

/// Wraps `serde_json::Map::new` in `Value::Object`: the object without members.
#[verifier::external_body]
pub(crate) fn object_value() -> (r: serde_json::Value)
    ensures
        json_model(r) == Json::Object(Map::<Seq<char>, Json>::empty()),
{
    serde_json::Value::Object(serde_json::Map::new())
}

/// Calls `Map::insert` on the members of an object: `key` then holds `child`,
/// whether or not the key was there before, and no other member changes.
#[verifier::external_body]
pub(crate) fn set_member(obj: &mut serde_json::Value, key: &str, child: serde_json::Value)
    requires
        json_model(*old(obj)) is Object,
    ensures
        json_model(*final(obj)) == Json::Object(
            json_model(*old(obj))->Object_0.insert(key@, json_model(child)),
        ),
{
    if let Some(members) = obj.as_object_mut() {
        members.insert(key.to_string(), child);
    }
}

/// The string under `key` of an object.
pub fn text_member(doc: &serde_json::Value, key: &str) -> (r: Option<String>)
    ensures
        r.deep_view() == json_model(*doc).text_at(key@),
{
    match member(doc, key) {
        Some(child) => match as_text(child) {
            Some(s) => Some(String::from_str(s)),
            None => None,
        },
        None => None,
    }
}

/// The non-negative integer under `key` of an object.
pub fn unsigned_member(doc: &serde_json::Value, key: &str) -> (r: Option<u64>)
    ensures
        r == json_model(*doc).unsigned_at(key@),
{
    match member(doc, key) {
        Some(child) => as_unsigned(child),
        None => None,
    }
}

/// The boolean under `key` of an object.
pub fn boolean_member(doc: &serde_json::Value, key: &str) -> (r: Option<bool>)
    ensures
        r == json_model(*doc).boolean_at(key@),
{
    match member(doc, key) {
        Some(child) => as_boolean(child),
        None => None,
    }
}

/// The strings of an array, if every element is a string.
pub fn texts_of(doc: &serde_json::Value) -> (r: Option<Vec<String>>)
    ensures
        r.deep_view() == json_model(*doc).texts(),
{
    match elements(doc) {
        None => None,
        Some(items) => {
            let ghost models = json_models(items@);
            let mut out: Vec<String> = Vec::new();
            let mut i: usize = 0;
            while i < items.len()
                invariant
                    i <= items.len(),
                    models == json_models(items@),
                    json_model(*doc).items() == Some(models),
                    out.len() == i,
                    forall|k: int| 0 <= k < i ==> models[k] is Text,
                    forall|k: int| 0 <= k < i ==> out[k]@ == models[k]->Text_0,
                decreases items.len() - i,
            {
                match as_text(&items[i]) {
                    Some(s) => {
                        out.push(String::from_str(s));
                    },
                    None => {
                        assert(models[i as int] == json_model(items@[i as int]));
                        assert(!(json_model(*doc)->Array_0[i as int] is Text));
                        return None;
                    },
                }
                assert(models[i as int] == json_model(items@[i as int]));
                i += 1;
            }
            assert(out.deep_view() =~= json_model(*doc).texts()->Some_0);
            Some(out)
        },
    }
}

/// The array of strings under `key` of an object.
pub fn texts_member(doc: &serde_json::Value, key: &str) -> (r: Option<Vec<String>>)
    ensures
        r.deep_view() == json_model(*doc).texts_at(key@),
{
    match member(doc, key) {
        Some(child) => texts_of(child),
        None => None,
    }
}

/// The array that holds `items` as strings, in order.
pub fn texts_value(items: &Vec<String>) -> (r: serde_json::Value)
    ensures
        json_model(r).texts() == Some(items.deep_view()),
        json_model(r) == text_array(items.deep_view()),
{
    let mut docs: Vec<serde_json::Value> = Vec::new();
    let mut i: usize = 0;
    while i < items.len()
        invariant
            i <= items.len(),
            docs.len() == i,
            forall|k: int| 0 <= k < i ==> json_model(docs[k]) == Json::Text(items[k]@),
        decreases items.len() - i,
    {
        docs.push(text_value(items[i].as_str()));
        i += 1;
    }
    let r = array_value(docs);
    proof {
        assert(json_models(docs@) =~= text_array(items.deep_view())->Array_0);
        assert(json_model(r).texts()->Some_0 =~= items.deep_view());
    }
    r
}

/// The array whose elements are the strings `texts`, in order.
pub open spec fn text_array(texts: Seq<Seq<char>>) -> Json {
    Json::Array(Seq::new(texts.len(), |i: int| Json::Text(texts[i])))
}

} // verus!
