//! JSON documents received from workers. Parsing and lookup are serde_json's;
//! what the library reads out of a document is a `JsonLeaf` of plain values.
use vstd::prelude::*;

verus! {

#[verifier::external_type_specification]
#[verifier::external_body]
pub struct ExJsonValue(serde_json::Value);

/// What serde_json accepts as a JSON text (`serde_json::from_str::<Value>` is `Ok`).
pub uninterp spec fn json_text_accepted(text: Seq<char>) -> bool;

/// The value that the JSON pointer `pointer` addresses in the JSON text `text`,
/// as `serde_json::Value::pointer` finds it.
pub uninterp spec fn json_pointer_leaf(text: Seq<char>, pointer: Seq<char>) -> JsonLeafView;

/// A parsed JSON document. Its view is the text it was parsed from.
pub struct JsonDoc {
    value: serde_json::Value,
    text: Ghost<Seq<char>>,
}

impl View for JsonDoc {
    type V = Seq<char>;

    closed spec fn view(&self) -> Seq<char> {
        self.text@
    }
}

/// What stands at one place of a JSON document.
pub enum JsonLeaf {
    /// Nothing stands there.
    Missing,
    Null,
    Bool(bool),
    Str(String),
    /// A number that fits in a `u64`.
    UInt(u64),
    /// A negative or fractional number, or one too large for a `u64`.
    OtherNumber,
    Array,
    Object,
}

pub enum JsonLeafView {
    Missing,
    Null,
    Bool(bool),
    Str(Seq<char>),
    UInt(u64),
    OtherNumber,
    Array,
    Object,
}

impl View for JsonLeaf {
    type V = JsonLeafView;

    open spec fn view(&self) -> JsonLeafView {
        match self {
            JsonLeaf::Missing => JsonLeafView::Missing,
            JsonLeaf::Null => JsonLeafView::Null,
            JsonLeaf::Bool(b) => JsonLeafView::Bool(*b),
            JsonLeaf::Str(s) => JsonLeafView::Str(s@),
            JsonLeaf::UInt(u) => JsonLeafView::UInt(*u),
            JsonLeaf::OtherNumber => JsonLeafView::OtherNumber,
            JsonLeaf::Array => JsonLeafView::Array,
            JsonLeaf::Object => JsonLeafView::Object,
        }
    }
}

/// Parses `text` as JSON.
///
/// Trusted: calls `serde_json::from_str::<serde_json::Value>`; claims that the
/// result is `Some` exactly when serde_json accepts the text, and that the
/// document remembers the text it came from.
#[verifier::external_body]
pub fn parse_json(text: &str) -> (res: Option<JsonDoc>)
    ensures
        res is Some <==> json_text_accepted(text@),
        res matches Some(d) ==> d@ == text@,
{
    match serde_json::from_str::<serde_json::Value>(text) {
        Ok(value) => Some(JsonDoc { value, text: Ghost(text@) }),
        Err(_) => None,
    }
}

/// What stands at the JSON pointer `pointer` (such as `/data/token`) in `doc`.
///
/// Trusted: calls `serde_json::Value::pointer` and tells the variants of the
/// value found apart (a number by `serde_json::Number::as_u64`); claims only
/// that the result is a function of the document's text and the pointer.
#[verifier::external_body]
pub fn json_at(doc: &JsonDoc, pointer: &str) -> (res: JsonLeaf)
    ensures
        res@ == json_pointer_leaf(doc@, pointer@),
{
    match doc.value.pointer(pointer) {
        None => JsonLeaf::Missing,
        Some(serde_json::Value::Null) => JsonLeaf::Null,
        Some(serde_json::Value::Bool(b)) => JsonLeaf::Bool(*b),
        Some(serde_json::Value::String(s)) => JsonLeaf::Str(s.clone()),
        Some(serde_json::Value::Number(n)) => match n.as_u64() {
            Some(u) => JsonLeaf::UInt(u),
            None => JsonLeaf::OtherNumber,
        },
        Some(serde_json::Value::Array(_)) => JsonLeaf::Array,
        Some(serde_json::Value::Object(_)) => JsonLeaf::Object,
    }
}

impl JsonDoc {
    /// The value that the document's text was parsed into.
    pub closed spec fn parsed(&self) -> serde_json::Value {
        self.value
    }

    /// The parsed value, for passing the document on unchanged.
    pub fn raw(&self) -> (res: &serde_json::Value)
        ensures
            *res == self.parsed(),
    {
        &self.value
    }
}

/// The string at `pointer` in the JSON text `text`, if a string stands there.
pub open spec fn json_str_at(text: Seq<char>, pointer: Seq<char>) -> Option<Seq<char>> {
    match json_pointer_leaf(text, pointer) {
        JsonLeafView::Str(s) => Some(s),
        _ => None,
    }
}

/// The boolean at `pointer` in the JSON text `text`, if a boolean stands there.
pub open spec fn json_bool_at(text: Seq<char>, pointer: Seq<char>) -> Option<bool> {
    match json_pointer_leaf(text, pointer) {
        JsonLeafView::Bool(b) => Some(b),
        _ => None,
    }
}

/// The number at `pointer` in the JSON text `text`, if one that fits a `u64` stands there.
pub open spec fn json_u64_at(text: Seq<char>, pointer: Seq<char>) -> Option<u64> {
    match json_pointer_leaf(text, pointer) {
        JsonLeafView::UInt(u) => Some(u),
        _ => None,
    }
}

/// The string at `pointer` in `doc` (`value.pointer(p).and_then(Value::as_str)`).
pub fn str_at(doc: &JsonDoc, pointer: &str) -> (res: Option<String>)
    ensures
        match res {
            Some(s) => json_str_at(doc@, pointer@) == Some(s@),
            None => json_str_at(doc@, pointer@) is None,
        },
{
    match json_at(doc, pointer) {
        JsonLeaf::Str(s) => Some(s),
        _ => None,
    }
}

/// The boolean at `pointer` in `doc` (`value.pointer(p).and_then(Value::as_bool)`).
pub fn bool_at(doc: &JsonDoc, pointer: &str) -> (res: Option<bool>)
    ensures
        res == json_bool_at(doc@, pointer@),
{
    match json_at(doc, pointer) {
        JsonLeaf::Bool(b) => Some(b),
        _ => None,
    }
}

/// The number at `pointer` in `doc` (`value.pointer(p).and_then(Value::as_u64)`).
pub fn u64_at(doc: &JsonDoc, pointer: &str) -> (res: Option<u64>)
    ensures
        res == json_u64_at(doc@, pointer@),
{
    match json_at(doc, pointer) {
        JsonLeaf::UInt(u) => Some(u),
        _ => None,
    }
}

} // verus!
