//! JSON documents as plain values, and what is read out of them.

use crate::text::{chars_of, join_strings, join_texts, str_eq, string_of};
use serde_json::Value;
use vstd::prelude::*;
use vstd::string::*;

verus! {

// ---------------------------------------------------------------------------
// The document
// ---------------------------------------------------------------------------

/// A value of a JSON document.
#[derive(Debug)]
pub struct JsonNode {
    pub kind: JsonKind,
    /// The value written as compact JSON text.
    pub json: String,
}

/// The kinds of JSON values, with what they hold.
#[derive(Debug)]
pub enum JsonKind {
    Null,
    Bool(bool),
    Number,
    Text(String),
    Array(Vec<JsonNode>),
    /// The members in the order of their keys; no key occurs twice.
    Object(Vec<JsonField>),
}

/// A member of a JSON object.
#[derive(Debug)]
pub struct JsonField {
    pub key: String,
    pub value: JsonNode,
}

/// The mathematical value of a `JsonNode`.
pub struct JsonView {
    pub kind: JsonKindView,
    pub json: Seq<char>,
}

/// The mathematical value of a `JsonKind`.
pub enum JsonKindView {
    Null,
    Bool(bool),
    Number,
    Text(Seq<char>),
    Array(Seq<JsonView>),
    Object(Seq<(Seq<char>, JsonView)>),
}

/// The view of a node.
pub open spec fn node_view(n: JsonNode) -> JsonView
    decreases n,
{
    JsonView {
        kind: match n.kind {
            JsonKind::Null => JsonKindView::Null,
            JsonKind::Bool(b) => JsonKindView::Bool(b),
            JsonKind::Number => JsonKindView::Number,
            JsonKind::Text(t) => JsonKindView::Text(t@),
            JsonKind::Array(items) => JsonKindView::Array(
                Seq::new(
                    items@.len(),
                    |i: int|
                        if 0 <= i < items@.len() {
                            node_view(items@[i])
                        } else {
                            arbitrary()
                        },
                ),
            ),
            JsonKind::Object(fields) => JsonKindView::Object(
                Seq::new(
                    fields@.len(),
                    |i: int|
                        if 0 <= i < fields@.len() {
                            (fields@[i].key@, node_view(fields@[i].value))
                        } else {
                            arbitrary()
                        },
                ),
            ),
        },
        json: n.json@,
    }
}

impl View for JsonNode {
    type V = JsonView;

    open spec fn view(&self) -> JsonView {
        node_view(*self)
    }
}

/// The view of a node, one level down: the items of an array and the
/// members of an object have the views of the items and members held.
pub proof fn lemma_node_view(n: JsonNode)
    ensures
        n@.json == n.json@,
        match n.kind {
            JsonKind::Null => n@.kind == JsonKindView::Null,
            JsonKind::Bool(b) => n@.kind == JsonKindView::Bool(b),
            JsonKind::Number => n@.kind == JsonKindView::Number,
            JsonKind::Text(t) => n@.kind == JsonKindView::Text(t@),
            JsonKind::Array(items) => n@.kind matches JsonKindView::Array(views) && views.len()
                == items@.len() && forall|i: int|
                0 <= i < items@.len() ==> #[trigger] views[i] == items@[i]@,
            JsonKind::Object(fields) => n@.kind matches JsonKindView::Object(views) && views.len()
                == fields@.len() && forall|i: int|
                0 <= i < fields@.len() ==> #[trigger] views[i] == (
                    fields@[i].key@,
                    fields@[i].value@,
                ),
        },
{
}

/// The value that a text holds as a JSON document, as `serde_json` reads
/// it; `None` where the text is no JSON document.
pub uninterp spec fn json_document(content: Seq<char>) -> Option<JsonView>;

/// The view of what parsing gave.
pub open spec fn document_view(document: Option<JsonNode>) -> Option<JsonView> {
    match document {
        Some(node) => Some(node@),
        None => None,
    }
}

/// Reads a text as a JSON document.
///
/// Trusted: parses with `serde_json::from_str::<Value>` and tells the
/// variants of the `Value` apart. The items of an array and the members of
/// an object are written with `Value::to_string` and read in the same way,
/// the members in the order in which `serde_json::Map` hands them out. The
/// `json` of a node is what `Value::to_string` writes for it. None of these
/// panics, and what they return depends on the text alone; the contract only
/// gives the result its name, `json_document`.
#[verifier::external_body]
pub(crate) fn parse_json(content: &str) -> (r: Option<JsonNode>)
    ensures
        document_view(r) == json_document(content@),
{
    let value: Value = serde_json::from_str(content).ok()?;
    let json = value.to_string();
    let kind = match value {
        Value::Null => JsonKind::Null,
        Value::Bool(flag) => JsonKind::Bool(flag),
        Value::Number(_) => JsonKind::Number,
        Value::String(text) => JsonKind::Text(text),
        Value::Array(items) => JsonKind::Array(
            items.iter().map(|v| parse_json(&v.to_string())).collect::<Option<_>>()?,
        ),
        Value::Object(map) => JsonKind::Object(
            map.into_iter().map(|(key, v)| Some(JsonField { key, value: parse_json(&v.to_string())? })).collect::<Option<_>>()?,
        ),
    };
    Some(JsonNode { kind, json })
}

// ---------------------------------------------------------------------------
// Reading a value
// ---------------------------------------------------------------------------

/// The text of a value that is a string.
pub open spec fn text_of(v: JsonView) -> Option<Seq<char>> {
    match v.kind {
        JsonKindView::Text(t) => Some(t),
        _ => None,
    }
}

/// The truth value of a value that is `true` or `false`.
pub open spec fn flag_of(v: JsonView) -> Option<bool> {
    match v.kind {
        JsonKindView::Bool(b) => Some(b),
        _ => None,
    }
}

/// The index of the first member with the key.
pub open spec fn field_position(fields: Seq<(Seq<char>, JsonView)>, key: Seq<char>) -> Option<int>
    decreases fields.len(),
{
    if fields.len() == 0 {
        None
    } else {
        match field_position(fields.drop_last(), key) {
            Some(i) => Some(i),
            None => if fields.last().0 == key {
                Some(fields.len() - 1)
            } else {
                None
            },
        }
    }
}

/// The value that an object holds under the key; none for what is no
/// object.
pub open spec fn member_of(v: JsonView, key: Seq<char>) -> Option<JsonView> {
    match v.kind {
        JsonKindView::Object(fields) => match field_position(fields, key) {
            Some(i) => Some(fields[i].1),
            None => None,
        },
        _ => None,
    }
}

proof fn lemma_field_position_extends(fields: Seq<(Seq<char>, JsonView)>, key: Seq<char>, n: int)
    requires
        0 <= n <= fields.len(),
        field_position(fields.take(n), key) is Some,
    ensures
        field_position(fields, key) == field_position(fields.take(n), key),
    decreases fields.len() - n,
{
    if n < fields.len() {
        assert(fields.take(n + 1).drop_last() =~= fields.take(n));
        lemma_field_position_extends(fields, key, n + 1);
    } else {
        assert(fields.take(n) =~= fields);
    }
}

/// Returns the text of a value that is a string.
pub fn as_text(node: &JsonNode) -> (r: Option<&str>)
    ensures
        match r {
            Some(text) => text_of(node@) == Some(text@),
            None => text_of(node@) is None,
        },
{
    proof {
        lemma_node_view(*node);
    }
    match &node.kind {
        JsonKind::Text(text) => Some(text.as_str()),
        _ => None,
    }
}

/// Returns the truth value of a value that is `true` or `false`.
pub fn as_bool(node: &JsonNode) -> (r: Option<bool>)
    ensures
        r == flag_of(node@),
{
    proof {
        lemma_node_view(*node);
    }
    match &node.kind {
        JsonKind::Bool(flag) => Some(*flag),
        _ => None,
    }
}

/// Returns the value that an object holds under the key.
pub fn member<'a>(node: &'a JsonNode, key: &str) -> (r: Option<&'a JsonNode>)
    ensures
        match r {
            Some(value) => member_of(node@, key@) == Some(value@),
            None => member_of(node@, key@) is None,
        },
{
    proof {
        lemma_node_view(*node);
    }
    match &node.kind {
        JsonKind::Object(fields) => {
            let ghost views = node@.kind->Object_0;
            let mut k: usize = 0;
            while k < fields.len()
                invariant
                    k <= fields.len(),
                    node@.kind == JsonKindView::Object(views),
                    views.len() == fields@.len(),
                    forall|i: int|
                        0 <= i < fields@.len() ==> #[trigger] views[i] == (
                            fields@[i].key@,
                            fields@[i].value@,
                        ),
                    field_position(views.take(k as int), key@) is None,
                decreases fields.len() - k,
            {
                proof {
                    let now = views.take(k + 1);
                    assert(now.drop_last() =~= views.take(k as int));
                }
                if str_eq(fields[k].key.as_str(), key) {
                    proof {
                        lemma_field_position_extends(views, key@, k + 1);
                    }
                    return Some(&fields[k].value);
                }
                k += 1;
            }
            assert(views.take(fields.len() as int) =~= views);
            None
        },
        _ => None,
    }
}

/// The text that a document holds under the key, where it holds a string
/// there.
pub open spec fn text_member(document: Option<JsonView>, key: Seq<char>) -> Option<Seq<char>> {
    match document {
        Some(v) => match member_of(v, key) {
            Some(value) => text_of(value),
            None => None,
        },
        None => None,
    }
}

/// Returns the text that a document holds under the key.
pub fn member_text(document: &Option<JsonNode>, key: &str) -> (r: Option<String>)
    ensures
        match r {
            Some(text) => text_member(document_view(*document), key@) == Some(text@),
            None => text_member(document_view(*document), key@) is None,
        },
{
    match document {
        Some(node) => match member(node, key) {
            Some(value) => match as_text(value) {
                Some(text) => Some(text.to_owned()),
                None => None,
            },
            None => None,
        },
        None => None,
    }
}

// ---------------------------------------------------------------------------
// Writing a value for display
// ---------------------------------------------------------------------------

/// The text without the double quotes at its head.
pub open spec fn without_leading_quotes(s: Seq<char>) -> Seq<char>
    decreases s.len(),
{
    if s.len() > 0 && s[0] == '"' {
        without_leading_quotes(s.skip(1))
    } else {
        s
    }
}

/// The text without the double quotes at its end.
pub open spec fn without_trailing_quotes(s: Seq<char>) -> Seq<char>
    decreases s.len(),
{
    if s.len() > 0 && s.last() == '"' {
        without_trailing_quotes(s.drop_last())
    } else {
        s
    }
}

/// The text without the double quotes at its head and at its end.
pub open spec fn unquoted(s: Seq<char>) -> Seq<char> {
    without_trailing_quotes(without_leading_quotes(s))
}

/// Returns the text without the double quotes at its head and at its end.
pub fn trim_quotes(s: &str) -> (r: String)
    ensures
        r@ == unquoted(s@),
{
    let chars = chars_of(s);
    let mut start: usize = 0;
    assert(s@.skip(0) =~= s@);
    while start < chars.len() && chars[start] == '"'
        invariant
            start <= chars.len(),
            chars@ == s@,
            without_leading_quotes(s@) == without_leading_quotes(s@.skip(start as int)),
        decreases chars.len() - start,
    {
        proof {
            let now = s@.skip(start as int);
            assert(now.skip(1) =~= s@.skip(start + 1));
        }
        start += 1;
    }
    let ghost head = s@.skip(start as int);
    let mut end: usize = chars.len();
    while end > start && chars[end - 1] == '"'
        invariant
            start <= end <= chars.len(),
            chars@ == s@,
            head == s@.subrange(start as int, chars.len() as int),
            without_trailing_quotes(head) == without_trailing_quotes(
                s@.subrange(start as int, end as int),
            ),
        decreases end,
    {
        proof {
            let now = s@.subrange(start as int, end as int);
            assert(now.drop_last() =~= s@.subrange(start as int, end - 1));
        }
        end -= 1;
    }
    string_of(&chars, start, end)
}

/// The JSON texts of the values without the quotes around them.
pub open spec fn unquoted_items(items: Seq<JsonView>) -> Seq<Seq<char>> {
    Seq::new(items.len(), |i: int| unquoted(items[i].json))
}

/// A value as it is shown: a string as it is, the items of an array with
/// commas between them, anything else as JSON; quotes at head and end are
/// left out.
pub open spec fn shown_value(v: JsonView) -> Seq<char> {
    match v.kind {
        JsonKindView::Text(t) => t,
        JsonKindView::Array(items) => join_texts(unquoted_items(items), ", "@),
        _ => unquoted(v.json),
    }
}

fn unquoted_texts(items: &Vec<JsonNode>) -> (r: Vec<String>)
    ensures
        r.len() == items.len(),
        forall|i: int| 0 <= i < items.len() ==> (#[trigger] r@[i])@ == unquoted(items@[i]@.json),
{
    let mut out: Vec<String> = Vec::new();
    let mut k: usize = 0;
    while k < items.len()
        invariant
            k <= items.len(),
            out.len() == k,
            forall|i: int| 0 <= i < k ==> (#[trigger] out@[i])@ == unquoted(items@[i]@.json),
        decreases items.len() - k,
    {
        proof {
            lemma_node_view(items@[k as int]);
        }
        out.push(trim_quotes(items[k].json.as_str()));
        k += 1;
    }
    out
}

/// Formats a value for display.
pub fn format_json_value(value: &JsonNode) -> (r: String)
    ensures
        r@ == shown_value(value@),
{
    proof {
        lemma_node_view(*value);
    }
    match &value.kind {
        JsonKind::Text(text) => text.clone(),
        JsonKind::Array(items) => {
            let texts = unquoted_texts(items);
            assert(texts.deep_view() =~= unquoted_items(value@.kind->Array_0));
            join_strings(&texts, ", ")
        },
        _ => trim_quotes(value.json.as_str()),
    }
}

/// The truth value that a document holds under the key, where it holds one
/// there.
pub open spec fn flag_member(document: Option<JsonView>, key: Seq<char>) -> Option<bool> {
    match document {
        Some(v) => match member_of(v, key) {
            Some(value) => flag_of(value),
            None => None,
        },
        None => None,
    }
}

/// Returns the truth value that a document holds under the key.
pub fn member_flag(document: &Option<JsonNode>, key: &str) -> (r: Option<bool>)
    ensures
        r == flag_member(document_view(*document), key@),
{
    match document {
        Some(node) => match member(node, key) {
            Some(value) => as_bool(value),
            None => None,
        },
        None => None,
    }
}

} // verus!
