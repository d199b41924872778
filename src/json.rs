use vstd::prelude::*;

verus! {

#[verifier::external_type_specification]
#[verifier::external_body]
pub struct ExValue(serde_json::Value);

#[verifier::external_type_specification]
#[verifier::external_body]
pub struct ExJsonError(serde_json::Error);

/// A JSON document as a mathematical tree. Object members are listed in the
/// order the parsed value hands them out; numbers keep their text.
pub enum JsonView {
    Null,
    Bool(bool),
    Number(Seq<char>),
    Str(Seq<char>),
    Array(Seq<JsonView>),
    Object(Seq<(Seq<char>, JsonView)>),
}

/// The tree a parsed `serde_json::Value` holds.
pub uninterp spec fn value_view(v: serde_json::Value) -> JsonView;

/// Whether `serde_json::from_str` accepts the text as a JSON value.
pub uninterp spec fn json_parses(s: Seq<char>) -> bool;

/// The tree `serde_json::from_str` reads from the text, where it accepts it.
pub uninterp spec fn json_doc(s: Seq<char>) -> JsonView;

/// Relies on serde_json::from_str: whether it succeeds, and what it reads,
/// depend on the text alone.
#[verifier::external_body]
pub(crate) fn parse_value(text: &str) -> (r: Result<serde_json::Value, serde_json::Error>)
    ensures
        r is Ok <==> json_parses(text@),
        r matches Ok(v) ==> value_view(v) == json_doc(text@),
{
    serde_json::from_str(text)
}

/// One level of a parsed value, its children still in parsed form.
pub(crate) enum JsonNode<'a> {
    Null,
    Bool(bool),
    Number(String),
    Str(String),
    Array(&'a Vec<serde_json::Value>),
    Object(Vec<(String, &'a serde_json::Value)>),
}

/// The tree of the elements of a parsed array.
pub open spec fn items_view(a: Seq<serde_json::Value>) -> Seq<JsonView> {
    Seq::new(a.len(), |i: int| value_view(a[i]))
}

/// The tree of the members of a parsed object.
pub open spec fn members_view(m: Seq<(String, &serde_json::Value)>) -> Seq<(Seq<char>, JsonView)> {
    Seq::new(m.len(), |i: int| (m[i].0@, value_view(*m[i].1)))
}

/// Relies on serde_json::Value's variants (and `Map::iter`, `Number`'s text):
/// takes one level of a parsed value apart.
#[verifier::external_body]
pub(crate) fn value_node(v: &serde_json::Value) -> (r: JsonNode<'_>)
    ensures
        match r {
            JsonNode::Null => value_view(*v) == JsonView::Null,
            JsonNode::Bool(b) => value_view(*v) == JsonView::Bool(b),
            JsonNode::Number(n) => value_view(*v) == JsonView::Number(n@),
            JsonNode::Str(s) => value_view(*v) == JsonView::Str(s@),
            JsonNode::Array(a) => value_view(*v) == JsonView::Array(items_view(a@)),
            JsonNode::Object(m) => value_view(*v) == JsonView::Object(members_view(m@)),
        },
{
    match v {
        serde_json::Value::Null => JsonNode::Null,
        serde_json::Value::Bool(b) => JsonNode::Bool(*b),
        serde_json::Value::Number(n) => JsonNode::Number(n.to_string()),
        serde_json::Value::String(s) => JsonNode::Str(s.clone()),
        serde_json::Value::Array(a) => JsonNode::Array(a),
        serde_json::Value::Object(m) => JsonNode::Object(m.iter().map(|(k, x)| (k.clone(), x)).collect()),
    }
}

} // verus!
