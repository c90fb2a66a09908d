//! JSON and YAML texts, as `serde_json` and `serde_yaml` read and write them.

use crate::rows;
use vstd::prelude::*;
use vstd::string::*;

verus! {

/// A value inside a JSON document: what it is, and its text where it has one.
pub enum JsonNode {
    Null,
    Bool(bool),
    /// A number, as `serde_json` writes it.
    Number(String),
    /// A string, without quotes and escapes.
    Text(String),
    /// An array, as compact JSON.
    Array(String),
    /// An object, as compact JSON.
    Object(String),
}

/// The model of a [`JsonNode`].
pub ghost enum JsonShape {
    Null,
    Bool(bool),
    Number(Seq<char>),
    Text(Seq<char>),
    Array(Seq<char>),
    Object(Seq<char>),
}

impl View for JsonNode {
    type V = JsonShape;

    open spec fn view(&self) -> JsonShape {
        match self {
            JsonNode::Null => JsonShape::Null,
            JsonNode::Bool(b) => JsonShape::Bool(*b),
            JsonNode::Number(s) => JsonShape::Number(s@),
            JsonNode::Text(s) => JsonShape::Text(s@),
            JsonNode::Array(s) => JsonShape::Array(s@),
            JsonNode::Object(s) => JsonShape::Object(s@),
        }
    }
}

/// The text of an optional string.
pub open spec fn opt_text(o: Option<String>) -> Option<Seq<char>> {
    match o {
        Some(s) => Some(s@),
        None => None,
    }
}

/// The texts of a result.
pub open spec fn result_text(r: Result<String, String>) -> Result<Seq<char>, Seq<char>> {
    match r {
        Ok(s) => Ok(s@),
        Err(e) => Err(e@),
    }
}

/// The value that a JSON pointer addresses in a JSON text; `None` where the text is no JSON or
/// has no such value.
pub uninterp spec fn json_value_at(text: Seq<char>, pointer: Seq<char>) -> Option<JsonShape>;

/// `serde_json::from_str` into a `Value`, and `Value::pointer` on it. The addressed value is
/// handed out as what it is with its text: a number by its `Display`, an array or an object by
/// `serde_json::to_string`. The result is named [`json_value_at`].
#[verifier::external_body]
pub(crate) fn json_at(text: &str, pointer: &str) -> (r: Option<JsonNode>)
    ensures
        match r {
            Some(node) => json_value_at(text@, pointer@) == Some(node@),
            None => json_value_at(text@, pointer@) is None,
        },
{
    let document: serde_json::Value = serde_json::from_str(text).ok()?;
    document.pointer(pointer).map(|v| match v {
        serde_json::Value::Null => JsonNode::Null,
        serde_json::Value::Bool(b) => JsonNode::Bool(*b),
        serde_json::Value::Number(n) => JsonNode::Number(n.to_string()),
        serde_json::Value::String(s) => JsonNode::Text(s.clone()),
        serde_json::Value::Array(_) => JsonNode::Array(v.to_string()),
        serde_json::Value::Object(_) => JsonNode::Object(v.to_string()),
    })
}

/// The value that a JSON text is; `None` where it is no JSON.
pub open spec fn json_value(text: Seq<char>) -> Option<JsonShape> {
    json_value_at(text, Seq::empty())
}

/// A value of a JSON document as compact JSON.
pub open spec fn compact(value: JsonShape) -> Seq<char> {
    match value {
        JsonShape::Null => "null"@,
        JsonShape::Bool(b) => if b {
            "true"@
        } else {
            "false"@
        },
        JsonShape::Number(s) | JsonShape::Array(s) | JsonShape::Object(s) => s,
        JsonShape::Text(s) => json_quoted(s),
    }
}

/// A JSON text written out with indentation; `None` where it is no JSON.
pub uninterp spec fn json_indented(text: Seq<char>) -> Option<Seq<char>>;

/// `serde_json::from_str` into a `Value`, and `serde_json::to_string_pretty` of it. The result
/// is named [`json_indented`].
#[verifier::external_body]
pub(crate) fn pretty_json(text: &str) -> (r: Option<String>)
    ensures
        opt_text(r) == json_indented(text@),
{
    let document: serde_json::Value = serde_json::from_str(text).ok()?;
    serde_json::to_string_pretty(&document).ok()
}

/// A text as a JSON string, with its quotes and escapes.
pub uninterp spec fn json_quoted(text: Seq<char>) -> Seq<char>;

/// `serde_json::Value::from` of a text, and its `Display`. The result is named [`json_quoted`].
/// It holds no line break, since control characters are escaped.
#[verifier::external_body]
pub(crate) fn quoted_json(text: &str) -> (r: String)
    ensures
        r@ == json_quoted(text@),
        !r@.contains('\n'),
{
    serde_json::Value::from(text).to_string()
}

/// A JSON text as YAML; `None` where it is no JSON.
pub uninterp spec fn json_as_yaml(text: Seq<char>) -> Option<Seq<char>>;

/// Whether a YAML text is the value of a JSON text; no YAML text is where there is no JSON. The
/// YAML is written as the same compact JSON, and is a plain string where the JSON is a string.
pub open spec fn same_value(json: Seq<char>, yaml: Option<Seq<char>>) -> bool {
    match json_value(json) {
        None => yaml is None,
        Some(v) => {
            &&& yaml matches Some(y)
            &&& yaml_written_as_json(y) == Ok::<Seq<char>, Seq<char>>(compact(v))
            &&& yaml_string(y) == Some(
                match v {
                    JsonShape::Text(s) => Some(s),
                    _ => None,
                },
            )
        },
    }
}

/// `serde_json::from_str` into a `Value`, `serde_yaml::to_value` of it, and
/// `serde_yaml::to_string` of that. The result is named [`json_as_yaml`]. Every JSON value can be
/// written, and what is written is read as the same value.
#[verifier::external_body]
pub(crate) fn yaml_of_json(text: &str) -> (r: Option<String>)
    ensures
        opt_text(r) == json_as_yaml(text@),
        same_value(text@, opt_text(r)),
{
    let document: serde_json::Value = serde_json::from_str(text).ok()?;
    let value: serde_yaml::Value = serde_yaml::to_value(&document).ok()?;
    serde_yaml::to_string(&value).ok()
}

/// What a YAML text is: `None` where it is no YAML, `Some(None)` where it is YAML but no plain
/// string, and the string where it is one.
pub uninterp spec fn yaml_string(text: Seq<char>) -> Option<Option<Seq<char>>>;

/// `serde_yaml::from_str` into a `Value`, told apart by whether that is a string. The result is
/// named [`yaml_string`].
#[verifier::external_body]
pub(crate) fn string_of_yaml(text: &str) -> (r: Option<Option<String>>)
    ensures
        match r {
            Some(s) => yaml_string(text@) == Some(opt_text(s)),
            None => yaml_string(text@) is None,
        },
{
    match serde_yaml::from_str::<serde_yaml::Value>(text) {
        Ok(serde_yaml::Value::String(s)) => Some(Some(s)),
        Ok(_) => Some(None),
        Err(_) => None,
    }
}

/// The JSON that a YAML value reads as; `None` where there is none.
pub uninterp spec fn yaml_read_as_json(text: Seq<char>) -> Option<Seq<char>>;

/// `serde_yaml::from_str` into a `Value`, `serde_yaml::from_value` of that into a
/// `serde_json::Value`, and its compact text. The result is named [`yaml_read_as_json`].
#[verifier::external_body]
pub(crate) fn json_read_from_yaml(text: &str) -> (r: Option<String>)
    ensures
        opt_text(r) == yaml_read_as_json(text@),
{
    let value: serde_yaml::Value = serde_yaml::from_str(text).ok()?;
    let json: serde_json::Value = serde_yaml::from_value(value).ok()?;
    Some(json.to_string())
}

/// The JSON that a YAML value is written as, or the message that says why it is not.
pub uninterp spec fn yaml_written_as_json(text: Seq<char>) -> Result<Seq<char>, Seq<char>>;

/// `serde_yaml::from_str` into a `Value`, `serde_json::to_value` of that, and its compact text;
/// an error of either as its message. The result is named [`yaml_written_as_json`].
#[verifier::external_body]
pub(crate) fn json_written_from_yaml(text: &str) -> (r: Result<String, String>)
    ensures
        result_text(r) == yaml_written_as_json(text@),
{
    let value: serde_yaml::Value = serde_yaml::from_str(text).map_err(|e| e.to_string())?;
    let json: serde_json::Value = serde_json::to_value(&value).map_err(|e| e.to_string())?;
    Ok(json.to_string())
}

/// A YAML value written out as JSON with indentation; `None` where the text is no YAML or JSON
/// cannot hold the value.
pub uninterp spec fn yaml_indented(text: Seq<char>) -> Option<Seq<char>>;

/// `serde_yaml::from_str` into a `Value`, and `serde_json::to_string_pretty` of that. The result
/// is named [`yaml_indented`].
#[verifier::external_body]
pub(crate) fn pretty_yaml(text: &str) -> (r: Option<String>)
    ensures
        opt_text(r) == yaml_indented(text@),
{
    let value: serde_yaml::Value = serde_yaml::from_str(text).ok()?;
    serde_json::to_string_pretty(&value).ok()
}

/// A YAML value as it is printed for debugging; `None` where the text is no YAML.
pub uninterp spec fn yaml_debug(text: Seq<char>) -> Option<Seq<char>>;

/// `serde_yaml::from_str` into a `Value`, and its `Debug` text. The result is named
/// [`yaml_debug`].
#[verifier::external_body]
pub(crate) fn debug_of_yaml(text: &str) -> (r: Option<String>)
    ensures
        opt_text(r) == yaml_debug(text@),
{
    let value: serde_yaml::Value = serde_yaml::from_str(text).ok()?;
    Some(format!("{:?}", value))
}

/// The variables that a YAML text holds, ordered by name, or the message that says why it holds
/// none.
pub uninterp spec fn yaml_variables(text: Seq<char>) -> Result<Seq<rows::Entry>, Seq<char>>;

/// The YAML text of variables, or the message that says why there is none.
pub uninterp spec fn variables_yaml(vars: Seq<rows::Entry>) -> Result<Seq<char>, Seq<char>>;

/// `serde_yaml::from_str` into a map from string to string, whose entries come out ordered by
/// key, each key once. The result is named [`yaml_variables`].
#[verifier::external_body]
pub(crate) fn variables_of_yaml(text: &str) -> (r: Result<Vec<(String, String)>, String>)
    ensures
        match r {
            Ok(vars) => yaml_variables(text@) == Ok::<Seq<rows::Entry>, Seq<char>>(
                rows::entries(vars@),
            ) && rows::distinct_keys(rows::entries(vars@)),
            Err(e) => yaml_variables(text@) == Err::<Seq<rows::Entry>, Seq<char>>(e@),
        },
{
    serde_yaml::from_str::<std::collections::BTreeMap<String, String>>(text)
        .map(|vars| vars.into_iter().collect())
        .map_err(|e| e.to_string())
}

/// Whether a result is a YAML text that reads as these variables.
pub open spec fn reads_as(r: Result<String, String>, vars: Seq<rows::Entry>) -> bool {
    r matches Ok(yaml) && yaml_variables(yaml@) == Ok::<Seq<rows::Entry>, Seq<char>>(vars)
}

/// `serde_yaml::to_string` of a mapping of strings. The result is named [`variables_yaml`].
/// Entries with distinct keys are written so that [`variables_of_yaml`] reads them back, in the
/// order of their keys.
#[verifier::external_body]
pub(crate) fn yaml_of_variables(vars: &Vec<(String, String)>) -> (r: Result<String, String>)
    ensures
        result_text(r) == variables_yaml(rows::entries(vars@)),
        rows::distinct_keys(rows::entries(vars@)) ==> reads_as(
            r,
            rows::sorted(rows::entries(vars@)),
        ),
{
    let mapping: serde_yaml::Mapping = vars
        .iter()
        .map(|r| (serde_yaml::Value::from(r.0.as_str()), serde_yaml::Value::from(r.1.as_str())))
        .collect();
    serde_yaml::to_string(&mapping).map_err(|e| e.to_string())
}

} // verus!
