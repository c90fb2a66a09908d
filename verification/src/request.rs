//! Requests as they stand in files.

use crate::formats;
use crate::formats::{debug_of_yaml, pretty_yaml, quoted_json, string_of_yaml};
use crate::rows;
use crate::rows::clone_rows;
use vstd::prelude::*;
use vstd::string::*;

verus! {

/// The body of a request.
pub enum RequestBody {
    /// A plain string, which is sent as it is.
    Text(String),
    /// Any other value, as YAML, which is sent as JSON.
    Yaml(String),
}

/// The model of a [`RequestBody`].
pub ghost enum BodyModel {
    Text(Seq<char>),
    Yaml(Seq<char>),
}

impl View for RequestBody {
    type V = BodyModel;

    open spec fn view(&self) -> BodyModel {
        match self {
            RequestBody::Text(s) => BodyModel::Text(s@),
            RequestBody::Yaml(s) => BodyModel::Yaml(s@),
        }
    }
}

impl Clone for RequestBody {
    fn clone(&self) -> (r: Self)
        ensures
            r == *self,
    {
        match self {
            RequestBody::Text(s) => RequestBody::Text(s.clone()),
            RequestBody::Yaml(s) => RequestBody::Yaml(s.clone()),
        }
    }
}

/// A body as it is shown: as JSON with indentation, a plain string in quotes. A value that JSON
/// cannot hold is shown as it is printed for debugging, and what is no YAML as it is.
pub open spec fn shown_body(body: BodyModel) -> Seq<char> {
    match body {
        BodyModel::Text(s) => formats::json_quoted(s),
        BodyModel::Yaml(t) => shown_value(
            formats::yaml_indented(t),
            formats::yaml_debug(t),
            t,
        ),
    }
}

/// A YAML value as it is shown, given its JSON with indentation and its text for debugging.
pub open spec fn shown_value(
    pretty: Option<Seq<char>>,
    debug: Option<Seq<char>>,
    yaml: Seq<char>,
) -> Seq<char> {
    match pretty {
        Some(p) => p,
        None => match debug {
            Some(d) => d,
            None => yaml,
        },
    }
}

impl RequestBody {
    /// The body as it is shown.
    pub fn shown(&self) -> (r: String)
        ensures
            r@ == shown_body(self@),
    {
        match self {
            RequestBody::Text(s) => quoted_json(s.as_str()),
            RequestBody::Yaml(t) => shown_yaml(
                pretty_yaml(t.as_str()),
                debug_of_yaml(t.as_str()),
                t.as_str(),
            ),
        }
    }
}

/// The text shown for a YAML value, given its JSON with indentation and its text for debugging.
pub fn shown_yaml(pretty: Option<String>, debug: Option<String>, yaml: &str) -> (r: String)
    ensures
        r@ == shown_value(formats::opt_text(pretty), formats::opt_text(debug), yaml@),
{
    match pretty {
        Some(p) => p,
        None => match debug {
            Some(d) => d,
            None => yaml.to_string(),
        },
    }
}

/// An optional body as it is shown, or `other` where there is none.
pub open spec fn shown_body_or(body: Option<BodyModel>, other: Seq<char>) -> Seq<char> {
    match body {
        Some(b) => shown_body(b),
        None => other,
    }
}

/// The text of an optional body, or `other` where there is none.
pub fn body_or(body: &Option<RequestBody>, other: &str) -> (r: String)
    ensures
        r@ == shown_body_or(opt_body(*body), other@),
{
    match body {
        Some(b) => b.shown(),
        None => other.to_string(),
    }
}

/// The body that a YAML text stands for, given what the text reads as: none where it is no YAML,
/// and a plain string as itself.
pub open spec fn body_read(yaml: Seq<char>, read: Option<Option<Seq<char>>>) -> Option<BodyModel> {
    match read {
        Some(Some(s)) => Some(BodyModel::Text(s)),
        Some(None) => Some(BodyModel::Yaml(yaml)),
        None => None,
    }
}

/// The body that a YAML text stands for, given what [`formats::string_of_yaml`] made of it.
pub fn body_of_reading(yaml: &str, read: Option<Option<String>>) -> (r: Option<RequestBody>)
    ensures
        opt_body(r) == body_read(
            yaml@,
            match read {
                Some(s) => Some(formats::opt_text(s)),
                None => None,
            },
        ),
{
    match read {
        Some(Some(s)) => Some(RequestBody::Text(s)),
        Some(None) => Some(RequestBody::Yaml(yaml.to_string())),
        None => None,
    }
}

/// The body that a YAML text stands for; none where it is no YAML.
pub fn body_of_yaml(yaml: &str) -> (r: Option<RequestBody>)
    ensures
        opt_body(r) == body_read(yaml@, formats::yaml_string(yaml@)),
{
    body_of_reading(yaml, string_of_yaml(yaml))
}

/// A request.
pub struct RequestFile {
    pub name: Option<String>,
    pub method: String,
    pub url: String,
    pub headers: Option<Vec<(String, String)>>,
    pub query: Option<Vec<(String, String)>>,
    pub body: Option<RequestBody>,
    pub exports: Option<Vec<(String, String)>>,
}

/// The model of a [`RequestFile`].
pub ghost struct RequestModel {
    pub name: Option<Seq<char>>,
    pub method: Seq<char>,
    pub url: Seq<char>,
    pub headers: Option<Seq<rows::Entry>>,
    pub query: Option<Seq<rows::Entry>>,
    pub body: Option<BodyModel>,
    pub exports: Option<Seq<rows::Entry>>,
}

/// The entries of an optional list.
pub open spec fn opt_entries(o: Option<Vec<(String, String)>>) -> Option<Seq<rows::Entry>> {
    match o {
        Some(v) => Some(rows::entries(v@)),
        None => None,
    }
}

/// The entries of an optional list; none where there is no list.
pub open spec fn entries_or_none(o: Option<Seq<rows::Entry>>) -> Seq<rows::Entry> {
    match o {
        Some(v) => v,
        None => Seq::empty(),
    }
}

/// The model of an optional body.
pub open spec fn opt_body(o: Option<RequestBody>) -> Option<BodyModel> {
    match o {
        Some(b) => Some(b@),
        None => None,
    }
}

impl View for RequestFile {
    type V = RequestModel;

    open spec fn view(&self) -> RequestModel {
        RequestModel {
            name: formats::opt_text(self.name),
            method: self.method@,
            url: self.url@,
            headers: opt_entries(self.headers),
            query: opt_entries(self.query),
            body: opt_body(self.body),
            exports: opt_entries(self.exports),
        }
    }
}

/// Whether no list of a request has a key twice.
pub open spec fn one_value_each(m: RequestModel) -> bool {
    &&& rows::distinct_keys(entries_or_none(m.headers))
    &&& rows::distinct_keys(entries_or_none(m.query))
    &&& rows::distinct_keys(entries_or_none(m.exports))
}

impl RequestFile {
    /// Whether none of its lists has a key twice.
    pub open spec fn wf(&self) -> bool {
        one_value_each(self@)
    }
}

/// Copies an optional list of rows.
pub fn clone_opt_rows(o: &Option<Vec<(String, String)>>) -> (r: Option<Vec<(String, String)>>)
    ensures
        opt_entries(r) == opt_entries(*o),
{
    match o {
        Some(v) => Some(clone_rows(v)),
        None => None,
    }
}

impl Clone for RequestFile {
    fn clone(&self) -> (r: Self)
        ensures
            r@ == self@,
    {
        RequestFile {
            name: match &self.name {
                Some(s) => Some(s.clone()),
                None => None,
            },
            method: self.method.clone(),
            url: self.url.clone(),
            headers: clone_opt_rows(&self.headers),
            query: clone_opt_rows(&self.query),
            body: match &self.body {
                Some(b) => Some(b.clone()),
                None => None,
            },
            exports: clone_opt_rows(&self.exports),
        }
    }
}

} // verus!
