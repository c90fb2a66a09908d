//! Opening a request in the grid editor, and what the editor saves.

use crate::formats;
use crate::formats::yaml_of_json;
use crate::grid::{GridCol, GridEditState, GridSection};
use crate::grid_laws;
use crate::request;
use crate::request::{body_of_yaml, body_or, RequestBody, RequestFile};
use crate::rows;
use crate::rows::{clone_rows, collect_rows, sort_rows};
use crate::text;
use crate::text::{same_text, trim};
use crate::undo;
use crate::undo::{GridSnapshot, Stamp, UndoNode};
use vstd::prelude::*;
use vstd::string::*;

verus! {

/// The entries of an optional list in the order of their keys, as rows; no rows where there is no
/// list.
pub fn sorted_or_none(list: &Option<Vec<(String, String)>>) -> (r: Vec<(String, String)>)
    ensures
        rows::entries(r@) == rows::sorted(request::entries_or_none(request::opt_entries(*list))),
{
    match list {
        Some(v) => sort_rows(v),
        None => {
            let none: Vec<(String, String)> = Vec::new();
            assert(rows::entries(none@) == Seq::<rows::Entry>::empty());
            none
        },
    }
}

/// Whether `e` is the editor of a request that was just opened.
pub open spec fn opened(
    path: Seq<char>,
    original: request::RequestModel,
    stamp: Stamp,
    e: GridEditState,
) -> bool {
    &&& e.path@ == path
    &&& e.original@ == original
    &&& rows::entries(e.query_rows@) == rows::sorted(request::entries_or_none(original.query))
    &&& rows::entries(e.header_rows@) == rows::sorted(request::entries_or_none(original.headers))
    &&& e.body_text@ == request::shown_body_or(original.body, Seq::empty())
    &&& e.section == GridSection::Query
    &&& e.row == 0
    &&& e.col == GridCol::Key
    &&& e.editing_text is None
    &&& e.undo_nodes@.len() == 1
    &&& e.undo_nodes@[0].parent is None
    &&& e.undo_nodes@[0].children@.len() == 0
    &&& e.undo_nodes@[0].depth == 0
    &&& e.undo_nodes@[0].snapshot@ == e.content()
    &&& e.undo_nodes@[0].label@ == "Initial"@
    &&& e.undo_nodes@[0].timestamp == stamp.timestamp
    &&& e.undo_nodes@[0].created_at == stamp.created_at
    &&& e.undo_current == 0
    &&& !e.undo_tree_active
    &&& e.undo_tree_selected == 0
}

/// Entries as they are saved: no list where there are none.
pub open spec fn list_or_none(list: Seq<rows::Entry>) -> Option<Seq<rows::Entry>> {
    if list.len() == 0 {
        None
    } else {
        Some(list)
    }
}

/// A body as it is saved: none where it is blank, the value where it is JSON, and the text as it
/// is where it is not.
pub open spec fn saved_body(body: Seq<char>) -> Option<request::BodyModel> {
    if text::trimmed(body).len() == 0 {
        None
    } else {
        match formats::json_as_yaml(text::trimmed(body)) {
            Some(yaml) => Some(saved_value(yaml, formats::yaml_string(yaml))),
            None => Some(request::BodyModel::Text(body)),
        }
    }
}

/// A JSON body that was turned into YAML, given what the YAML reads as.
pub open spec fn saved_value(yaml: Seq<char>, read: Option<Option<Seq<char>>>) -> request::BodyModel {
    match request::body_read(yaml, read) {
        Some(b) => b,
        None => request::BodyModel::Yaml(yaml),
    }
}

/// The body that is saved for a text: that of the file where the text is still what is shown for
/// it, and else what was typed.
pub open spec fn body_after(
    original: Option<request::BodyModel>,
    typed: Seq<char>,
) -> Option<request::BodyModel> {
    if typed == request::shown_body_or(original, Seq::empty()) {
        original
    } else {
        saved_body(typed)
    }
}

/// The request that is saved: `original` with both grids and the body as they are now.
pub open spec fn saved_request(e: GridEditState) -> request::RequestModel {
    request::RequestModel {
        query: list_or_none(rows::collected(rows::entries(e.query_rows@))),
        headers: list_or_none(rows::collected(rows::entries(e.header_rows@))),
        body: body_after(e.original@.body, e.body_text@),
        ..e.original@
    }
}

fn rows_to_save(rows: &Vec<(String, String)>) -> (r: Option<Vec<(String, String)>>)
    ensures
        request::opt_entries(r) == list_or_none(rows::collected(rows::entries(rows@))),
{
    let list: Vec<(String, String)> = collect_rows(rows);
    assert(rows::entries(list@).len() == list@.len());
    if list.is_empty() {
        None
    } else {
        Some(list)
    }
}

/// The body that is saved for an edited text, given the YAML that its JSON value is written as
/// (`None` where it is no JSON).
pub fn body_to_save(body: &str, yaml: Option<String>) -> (r: Option<RequestBody>)
    ensures
        request::opt_body(r) == if text::trimmed(body@).len() == 0 {
            None
        } else {
            match yaml {
                Some(y) => Some(saved_value(y@, formats::yaml_string(y@))),
                None => Some(request::BodyModel::Text(body@)),
            }
        },
{
    if trim(body).as_str().is_empty() {
        return None;
    }
    match yaml {
        Some(y) => match body_of_yaml(y.as_str()) {
            Some(b) => Some(b),
            None => Some(RequestBody::Yaml(y)),
        },
        None => Some(RequestBody::Text(body.to_string())),
    }
}

/// Whether a body is a value other than a plain string that is written as this JSON.
pub open spec fn saved_as_json(body: Option<request::BodyModel>, json: Seq<char>) -> bool {
    body matches Some(request::BodyModel::Yaml(y)) && formats::yaml_string(y) == Some(
        None::<Seq<char>>,
    ) && formats::yaml_written_as_json(y) == Ok::<Seq<char>, Seq<char>>(json)
}

/// Whether what is saved for a text is the body of the file where that was not edited, and else
/// the JSON value that was typed, or the text as it is where that is no JSON.
pub open spec fn saves_what_is_typed(
    original: Option<request::BodyModel>,
    typed: Seq<char>,
    body: Option<request::BodyModel>,
) -> bool {
    if typed == request::shown_body_or(original, Seq::empty()) {
        body == original
    } else if text::trimmed(typed).len() == 0 {
        body is None
    } else {
        match formats::json_value(text::trimmed(typed)) {
            None => body == Some(request::BodyModel::Text(typed)),
            Some(formats::JsonShape::Text(s)) => body == Some(request::BodyModel::Text(s)),
            Some(v) => saved_as_json(body, formats::compact(v)),
        }
    }
}

impl GridEditState {
    /// The editor of a request, as it is opened: the entries in the order of their keys, the body
    /// as it is shown, and one state in the undo tree.
    pub fn open(path: String, original: RequestFile, stamp: Stamp) -> (r: Self)
        ensures
            opened(path@, original@, stamp, r),
            r.wf(),
            grid_laws::in_sync(r),
    {
        let query_rows: Vec<(String, String)> = sorted_or_none(&original.query);
        let header_rows: Vec<(String, String)> = sorted_or_none(&original.headers);
        let body_text: String = body_or(&original.body, "");
        proof {
            reveal_strlit("");
            assert(""@ == Seq::<char>::empty());
        }
        let root: UndoNode = UndoNode {
            parent: None,
            children: Vec::new(),
            depth: 0,
            snapshot: GridSnapshot {
                query_rows: clone_rows(&query_rows),
                header_rows: clone_rows(&header_rows),
                body_text: body_text.clone(),
            },
            label: "Initial".to_string(),
            timestamp: stamp.timestamp,
            created_at: stamp.created_at,
        };
        let mut undo_nodes: Vec<UndoNode> = Vec::new();
        undo_nodes.push(root);
        let edit: GridEditState = GridEditState {
            path,
            original,
            query_rows,
            header_rows,
            body_text,
            section: GridSection::Query,
            row: 0,
            col: GridCol::Key,
            editing_text: None,
            undo_nodes,
            undo_current: 0,
            undo_tree_active: false,
            undo_tree_selected: 0,
        };
        proof {
            assert(undo::is_tree(edit.undo_nodes@));
        }
        edit
    }

    /// The request that is saved: the rows that have a key, the body if it was edited, and
    /// everything else as it was when the editor was opened.
    pub fn to_save(&self) -> (r: RequestFile)
        ensures
            r@ == saved_request(*self),
            saves_what_is_typed(self.original@.body, self.body_text@, r@.body),
            self.original.wf() ==> r.wf(),
    {
        proof {
            rows::law_collected(rows::entries(self.query_rows@), Seq::empty());
            rows::law_collected(rows::entries(self.header_rows@), Seq::empty());
        }
        let mut file: RequestFile = self.original.clone();
        file.query = rows_to_save(&self.query_rows);
        file.headers = rows_to_save(&self.header_rows);
        let body: &str = self.body_text.as_str();
        let shown: String = body_or(&self.original.body, "");
        proof {
            reveal_strlit("");
            assert(""@ == Seq::<char>::empty());
        }
        if !same_text(body, shown.as_str()) {
            file.body = body_to_save(body, yaml_of_json(trim(body).as_str()));
        }
        file
    }
}

/// Saving keeps every field but the query parameters, the headers and the body.
pub proof fn law_save_keeps_the_rest(e: GridEditState)
    ensures
        saved_request(e).name == e.original@.name,
        saved_request(e).method == e.original@.method,
        saved_request(e).url == e.original@.url,
        saved_request(e).exports == e.original@.exports,
{
}

/// A save keeps the body of the file, whatever value that is, as long as only rows were edited
/// since the request was opened, and it keeps every other field but the query parameters and the
/// headers.
pub proof fn law_rows_leave_the_rest(
    path: Seq<char>,
    original: request::RequestModel,
    stamp: Stamp,
    e: GridEditState,
    after: GridEditState,
)
    requires
        opened(path, original, stamp, e),
        after.original@ == e.original@,
        after.body_text@ == e.body_text@,
    ensures
        saved_request(after) == (request::RequestModel {
            query: saved_request(after).query,
            headers: saved_request(after).headers,
            ..original
        }),
{
}

/// The value of a key in an optional list.
pub open spec fn list_value(list: Option<Seq<rows::Entry>>, key: Seq<char>) -> Option<Seq<char>> {
    rows::value_of(request::entries_or_none(list), key)
}

/// What is saved gives each key the value of its last row, and has no entry without a key.
pub proof fn law_saved_rows(e: GridEditState, key: Seq<char>)
    ensures
        key.len() > 0 ==> list_value(saved_request(e).query, key) == rows::value_of(
            rows::entries(e.query_rows@),
            key,
        ),
        key.len() > 0 ==> list_value(saved_request(e).headers, key) == rows::value_of(
            rows::entries(e.header_rows@),
            key,
        ),
        list_value(saved_request(e).query, Seq::empty()) is None,
        list_value(saved_request(e).headers, Seq::empty()) is None,
{
    rows::law_collected(rows::entries(e.query_rows@), key);
    rows::law_collected(rows::entries(e.header_rows@), key);
    assert(rows::value_of(Seq::empty(), key) is None);
    assert(rows::value_of(Seq::empty(), Seq::empty()) is None);
}

/// Opening a request and saving it changes no query parameter and no header that has a name.
pub proof fn law_open_and_save_keep_values(
    path: Seq<char>,
    original: request::RequestModel,
    stamp: Stamp,
    e: GridEditState,
    key: Seq<char>,
)
    requires
        request::one_value_each(original),
        opened(path, original, stamp, e),
        key.len() > 0,
    ensures
        list_value(saved_request(e).query, key) == list_value(original.query, key),
        list_value(saved_request(e).headers, key) == list_value(original.headers, key),
{
    law_saved_rows(e, key);
    rows::law_sorted_keeps_values(request::entries_or_none(original.query), key);
    rows::law_sorted_keeps_values(request::entries_or_none(original.headers), key);
}

} // verus!
