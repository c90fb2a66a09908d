//! Values of a response that are exported to the environment.

use crate::env;
use crate::env::{EnvFiles, EnvManager, EnvUpdate};
use crate::formats;
use crate::formats::{json_at, pretty_json, JsonNode};
use crate::request;
use crate::rows;
use crate::text;
use crate::text::{concat2, replace_all, split};
use vstd::prelude::*;
use vstd::string::*;

verus! {

/// A key as it stands in a JSON pointer.
pub open spec fn escaped(part: Seq<char>) -> Seq<char> {
    text::replaced(text::replaced(part, "~"@, "~0"@), "/"@, "~1"@)
}

/// The pointer of the member `part` of the object at `pointer`.
pub open spec fn member(pointer: Seq<char>, part: Seq<char>) -> Seq<char> {
    pointer + "/"@ + escaped(part)
}

/// The value that the keys `parts` lead to from the value at `pointer`: each but the last must
/// give an object.
pub open spec fn dotted(body: Seq<char>, pointer: Seq<char>, parts: Seq<Seq<char>>) -> Option<
    formats::JsonShape,
>
    decreases parts.len(),
{
    if parts.len() == 0 {
        formats::json_value_at(body, pointer)
    } else {
        match formats::json_value_at(body, pointer) {
            Some(formats::JsonShape::Object(_)) => dotted(
                body,
                member(pointer, parts[0]),
                parts.skip(1),
            ),
            _ => None,
        }
    }
}

/// The value that a path leads to: a JSON pointer where it starts with a slash, else keys with
/// dots between them.
pub open spec fn resolved(body: Seq<char>, path: Seq<char>) -> Option<formats::JsonShape> {
    if path.len() > 0 && path[0] == '/' {
        formats::json_value_at(body, path)
    } else {
        dotted(body, Seq::empty(), text::pieces(path, '.'))
    }
}

/// A JSON value as the value of a variable: a string without its quotes, anything else as JSON.
pub open spec fn variable_text(value: formats::JsonShape) -> Seq<char> {
    match value {
        formats::JsonShape::Null => "null"@,
        formats::JsonShape::Bool(true) => "true"@,
        formats::JsonShape::Bool(false) => "false"@,
        formats::JsonShape::Number(s) => s,
        formats::JsonShape::Text(s) => s,
        formats::JsonShape::Array(s) => s,
        formats::JsonShape::Object(s) => s,
    }
}

/// What is to be done for one export.
pub enum ExportStep {
    /// Set a variable in the active environment.
    Store { name: String, value: String },
    /// Nothing: the response has no such value.
    Missing { name: String, path: String },
    /// Nothing: the response is no JSON.
    Skipped,
}

/// The model of an [`ExportStep`].
pub ghost enum ExportAct {
    Store { name: Seq<char>, value: Seq<char> },
    Missing { name: Seq<char>, path: Seq<char> },
    Skipped,
}

impl View for ExportStep {
    type V = ExportAct;

    open spec fn view(&self) -> ExportAct {
        match self {
            ExportStep::Store { name, value } => ExportAct::Store { name: name@, value: value@ },
            ExportStep::Missing { name, path } => ExportAct::Missing { name: name@, path: path@ },
            ExportStep::Skipped => ExportAct::Skipped,
        }
    }
}

/// The models of steps.
pub open spec fn acts(steps: Seq<ExportStep>) -> Seq<ExportAct> {
    steps.map_values(|s: ExportStep| s@)
}

/// What is to be done for the export of `path` as `name`, given the value found.
pub open spec fn export_act(
    name: Seq<char>,
    path: Seq<char>,
    found: Option<formats::JsonShape>,
) -> ExportAct {
    match found {
        Some(v) => ExportAct::Store { name, value: variable_text(v) },
        None => ExportAct::Missing { name, path },
    }
}

/// What is to be done for the exports of a JSON response, in their order.
pub open spec fn export_acts(exports: Seq<rows::Entry>, body: Seq<char>) -> Seq<ExportAct> {
    exports.map_values(|e: rows::Entry| export_act(e.0, e.1, resolved(body, e.1)))
}

/// What is to be done for the exports of any response.
pub open spec fn all_export_acts(
    exports: Option<Seq<rows::Entry>>,
    body: Seq<char>,
) -> Seq<ExportAct> {
    match exports {
        Some(list) => if formats::json_indented(body) is Some {
            export_acts(list, body)
        } else {
            seq![ExportAct::Skipped]
        },
        None => Seq::empty(),
    }
}

/// The model of an optional value.
pub open spec fn opt_shape(o: Option<JsonNode>) -> Option<formats::JsonShape> {
    match o {
        Some(v) => Some(v@),
        None => None,
    }
}

/// The pointer of the member `part` of the value at `pointer`, given that value; none where it is
/// no object.
pub fn member_pointer(pointer: &str, value: &Option<JsonNode>, part: &str) -> (r: Option<String>)
    ensures
        formats::opt_text(r) == match opt_shape(*value) {
            Some(formats::JsonShape::Object(_)) => Some(member(pointer@, part@)),
            _ => None,
        },
{
    match value {
        Some(JsonNode::Object(_)) => {
            proof {
                reveal_strlit("~");
                reveal_strlit("/");
            }
            let tilde: String = replace_all(part, "~", "~0");
            let key: String = replace_all(tilde.as_str(), "/", "~1");
            let mut next: String = concat2(pointer, "/");
            next.append(key.as_str());
            Some(next)
        },
        _ => None,
    }
}

/// The value that a path leads to in a JSON text, such as `token`, `user.id` or `/token`.
pub fn resolve_json_path(body: &str, path: &str) -> (r: Option<JsonNode>)
    ensures
        opt_shape(r) == resolved(body@, path@),
{
    if !path.is_empty() && path.get_char(0) == '/' {
        return json_at(body, path);
    }
    let parts: Vec<String> = split(path, '.');
    let mut pointer: String = String::new();
    let ghost all = text::views(parts@);
    assert(all.skip(0) == all);
    for i in 0..parts.len()
        invariant
            all == text::views(parts@),
            resolved(body@, path@) == dotted(body@, pointer@, all.skip(i as int)),
    {
        let value: Option<JsonNode> = json_at(body, pointer.as_str());
        proof {
            assert(all.skip(i as int)[0] == parts@[i as int]@);
            assert(all.skip(i as int).skip(1) == all.skip(i + 1));
        }
        match member_pointer(pointer.as_str(), &value, parts[i].as_str()) {
            Some(next) => {
                pointer = next;
            },
            None => {
                return None;
            },
        }
    }
    json_at(body, pointer.as_str())
}

/// A JSON value as the value of a variable.
pub fn node_text(value: JsonNode) -> (r: String)
    ensures
        r@ == variable_text(value@),
{
    match value {
        JsonNode::Null => "null".to_string(),
        JsonNode::Bool(b) => if b {
            "true".to_string()
        } else {
            "false".to_string()
        },
        JsonNode::Number(s) => s,
        JsonNode::Text(s) => s,
        JsonNode::Array(s) => s,
        JsonNode::Object(s) => s,
    }
}

/// What is to be done for one export, given the value found.
pub fn export_step(name: &str, path: &str, found: Option<JsonNode>) -> (r: ExportStep)
    ensures
        r@ == export_act(name@, path@, opt_shape(found)),
{
    match found {
        Some(v) => ExportStep::Store { name: name.to_string(), value: node_text(v) },
        None => ExportStep::Missing { name: name.to_string(), path: path.to_string() },
    }
}

/// What is to be done for the exports of a JSON response, in their order.
pub fn export_steps(body: &str, exports: &Vec<(String, String)>) -> (r: Vec<ExportStep>)
    ensures
        acts(r@) == export_acts(rows::entries(exports@), body@),
{
    let mut out: Vec<ExportStep> = Vec::new();
    let ghost list = rows::entries(exports@);
    for i in 0..exports.len()
        invariant
            list == rows::entries(exports@),
            acts(out@) == export_acts(list.take(i as int), body@),
    {
        let path: &str = exports[i].1.as_str();
        let ghost done = out@;
        let step: ExportStep = export_step(
            exports[i].0.as_str(),
            path,
            resolve_json_path(body, path),
        );
        let ghost act = step@;
        out.push(step);
        assert(list[i as int] == (exports@[i as int].0@, exports@[i as int].1@));
        assert(acts(out@) =~= acts(done).push(act));
        assert(list.take(i + 1) =~= list.take(i as int).push(list[i as int]));
        assert(acts(out@) =~= export_acts(list.take(i + 1), body@));
    }
    assert(list.take(exports@.len() as int) == list);
    out
}

/// What is to be done for the exports of a response: nothing without exports, and a note where the
/// response is no JSON.
pub fn all_export_steps(body: &str, exports: &Option<Vec<(String, String)>>) -> (r: Vec<ExportStep>)
    ensures
        acts(r@) == all_export_acts(request::opt_entries(*exports), body@),
{
    match exports {
        Some(list) => if pretty_json(body).is_some() {
            export_steps(body, list)
        } else {
            let mut out: Vec<ExportStep> = Vec::new();
            out.push(ExportStep::Skipped);
            assert(acts(out@) =~= seq![ExportAct::Skipped]);
            out
        },
        None => {
            let none: Vec<ExportStep> = Vec::new();
            assert(acts(none@) =~= Seq::empty());
            none
        },
    }
}

/// Keys as a JSON pointer.
pub open spec fn pointer_of(parts: Seq<Seq<char>>) -> Seq<char>
    decreases parts.len(),
{
    if parts.len() == 0 {
        Seq::empty()
    } else {
        "/"@ + escaped(parts[0]) + pointer_of(parts.skip(1))
    }
}

/// What keys with dots lead to is what the pointer of the same keys addresses.
pub proof fn law_dots_agree_with_pointers(
    body: Seq<char>,
    pointer: Seq<char>,
    parts: Seq<Seq<char>>,
)
    ensures
        dotted(body, pointer, parts) is Some ==> dotted(body, pointer, parts)
            == formats::json_value_at(body, pointer + pointer_of(parts)),
    decreases parts.len(),
{
    if parts.len() == 0 {
        assert(pointer + pointer_of(parts) == pointer);
    } else {
        law_dots_agree_with_pointers(body, member(pointer, parts[0]), parts.skip(1));
        assert(member(pointer, parts[0]) + pointer_of(parts.skip(1)) == pointer + pointer_of(
            parts,
        ));
    }
}

/// Every export comes to one step, in the order of the exports: its variable is set exactly where
/// its path leads to a value.
pub proof fn law_each_export_has_its_step(exports: Seq<rows::Entry>, body: Seq<char>, i: int)
    requires
        0 <= i < exports.len(),
    ensures
        export_acts(exports, body).len() == exports.len(),
        export_acts(exports, body)[i] is Store <==> resolved(body, exports[i].1) is Some,
        export_acts(exports, body)[i] is Missing <==> resolved(body, exports[i].1) is None,
{
}

// ---------------------------------------------------------------------------------------------
// Storing
// ---------------------------------------------------------------------------------------------

/// What the files of the active environment hold once the variables of `acts` are stored.
pub open spec fn files_after(
    config_dir: Seq<char>,
    files: env::FilesModel,
    acts: Seq<ExportAct>,
) -> env::FilesModel
    decreases acts.len(),
{
    if acts.len() == 0 {
        files
    } else {
        let before = files_after(config_dir, files, acts.drop_last());
        match acts.last() {
            ExportAct::Store { name, value } => env::after_update(config_dir, before, name, value),
            _ => before,
        }
    }
}

/// The update of the environment for the step `i` of `acts`; none where it stores nothing.
pub open spec fn update_for(
    config_dir: Seq<char>,
    files: env::FilesModel,
    acts: Seq<ExportAct>,
    i: int,
) -> Option<(Seq<(Seq<char>, Seq<char>)>, Result<(), env::EnvFault>)> {
    match acts[i] {
        ExportAct::Store { name, value } => {
            let before = files_after(config_dir, files, acts.take(i));
            Some(env::variable_update(config_dir, before.active, before.content, name, value))
        },
        _ => None,
    }
}

/// The value that `acts` store last for a variable.
pub open spec fn stored(acts: Seq<ExportAct>, key: Seq<char>) -> Option<Seq<char>>
    decreases acts.len(),
{
    if acts.len() == 0 {
        None
    } else {
        match acts.last() {
            ExportAct::Store { name, value } => if name == key {
                Some(value)
            } else {
                stored(acts.drop_last(), key)
            },
            _ => stored(acts.drop_last(), key),
        }
    }
}

/// Whether variables are those that were there, with all that `acts` store.
pub open spec fn all_stored(
    had: Seq<rows::Entry>,
    has: Result<Seq<rows::Entry>, env::EnvFault>,
    acts: Seq<ExportAct>,
) -> bool {
    &&& has is Ok
    &&& forall|key: Seq<char>| #[trigger]
        rows::value_of(has->Ok_0, key) == match stored(acts, key) {
            Some(v) => Some(v),
            None => rows::value_of(had, key),
        }
}

/// The model of an optional update.
pub open spec fn opt_update(o: Option<EnvUpdate>) -> Option<
    (Seq<(Seq<char>, Seq<char>)>, Result<(), env::EnvFault>),
> {
    match o {
        Some(u) => Some(u@),
        None => None,
    }
}

impl EnvManager {
    /// The updates of the active environment for steps of exports, in their order, given what its
    /// files hold, and what they hold afterwards. Where the variables can be read, every update
    /// succeeds, and all that was exported can be read back.
    pub fn store_exports(&self, files: EnvFiles, steps: &Vec<ExportStep>) -> (r: (
        Vec<Option<EnvUpdate>>,
        EnvFiles,
    ))
        ensures
            r.0@.len() == steps@.len(),
            forall|i: int|
                0 <= i < steps@.len() ==> opt_update(#[trigger] r.0@[i]) == update_for(
                    self.config_dir@,
                    files@,
                    acts(steps@),
                    i,
                ),
            r.1@ == files_after(self.config_dir@, files@, acts(steps@)),
            files@.found() matches Ok(had) ==> all_stored(had, r.1@.found(), acts(steps@)),
            files@.found() is Ok ==> forall|i: int|
                0 <= i < steps@.len() ==> (#[trigger] r.0@[i] matches Some(u) ==> u.outcome is Ok),
    {
        let ghost all = acts(steps@);
        let ghost start = files@;
        let mut out: Vec<Option<EnvUpdate>> = Vec::new();
        let mut now: EnvFiles = files;
        for i in 0..steps.len()
            invariant
                all == acts(steps@),
                out@.len() == i,
                forall|j: int|
                    0 <= j < i ==> opt_update(#[trigger] out@[j]) == update_for(
                        self.config_dir@,
                        start,
                        all,
                        j,
                    ),
                now@ == files_after(self.config_dir@, start, all.take(i as int)),
                start.found() matches Ok(had) ==> all_stored(
                    had,
                    now@.found(),
                    all.take(i as int),
                ),
                start.found() is Ok ==> forall|j: int|
                    0 <= j < i ==> (#[trigger] out@[j] matches Some(u) ==> u.outcome is Ok),
        {
            let ghost before = now@;
            proof {
                assert(all.take(i + 1).drop_last() == all.take(i as int));
                assert(all.take(i + 1).last() == steps@[i as int]@);
                assert(all[i as int] == steps@[i as int]@);
            }
            match &steps[i] {
                ExportStep::Store { name, value } => {
                    let (update, next): (EnvUpdate, EnvFiles) = self.update_files(
                        now,
                        name.as_str(),
                        value.as_str(),
                    );
                    now = next;
                    out.push(Some(update));
                },
                _ => {
                    out.push(None);
                },
            }
        }
        assert(all.take(steps@.len() as int) == all);
        (out, now)
    }
}

} // verus!
