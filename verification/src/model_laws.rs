//! What the models say of the values that they are of.

use crate::cli;
use crate::cli::CliError;
use crate::diff;
use crate::diff::DiffKind;
use crate::env;
use crate::env::{EnvError, EnvUpdate, FileWrite};
use crate::exports;
use crate::exports::ExportStep;
use crate::formats;
use crate::formats::JsonNode;
use crate::preview::PreviewData;
use crate::request::RequestFile;
use crate::rows;
use crate::runner;
use crate::runner::{Outgoing, RunError};
use crate::task;
use crate::text;
use crate::undo;
use crate::undo::{GridSnapshot, UndoNode};
use crate::undo_graph;
use vstd::prelude::*;

verus! {

/// Optional texts, and texts of results, are modelled by what is there.
pub proof fn law_models_of_texts(s: String, list: Seq<String>, i: int)
    requires
        0 <= i < list.len(),
    ensures
        formats::opt_text(Some(s)) == Some(s@),
        formats::opt_text(None) is None,
        formats::result_text(Ok(s)) == Ok::<Seq<char>, Seq<char>>(s@),
        formats::result_text(Err(s)) == Err::<Seq<char>, Seq<char>>(s@),
        text::views(list).len() == list.len(),
        text::views(list)[i] == list[i]@,
{
}

/// The model of a request to be sent, or of why there is none, is that of what there is.
pub proof fn law_models_of_plans(o: Outgoing, e: RunError, message: String)
    ensures
        runner::sent_view(Ok(o)) == Ok::<runner::Sent, runner::RunFault>(o@),
        runner::sent_view(Err(e)) == Err::<runner::Sent, runner::RunFault>(e@),
        task::task_view(Ok(o)) == Ok::<runner::Sent, Seq<char>>(o@),
        task::task_view(Err(message)) == Err::<runner::Sent, Seq<char>>(message@),
        e matches RunError::InvalidMethod(s) ==> e@ == runner::RunFault::InvalidMethod(s@),
        e matches RunError::InvalidHeaderName(s) ==> e@ == runner::RunFault::InvalidHeaderName(s@),
        e matches RunError::InvalidHeaderValue(s) ==> e@ == runner::RunFault::InvalidHeaderValue(
            s@,
        ),
        e is InvalidBody ==> e@ == runner::RunFault::InvalidBody,
{
}

/// The model of a request of the command line, or of why there is none, is that of what there is.
pub proof fn law_models_of_arguments(req: RequestFile, e: CliError)
    ensures
        cli::request_view(Ok(req)) is Ok && cli::request_view(Ok(req))->Ok_0 == req@,
        cli::request_view(Err(e)) is Err && cli::request_view(Err(e))->Err_0 == e@,
        e matches CliError::InvalidHeader(s) ==> e@ == cli::CliFault::InvalidHeader(s@),
        e matches CliError::InvalidExport(s) ==> e@ == cli::CliFault::InvalidExport(s@),
        e is MissingUrl ==> e@ == cli::CliFault::MissingUrl,
{
}

/// The model of a JSON value is of the same kind, with the same text.
pub proof fn law_models_of_json(node: JsonNode)
    ensures
        exports::opt_shape(Some(node)) == Some(node@),
        exports::opt_shape(None) is None,
        node is Null ==> node@ == formats::JsonShape::Null,
        node matches JsonNode::Bool(b) ==> node@ == formats::JsonShape::Bool(b),
        node matches JsonNode::Number(s) ==> node@ == formats::JsonShape::Number(s@),
        node matches JsonNode::Text(s) ==> node@ == formats::JsonShape::Text(s@),
        node matches JsonNode::Array(s) ==> node@ == formats::JsonShape::Array(s@),
        node matches JsonNode::Object(s) ==> node@ == formats::JsonShape::Object(s@),
{
}

/// Compact JSON writes a string in quotes, and any other value as its text; the value of a whole
/// text is what the empty pointer addresses.
pub proof fn law_compact_json(s: Seq<char>)
    ensures
        formats::compact(formats::JsonShape::Null) == "null"@,
        formats::compact(formats::JsonShape::Bool(true)) == "true"@,
        formats::compact(formats::JsonShape::Bool(false)) == "false"@,
        formats::compact(formats::JsonShape::Number(s)) == s,
        formats::compact(formats::JsonShape::Array(s)) == s,
        formats::compact(formats::JsonShape::Object(s)) == s,
        formats::compact(formats::JsonShape::Text(s)) == formats::json_quoted(s),
        formats::json_value(s) == formats::json_value_at(s, Seq::empty()),
{
}

/// The models of steps hold their names, values and paths, in the order of the steps.
pub proof fn law_models_of_steps(steps: Seq<ExportStep>, i: int)
    requires
        0 <= i < steps.len(),
    ensures
        exports::acts(steps).len() == steps.len(),
        steps[i] matches ExportStep::Store { name, value } ==> exports::acts(steps)[i]
            == (exports::ExportAct::Store { name: name@, value: value@ }),
        steps[i] matches ExportStep::Missing { name, path } ==> exports::acts(steps)[i]
            == (exports::ExportAct::Missing { name: name@, path: path@ }),
        steps[i] is Skipped ==> exports::acts(steps)[i] == exports::ExportAct::Skipped,
{
}

/// The model of an update holds each file that it writes with its text, in their order, and how it
/// came out.
pub proof fn law_models_of_updates(update: EnvUpdate, e: EnvError, i: int)
    requires
        0 <= i < update.writes@.len(),
    ensures
        update@.0.len() == update.writes@.len(),
        update@.0[i] == (update.writes@[i].path@, update.writes@[i].text@),
        update.outcome is Ok <==> update@.1 is Ok,
        update.outcome == Err::<(), EnvError>(e) ==> update@.1 == Err::<(), env::EnvFault>(e@),
        exports::opt_update(Some(update)) == Some(update@),
        exports::opt_update(None) is None,
        e is Parse ==> e@ == env::EnvFault::Parse,
        e matches EnvError::Serialize(s) ==> e@ == env::EnvFault::Serialize(s@),
{
}

/// The model of writes has the path and the text of each, in their order.
pub proof fn law_models_of_writes(writes: Seq<FileWrite>, i: int)
    requires
        0 <= i < writes.len(),
    ensures
        env::write_texts(writes).len() == writes.len(),
        env::write_texts(writes)[i] == (writes[i].path@, writes[i].text@),
{
}

/// The model of loaded variables holds them, or why there are none.
pub proof fn law_models_of_variables(vars: Vec<(String, String)>, e: EnvError)
    ensures
        env::loaded_view(Ok(vars)) == Ok::<Seq<rows::Entry>, env::EnvFault>(rows::entries(vars@)),
        env::loaded_view(Err(e)) == Err::<Seq<rows::Entry>, env::EnvFault>(e@),
{
}

/// An update finds the variables of the file that it works on, if there is one.
pub proof fn law_variables_that_are_found(files: env::FilesModel)
    ensures
        files.content is Some ==> files.found() == env::loaded(files.content),
        env::active_name(files.active) is Some ==> files.found() == env::loaded(files.content),
{
}

/// Variables that were updated have the new value of the one that was set, and keep all others.
pub proof fn law_updated_variables(
    had: Seq<rows::Entry>,
    has: Seq<rows::Entry>,
    key: Seq<char>,
    value: Seq<char>,
    other: Seq<char>,
)
    requires
        env::updated(had, Ok(has), key, value),
    ensures
        rows::value_of(has, key) == Some(value),
        other != key ==> rows::value_of(has, other) == rows::value_of(had, other),
{
}

/// What is written for an environment is read back with the new value, and with all others kept.
pub proof fn law_written_variables_are_read_back(
    content: Option<Seq<char>>,
    key: Seq<char>,
    value: Seq<char>,
    written: Seq<char>,
    other: Seq<char>,
)
    requires
        env::reads_back(content, key, value, written),
        env::loaded(content) is Ok,
    ensures
        env::loaded(Some(written)) matches Ok(has) && rows::value_of(has, key) == Some(value) && (
        other != key ==> rows::value_of(has, other) == rows::value_of(
            env::loaded(content)->Ok_0,
            other,
        )),
{
}

/// The model of a preview holds each of its parts.
pub proof fn law_model_of_a_preview(p: PreviewData)
    ensures
        p@.top == p.top@,
        p@.query_rows == rows::entries(p.query_rows@),
        p@.header_rows == rows::entries(p.header_rows@),
        p@.body_text == p.body_text@,
        p@.raw_file == p.raw_file@,
{
}

/// The model of a snapshot holds both grids and the body.
pub proof fn law_model_of_a_snapshot(s: GridSnapshot)
    ensures
        s@.query_rows == s.query_rows@,
        s@.header_rows == s.header_rows@,
        s@.body_text == s.body_text,
{
}

/// The models of rows and of lines hold their texts, in their order.
pub proof fn law_models_of_lines(
    lines: Seq<(DiffKind, String)>,
    graph: Seq<(Option<usize>, String)>,
    i: int,
)
    ensures
        diff::diff_texts(lines).len() == lines.len(),
        0 <= i < lines.len() ==> diff::diff_texts(lines)[i] == (lines[i].0, lines[i].1@),
        undo_graph::row_texts(graph).len() == graph.len(),
        0 <= i < graph.len() ==> undo_graph::row_texts(graph)[i] == (graph[i].0, graph[i].1@),
{
}

/// In an undo tree the first state alone comes from none; every other comes from an earlier one,
/// which knows it as one of those that come from it, and those in the order in which they were
/// made.
pub proof fn law_undo_trees(nodes: Seq<UndoNode>, i: int, k: int, l: int)
    requires
        undo::is_tree(nodes),
        0 <= i < nodes.len(),
    ensures
        nodes[i].parent is None <==> i == 0,
        nodes[i].parent matches Some(p) ==> p < i && nodes[p as int].children@.contains(i as usize)
            && nodes[i].depth == nodes[p as int].depth + 1,
        0 <= k < nodes[i].children@.len() ==> {
            let c = nodes[i].children@[k] as int;
            i < c < nodes.len() && nodes[c].parent == Some(i as usize)
        },
        0 <= k < l < nodes[i].children@.len() ==> nodes[i].children@[k] < nodes[i].children@[l],
{
    if i > 0 {
        assert(undo::has_parent(nodes, i));
    }
    if 0 <= k < nodes[i].children@.len() {
        assert(undo::is_child(nodes, i, nodes[i].children@[k] as int));
    }
}

} // verus!
