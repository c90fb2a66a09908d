//! The command line: requests given by arguments, and what the commands on environments print.

use crate::env;
use crate::env::EnvManager;
use crate::formats;
use crate::formats::string_of_yaml;
use crate::request;
use crate::request::{body_of_reading, RequestBody, RequestFile};
use crate::rows;
use crate::rows::set_entry;
use crate::styled;
use crate::styled::{add_line, add_piece, one_piece, three_pieces, two_pieces, Piece, Tone};
use crate::text;
use crate::text::{concat2, concat3, same_text, split_once, to_uppercase, trim};
use vstd::prelude::*;
use vstd::string::*;

verus! {

// ---------------------------------------------------------------------------------------------
// Requests
// ---------------------------------------------------------------------------------------------

/// A request as the arguments give it.
pub struct InlineRequest {
    pub url: String,
    pub method: Option<String>,
    pub headers: Vec<String>,
    pub data: Option<String>,
    pub exports: Vec<String>,
}

/// Why the arguments give no request.
pub enum CliError {
    InvalidHeader(String),
    InvalidExport(String),
    MissingUrl,
}

/// The model of a [`CliError`].
pub ghost enum CliFault {
    InvalidHeader(Seq<char>),
    InvalidExport(Seq<char>),
    MissingUrl,
}

impl View for CliError {
    type V = CliFault;

    open spec fn view(&self) -> CliFault {
        match self {
            CliError::InvalidHeader(s) => CliFault::InvalidHeader(s@),
            CliError::InvalidExport(s) => CliFault::InvalidExport(s@),
            CliError::MissingUrl => CliFault::MissingUrl,
        }
    }
}

/// What is said of a fault.
pub open spec fn fault_text(fault: CliFault) -> Seq<char> {
    match fault {
        CliFault::InvalidHeader(h) => "Invalid header format: "@ + h + ". Must be Key: Value"@,
        CliFault::InvalidExport(e) => "Invalid export format: "@ + e + ". Must be Key=JsonPath"@,
        CliFault::MissingUrl =>
            "Missing URL or request file (-f/--file). Run with --help for usage details."@,
    }
}

impl CliError {
    /// What is said of the error.
    pub fn message(&self) -> (r: String)
        ensures
            r@ == fault_text(self@),
    {
        match self {
            CliError::InvalidHeader(h) => concat3(
                "Invalid header format: ",
                h.as_str(),
                ". Must be Key: Value",
            ),
            CliError::InvalidExport(e) => concat3(
                "Invalid export format: ",
                e.as_str(),
                ". Must be Key=JsonPath",
            ),
            CliError::MissingUrl =>
                "Missing URL or request file (-f/--file). Run with --help for usage details.".to_string(),
        }
    }
}

/// Where a request comes from.
pub enum Source {
    /// A request file.
    File(String),
    /// The arguments, with this URL.
    Inline(String),
}

/// Where the request comes from: a file goes before a URL.
pub fn request_source(file: &Option<String>, url: &Option<String>) -> (r: Result<Source, CliError>)
    ensures
        match (*file, *url) {
            (Some(f), _) => r == Ok::<Source, CliError>(Source::File(f)),
            (None, Some(u)) => r == Ok::<Source, CliError>(Source::Inline(u)),
            (None, None) => r == Err::<Source, CliError>(CliError::MissingUrl),
        },
{
    match file {
        Some(f) => Ok(Source::File(f.clone())),
        None => match url {
            Some(u) => Ok(Source::Inline(u.clone())),
            None => Err(CliError::MissingUrl),
        },
    }
}

/// What is said where a request file cannot be read.
pub fn unread_file(path: &str) -> (r: String)
    ensures
        r@ == "Failed to read request file: "@ + path@,
{
    concat2("Failed to read request file: ", path)
}

/// The environment whose variables a request is filled with: the one that is asked for, else the
/// active one, else `default`.
pub open spec fn profile(asked: Option<Seq<char>>, active: Option<Seq<char>>) -> Seq<char> {
    match asked {
        Some(name) => name,
        None => match active {
            Some(name) => name,
            None => "default"@,
        },
    }
}

/// The environment whose variables a request is filled with.
pub fn env_profile(asked: &Option<String>, active: &Option<String>) -> (r: String)
    ensures
        r@ == profile(formats::opt_text(*asked), formats::opt_text(*active)),
{
    match asked {
        Some(name) => name.clone(),
        None => match active {
            Some(name) => name.clone(),
            None => "default".to_string(),
        },
    }
}

/// Texts with all variables filled in.
pub open spec fn filled(texts: Seq<Seq<char>>, vars: Seq<rows::Entry>) -> Seq<Seq<char>> {
    texts.map_values(|t: Seq<char>| env::interpolated(t, vars))
}

/// The entries that texts give, each cut at the first `c` and trimmed; a later one overrides an
/// earlier one with the same key. Or the first of `raw` whose text has no `c`.
pub open spec fn pairs(raw: Seq<Seq<char>>, texts: Seq<Seq<char>>, c: char) -> Result<
    Seq<rows::Entry>,
    Seq<char>,
>
    decreases texts.len(),
{
    if texts.len() == 0 {
        Ok(Seq::empty())
    } else {
        match pairs(raw.drop_last(), texts.drop_last(), c) {
            Err(e) => Err(e),
            Ok(done) => match text::cut_at(texts.last(), c) {
                Some((k, v)) => Ok(rows::with_entry(done, text::trimmed(k), text::trimmed(v))),
                None => Err(raw.last()),
            },
        }
    }
}

/// The body that a text gives: the YAML value where it is one, else the text.
pub open spec fn data_body(data: Seq<char>, read: Option<Option<Seq<char>>>) -> request::BodyModel {
    match request::body_read(data, read) {
        Some(b) => b,
        None => request::BodyModel::Text(data),
    }
}

/// The request that the arguments give, with the variables of an environment filled in.
pub open spec fn inline_request(
    url: Seq<char>,
    method: Option<Seq<char>>,
    headers: Seq<Seq<char>>,
    data: Option<Seq<char>>,
    exports: Seq<Seq<char>>,
    vars: Seq<rows::Entry>,
) -> Result<request::RequestModel, CliFault> {
    match pairs(headers, filled(headers, vars), ':') {
        Err(h) => Err(CliFault::InvalidHeader(h)),
        Ok(header_list) => match pairs(exports, exports, '=') {
            Err(e) => Err(CliFault::InvalidExport(e)),
            Ok(export_list) => Ok(
                request::RequestModel {
                    name: None,
                    method: text::upper(
                        match method {
                            Some(m) => m,
                            None => "GET"@,
                        },
                    ),
                    url: env::interpolated(url, vars),
                    headers: Some(header_list),
                    query: None,
                    body: match data {
                        Some(d) => Some(
                            data_body(
                                env::interpolated(d, vars),
                                formats::yaml_string(env::interpolated(d, vars)),
                            ),
                        ),
                        None => None,
                    },
                    exports: Some(export_list),
                },
            ),
        },
    }
}

/// The model of a result.
pub open spec fn request_view(r: Result<RequestFile, CliError>) -> Result<
    request::RequestModel,
    CliFault,
> {
    match r {
        Ok(f) => Ok(f@),
        Err(e) => Err(e@),
    }
}

proof fn lemma_failure_stays(raw: Seq<Seq<char>>, texts: Seq<Seq<char>>, c: char, k: int)
    requires
        0 <= k <= texts.len(),
        raw.len() == texts.len(),
        pairs(raw.take(k), texts.take(k), c) is Err,
    ensures
        pairs(raw, texts, c) == pairs(raw.take(k), texts.take(k), c),
    decreases texts.len() - k,
{
    if k == texts.len() {
        assert(texts.take(k) == texts && raw.take(k) == raw);
    } else {
        assert(texts.take(k + 1).drop_last() == texts.take(k));
        assert(raw.take(k + 1).drop_last() == raw.take(k));
        lemma_failure_stays(raw, texts, c, k + 1);
    }
}

/// No key is given twice.
pub proof fn law_pairs_are_distinct(raw: Seq<Seq<char>>, texts: Seq<Seq<char>>, c: char)
    ensures
        pairs(raw, texts, c) matches Ok(list) ==> rows::distinct_keys(list),
    decreases texts.len(),
{
    if texts.len() > 0 {
        law_pairs_are_distinct(raw.drop_last(), texts.drop_last(), c);
        if let Ok(done) = pairs(raw.drop_last(), texts.drop_last(), c) {
            if let Some((k, v)) = text::cut_at(texts.last(), c) {
                rows::law_with_entry(done, text::trimmed(k), text::trimmed(v), text::trimmed(k));
            }
        }
    }
}

fn read_pairs(raw: &Vec<String>, texts: &Vec<String>, c: char) -> (r: Result<
    Vec<(String, String)>,
    String,
>)
    requires
        raw@.len() == texts@.len(),
    ensures
        match r {
            Ok(list) => pairs(text::views(raw@), text::views(texts@), c) == Ok::<
                Seq<rows::Entry>,
                Seq<char>,
            >(rows::entries(list@)),
            Err(e) => pairs(text::views(raw@), text::views(texts@), c) == Err::<
                Seq<rows::Entry>,
                Seq<char>,
            >(e@),
        },
{
    let ghost rs = text::views(raw@);
    let ghost ts = text::views(texts@);
    let mut out: Vec<(String, String)> = Vec::new();
    assert(rows::entries(out@) =~= Seq::empty());
    for i in 0..texts.len()
        invariant
            raw@.len() == texts@.len(),
            rs == text::views(raw@),
            ts == text::views(texts@),
            pairs(rs.take(i as int), ts.take(i as int), c) == Ok::<Seq<rows::Entry>, Seq<char>>(
                rows::entries(out@),
            ),
    {
        proof {
            assert(ts.take(i + 1).drop_last() == ts.take(i as int));
            assert(rs.take(i + 1).drop_last() == rs.take(i as int));
            assert(ts.take(i + 1).last() == texts@[i as int]@);
            assert(rs.take(i + 1).last() == raw@[i as int]@);
        }
        match split_once(texts[i].as_str(), c) {
            Some((k, v)) => {
                set_entry(&mut out, trim(k.as_str()).as_str(), trim(v.as_str()).as_str());
            },
            None => {
                proof {
                    lemma_failure_stays(rs, ts, c, i + 1);
                }
                return Err(raw[i].clone());
            },
        }
    }
    assert(ts.take(texts@.len() as int) == ts && rs.take(texts@.len() as int) == rs);
    Ok(out)
}

/// The body that a text gives, given what it reads as.
pub fn body_of_data(data: String, read: Option<Option<String>>) -> (r: RequestBody)
    ensures
        r@ == data_body(
            data@,
            match read {
                Some(s) => Some(formats::opt_text(s)),
                None => None,
            },
        ),
{
    match body_of_reading(data.as_str(), read) {
        Some(b) => b,
        None => RequestBody::Text(data),
    }
}

impl EnvManager {
    fn fill(&self, texts: &Vec<String>, vars: &Vec<(String, String)>) -> (r: Vec<String>)
        ensures
            r@.len() == texts@.len(),
            text::views(r@) == filled(text::views(texts@), rows::entries(vars@)),
    {
        let mut out: Vec<String> = Vec::new();
        for i in 0..texts.len()
            invariant
                out@.len() == i,
                forall|j: int|
                    0 <= j < i ==> #[trigger] out@[j]@ == env::interpolated(
                        texts@[j]@,
                        rows::entries(vars@),
                    ),
        {
            out.push(self.replace_variables(texts[i].as_str(), vars));
        }
        assert(text::views(out@) =~= filled(text::views(texts@), rows::entries(vars@)));
        out
    }

    /// The request that the arguments give, with the variables of an environment filled in.
    pub fn inline_request(&self, args: &InlineRequest, vars: &Vec<(String, String)>) -> (r: Result<
        RequestFile,
        CliError,
    >)
        ensures
            request_view(r) == inline_request(
                args.url@,
                formats::opt_text(args.method),
                text::views(args.headers@),
                formats::opt_text(args.data),
                text::views(args.exports@),
                rows::entries(vars@),
            ),
            r matches Ok(file) ==> file.wf(),
    {
        proof {
            let headers = text::views(args.headers@);
            let exports = text::views(args.exports@);
            law_pairs_are_distinct(headers, filled(headers, rows::entries(vars@)), ':');
            law_pairs_are_distinct(exports, exports, '=');
        }
        let url: String = self.replace_variables(args.url.as_str(), vars);
        let method: String = match &args.method {
            Some(m) => to_uppercase(m.as_str()),
            None => to_uppercase("GET"),
        };
        let filled_headers: Vec<String> = self.fill(&args.headers, vars);
        let headers: Vec<(String, String)> = match read_pairs(&args.headers, &filled_headers, ':') {
            Ok(list) => list,
            Err(h) => {
                return Err(CliError::InvalidHeader(h));
            },
        };
        let body: Option<RequestBody> = match &args.data {
            Some(d) => {
                let data: String = self.replace_variables(d.as_str(), vars);
                let read: Option<Option<String>> = string_of_yaml(data.as_str());
                Some(body_of_data(data, read))
            },
            None => None,
        };
        let exports: Vec<(String, String)> = match read_pairs(&args.exports, &args.exports, '=') {
            Ok(list) => list,
            Err(e) => {
                return Err(CliError::InvalidExport(e));
            },
        };
        Ok(
            RequestFile {
                name: None,
                method,
                url,
                headers: Some(headers),
                query: None,
                body,
                exports: Some(exports),
            },
        )
    }
}

// ---------------------------------------------------------------------------------------------
// Commands on environments
// ---------------------------------------------------------------------------------------------

/// What is printed once a variable is set.
pub fn set_line(key: &str, value: &str, active: &Option<String>) -> (r: Vec<Piece>)
    ensures
        styled::pieces_of(r@) == seq![
            (Tone::Plain, "Set "@),
            (Tone::Cyan, key@),
            (Tone::Plain, " = "@),
            (Tone::Cyan, value@),
            (Tone::Plain, " in environment: "@),
            (Tone::Green, profile(None, formats::opt_text(*active))),
        ],
{
    let mut line: Vec<Piece> = three_pieces(Tone::Plain, "Set ", Tone::Cyan, key, Tone::Plain, " = ");
    add_piece(&mut line, Tone::Cyan, value);
    add_piece(&mut line, Tone::Plain, " in environment: ");
    add_piece(&mut line, Tone::Green, env_profile(&None, active).as_str());
    assert(styled::pieces_of(line@) =~= seq![
        (Tone::Plain, "Set "@),
        (Tone::Cyan, key@),
        (Tone::Plain, " = "@),
        (Tone::Cyan, value@),
        (Tone::Plain, " in environment: "@),
        (Tone::Green, profile(None, formats::opt_text(*active))),
    ]);
    line
}

/// What is printed once another environment is active.
pub fn use_line(name: &str) -> (r: Vec<Piece>)
    ensures
        styled::pieces_of(r@) == seq![
            (Tone::Plain, "Switched to environment: "@),
            (Tone::GreenBold, name@),
        ],
{
    two_pieces(Tone::Plain, "Switched to environment: ", Tone::GreenBold, name)
}

/// The line of an environment in the list.
pub open spec fn env_row(name: Seq<char>, active: Option<Seq<char>>) -> styled::LineModel {
    if active == Some(name) {
        seq![(Tone::Plain, "* "@), (Tone::GreenBold, name), (Tone::Plain, " (active)"@)]
    } else {
        seq![(Tone::Plain, "  "@ + name)]
    }
}

/// The list of environments.
pub open spec fn env_list(
    names: Seq<Seq<char>>,
    active: Option<Seq<char>>,
) -> Seq<styled::LineModel> {
    seq![seq![(Tone::Bold, "Available Environments:"@)]] + names.map_values(
        |n: Seq<char>| env_row(n, active),
    )
}

/// The list of environments, with a star at the active one.
pub fn list_lines(names: &Vec<String>, active: &Option<String>) -> (r: Vec<Vec<Piece>>)
    ensures
        styled::lines_of(r@) == env_list(text::views(names@), formats::opt_text(*active)),
{
    let ghost all = text::views(names@);
    let ghost act = formats::opt_text(*active);
    let mut lines: Vec<Vec<Piece>> = Vec::new();
    assert(styled::lines_of(lines@) =~= Seq::empty());
    add_line(&mut lines, one_piece(Tone::Bold, "Available Environments:"));
    assert(styled::lines_of(lines@) =~= env_list(all.take(0), act));
    for i in 0..names.len()
        invariant
            all == text::views(names@),
            act == formats::opt_text(*active),
            styled::lines_of(lines@) == env_list(all.take(i as int), act),
    {
        let here: bool = match active {
            Some(a) => same_text(names[i].as_str(), a.as_str()),
            None => false,
        };
        let line: Vec<Piece> = if here {
            three_pieces(
                Tone::Plain,
                "* ",
                Tone::GreenBold,
                names[i].as_str(),
                Tone::Plain,
                " (active)",
            )
        } else {
            one_piece(Tone::Plain, concat2("  ", names[i].as_str()).as_str())
        };
        assert(styled::pieces_of(line@) == env_row(all[i as int], act));
        add_line(&mut lines, line);
        assert(all.take(i + 1) =~= all.take(i as int).push(all[i as int]));
        assert(styled::lines_of(lines@) =~= env_list(all.take(i + 1), act));
    }
    assert(all.take(names@.len() as int) == all);
    lines
}

/// The line of a variable.
pub open spec fn variable_row(entry: rows::Entry) -> styled::LineModel {
    seq![(Tone::Plain, "  "@), (Tone::Cyan, entry.0), (Tone::Plain, " = "@ + entry.1)]
}

/// The line of the active environment.
pub open spec fn active_row(active: Option<Seq<char>>) -> styled::LineModel {
    match active {
        Some(name) => seq![(Tone::Plain, "Active environment: "@), (Tone::GreenBold, name)],
        None => seq![
            (
                Tone::Plain,
                "No active environment. Use 'rnm env use <name>' to activate one."@,
            ),
        ],
    }
}

/// The lines of variables.
pub open spec fn variable_rows(vars: Seq<rows::Entry>) -> Seq<styled::LineModel> {
    if vars.len() == 0 {
        seq![seq![(Tone::Plain, "No variables defined."@)]]
    } else {
        vars.map_values(|e: rows::Entry| variable_row(e))
    }
}

/// What is printed of the active environment.
pub fn active_line(active: &Option<String>) -> (r: Vec<Piece>)
    ensures
        styled::pieces_of(r@) == active_row(formats::opt_text(*active)),
{
    match active {
        Some(name) => two_pieces(
            Tone::Plain,
            "Active environment: ",
            Tone::GreenBold,
            name.as_str(),
        ),
        None => one_piece(
            Tone::Plain,
            "No active environment. Use 'rnm env use <name>' to activate one.",
        ),
    }
}

/// What is printed of variables, in their order.
pub fn variable_lines(vars: &Vec<(String, String)>) -> (r: Vec<Vec<Piece>>)
    ensures
        styled::lines_of(r@) == variable_rows(rows::entries(vars@)),
{
    let ghost all = rows::entries(vars@);
    let mut lines: Vec<Vec<Piece>> = Vec::new();
    assert(styled::lines_of(lines@) =~= all.take(0).map_values(|e: rows::Entry| variable_row(e)));
    if vars.is_empty() {
        add_line(&mut lines, one_piece(Tone::Plain, "No variables defined."));
        assert(styled::lines_of(lines@) =~= variable_rows(all));
        return lines;
    }
    for i in 0..vars.len()
        invariant
            all == rows::entries(vars@),
            styled::lines_of(lines@) == all.take(i as int).map_values(
                |e: rows::Entry| variable_row(e),
            ),
    {
        add_line(
            &mut lines,
            three_pieces(
                Tone::Plain,
                "  ",
                Tone::Cyan,
                vars[i].0.as_str(),
                Tone::Plain,
                concat2(" = ", vars[i].1.as_str()).as_str(),
            ),
        );
        assert(all.take(i + 1) =~= all.take(i as int).push(all[i as int]));
        assert(styled::lines_of(lines@) =~= all.take(i + 1).map_values(
            |e: rows::Entry| variable_row(e),
        ));
    }
    assert(all.take(vars@.len() as int) == all);
    lines
}

} // verus!
