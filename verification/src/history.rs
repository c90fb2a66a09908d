//! The log of requests and their responses, one JSON object per line.

use crate::calendar;
use crate::calendar::format_unix_timestamp;
use crate::formats;
use crate::formats::quoted_json;
use crate::paths;
use crate::paths::join_path;
use crate::text;
use crate::text::{chars_of, split, trim};
use crate::text_laws;
use vstd::prelude::*;
use vstd::string::*;

verus! {

/// One request and its response.
pub struct HistoryEntry {
    pub timestamp: String,
    pub request_name: String,
    pub method: String,
    pub url: String,
    pub status: String,
    pub response: String,
}

impl Clone for HistoryEntry {
    fn clone(&self) -> (r: Self)
        ensures
            r == *self,
    {
        HistoryEntry {
            timestamp: self.timestamp.clone(),
            request_name: self.request_name.clone(),
            method: self.method.clone(),
            url: self.url.clone(),
            status: self.status.clone(),
            response: self.response.clone(),
        }
    }
}

/// `SystemTime::elapsed` of `UNIX_EPOCH`: the whole seconds since 1970 that the clock shows, or
/// `None` where it shows an earlier time. Nothing is promised of the number.
#[verifier::external_body]
fn seconds_on_clock() -> (r: Option<u64>) {
    std::time::UNIX_EPOCH.elapsed().ok().map(|d| d.as_secs())
}

/// A reading of the clock as Unix time; times before 1970 count as 0.
pub fn unix_of_clock(reading: Option<u64>) -> (secs: u64)
    ensures
        secs == match reading {
            Some(s) => s,
            None => 0,
        },
{
    match reading {
        Some(s) => s,
        None => 0,
    }
}

/// The seconds since 1970 by the clock; 0 where it shows an earlier time.
pub fn now_unix() -> (secs: u64) {
    unix_of_clock(seconds_on_clock())
}

/// The time by the clock, as [`format_unix_timestamp`] writes it.
pub fn current_timestamp() -> (s: String)
    ensures
        exists|secs: u64| s@ == #[trigger] calendar::timestamp_text(secs as nat),
{
    let secs: u64 = now_unix();
    let s: String = format_unix_timestamp(secs);
    assert(s@ == calendar::timestamp_text(secs as nat));
    s
}

/// `line` without a carriage return at its end.
pub open spec fn chomped(line: Seq<char>) -> Seq<char> {
    if line.len() > 0 && line.last() == '\r' {
        line.drop_last()
    } else {
        line
    }
}

/// The lines of `segments` that are not blank, each without a carriage return at its end.
pub open spec fn filled(segments: Seq<Seq<char>>) -> Seq<Seq<char>>
    decreases segments.len(),
{
    if segments.len() == 0 {
        segments
    } else {
        let rest = filled(segments.drop_last());
        let line = chomped(segments.last());
        if text::trimmed(line).len() == 0 {
            rest
        } else {
            rest.push(line)
        }
    }
}

/// The lines of a log that are not blank. Only a line with a line break behind it loses a
/// carriage return at its end.
pub open spec fn log_lines(content: Seq<char>) -> Seq<Seq<char>> {
    let segments = text::pieces(content, '\n');
    let done = filled(segments.drop_last());
    if text::trimmed(segments.last()).len() == 0 {
        done
    } else {
        done.push(segments.last())
    }
}

/// The entries among `parsed`, in their order.
pub open spec fn kept(parsed: Seq<Option<HistoryEntry>>) -> Seq<HistoryEntry>
    decreases parsed.len(),
{
    if parsed.len() == 0 {
        Seq::empty()
    } else {
        match parsed.last() {
            Some(e) => kept(parsed.drop_last()).push(e),
            None => kept(parsed.drop_last()),
        }
    }
}

proof fn lemma_pieces_after_break(c: Seq<char>, l: Seq<char>)
    requires
        c.len() == 0 || c.last() == '\n',
        !l.contains('\n'),
    ensures
        text::pieces(c, '\n').len() > 0,
        text::pieces(c, '\n').last() == Seq::<char>::empty(),
        text::pieces(c + l, '\n') == text::pieces(c, '\n').drop_last().push(l),
    decreases l.len(),
{
    let before = text::pieces(c, '\n');
    text::lemma_pieces_nonempty(c, '\n');
    if l.len() == 0 {
        assert(c + l == c);
        assert(l == Seq::<char>::empty());
        assert(before == before.drop_last().push(l));
    } else {
        let m = l.drop_last();
        assert forall|i: int| 0 <= i < m.len() implies m[i] != '\n' by {
            assert(l[i] != '\n');
        }
        lemma_pieces_after_break(c, m);
        assert((c + l).drop_last() == c + m);
        assert((c + l).last() == l.last());
        assert(l[l.len() - 1] != '\n');
        let p = text::pieces(c + m, '\n');
        assert(p.drop_last() == before.drop_last());
        assert(m.push(l.last()) == l);
    }
}

/// A line that is appended to a log is read back as its last line, and the lines before it stay.
pub proof fn law_appended_line_is_read_back(content: Seq<char>, line: Seq<char>)
    requires
        content.len() == 0 || content.last() == '\n',
        !line.contains('\n'),
        text::trimmed(line).len() > 0,
        line.last() != '\r',
    ensures
        log_lines(content + line + "\n"@) == log_lines(content).push(line),
{
    reveal_strlit("\n");
    lemma_pieces_after_break(content, line);
    let whole = content + line + "\n"@;
    assert(whole.drop_last() == content + line);
    assert(whole.last() == '\n');
    let had = text::pieces(content, '\n');
    let has = text::pieces(whole, '\n');
    assert(has.drop_last() == had.drop_last().push(line));
    assert(has.last() == Seq::<char>::empty());
    assert(had.drop_last().push(line).drop_last() == had.drop_last());
    assert(text::trimmed(Seq::<char>::empty()) == Seq::<char>::empty());
}

/// A line that is appended to a log with a carriage return before its line break is read back
/// without it; a blank line is not read; and a last line without a line break is read as it is.
pub proof fn law_lines_of_a_log(content: Seq<char>, line: Seq<char>)
    requires
        content.len() == 0 || content.last() == '\n',
        !line.contains('\n'),
    ensures
        text::trimmed(line).len() > 0 ==> {
            &&& log_lines(content + line.push('\r') + seq!['\n']) == log_lines(content).push(line)
            &&& log_lines(content + line) == log_lines(content).push(line)
        },
        text::trimmed(line).len() == 0 && (line.len() == 0 || line.last() != '\r') ==> {
            &&& log_lines(content + line + seq!['\n']) == log_lines(content)
            &&& log_lines(content + line) == log_lines(content)
        },
        log_lines(Seq::empty()).len() == 0,
{
    let had = text::pieces(content, '\n');
    let none = Seq::<char>::empty();
    assert(text::trimmed(none) == none);
    lemma_pieces_after_break(content, line);
    let bare = text::pieces(content + line, '\n');
    assert(bare.drop_last() =~= had.drop_last());
    assert(bare.last() == line);
    let whole = content + line + seq!['\n'];
    assert(whole.drop_last() =~= content + line);
    let has = text::pieces(whole, '\n');
    assert(has.drop_last() =~= had.drop_last().push(line));
    assert(has.last() =~= none);
    assert(had.drop_last().push(line).drop_last() =~= had.drop_last());
    let with = line.push('\r');
    assert forall|i: int| 0 <= i < with.len() implies with[i] != '\n' by {
        if i < line.len() {
            assert(with[i] == line[i]);
            assert(line.contains(line[i]));
        }
    }
    lemma_pieces_after_break(content, with);
    let returned = content + with + seq!['\n'];
    assert(returned.drop_last() =~= content + with);
    let read = text::pieces(returned, '\n');
    assert(read.drop_last() =~= had.drop_last().push(with));
    assert(read.last() =~= none);
    assert(had.drop_last().push(with).drop_last() =~= had.drop_last());
    assert(chomped(with) =~= line);
    lemma_pieces_after_break(none, none);
    assert(none + none =~= none);
    let empty = text::pieces(none, '\n');
    assert(empty.len() == 1);
    assert(empty.drop_last() =~= Seq::<Seq<char>>::empty());
}

/// The entries of a log, given what each of its lines is read as.
pub open spec fn log_entries(
    content: Seq<char>,
    read: spec_fn(Seq<char>) -> Option<HistoryEntry>,
) -> Seq<HistoryEntry> {
    kept(log_lines(content).map_values(read))
}

/// An entry that is appended to a log as a line that is read as this entry comes back once, behind
/// the entries that were there.
pub proof fn law_recorded_entry_is_read_back(
    content: Seq<char>,
    line: Seq<char>,
    read: spec_fn(Seq<char>) -> Option<HistoryEntry>,
    entry: HistoryEntry,
)
    requires
        content.len() == 0 || content.last() == '\n',
        !line.contains('\n'),
        text::trimmed(line).len() > 0,
        line.last() != '\r',
        read(line) == Some(entry),
    ensures
        log_entries(content + line + "\n"@, read) == log_entries(content, read).push(entry),
{
    law_appended_line_is_read_back(content, line);
    law_kept_one_more(log_lines(content).map_values(read), Some(entry));
    assert(log_lines(content).push(line).map_values(read) =~= log_lines(content).map_values(
        read,
    ).push(Some(entry)));
}

/// One more line that is an entry adds this entry at the end; one that is none adds nothing.
pub proof fn law_kept_one_more(parsed: Seq<Option<HistoryEntry>>, last: Option<HistoryEntry>)
    ensures
        kept(parsed.push(last)) == match last {
            Some(e) => kept(parsed).push(e),
            None => kept(parsed),
        },
{
    assert(parsed.push(last).drop_last() =~= parsed);
}

/// The line of an entry: a JSON object with its fields in their order.
pub open spec fn entry_line(entry: HistoryEntry) -> Seq<char> {
    "{\"timestamp\":"@ + formats::json_quoted(entry.timestamp@) + ",\"request_name\":"@
        + formats::json_quoted(entry.request_name@) + ",\"method\":"@ + formats::json_quoted(
        entry.method@,
    ) + ",\"url\":"@ + formats::json_quoted(entry.url@) + ",\"status\":"@ + formats::json_quoted(
        entry.status@,
    ) + ",\"response\":"@ + formats::json_quoted(entry.response@) + "}"@
}

/// The line of an entry is a JSON object that has each field under its name.
pub proof fn law_fields_of_a_line(entry: HistoryEntry)
    ensures
        entry_line(entry).len() > 0,
        entry_line(entry)[0] == '{' && entry_line(entry).last() == '}',
        text::occurs(
            entry_line(entry),
            "\"timestamp\":"@ + formats::json_quoted(entry.timestamp@) + ","@,
        ),
        text::occurs(
            entry_line(entry),
            "\"request_name\":"@ + formats::json_quoted(entry.request_name@) + ","@,
        ),
        text::occurs(
            entry_line(entry),
            "\"method\":"@ + formats::json_quoted(entry.method@) + ","@,
        ),
        text::occurs(entry_line(entry), "\"url\":"@ + formats::json_quoted(entry.url@) + ","@),
        text::occurs(
            entry_line(entry),
            "\"status\":"@ + formats::json_quoted(entry.status@) + ","@,
        ),
        text::occurs(
            entry_line(entry),
            "\"response\":"@ + formats::json_quoted(entry.response@) + "}"@,
        ),
{
    reveal_strlit("{\"timestamp\":");
    reveal_strlit(",\"request_name\":");
    reveal_strlit(",\"method\":");
    reveal_strlit(",\"url\":");
    reveal_strlit(",\"status\":");
    reveal_strlit(",\"response\":");
    reveal_strlit("\"timestamp\":");
    reveal_strlit("\"request_name\":");
    reveal_strlit("\"method\":");
    reveal_strlit("\"url\":");
    reveal_strlit("\"status\":");
    reveal_strlit("\"response\":");
    reveal_strlit("}");
    reveal_strlit("{");
    reveal_strlit(",");
    let line = entry_line(entry);
    let t = "\"timestamp\":"@ + formats::json_quoted(entry.timestamp@) + ","@;
    let n = "\"request_name\":"@ + formats::json_quoted(entry.request_name@) + ","@;
    let m = "\"method\":"@ + formats::json_quoted(entry.method@) + ","@;
    let u = "\"url\":"@ + formats::json_quoted(entry.url@) + ","@;
    let s = "\"status\":"@ + formats::json_quoted(entry.status@) + ","@;
    let r = "\"response\":"@ + formats::json_quoted(entry.response@) + "}"@;
    assert("{\"timestamp\":"@ =~= "{"@ + "\"timestamp\":"@);
    assert(",\"request_name\":"@ =~= ","@ + "\"request_name\":"@);
    assert(",\"method\":"@ =~= ","@ + "\"method\":"@);
    assert(",\"url\":"@ =~= ","@ + "\"url\":"@);
    assert(",\"status\":"@ =~= ","@ + "\"status\":"@);
    assert(",\"response\":"@ =~= ","@ + "\"response\":"@);
    let none = Seq::<char>::empty();
    assert(line =~= "{"@ + t + (n + m + u + s + r));
    assert(line =~= ("{"@ + t) + n + (m + u + s + r));
    assert(line =~= ("{"@ + t + n) + m + (u + s + r));
    assert(line =~= ("{"@ + t + n + m) + u + (s + r));
    assert(line =~= ("{"@ + t + n + m + u) + s + r);
    assert(line =~= ("{"@ + t + n + m + u + s) + r + none);
    text_laws::law_occurrences(line, "{"@, t, n + m + u + s + r);
    text_laws::law_occurrences(line, "{"@ + t, n, m + u + s + r);
    text_laws::law_occurrences(line, "{"@ + t + n, m, u + s + r);
    text_laws::law_occurrences(line, "{"@ + t + n + m, u, s + r);
    text_laws::law_occurrences(line, "{"@ + t + n + m + u, s, r);
    text_laws::law_occurrences(line, "{"@ + t + n + m + u + s, r, none);
}

/// Whether a line that is appended to any log is read back: by any reader that takes it for
/// `entry`, this entry is the last of the log, behind the entries that were there.
pub open spec fn comes_back(line: Seq<char>, entry: HistoryEntry) -> bool {
    forall|content: Seq<char>, read: spec_fn(Seq<char>) -> Option<HistoryEntry>|
        (content.len() == 0 || content.last() == '\n') && read(line) == Some(entry)
            ==> #[trigger] log_entries(content + line + "\n"@, read) == log_entries(
            content,
            read,
        ).push(entry)
}

proof fn lemma_comes_back(line: Seq<char>, entry: HistoryEntry)
    requires
        line.len() > 0,
        line[0] == '{',
        line.last() == '}',
        !line.contains('\n'),
    ensures
        comes_back(line, entry),
{
    assert(text::trimmed(line).len() > 0) by {
        assert(text::trimmed_start(line) == line);
        assert(text::trimmed_end(line) == line);
    }
    assert forall|content: Seq<char>, read: spec_fn(Seq<char>) -> Option<HistoryEntry>|
        (content.len() == 0 || content.last() == '\n') && read(line) == Some(
            entry,
        ) implies #[trigger] log_entries(content + line + "\n"@, read) == log_entries(
        content,
        read,
    ).push(entry) by {
        law_recorded_entry_is_read_back(content, line, read, entry);
    }
}

fn add_field(line: &mut String, name: &str, value: &str)
    requires
        !old(line)@.contains('\n'),
        !name@.contains('\n'),
    ensures
        final(line)@ == old(line)@ + name@ + formats::json_quoted(value@),
        !final(line)@.contains('\n'),
{
    line.append(name);
    line.append(quoted_json(value).as_str());
}

/// The log under one configuration directory.
pub struct HistoryManager {
    pub path: String,
}

impl Clone for HistoryManager {
    fn clone(&self) -> (r: Self)
        ensures
            r == *self,
    {
        HistoryManager { path: self.path.clone() }
    }
}

impl HistoryManager {
    /// The log in the file `history.jsonl` of `config_dir`.
    pub fn new(config_dir: &str) -> (r: Self)
        ensures
            r.path@ == paths::under(config_dir@, "history.jsonl"@),
    {
        HistoryManager { path: join_path(config_dir, "history.jsonl") }
    }

    /// The entry of a request that was answered at a given time.
    pub fn entry_at(
        &self,
        secs: u64,
        request_name: &str,
        method: &str,
        url: &str,
        status: &str,
        response: &str,
    ) -> (r: HistoryEntry)
        ensures
            r.timestamp@ == calendar::timestamp_text(secs as nat),
            r.request_name@ == request_name@,
            r.method@ == method@,
            r.url@ == url@,
            r.status@ == status@,
            r.response@ == response@,
    {
        HistoryEntry {
            timestamp: format_unix_timestamp(secs),
            request_name: request_name.to_string(),
            method: method.to_string(),
            url: url.to_string(),
            status: status.to_string(),
            response: response.to_string(),
        }
    }

    /// The entry of a request that was answered just now, to be appended to the log.
    pub fn record(
        &self,
        request_name: &str,
        method: &str,
        url: &str,
        status: &str,
        response: &str,
    ) -> (r: HistoryEntry)
        ensures
            exists|secs: u64| r.timestamp@ == #[trigger] calendar::timestamp_text(secs as nat),
            r.request_name@ == request_name@,
            r.method@ == method@,
            r.url@ == url@,
            r.status@ == status@,
            r.response@ == response@,
    {
        let secs: u64 = now_unix();
        let r: HistoryEntry = self.entry_at(secs, request_name, method, url, status, response);
        assert(r.timestamp@ == calendar::timestamp_text(secs as nat));
        r
    }

    /// The line of an entry, as it is appended to the log with a line break behind it. Line breaks
    /// in its texts are escaped.
    pub fn line_of(&self, entry: &HistoryEntry) -> (r: String)
        ensures
            r@ == entry_line(*entry),
            !r@.contains('\n'),
            comes_back(r@, *entry),
    {
        proof {
            reveal_strlit("{\"timestamp\":");
            reveal_strlit(",\"request_name\":");
            reveal_strlit(",\"method\":");
            reveal_strlit(",\"url\":");
            reveal_strlit(",\"status\":");
            reveal_strlit(",\"response\":");
            reveal_strlit("}");
        }
        let mut line: String = String::new();
        add_field(&mut line, "{\"timestamp\":", entry.timestamp.as_str());
        add_field(&mut line, ",\"request_name\":", entry.request_name.as_str());
        add_field(&mut line, ",\"method\":", entry.method.as_str());
        add_field(&mut line, ",\"url\":", entry.url.as_str());
        add_field(&mut line, ",\"status\":", entry.status.as_str());
        add_field(&mut line, ",\"response\":", entry.response.as_str());
        line.append("}");
        assert(line@ =~= entry_line(*entry));
        proof {
            lemma_comes_back(line@, *entry);
        }
        line
    }

    /// The lines of the log to be read as entries, given what its file holds (`None` where there
    /// is no such file).
    pub fn lines_to_parse(&self, content: &Option<String>) -> (r: Vec<String>)
        ensures
            text::views(r@) == match formats::opt_text(*content) {
                Some(t) => log_lines(t),
                None => Seq::empty(),
            },
    {
        let mut out: Vec<String> = Vec::new();
        assert(text::views(out@) =~= Seq::empty());
        let content: &String = match content {
            Some(t) => t,
            None => {
                return out;
            },
        };
        let segments: Vec<String> = split(content.as_str(), '\n');
        let ghost all = text::views(segments@);
        let n: usize = segments.len();
        assert(all.drop_last().take(0) =~= Seq::empty());
        for i in 0..n - 1
            invariant
                n == segments@.len(),
                n > 0,
                all == text::views(segments@),
                text::views(out@) == filled(all.drop_last().take(i as int)),
        {
            let ghost part = all.drop_last().take(i + 1);
            assert(part.drop_last() == all.drop_last().take(i as int));
            assert(part.last() == segments@[i as int]@);
            let mut line: String = segments[i].clone();
            let cs: Vec<char> = chars_of(line.as_str());
            if cs.len() > 0 && cs[cs.len() - 1] == '\r' {
                let _ = line.pop();
            }
            assert(line@ == chomped(part.last()));
            if !trim(line.as_str()).as_str().is_empty() {
                let ghost done = out@;
                let ghost l = line@;
                out.push(line);
                assert(text::views(out@) == text::views(done).push(l));
            }
        }
        assert(all.drop_last().take(n - 1) == all.drop_last());
        assert(all.last() == segments@[n - 1]@);
        let last: String = segments[n - 1].clone();
        if !trim(last.as_str()).as_str().is_empty() {
            let ghost done = out@;
            let ghost l = last@;
            out.push(last);
            assert(text::views(out@) == text::views(done).push(l));
        }
        out
    }

    /// The entries of the log, given each of its lines as it was read; a line that is no entry is
    /// passed over.
    pub fn load_all(&self, parsed: Vec<Option<HistoryEntry>>) -> (r: Vec<HistoryEntry>)
        ensures
            r@ == kept(parsed@),
    {
        let mut out: Vec<HistoryEntry> = Vec::new();
        for i in 0..parsed.len()
            invariant
                out@ == kept(parsed@.take(i as int)),
        {
            assert(parsed@.take(i + 1).drop_last() == parsed@.take(i as int));
            match &parsed[i] {
                Some(e) => {
                    out.push(e.clone());
                },
                None => {},
            }
        }
        assert(parsed@.take(parsed@.len() as int) == parsed@);
        out
    }
}

} // verus!
