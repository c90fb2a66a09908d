//! The state of the terminal interface, and what outside events do to it.

use crate::calendar;
use crate::env::EnvManager;
use crate::grid::GridEditState;
use crate::grid_file;
use crate::history::{HistoryEntry, HistoryManager};
use crate::paths;
use crate::paths::{extension, file_name, file_name_or, same_path};
use crate::request::RequestFile;
use crate::telescope::{Telescope, TelescopeAction, TelescopeItem};
use crate::text;
use crate::text::{concat2, contains, same_text};
use crate::undo::Stamp;
use vstd::prelude::*;
use vstd::string::*;

verus! {

/// The panel that has the focus.
#[derive(Clone, Copy, PartialEq, Eq, Structural, Debug)]
pub enum ActivePanel {
    Preview,
    Environments,
    Response,
}

/// The terminal interface.
pub struct TuiApp {
    pub env_manager: EnvManager,
    /// The request files that are open.
    pub buffers: Vec<String>,
    /// The buffer that is shown.
    pub selected_buffer: Option<usize>,
    pub envs: Vec<String>,
    pub env_scroll: u16,
    pub selected_panel: ActivePanel,
    /// The panel of the left column to return to from the response.
    pub last_left_panel: ActivePanel,
    pub response_view: String,
    pub status_view: String,
    /// The requests that are in flight.
    pub running_requests: Vec<String>,
    /// The one of them whose result is to be shown.
    pub focused_request: Option<String>,
    pub response_scroll: u16,
    pub show_help: bool,
    pub spinner_frame: usize,
    pub preview_scroll: u16,
    /// Whether the space bar was pressed last.
    pub leader_pending: bool,
    pub telescope: Telescope,
    pub history_manager: HistoryManager,
    pub history: Vec<HistoryEntry>,
    pub history_active: bool,
    pub selected_entry: Option<usize>,
    pub grid_edit: Option<GridEditState>,
}

/// The place of the first path in `list` that is the same as `path`; the end where there is none.
pub open spec fn path_index(list: Seq<Seq<char>>, path: Seq<char>) -> nat
    decreases list.len(),
{
    if list.len() == 0 {
        0
    } else if paths::same(list[0], path) {
        0
    } else {
        1 + path_index(list.skip(1), path)
    }
}

/// Whether `path` is in `list`.
pub open spec fn listed(list: Seq<Seq<char>>, path: Seq<char>) -> bool {
    path_index(list, path) < list.len()
}

/// Whether no path is in `list` twice.
pub open spec fn distinct_paths(list: Seq<Seq<char>>) -> bool {
    forall|i: int, j: int|
        0 <= i < j < list.len() ==> !paths::same(#[trigger] list[i], #[trigger] list[j])
}

/// `list` without those paths that are the same as `path`.
pub open spec fn without_path(list: Seq<Seq<char>>, path: Seq<char>) -> Seq<Seq<char>>
    decreases list.len(),
{
    if list.len() == 0 {
        list
    } else if paths::same(list.last(), path) {
        without_path(list.drop_last(), path)
    } else {
        without_path(list.drop_last(), path).push(list.last())
    }
}

/// A selection in a list of `len` items: there is one exactly where there are items.
pub open spec fn selects(selected: Option<usize>, len: nat) -> bool {
    match selected {
        Some(i) => i < len,
        None => len == 0,
    }
}

impl TuiApp {
    /// Whether the selections lie in their lists, no file is open or running twice, the request
    /// whose result is awaited is running, and the popups are in order.
    pub open spec fn wf(&self) -> bool {
        &&& selects(self.selected_buffer, self.buffers@.len())
        &&& distinct_paths(text::views(self.buffers@))
        &&& selects(self.selected_entry, self.history@.len())
        &&& distinct_paths(text::views(self.running_requests@))
        &&& self.focused_request matches Some(p) ==> listed(
            text::views(self.running_requests@),
            p@,
        )
        &&& self.telescope.in_range()
        &&& self.last_left_panel != ActivePanel::Response
        &&& self.grid_edit matches Some(e) ==> e.wf()
    }

    /// The buffer that is shown.
    pub open spec fn current(&self) -> Option<String> {
        match self.selected_buffer {
            Some(i) => if i < self.buffers@.len() {
                Some(self.buffers@[i as int])
            } else {
                None
            },
            None => None,
        }
    }
}

// ---------------------------------------------------------------------------------------------
// Paths in lists
// ---------------------------------------------------------------------------------------------

/// The place of the first path in `list` that is the same as `path`.
pub fn find_path(list: &Vec<String>, path: &str) -> (r: Option<usize>)
    ensures
        match r {
            Some(i) => i == path_index(text::views(list@), path@) && listed(
                text::views(list@),
                path@,
            ),
            None => !listed(text::views(list@), path@),
        },
{
    let ghost all = text::views(list@);
    assert(all.skip(0) == all);
    for i in 0..list.len()
        invariant
            all == text::views(list@),
            path_index(all, path@) == i + path_index(all.skip(i as int), path@),
    {
        let ghost rest = all.skip(i as int);
        assert(rest[0] == list@[i as int]@);
        assert(rest.skip(1) == all.skip(i + 1));
        if same_path(list[i].as_str(), path) {
            return Some(i);
        }
    }
    assert(all.skip(list@.len() as int).len() == 0);
    None
}

fn remove_path(list: &Vec<String>, path: &str) -> (r: Vec<String>)
    ensures
        text::views(r@) == without_path(text::views(list@), path@),
{
    let ghost all = text::views(list@);
    let mut out: Vec<String> = Vec::new();
    assert(text::views(out@) =~= all.take(0));
    for i in 0..list.len()
        invariant
            all == text::views(list@),
            text::views(out@) == without_path(all.take(i as int), path@),
    {
        let ghost part = all.take(i + 1);
        assert(part.drop_last() == all.take(i as int));
        assert(part.last() == list@[i as int]@);
        if !same_path(list[i].as_str(), path) {
            let ghost done = out@;
            out.push(list[i].clone());
            assert(text::views(out@) =~= text::views(done).push(list@[i as int]@));
        }
    }
    assert(all.take(list@.len() as int) == all);
    out
}

/// What stands before and at the place of a path.
pub proof fn lemma_path_index(list: Seq<Seq<char>>, path: Seq<char>)
    ensures
        path_index(list, path) <= list.len(),
        forall|i: int| 0 <= i < path_index(list, path) ==> !paths::same(#[trigger] list[i], path),
        listed(list, path) ==> paths::same(list[path_index(list, path) as int], path),
        !listed(list, path) ==> forall|i: int|
            0 <= i < list.len() ==> !paths::same(#[trigger] list[i], path),
    decreases list.len(),
{
    if list.len() > 0 && !paths::same(list[0], path) {
        let rest = list.skip(1);
        lemma_path_index(rest, path);
        assert forall|i: int| 0 <= i < path_index(list, path) implies !paths::same(
            #[trigger] list[i],
            path,
        ) by {
            if i > 0 {
                assert(rest[i - 1] == list[i]);
            }
        }
        if !listed(list, path) {
            assert forall|i: int| 0 <= i < list.len() implies !paths::same(
                #[trigger] list[i],
                path,
            ) by {
                if i > 0 {
                    assert(rest[i - 1] == list[i]);
                }
            }
        }
    }
}

/// A path that is the same as one in a list is in the list.
pub proof fn lemma_listed(list: Seq<Seq<char>>, path: Seq<char>, i: int)
    requires
        0 <= i < list.len(),
        paths::same(list[i], path),
    ensures
        listed(list, path),
        path_index(list, path) <= i,
{
    lemma_path_index(list, path);
}

/// Adding a path that is not listed keeps a list without doubles.
pub proof fn lemma_pushed_is_distinct(list: Seq<Seq<char>>, path: Seq<char>)
    requires
        distinct_paths(list),
        !listed(list, path),
    ensures
        distinct_paths(list.push(path)),
        listed(list.push(path), path),
        path_index(list.push(path), path) == list.len(),
{
    lemma_path_index(list, path);
    let all = list.push(path);
    lemma_path_index(all, path);
    lemma_listed(all, path, list.len() as int);
    assert forall|i: int, j: int| 0 <= i < j < all.len() implies !paths::same(
        #[trigger] all[i],
        #[trigger] all[j],
    ) by {
        assert(all[i] == list[i]);
        if j < list.len() {
            assert(all[j] == list[j]);
        }
    }
    let k = path_index(all, path) as int;
    if k < list.len() {
        assert(all[k] == list[k]);
    }
}

/// Taking a path out of a list takes out nothing else.
pub proof fn lemma_without_path(list: Seq<Seq<char>>, path: Seq<char>)
    requires
        distinct_paths(list),
    ensures
        distinct_paths(without_path(list, path)),
        !listed(without_path(list, path), path),
        forall|i: int|
            0 <= i < without_path(list, path).len() ==> list.contains(
                #[trigger] without_path(list, path)[i],
            ),
        forall|i: int|
            0 <= i < list.len() && !paths::same(#[trigger] list[i], path) ==> without_path(
                list,
                path,
            ).contains(list[i]),
    decreases list.len(),
{
    if list.len() > 0 {
        let rest = list.drop_last();
        assert(distinct_paths(rest)) by {
            assert forall|i: int, j: int| 0 <= i < j < rest.len() implies !paths::same(
                #[trigger] rest[i],
                #[trigger] rest[j],
            ) by {
                assert(rest[i] == list[i] && rest[j] == list[j]);
            }
        }
        lemma_without_path(rest, path);
        let before = without_path(rest, path);
        let all = without_path(list, path);
        assert forall|i: int| 0 <= i < before.len() implies list.contains(#[trigger] before[i]) by {
            let k = choose|k: int| 0 <= k < rest.len() && rest[k] == before[i];
            assert(list[k] == before[i]);
        }
        assert(list[list.len() - 1] == list.last());
        if !paths::same(list.last(), path) {
            assert(all == before.push(list.last()));
            assert forall|i: int, j: int| 0 <= i < j < all.len() implies !paths::same(
                #[trigger] all[i],
                #[trigger] all[j],
            ) by {
                assert(all[i] == before[i]);
                if j < before.len() {
                    assert(all[j] == before[j]);
                } else {
                    let k = choose|k: int| 0 <= k < rest.len() && rest[k] == before[i];
                    assert(list[k] == before[i]);
                    assert(!paths::same(list[k], list[list.len() - 1]));
                }
            }
            lemma_path_index(all, path);
            lemma_path_index(before, path);
            if listed(all, path) {
                let k = path_index(all, path) as int;
                if k < before.len() {
                    assert(all[k] == before[k]);
                    lemma_listed(before, path, k);
                }
            }
        }
        assert forall|i: int|
            0 <= i < list.len() && !paths::same(#[trigger] list[i], path) implies all.contains(
            list[i],
        ) by {
            if i < rest.len() {
                assert(rest[i] == list[i]);
                let k = choose|k: int| 0 <= k < before.len() && before[k] == list[i];
                assert(all[k] == list[i]);
            } else {
                assert(all[all.len() - 1] == list[i]);
            }
        }
    }
}

// ---------------------------------------------------------------------------------------------
// Which files are requests
// ---------------------------------------------------------------------------------------------

/// Whether a file may hold a request, by its name.
pub open spec fn named_like_request(path: Seq<char>) -> bool {
    paths::suffix(path) == Some("yaml"@) || paths::suffix(path) == Some("yml"@)
}

/// Whether a text looks like a request.
pub open spec fn looks_like_request(content: Seq<char>) -> bool {
    text::occurs(content, "method:"@) && text::occurs(content, "url:"@)
}

/// Whether a directory is passed over in a search, by its name.
pub open spec fn is_hidden(path: Seq<char>) -> bool {
    paths::base_name(path) matches Some(name) && name.len() > 0 && name[0] == '.'
}

/// Whether a file may hold a request, by its name.
pub fn has_request_name(path: &str) -> (r: bool)
    ensures
        r == named_like_request(path@),
{
    match extension(path) {
        Some(ext) => same_text(ext.as_str(), "yaml") || same_text(ext.as_str(), "yml"),
        None => false,
    }
}

/// Whether a text looks like a request: it has a method and a URL.
pub fn has_request_text(content: &str) -> (r: bool)
    ensures
        r == looks_like_request(content@),
{
    contains(content, "method:") && contains(content, "url:")
}

/// Whether a file holds a request, by its name and its text (`None` where it cannot be read).
pub fn is_request_file(path: &str, content: &Option<String>) -> (r: bool)
    ensures
        r == (named_like_request(path@) && (content matches Some(t) && looks_like_request(t@))),
{
    match content {
        Some(t) => has_request_name(path) && has_request_text(t.as_str()),
        None => false,
    }
}

/// Whether a directory is passed over in a search: its name starts with a dot.
pub fn has_hidden_name(path: &str) -> (r: bool)
    ensures
        r == is_hidden(path@),
{
    match file_name(path) {
        Some(name) => !name.as_str().is_empty() && name.as_str().get_char(0) == '.',
        None => false,
    }
}

// ---------------------------------------------------------------------------------------------
// Events
// ---------------------------------------------------------------------------------------------

/// What is to be done outside after a key press.
pub enum Action {
    Nothing,
    Quit,
    /// Make an environment the active one, and list the environments again.
    SwitchEnv(String),
    /// Write a request file.
    SaveGrid { path: String, file: RequestFile },
    /// Load the history, for [`TuiApp::open_history`].
    LoadHistory,
    /// Read a request file, for [`TuiApp::enter_grid_edit`].
    OpenGrid(String),
    /// List the environments, for [`TuiApp::refresh_envs`].
    RefreshEnvs,
    /// List the environments, for [`TuiApp::open_env_telescope`].
    PickEnv,
    /// Search for request files, for [`TuiApp::open_file_telescope`].
    PickFile,
    /// Open a file in the editor.
    EditFile(String),
    /// Open the response in the editor.
    EditResponse,
    /// Open the file of the active environment in the editor.
    EditActiveEnv,
    /// Send a request.
    Run(String),
}

/// Whether the picker was just opened with these items.
pub open spec fn just_opened(t: Telescope, title: Seq<char>, items: Seq<TelescopeItem>) -> bool {
    &&& t.active
    &&& t.title@ == title
    &&& t.items@ == items
    &&& t.query@ == Seq::<char>::empty()
    &&& t.selected == 0
}

/// The items of files to open.
pub open spec fn file_items(files: Seq<String>) -> Seq<TelescopeItem> {
    files.map_values(
        |p: String| TelescopeItem { display: p, action: TelescopeAction::OpenFile(p) },
    )
}

/// The items of environments to switch to.
pub open spec fn env_items(envs: Seq<String>) -> Seq<TelescopeItem> {
    envs.map_values(
        |n: String| TelescopeItem { display: n, action: TelescopeAction::SwitchEnv(n) },
    )
}

/// The items of buffers to switch to.
pub open spec fn buffer_items(buffers: Seq<String>) -> Seq<TelescopeItem> {
    buffers.map_values(
        |p: String| TelescopeItem { display: p, action: TelescopeAction::SwitchBuffer(p) },
    )
}

/// What picking an item does.
pub open spec fn picked(app: TuiApp, action: TelescopeAction, after: TuiApp, out: Action) -> bool {
    let names = text::views(app.buffers@);
    match action {
        TelescopeAction::OpenFile(path) => {
            &&& out == Action::Nothing
            &&& after == (TuiApp {
                buffers: after.buffers,
                selected_buffer: Some(path_index(names, path@) as usize),
                preview_scroll: 0,
                ..app
            })
            &&& after.buffers@ == if listed(names, path@) {
                app.buffers@
            } else {
                app.buffers@.push(path)
            }
        },
        TelescopeAction::SwitchEnv(name) => out == Action::SwitchEnv(name) && after == app,
        TelescopeAction::SwitchBuffer(path) => {
            &&& out == Action::Nothing
            &&& after == if listed(names, path@) {
                TuiApp {
                    selected_buffer: Some(path_index(names, path@) as usize),
                    preview_scroll: 0,
                    ..app
                }
            } else {
                app
            }
        },
    }
}

/// The interface with another buffer shown, `offset` places further, around the ends of the list.
pub open spec fn shifted(app: TuiApp, offset: int) -> TuiApp {
    let from: int = match app.selected_buffer {
        Some(i) => i as int,
        None => 0,
    };
    if app.buffers@.len() == 0 {
        app
    } else {
        TuiApp {
            selected_buffer: Some(((from + offset) % app.buffers@.len() as int) as usize),
            preview_scroll: 0,
            ..app
        }
    }
}

/// What starting the request of the current buffer does: nothing without a buffer, or where its
/// request is in flight.
pub open spec fn started(app: TuiApp, after: TuiApp, run: Option<String>) -> bool {
    match app.current() {
        Some(path) => if listed(text::views(app.running_requests@), path@) {
            run is None && after == app
        } else {
            &&& run == Some(path)
            &&& after == (TuiApp {
                status_view: after.status_view,
                response_view: after.response_view,
                running_requests: after.running_requests,
                focused_request: Some(path),
                response_scroll: 0,
                ..app
            })
            &&& after.status_view@ == "Sending "@ + paths::base_name_or(path@, "request"@)
                + "..."@
            &&& after.response_view@ == Seq::<char>::empty()
            &&& after.running_requests@ == app.running_requests@.push(path)
        },
        None => run is None && after == app,
    }
}

/// What the end of a request does: it is in flight no more, and its result is shown if it is the
/// one that is awaited.
pub open spec fn finished(
    app: TuiApp,
    path: Seq<char>,
    status: Seq<char>,
    response: Seq<char>,
    after: TuiApp,
) -> bool {
    &&& text::views(after.running_requests@) == without_path(
        text::views(app.running_requests@),
        path,
    )
    &&& match app.focused_request {
        Some(p) if paths::same(path, p@) => {
            &&& after == (TuiApp {
                running_requests: after.running_requests,
                status_view: after.status_view,
                response_view: after.response_view,
                focused_request: None,
                ..app
            })
            &&& after.status_view@ == status
            &&& after.response_view@ == response
        },
        _ => after == (TuiApp { running_requests: after.running_requests, ..app }),
    }
}

impl TuiApp {
    /// The interface with these buffers open, the first of them shown.
    pub fn new(env_manager: EnvManager, buffers: Vec<String>, envs: Vec<String>) -> (r: Self)
        requires
            distinct_paths(text::views(buffers@)),
        ensures
            r.wf(),
            r.env_manager == env_manager,
            r.buffers == buffers,
            r.selected_buffer == (if buffers@.len() > 0 {
                Some(0usize)
            } else {
                None
            }),
            r.envs == envs,
            r.env_scroll == 0,
            r.selected_panel == ActivePanel::Preview,
            r.last_left_panel == ActivePanel::Preview,
            r.response_view@ == Seq::<char>::empty(),
            r.status_view@ == Seq::<char>::empty(),
            r.running_requests@ == Seq::<String>::empty(),
            r.focused_request is None,
            r.response_scroll == 0,
            !r.show_help,
            r.spinner_frame == 0,
            r.preview_scroll == 0,
            !r.leader_pending,
            !r.telescope.active,
            r.telescope.title@ == Seq::<char>::empty(),
            r.telescope.query@ == Seq::<char>::empty(),
            r.telescope.items@ == Seq::<TelescopeItem>::empty(),
            r.history_manager.path@ == paths::under(env_manager.config_dir@, "history.jsonl"@),
            r.history@ == Seq::<HistoryEntry>::empty(),
            !r.history_active,
            r.selected_entry is None,
            r.grid_edit is None,
    {
        let history_manager: HistoryManager = HistoryManager::new(env_manager.config_dir());
        let selected_buffer: Option<usize> = if buffers.len() > 0 {
            Some(0)
        } else {
            None
        };
        TuiApp {
            env_manager,
            buffers,
            selected_buffer,
            envs,
            env_scroll: 0,
            selected_panel: ActivePanel::Preview,
            last_left_panel: ActivePanel::Preview,
            response_view: String::new(),
            status_view: String::new(),
            running_requests: Vec::new(),
            focused_request: None,
            response_scroll: 0,
            show_help: false,
            spinner_frame: 0,
            preview_scroll: 0,
            leader_pending: false,
            telescope: Telescope::default(),
            history_manager,
            history: Vec::new(),
            history_active: false,
            selected_entry: None,
            grid_edit: None,
        }
    }

    /// The buffer that is shown.
    pub fn current_buffer(&self) -> (r: Option<String>)
        ensures
            r == self.current(),
    {
        match self.selected_buffer {
            Some(i) => if i < self.buffers.len() {
                Some(self.buffers[i].clone())
            } else {
                None
            },
            None => None,
        }
    }

    /// Takes the environments as they were listed again.
    pub fn refresh_envs(&mut self, envs: Vec<String>)
        ensures
            *final(self) == (TuiApp { envs, ..*old(self) }),
            old(self).wf() ==> final(self).wf(),
    {
        self.envs = envs;
    }

    /// Lets the user pick one of the request files that were found.
    pub fn open_file_telescope(&mut self, files: Vec<String>)
        ensures
            *final(self) == (TuiApp { telescope: final(self).telescope, ..*old(self) }),
            just_opened(
                final(self).telescope,
                " Telescope (Fuzzy Search *.yaml) "@,
                file_items(files@),
            ),
            old(self).wf() ==> final(self).wf(),
    {
        let mut items: Vec<TelescopeItem> = Vec::new();
        assert(items@ =~= file_items(files@.take(0)));
        for i in 0..files.len()
            invariant
                items@ == file_items(files@.take(i as int)),
        {
            items.push(
                TelescopeItem::new(files[i].clone(), TelescopeAction::OpenFile(files[i].clone())),
            );
            assert(files@.take(i + 1) =~= files@.take(i as int).push(files@[i as int]));
            assert(items@ =~= file_items(files@.take(i + 1)));
        }
        assert(files@.take(files@.len() as int) == files@);
        self.telescope.open(" Telescope (Fuzzy Search *.yaml) ".to_string(), items);
    }

    /// Takes the environments as they were listed again, and lets the user pick one of them.
    pub fn open_env_telescope(&mut self, envs: Vec<String>)
        ensures
            *final(self) == (TuiApp { envs, telescope: final(self).telescope, ..*old(self) }),
            just_opened(
                final(self).telescope,
                " Telescope (Choose Environment) "@,
                env_items(envs@),
            ),
            old(self).wf() ==> final(self).wf(),
    {
        let mut items: Vec<TelescopeItem> = Vec::new();
        assert(items@ =~= env_items(envs@.take(0)));
        for i in 0..envs.len()
            invariant
                items@ == env_items(envs@.take(i as int)),
        {
            items.push(
                TelescopeItem::new(envs[i].clone(), TelescopeAction::SwitchEnv(envs[i].clone())),
            );
            assert(envs@.take(i + 1) =~= envs@.take(i as int).push(envs@[i as int]));
            assert(items@ =~= env_items(envs@.take(i + 1)));
        }
        assert(envs@.take(envs@.len() as int) == envs@);
        self.envs = envs;
        self.telescope.open(" Telescope (Choose Environment) ".to_string(), items);
    }

    /// Lets the user pick one of the open buffers.
    pub fn open_buffer_telescope(&mut self)
        ensures
            *final(self) == (TuiApp { telescope: final(self).telescope, ..*old(self) }),
            just_opened(
                final(self).telescope,
                " Telescope (Switch Buffer) "@,
                buffer_items(old(self).buffers@),
            ),
            old(self).wf() ==> final(self).wf(),
    {
        let mut items: Vec<TelescopeItem> = Vec::new();
        let ghost all = self.buffers@;
        assert(items@ =~= buffer_items(all.take(0)));
        for i in 0..self.buffers.len()
            invariant
                all == self.buffers@,
                *self == *old(self),
                items@ == buffer_items(all.take(i as int)),
        {
            items.push(
                TelescopeItem::new(
                    self.buffers[i].clone(),
                    TelescopeAction::SwitchBuffer(self.buffers[i].clone()),
                ),
            );
            assert(all.take(i + 1) =~= all.take(i as int).push(all[i as int]));
            assert(items@ =~= buffer_items(all.take(i + 1)));
        }
        assert(all.take(self.buffers@.len() as int) == all);
        self.telescope.open(" Telescope (Switch Buffer) ".to_string(), items);
    }

    /// Applies what was picked: opens a file, or shows a buffer. An environment is to be switched
    /// outside.
    pub fn apply_telescope_action(&mut self, action: TelescopeAction) -> (out: Action)
        ensures
            picked(*old(self), action, *final(self), out),
            old(self).wf() ==> final(self).wf(),
    {
        let ghost names = text::views(self.buffers@);
        assert(names.len() == self.buffers@.len());
        match action {
            TelescopeAction::OpenFile(path) => {
                let index: usize = match find_path(&self.buffers, path.as_str()) {
                    Some(i) => i,
                    None => {
                        let n: usize = self.buffers.len();
                        proof {
                            lemma_path_index(names, path@);
                            assert(text::views(self.buffers@.push(path)) =~= names.push(path@));
                            if distinct_paths(names) {
                                lemma_pushed_is_distinct(names, path@);
                            }
                        }
                        self.buffers.push(path);
                        n
                    },
                };
                self.selected_buffer = Some(index);
                self.preview_scroll = 0;
                Action::Nothing
            },
            TelescopeAction::SwitchEnv(name) => Action::SwitchEnv(name),
            TelescopeAction::SwitchBuffer(path) => {
                match find_path(&self.buffers, path.as_str()) {
                    Some(index) => {
                        self.selected_buffer = Some(index);
                        self.preview_scroll = 0;
                    },
                    None => {},
                }
                Action::Nothing
            },
        }
    }

    /// Shows another buffer, `offset` places further, around the ends of the list.
    pub fn move_buffer_selection(&mut self, offset: i32)
        ensures
            *final(self) == shifted(*old(self), offset as int),
            old(self).wf() ==> final(self).wf(),
    {
        let len: usize = self.buffers.len();
        if len == 0 {
            return;
        }
        let current: usize = match self.selected_buffer {
            Some(i) => i,
            None => 0,
        };
        let wide: i128 = len as i128;
        let shift: i128 = wide * 0x8000_0000;
        let sum: i128 = current as i128 + offset as i128 + shift;
        proof {
            assert(shift == wide * 0x8000_0000);
            assert(wide >= 1 ==> wide * 0x8000_0000 >= 0x8000_0000) by (nonlinear_arith);
            vstd::arithmetic::div_mod::lemma_mod_multiples_vanish(
                0x8000_0000,
                current + offset,
                len as int,
            );
            vstd::arithmetic::div_mod::lemma_mod_bound(current + offset, len as int);
        }
        let next: u128 = sum as u128 % len as u128;
        self.selected_buffer = Some(next as usize);
        self.preview_scroll = 0;
    }

    /// Shows the history, the newest entry first.
    pub fn open_history(&mut self, entries: Vec<HistoryEntry>)
        ensures
            *final(self) == (TuiApp {
                history: final(self).history,
                selected_entry: if entries@.len() == 0 {
                    None
                } else {
                    Some(0)
                },
                history_active: true,
                ..*old(self)
            }),
            final(self).history@ == entries@.reverse(),
            old(self).wf() ==> final(self).wf(),
    {
        let mut newest_first: Vec<HistoryEntry> = Vec::new();
        let n: usize = entries.len();
        for i in 0..n
            invariant
                n == entries@.len(),
                newest_first@.len() == i,
                forall|j: int| 0 <= j < i ==> newest_first@[j] == entries@[n - 1 - j],
        {
            newest_first.push(entries[n - 1 - i].clone());
        }
        assert(newest_first@ =~= entries@.reverse());
        self.selected_entry = if n == 0 {
            None
        } else {
            Some(0)
        };
        self.history = newest_first;
        self.history_active = true;
    }

    /// Opens the current buffer in the grid editor, given the request that its file holds, or why
    /// there is none.
    pub fn enter_grid_edit(&mut self, parsed: Result<RequestFile, String>, stamp: Stamp)
        ensures
            match old(self).current() {
                Some(path) => match parsed {
                    Ok(file) => {
                        &&& *final(self) == (TuiApp {
                            grid_edit: final(self).grid_edit,
                            ..*old(self)
                        })
                        &&& final(self).grid_edit matches Some(e) && grid_file::opened(
                            path@,
                            file@,
                            stamp,
                            e,
                        )
                    },
                    Err(e) => {
                        &&& *final(self) == (TuiApp {
                            status_view: final(self).status_view,
                            ..*old(self)
                        })
                        &&& final(self).status_view@ == "Cannot edit: "@ + e@
                    },
                },
                None => *final(self) == *old(self),
            },
            old(self).wf() ==> final(self).wf(),
    {
        match self.current_buffer() {
            Some(path) => match parsed {
                Ok(file) => {
                    self.grid_edit = Some(GridEditState::open(path, file, stamp));
                },
                Err(e) => {
                    self.status_view = concat2("Cannot edit: ", e.as_str());
                },
            },
            None => {},
        }
    }

    /// Says how saving a request file went.
    pub fn autosave_grid_edit(&mut self, path: &str, outcome: Result<(), String>)
        ensures
            *final(self) == (TuiApp { status_view: final(self).status_view, ..*old(self) }),
            final(self).status_view@ == match outcome {
                Ok(_) => "Saved "@ + paths::base_name_or(path@, ""@),
                Err(e) => "Save failed: "@ + e@,
            },
            old(self).wf() ==> final(self).wf(),
    {
        self.status_view = match outcome {
            Ok(_) => concat2("Saved ", file_name_or(path, "").as_str()),
            Err(e) => concat2("Save failed: ", e.as_str()),
        };
    }

    /// Starts the request of the current buffer, unless it is in flight. Returns its path where it
    /// is to be sent.
    pub fn start_request_execution(&mut self) -> (run: Option<String>)
        ensures
            started(*old(self), *final(self), run),
            old(self).wf() ==> final(self).wf(),
    {
        match self.current_buffer() {
            Some(path) => {
                if find_path(&self.running_requests, path.as_str()).is_some() {
                    return None;
                }
                let ghost names = text::views(self.running_requests@);
                proof {
                    assert(text::views(self.running_requests@.push(path)) =~= names.push(path@));
                    if distinct_paths(names) {
                        lemma_pushed_is_distinct(names, path@);
                    }
                }
                let name: String = file_name_or(path.as_str(), "request");
                let mut status: String = concat2("Sending ", name.as_str());
                status.append("...");
                self.status_view = status;
                self.response_view = String::new();
                self.running_requests.push(path.clone());
                self.focused_request = Some(path.clone());
                self.response_scroll = 0;
                Some(path)
            },
            None => None,
        }
    }

    /// Takes the result of a request. Returns its entry in the history.
    pub fn response_finished(
        &mut self,
        path: &str,
        status: String,
        response: String,
        method: &str,
        url: &str,
    ) -> (entry: HistoryEntry)
        ensures
            finished(*old(self), path@, status@, response@, *final(self)),
            exists|secs: u64|
                entry.timestamp@ == #[trigger] calendar::timestamp_text(secs as nat),
            entry.request_name@ == paths::base_name_or(path@, "request"@),
            entry.method@ == method@,
            entry.url@ == url@,
            entry.status@ == status@,
            entry.response@ == response@,
            old(self).wf() ==> final(self).wf(),
    {
        let name: String = file_name_or(path, "request");
        let entry: HistoryEntry = self.history_manager.record(
            name.as_str(),
            method,
            url,
            status.as_str(),
            response.as_str(),
        );
        let ghost names = text::views(self.running_requests@);
        self.running_requests = remove_path(&self.running_requests, path);
        proof {
            if distinct_paths(names) {
                lemma_without_path(names, path@);
            }
            if self.focused_request is Some {
                let p = self.focused_request->0@;
                if listed(names, p) && distinct_paths(names) && !paths::same(path@, p) {
                    lemma_path_index(names, p);
                    let i = path_index(names, p) as int;
                    let left = without_path(names, path@);
                    assert(left.contains(names[i]));
                    let k = choose|k: int| 0 <= k < left.len() && left[k] == names[i];
                    lemma_listed(left, p, k);
                }
            }
        }
        let shown: bool = match &self.focused_request {
            Some(p) => same_path(path, p.as_str()),
            None => false,
        };
        if shown {
            self.status_view = status;
            self.response_view = response;
            self.focused_request = None;
        }
        entry
    }

    /// Moves the spinner on while requests are in flight.
    pub fn tick(&mut self)
        ensures
            *final(self) == (if old(self).running_requests@.len() == 0 {
                *old(self)
            } else {
                TuiApp {
                    spinner_frame: if old(self).spinner_frame == usize::MAX {
                        0
                    } else {
                        (old(self).spinner_frame + 1) as usize
                    },
                    ..*old(self)
                }
            }),
            old(self).wf() ==> final(self).wf(),
    {
        if !self.running_requests.is_empty() {
            self.spinner_frame = self.spinner_frame.wrapping_add(1);
        }
    }
}

} // verus!
