//! What each key does in the terminal interface.

use crate::grid::GridEditState;
use crate::grid_file;
use crate::grid_keys;
use crate::grid_keys::GridOutcome;
use crate::history::HistoryEntry;
use crate::keys::{Key, KeyCode};
use crate::paths;
use crate::telescope::Telescope;
use crate::text;
use crate::text::{concat2, concat3};
use crate::tui;
use crate::tui::{Action, ActivePanel, TuiApp};
use crate::undo::Stamp;
use vstd::prelude::*;
use vstd::string::*;

verus! {

/// Whether `after` differs from `app` in the picker's query alone, with the first match selected.
pub open spec fn queried(app: TuiApp, after: TuiApp, query: Seq<char>) -> bool {
    &&& after == (TuiApp {
        telescope: Telescope { query: after.telescope.query, selected: 0, ..app.telescope },
        ..app
    })
    &&& after.telescope.query@ == query
}

/// The interface with the picker's selection moved.
pub open spec fn pointed(app: TuiApp, selected: usize) -> TuiApp {
    TuiApp { telescope: Telescope { selected, ..app.telescope }, ..app }
}

/// The interface with the picker hidden.
pub open spec fn hidden(app: TuiApp) -> TuiApp {
    TuiApp { telescope: Telescope { active: false, ..app.telescope }, ..app }
}

/// What a key does in the picker. Letters go into the query, so that only the arrows and Ctrl+n
/// and Ctrl+p move; any other Ctrl with a letter but `u` does nothing.
pub open spec fn telescope_step(app: TuiApp, key: Key, after: TuiApp, out: Action) -> bool {
    let t = app.telescope;
    match key.meaning() {
        KeyCode::Esc => out == Action::Nothing && after == hidden(app),
        KeyCode::Backspace => out == Action::Nothing && queried(
            app,
            after,
            if t.query@.len() == 0 {
                t.query@
            } else {
                t.query@.drop_last()
            },
        ),
        KeyCode::Up => out == Action::Nothing && after == pointed(
            app,
            if t.matching().len() > 0 && t.selected > 0 {
                (t.selected - 1) as usize
            } else {
                t.selected
            },
        ),
        KeyCode::Down => out == Action::Nothing && after == pointed(
            app,
            if t.selected + 1 < t.matching().len() {
                (t.selected + 1) as usize
            } else {
                t.selected
            },
        ),
        KeyCode::Char(c) => out == Action::Nothing && if !key.ctrl {
            queried(app, after, t.query@.push(c))
        } else if c == 'u' {
            queried(app, after, Seq::empty())
        } else {
            after == app
        },
        KeyCode::Enter => if t.selected < t.matching().len() {
            tui::picked(hidden(app), t.matching()[t.selected as int].action, after, out)
        } else {
            out == Action::Nothing && after == hidden(app)
        },
        _ => out == Action::Nothing && after == app,
    }
}

/// The line in the status bar for an entry of the history.
pub open spec fn entry_line(entry: HistoryEntry) -> Seq<char> {
    "History | "@ + entry.method@ + " "@ + entry.url@ + " -> "@ + entry.status@ + " ("@
        + entry.timestamp@ + ")"@
}

/// What a key does in the history.
pub open spec fn history_step(app: TuiApp, key: Key, after: TuiApp) -> bool {
    let closed = TuiApp { history_active: false, ..app };
    match key.meaning() {
        KeyCode::Esc | KeyCode::Char('q') => after == closed,
        KeyCode::Up | KeyCode::Char('k') => after == match app.selected_entry {
            Some(i) => TuiApp {
                selected_entry: Some(
                    if i > 0 {
                        (i - 1) as usize
                    } else {
                        i
                    },
                ),
                ..app
            },
            None => app,
        },
        KeyCode::Down | KeyCode::Char('j') => after == match app.selected_entry {
            Some(i) => if i + 1 < app.history@.len() {
                TuiApp { selected_entry: Some((i + 1) as usize), ..app }
            } else {
                app
            },
            None => app,
        },
        KeyCode::Enter => match app.selected_entry {
            Some(i) => if i < app.history@.len() {
                let entry = app.history@[i as int];
                &&& after == (TuiApp {
                    status_view: after.status_view,
                    response_view: entry.response,
                    response_scroll: 0,
                    ..closed
                })
                &&& after.status_view@ == entry_line(entry)
            } else {
                after == closed
            },
            None => after == closed,
        },
        _ => after == app,
    }
}

/// What a key does in the grid editor: a change is to be saved.
pub open spec fn editor_step(
    app: TuiApp,
    e: GridEditState,
    key: Key,
    stamp: Stamp,
    after: TuiApp,
    out: Action,
) -> bool {
    exists|edited: GridEditState, done: GridOutcome| #[trigger]
        edit_done(app, e, key, stamp, edited, done, after, out)
}

/// What a key does in the grid editor, given the editor after it.
pub open spec fn edit_done(
    app: TuiApp,
    e: GridEditState,
    key: Key,
    stamp: Stamp,
    edited: GridEditState,
    done: GridOutcome,
    after: TuiApp,
    out: Action,
) -> bool {
    &&& grid_keys::grid_step(e, key, stamp, edited, done)
    &&& after == (TuiApp {
        grid_edit: if done.exit {
            None
        } else {
            Some(edited)
        },
        ..app
    })
    &&& if done.changed {
        out matches Action::SaveGrid { path, file } && path == edited.path && file@
            == grid_file::saved_request(edited) && grid_file::saves_what_is_typed(
            edited.original@.body,
            edited.body_text@,
            file@.body,
        )
    } else {
        out == Action::Nothing
    }
}

/// What a key does after the space bar.
pub open spec fn leader_step(app: TuiApp, key: Key, after: TuiApp, out: Action) -> bool {
    let resolved = TuiApp { leader_pending: false, ..app };
    match key.meaning() {
        KeyCode::Char('b') => {
            &&& out == Action::Nothing
            &&& after == (TuiApp { telescope: after.telescope, ..resolved })
            &&& tui::just_opened(
                after.telescope,
                " Telescope (Switch Buffer) "@,
                tui::buffer_items(app.buffers@),
            )
        },
        KeyCode::Char('h') => out == Action::LoadHistory && after == resolved,
        _ => out == Action::Nothing && after == resolved,
    }
}

/// The panel after Tab.
pub open spec fn next_panel(panel: ActivePanel) -> ActivePanel {
    match panel {
        ActivePanel::Preview => ActivePanel::Environments,
        ActivePanel::Environments => ActivePanel::Response,
        ActivePanel::Response => ActivePanel::Preview,
    }
}

/// The interface with another panel in focus.
pub open spec fn focused(app: TuiApp, panel: ActivePanel) -> TuiApp {
    TuiApp { selected_panel: panel, ..app }
}

/// A scroll position one line up.
pub open spec fn line_up(scroll: u16) -> u16 {
    if scroll == 0 {
        0
    } else {
        (scroll - 1) as u16
    }
}

/// A scroll position one line down.
pub open spec fn line_down(scroll: u16) -> u16 {
    if scroll == u16::MAX {
        u16::MAX
    } else {
        (scroll + 1) as u16
    }
}

/// The interface with the panel in focus scrolled up by a line.
pub open spec fn scrolled_up(app: TuiApp) -> TuiApp {
    match app.selected_panel {
        ActivePanel::Response => TuiApp { response_scroll: line_up(app.response_scroll), ..app },
        ActivePanel::Environments => TuiApp { env_scroll: line_up(app.env_scroll), ..app },
        ActivePanel::Preview => TuiApp { preview_scroll: line_up(app.preview_scroll), ..app },
    }
}

/// The interface with the panel in focus scrolled down by a line.
pub open spec fn scrolled_down(app: TuiApp) -> TuiApp {
    match app.selected_panel {
        ActivePanel::Response => TuiApp { response_scroll: line_down(app.response_scroll), ..app },
        ActivePanel::Environments => TuiApp { env_scroll: line_down(app.env_scroll), ..app },
        ActivePanel::Preview => TuiApp { preview_scroll: line_down(app.preview_scroll), ..app },
    }
}

/// What closing the current buffer does: the one behind it is shown, or the last.
pub open spec fn buffer_closed(app: TuiApp, after: TuiApp) -> bool {
    match app.selected_buffer {
        Some(i) => if i < app.buffers@.len() {
            &&& after == (TuiApp {
                buffers: after.buffers,
                selected_buffer: after.selected_buffer,
                preview_scroll: 0,
                ..app
            })
            &&& after.buffers@ == app.buffers@.remove(i as int)
            &&& after.selected_buffer == if app.buffers@.len() == 1 {
                None
            } else if i < app.buffers@.len() - 1 {
                Some(i)
            } else {
                Some((i - 1) as usize)
            }
        } else {
            after == app
        },
        None => after == app,
    }
}

/// What the key for the editor asks for.
pub open spec fn edit_action(app: TuiApp) -> Action {
    match app.selected_panel {
        ActivePanel::Preview => match app.current() {
            Some(path) => Action::EditFile(path),
            None => Action::Nothing,
        },
        ActivePanel::Response => if app.response_view@.len() > 0 {
            Action::EditResponse
        } else {
            Action::Nothing
        },
        ActivePanel::Environments => Action::EditActiveEnv,
    }
}

/// The interface with a panel of the left column in focus, unless the response has it.
pub open spec fn focused_left(app: TuiApp, panel: ActivePanel) -> TuiApp {
    if app.selected_panel == ActivePanel::Response {
        app
    } else {
        focused(app, panel)
    }
}

/// What a key does where no popup is open, but for the panel to return to.
pub open spec fn plain_step(app: TuiApp, key: Key, after: TuiApp, out: Action) -> bool {
    match key.meaning() {
        KeyCode::Char('?') | KeyCode::Esc => out == Action::Nothing && after == (TuiApp {
            show_help: true,
            ..app
        }),
        KeyCode::Char('i') => after == app && out == match app.current() {
            Some(path) => if app.selected_panel == ActivePanel::Preview {
                Action::OpenGrid(path)
            } else {
                Action::Nothing
            },
            None => Action::Nothing,
        },
        KeyCode::Char('t') => after == app && out == if app.selected_panel
            == ActivePanel::Environments {
            Action::PickEnv
        } else {
            Action::PickFile
        },
        KeyCode::Tab => out == Action::Nothing && after == focused(
            app,
            next_panel(app.selected_panel),
        ),
        KeyCode::Char('d') => out == Action::Nothing && if app.selected_panel
            == ActivePanel::Preview {
            buffer_closed(app, after)
        } else {
            after == app
        },
        KeyCode::Char('h') | KeyCode::Left => out == Action::Nothing && after == if key.is_ctrl(
            'h',
        ) {
            focused(app, app.last_left_panel)
        } else if app.selected_panel == ActivePanel::Response {
            focused(app, ActivePanel::Preview)
        } else {
            app
        },
        KeyCode::Char('l') | KeyCode::Right => out == Action::Nothing && after == focused(
            app,
            ActivePanel::Response,
        ),
        KeyCode::Up | KeyCode::Char('k') => out == Action::Nothing && after == if key.is_ctrl('k') {
            focused_left(app, ActivePanel::Preview)
        } else {
            scrolled_up(app)
        },
        KeyCode::Down | KeyCode::Char('j') => out == Action::Nothing && after == if key.is_ctrl(
            'j',
        ) {
            focused_left(app, ActivePanel::Environments)
        } else {
            scrolled_down(app)
        },
        KeyCode::Char('H') => out == Action::Nothing && after == tui::shifted(app, -1),
        KeyCode::Char('L') => out == Action::Nothing && after == tui::shifted(app, 1),
        KeyCode::Char(' ') => out == Action::Nothing && after == (TuiApp {
            leader_pending: true,
            ..app
        }),
        KeyCode::Char('e') => after == app && out == edit_action(app),
        KeyCode::Enter => if app.selected_panel == ActivePanel::Preview {
            match out {
                Action::Run(path) => tui::started(app, after, Some(path)),
                Action::Nothing => tui::started(app, after, None),
                _ => false,
            }
        } else {
            out == Action::Nothing && after == app
        },
        KeyCode::Char('r') => out == Action::RefreshEnvs && after == app,
        _ => out == Action::Nothing && after == app,
    }
}

/// The interface that returns to the panel in focus, unless that is the response.
pub open spec fn returning(app: TuiApp) -> TuiApp {
    if app.selected_panel != ActivePanel::Response {
        TuiApp { last_left_panel: app.selected_panel, ..app }
    } else {
        app
    }
}

/// What a key does where no popup is open.
pub open spec fn normal_step(app: TuiApp, key: Key, after: TuiApp, out: Action) -> bool {
    if key.meaning() == KeyCode::Char('q') {
        out == Action::Quit && after == app
    } else {
        exists|mid: TuiApp| #[trigger] plain_step(app, key, mid, out) && after == returning(mid)
    }
}

/// What a key does.
pub open spec fn key_step(app: TuiApp, key: Key, stamp: Stamp, after: TuiApp, out: Action) -> bool {
    if key.is_ctrl('c') {
        out == Action::Quit && after == app
    } else if app.telescope.active {
        telescope_step(app, key, after, out)
    } else if app.history_active {
        out == Action::Nothing && history_step(app, key, after)
    } else if app.grid_edit is Some {
        editor_step(app, app.grid_edit->0, key, stamp, after, out)
    } else if app.leader_pending {
        leader_step(app, key, after, out)
    } else if app.show_help {
        out == Action::Nothing && after == (TuiApp { show_help: false, ..app })
    } else {
        normal_step(app, key, after, out)
    }
}

impl TuiApp {
    fn telescope_key(&mut self, key: Key) -> (out: Action)
        requires
            old(self).wf(),
            old(self).telescope.active,
        ensures
            final(self).wf(),
            telescope_step(*old(self), key, *final(self), out),
    {
        match key.normalized() {
            KeyCode::Esc => {
                self.telescope.close();
            },
            KeyCode::Backspace => {
                self.telescope.backspace();
            },
            KeyCode::Up => {
                self.telescope.move_up();
            },
            KeyCode::Down => {
                self.telescope.move_down();
            },
            KeyCode::Char(c) => {
                if !key.ctrl {
                    self.telescope.push_char(c);
                } else if c == 'u' {
                    self.telescope.clear_query();
                }
            },
            KeyCode::Enter => match self.telescope.confirm() {
                Some(action) => {
                    return self.apply_telescope_action(action);
                },
                None => {},
            },
            _ => {},
        }
        Action::Nothing
    }

    fn history_key(&mut self, key: Key)
        requires
            old(self).wf(),
        ensures
            final(self).wf(),
            history_step(*old(self), key, *final(self)),
    {
        match key.normalized() {
            KeyCode::Esc | KeyCode::Char('q') => {
                self.history_active = false;
            },
            KeyCode::Up | KeyCode::Char('k') => match self.selected_entry {
                Some(i) => {
                    self.selected_entry = Some(i.saturating_sub(1));
                },
                None => {},
            },
            KeyCode::Down | KeyCode::Char('j') => match self.selected_entry {
                Some(i) => {
                    if i < self.history.len() - 1 {
                        self.selected_entry = Some(i + 1);
                    }
                },
                None => {},
            },
            KeyCode::Enter => {
                match self.selected_entry {
                    Some(i) => {
                        let entry: HistoryEntry = self.history[i].clone();
                        self.status_view = line_of_entry(&entry);
                        self.response_view = entry.response;
                        self.response_scroll = 0;
                    },
                    None => {},
                }
                self.history_active = false;
            },
            _ => {},
        }
    }

    fn editor_key(&mut self, key: Key, stamp: Stamp) -> (out: Action)
        requires
            old(self).wf(),
            old(self).grid_edit is Some,
        ensures
            final(self).wf(),
            editor_step(*old(self), old(self).grid_edit->0, key, stamp, *final(self), out),
    {
        let ghost before = *self;
        match self.grid_edit.take() {
            Some(edit) => {
                let mut edit: GridEditState = edit;
                let ghost e = edit;
                let done: GridOutcome = edit.handle_key(key, stamp);
                let ghost edited = edit;
                let out: Action = if done.changed {
                    Action::SaveGrid { path: edit.path.clone(), file: edit.to_save() }
                } else {
                    Action::Nothing
                };
                if !done.exit {
                    self.grid_edit = Some(edit);
                }
                assert(edit_done(before, e, key, stamp, edited, done, *self, out));
                out
            },
            None => Action::Nothing,
        }
    }

    fn leader_key(&mut self, key: Key) -> (out: Action)
        requires
            old(self).wf(),
        ensures
            final(self).wf(),
            leader_step(*old(self), key, *final(self), out),
    {
        self.leader_pending = false;
        match key.normalized() {
            KeyCode::Char('b') => {
                self.open_buffer_telescope();
                Action::Nothing
            },
            KeyCode::Char('h') => Action::LoadHistory,
            _ => Action::Nothing,
        }
    }

    fn close_buffer(&mut self)
        requires
            old(self).wf(),
        ensures
            final(self).wf(),
            buffer_closed(*old(self), *final(self)),
    {
        match self.selected_buffer {
            Some(index) => {
                let ghost before = text::views(self.buffers@);
                let _ = self.buffers.remove(index);
                let len: usize = self.buffers.len();
                self.selected_buffer = if len == 0 {
                    None
                } else if index < len {
                    Some(index)
                } else {
                    Some(len - 1)
                };
                self.preview_scroll = 0;
                proof {
                    let after = text::views(self.buffers@);
                    assert forall|i: int, j: int| 0 <= i < j < after.len() implies !paths::same(
                        #[trigger] after[i],
                        #[trigger] after[j],
                    ) by {
                        let a = if i < index {
                            i
                        } else {
                            i + 1
                        };
                        let b = if j < index {
                            j
                        } else {
                            j + 1
                        };
                        assert(after[i] == before[a] && after[j] == before[b]);
                    }
                }
            },
            None => {},
        }
    }

    fn scroll_up(&mut self)
        ensures
            *final(self) == scrolled_up(*old(self)),
    {
        match self.selected_panel {
            ActivePanel::Response => {
                self.response_scroll = self.response_scroll.saturating_sub(1);
            },
            ActivePanel::Environments => {
                self.env_scroll = self.env_scroll.saturating_sub(1);
            },
            ActivePanel::Preview => {
                self.preview_scroll = self.preview_scroll.saturating_sub(1);
            },
        }
    }

    fn scroll_down(&mut self)
        ensures
            *final(self) == scrolled_down(*old(self)),
    {
        match self.selected_panel {
            ActivePanel::Response => {
                self.response_scroll = self.response_scroll.saturating_add(1);
            },
            ActivePanel::Environments => {
                self.env_scroll = self.env_scroll.saturating_add(1);
            },
            ActivePanel::Preview => {
                self.preview_scroll = self.preview_scroll.saturating_add(1);
            },
        }
    }

    fn to_edit(&self) -> (r: Action)
        ensures
            r == edit_action(*self),
    {
        match self.selected_panel {
            ActivePanel::Preview => match self.current_buffer() {
                Some(path) => Action::EditFile(path),
                None => Action::Nothing,
            },
            ActivePanel::Response => if self.response_view.as_str().is_empty() {
                Action::Nothing
            } else {
                Action::EditResponse
            },
            ActivePanel::Environments => Action::EditActiveEnv,
        }
    }

    fn plain_key(&mut self, key: Key) -> (out: Action)
        requires
            old(self).wf(),
        ensures
            final(self).wf(),
            plain_step(*old(self), key, *final(self), out),
    {
        match key.normalized() {
            KeyCode::Char('?') | KeyCode::Esc => {
                self.show_help = true;
            },
            KeyCode::Char('i') => {
                if self.selected_panel == ActivePanel::Preview {
                    match self.current_buffer() {
                        Some(path) => {
                            return Action::OpenGrid(path);
                        },
                        None => {},
                    }
                }
            },
            KeyCode::Char('t') => {
                return if self.selected_panel == ActivePanel::Environments {
                    Action::PickEnv
                } else {
                    Action::PickFile
                };
            },
            KeyCode::Tab => {
                self.selected_panel = match self.selected_panel {
                    ActivePanel::Preview => ActivePanel::Environments,
                    ActivePanel::Environments => ActivePanel::Response,
                    ActivePanel::Response => ActivePanel::Preview,
                };
            },
            KeyCode::Char('d') => {
                if self.selected_panel == ActivePanel::Preview {
                    self.close_buffer();
                }
            },
            KeyCode::Char('h') | KeyCode::Left => {
                if key.with_ctrl('h') {
                    self.selected_panel = self.last_left_panel;
                } else if self.selected_panel == ActivePanel::Response {
                    self.selected_panel = ActivePanel::Preview;
                }
            },
            KeyCode::Char('l') | KeyCode::Right => {
                self.selected_panel = ActivePanel::Response;
            },
            KeyCode::Up | KeyCode::Char('k') => {
                if !key.with_ctrl('k') {
                    self.scroll_up();
                } else if self.selected_panel != ActivePanel::Response {
                    self.selected_panel = ActivePanel::Preview;
                }
            },
            KeyCode::Down | KeyCode::Char('j') => {
                if !key.with_ctrl('j') {
                    self.scroll_down();
                } else if self.selected_panel != ActivePanel::Response {
                    self.selected_panel = ActivePanel::Environments;
                }
            },
            KeyCode::Char('H') => {
                self.move_buffer_selection(-1);
            },
            KeyCode::Char('L') => {
                self.move_buffer_selection(1);
            },
            KeyCode::Char(' ') => {
                self.leader_pending = true;
            },
            KeyCode::Char('e') => {
                return self.to_edit();
            },
            KeyCode::Enter => {
                if self.selected_panel == ActivePanel::Preview {
                    match self.start_request_execution() {
                        Some(path) => {
                            return Action::Run(path);
                        },
                        None => {},
                    }
                }
            },
            KeyCode::Char('r') => {
                return Action::RefreshEnvs;
            },
            _ => {},
        }
        Action::Nothing
    }

    fn normal_key(&mut self, key: Key) -> (out: Action)
        requires
            old(self).wf(),
        ensures
            final(self).wf(),
            normal_step(*old(self), key, *final(self), out),
    {
        match key.normalized() {
            KeyCode::Char('q') => {
                return Action::Quit;
            },
            _ => {},
        }
        let out: Action = self.plain_key(key);
        assert(plain_step(*old(self), key, *self, out));
        if self.selected_panel != ActivePanel::Response {
            self.last_left_panel = self.selected_panel;
        }
        out
    }

    /// Takes a key press, and returns what is to be done outside. A change in the grid editor is
    /// committed with the given stamp.
    pub fn handle_key(&mut self, key: Key, stamp: Stamp) -> (out: Action)
        requires
            old(self).wf(),
        ensures
            final(self).wf(),
            key_step(*old(self), key, stamp, *final(self), out),
    {
        if key.with_ctrl('c') {
            Action::Quit
        } else if self.telescope.active {
            self.telescope_key(key)
        } else if self.history_active {
            self.history_key(key);
            Action::Nothing
        } else if self.grid_edit.is_some() {
            self.editor_key(key, stamp)
        } else if self.leader_pending {
            self.leader_key(key)
        } else if self.show_help {
            self.show_help = false;
            Action::Nothing
        } else {
            self.normal_key(key)
        }
    }
}

/// The line in the status bar for an entry of the history.
pub fn line_of_entry(entry: &HistoryEntry) -> (r: String)
    ensures
        r@ == entry_line(*entry),
{
    let mut line: String = concat3("History | ", entry.method.as_str(), " ");
    line.append(entry.url.as_str());
    line.append(" -> ");
    line.append(entry.status.as_str());
    line.append(" (");
    line.append(concat2(entry.timestamp.as_str(), ")").as_str());
    assert(line@ =~= entry_line(*entry));
    line
}

} // verus!
