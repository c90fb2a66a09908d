//! What holds of the terminal interface whatever is pressed and whatever comes back.

use crate::grid_laws;
use crate::keys::{Key, KeyCode};
use crate::paths;
use crate::telescope::TelescopeAction;
use crate::text;
use crate::tui;
use crate::tui::{Action, ActivePanel, TuiApp};
use crate::tui_keys;
use crate::undo::Stamp;
use vstd::prelude::*;

verus! {

/// A request that is in flight is not sent a second time.
pub proof fn law_no_second_copy_is_sent(
    app: TuiApp,
    after: TuiApp,
    path: String,
    again: TuiApp,
    second: Option<String>,
)
    requires
        app.wf(),
        tui::started(app, after, Some(path)),
        tui::started(after, again, second),
    ensures
        second is None,
        again == after,
{
    let names = text::views(app.running_requests@);
    assert(text::views(after.running_requests@) =~= names.push(path@));
    tui::lemma_listed(names.push(path@), path@, names.len() as int);
}

/// A request that ended is in flight no more, and every other one is in flight as it was.
pub proof fn law_ended_request_is_not_running(
    app: TuiApp,
    path: Seq<char>,
    status: Seq<char>,
    response: Seq<char>,
    after: TuiApp,
    other: Seq<char>,
)
    requires
        app.wf(),
        tui::finished(app, path, status, response, after),
    ensures
        !tui::listed(text::views(after.running_requests@), path),
        !paths::same(other, path) ==> tui::listed(text::views(after.running_requests@), other)
            == tui::listed(text::views(app.running_requests@), other),
{
    let before = text::views(app.running_requests@);
    let left = text::views(after.running_requests@);
    tui::lemma_without_path(before, path);
    tui::lemma_path_index(before, other);
    tui::lemma_path_index(left, other);
    if !paths::same(other, path) {
        if tui::listed(before, other) {
            let i = tui::path_index(before, other) as int;
            assert(left.contains(before[i]));
            let k = choose|k: int| 0 <= k < left.len() && left[k] == before[i];
            tui::lemma_listed(left, other, k);
        }
        if tui::listed(left, other) {
            let i = tui::path_index(left, other) as int;
            assert(before.contains(left[i]));
            let k = choose|k: int| 0 <= k < before.len() && before[k] == left[i];
            tui::lemma_listed(before, other, k);
        }
    }
}

/// The result of a request that is not awaited is not shown.
pub proof fn law_other_results_are_not_shown(
    app: TuiApp,
    path: Seq<char>,
    status: Seq<char>,
    response: Seq<char>,
    after: TuiApp,
)
    requires
        tui::finished(app, path, status, response, after),
        app.focused_request matches Some(p) ==> !paths::same(path, p@),
    ensures
        after.status_view == app.status_view,
        after.response_view == app.response_view,
        after.focused_request == app.focused_request,
{
}

/// Going to the next buffer and back shows the same buffer, and so does going around all of them.
pub proof fn law_buffers_go_round(app: TuiApp)
    requires
        app.wf(),
        app.buffers@.len() <= usize::MAX,
    ensures
        tui::shifted(tui::shifted(app, 1), -1).selected_buffer == app.selected_buffer,
        tui::shifted(app, app.buffers@.len() as int).selected_buffer == app.selected_buffer,
{
    let n = app.buffers@.len() as int;
    if n > 0 {
        let i = app.selected_buffer->0 as int;
        if i + 1 < n {
            assert((i + 1) % n == i + 1) by (nonlinear_arith)
                requires
                    0 <= i + 1 < n,
            ;
            assert((i + 1 - 1) % n == i) by (nonlinear_arith)
                requires
                    0 <= i < n,
            ;
        } else {
            assert((i + 1) % n == 0) by (nonlinear_arith)
                requires
                    i + 1 == n,
                    n > 0,
            ;
            assert((0 - 1) % n == n - 1) by (nonlinear_arith)
                requires
                    n > 0,
            ;
        }
        assert((i + n) % n == i) by (nonlinear_arith)
            requires
                0 <= i < n,
        ;
    }
}

/// Opening a file that is open shows its buffer, and opens it no second time.
pub proof fn law_a_file_is_opened_once(
    app: TuiApp,
    path: String,
    mid: TuiApp,
    first: Action,
    after: TuiApp,
    second: Action,
)
    requires
        app.wf(),
        app.buffers@.len() < usize::MAX,
        tui::picked(app, TelescopeAction::OpenFile(path), mid, first),
        tui::picked(mid, TelescopeAction::OpenFile(path), after, second),
    ensures
        after.buffers@ == mid.buffers@,
        after.selected_buffer == mid.selected_buffer,
        mid.current() matches Some(p) && paths::same(p@, path@),
{
    let names = text::views(app.buffers@);
    tui::lemma_path_index(names, path@);
    if !tui::listed(names, path@) {
        assert(text::views(mid.buffers@) =~= names.push(path@));
        tui::lemma_pushed_is_distinct(names, path@);
    }
}

/// Tab goes through the three panels.
pub proof fn law_tab_cycles(panel: ActivePanel)
    ensures
        tui_keys::next_panel(panel) != panel,
        tui_keys::next_panel(tui_keys::next_panel(panel)) != panel,
        tui_keys::next_panel(tui_keys::next_panel(tui_keys::next_panel(panel))) == panel,
{
}

/// While the picker is open, every letter without Ctrl is typed into its query, and does nothing
/// else.
pub proof fn law_picker_takes_every_letter(
    app: TuiApp,
    c: char,
    stamp: Stamp,
    after: TuiApp,
    out: Action,
)
    requires
        app.telescope.active,
        tui_keys::key_step(app, (Key { code: KeyCode::Char(c), ctrl: false }), stamp, after, out),
    ensures
        out == Action::Nothing,
        after.telescope.query@ == app.telescope.query@.push(c),
        after == (TuiApp { telescope: after.telescope, ..app }),
{
}

/// While the picker is open, Ctrl with any letter but `c`, `n`, `p` and `u` does nothing.
pub proof fn law_picker_swallows_ctrl(
    app: TuiApp,
    c: char,
    stamp: Stamp,
    after: TuiApp,
    out: Action,
)
    requires
        app.telescope.active,
        c != 'c' && c != 'n' && c != 'p' && c != 'u',
        tui_keys::key_step(app, (Key { code: KeyCode::Char(c), ctrl: true }), stamp, after, out),
    ensures
        out == Action::Nothing,
        after == app,
{
}

/// Any key but Ctrl+c closes the help.
pub proof fn law_any_key_closes_help(
    app: TuiApp,
    key: Key,
    stamp: Stamp,
    after: TuiApp,
    out: Action,
)
    requires
        app.show_help,
        !app.telescope.active && !app.history_active && app.grid_edit is None
            && !app.leader_pending,
        !key.is_ctrl('c'),
        tui_keys::key_step(app, key, stamp, after, out),
    ensures
        !after.show_help,
        out == Action::Nothing,
{
}

/// What the editor saves is what the undo tree holds as its current state.
pub proof fn law_saved_state_is_recorded(
    app: TuiApp,
    key: Key,
    stamp: Stamp,
    after: TuiApp,
    out: Action,
)
    requires
        app.wf(),
        !app.telescope.active && !app.history_active,
        app.grid_edit matches Some(e) && e.undo_nodes@.len() < usize::MAX,
        tui_keys::key_step(app, key, stamp, after, out),
        out is SaveGrid,
    ensures
        after.grid_edit matches Some(e) && grid_laws::in_sync(e) && out->path == e.path
            && out->file@ == crate::grid_file::saved_request(e),
{
    let e = app.grid_edit->0;
    let (edited, done) = choose|edited: crate::grid::GridEditState, done: crate::grid_keys::GridOutcome| #[trigger]
        tui_keys::edit_done(app, e, key, stamp, edited, done, after, out);
    grid_laws::law_changes_are_recorded(e, key, stamp, edited, done);
}

/// Ctrl+c quits from anywhere, and changes nothing.
pub proof fn law_ctrl_c_quits(app: TuiApp, stamp: Stamp, after: TuiApp, out: Action)
    requires
        tui_keys::key_step(app, (Key { code: KeyCode::Char('c'), ctrl: true }), stamp, after, out),
    ensures
        out == Action::Quit,
        after == app,
{
}

} // verus!
