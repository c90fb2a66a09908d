//! What holds of each key in the terminal interface, and of what comes from outside.

use crate::grid::GridEditState;
use crate::grid_keys;
use crate::grid_keys::GridOutcome;
use crate::history::HistoryEntry;
use crate::keys::{Key, KeyCode};
use crate::list_laws;
use crate::paths;
use crate::telescope::{Telescope, TelescopeAction, TelescopeItem};
use crate::text;
use crate::tui;
use crate::tui::{Action, ActivePanel, TuiApp};
use crate::tui_keys;
use crate::undo::Stamp;
use vstd::prelude::*;
use vstd::string::*;

verus! {

/// A key that is pressed by itself.
pub open spec fn press(code: KeyCode) -> Key {
    Key { code, ctrl: false }
}

/// A letter that is pressed by itself.
pub open spec fn letter(c: char) -> Key {
    press(KeyCode::Char(c))
}

/// A letter that is pressed with Ctrl.
pub open spec fn ctrl(c: char) -> Key {
    Key { code: KeyCode::Char(c), ctrl: true }
}

/// Whether no popup is open, and the space bar was not pressed last.
pub open spec fn at_ease(app: TuiApp) -> bool {
    &&& !app.telescope.active
    &&& !app.history_active
    &&& app.grid_edit is None
    &&& !app.leader_pending
    &&& !app.show_help
}

/// Whether nothing changed but the panel to return to.
pub open spec fn unchanged(app: TuiApp, after: TuiApp) -> bool {
    after == (TuiApp { last_left_panel: after.last_left_panel, ..app })
}

/// Whether nothing changed but the focus, which is on a panel now.
pub open spec fn focus_on(app: TuiApp, after: TuiApp, panel: ActivePanel) -> bool {
    &&& after.selected_panel == panel
    &&& after == (TuiApp {
        selected_panel: after.selected_panel,
        last_left_panel: after.last_left_panel,
        ..app
    })
}

// ---------------------------------------------------------------------------------------------
// Keys
// ---------------------------------------------------------------------------------------------

/// Ctrl+n means Down and Ctrl+p means Up; every other key means itself.
pub proof fn law_meaning_of_keys(key: Key, c: char)
    ensures
        ctrl('n').meaning() == KeyCode::Down,
        ctrl('p').meaning() == KeyCode::Up,
        c != 'n' && c != 'p' ==> ctrl(c).meaning() == KeyCode::Char(c),
        !key.ctrl ==> key.meaning() == key.code,
        !(key.code is Char) ==> key.meaning() == key.code,
        ctrl(c).is_ctrl(c),
        !letter(c).is_ctrl(c),
        key.is_ctrl(c) ==> key == ctrl(c),
{
}

/// `?` and Esc show the help, and change nothing else.
pub proof fn law_help_is_shown(app: TuiApp, key: Key, stamp: Stamp, after: TuiApp, out: Action)
    requires
        at_ease(app),
        key == letter('?') || key.code == KeyCode::Esc,
        tui_keys::key_step(app, key, stamp, after, out),
    ensures
        after.show_help,
        unchanged(TuiApp { show_help: true, ..app }, after),
        out == Action::Nothing,
{
}

/// `q` quits, and changes nothing.
pub proof fn law_q_quits(app: TuiApp, stamp: Stamp, after: TuiApp, out: Action)
    requires
        at_ease(app),
        tui_keys::key_step(app, letter('q'), stamp, after, out),
    ensures
        out == Action::Quit,
        after == app,
{
}

/// `i` opens the current buffer in the editor where the preview has the focus; else it does
/// nothing.
pub proof fn law_i_edits_the_buffer(app: TuiApp, stamp: Stamp, after: TuiApp, out: Action)
    requires
        at_ease(app),
        app.wf(),
        tui_keys::key_step(app, letter('i'), stamp, after, out),
    ensures
        unchanged(app, after),
        app.selected_panel == ActivePanel::Preview && app.buffers@.len() > 0 ==> (
        app.selected_buffer matches Some(i) && out == Action::OpenGrid(app.buffers@[i as int])),
        app.selected_panel != ActivePanel::Preview || app.buffers@.len() == 0 ==> out
            == Action::Nothing,
{
}

/// `t` lets the user pick an environment where the environments have the focus, and a file
/// elsewhere.
pub proof fn law_t_opens_a_picker(app: TuiApp, stamp: Stamp, after: TuiApp, out: Action)
    requires
        at_ease(app),
        tui_keys::key_step(app, letter('t'), stamp, after, out),
    ensures
        unchanged(app, after),
        app.selected_panel == ActivePanel::Environments ==> out == Action::PickEnv,
        app.selected_panel != ActivePanel::Environments ==> out == Action::PickFile,
{
}

/// Tab goes from the preview to the environments, to the response and back.
pub proof fn law_tab_goes_through_the_panels(
    app: TuiApp,
    stamp: Stamp,
    after: TuiApp,
    out: Action,
)
    requires
        at_ease(app),
        tui_keys::key_step(app, press(KeyCode::Tab), stamp, after, out),
    ensures
        out == Action::Nothing,
        app.selected_panel == ActivePanel::Preview ==> focus_on(
            app,
            after,
            ActivePanel::Environments,
        ),
        app.selected_panel == ActivePanel::Environments ==> focus_on(
            app,
            after,
            ActivePanel::Response,
        ),
        app.selected_panel == ActivePanel::Response ==> focus_on(app, after, ActivePanel::Preview),
{
}

/// `d` in the preview closes the buffer that is shown and no other. The one behind it is shown, or
/// the last; its file is not touched. Elsewhere `d` does nothing.
pub proof fn law_d_closes_the_buffer(
    app: TuiApp,
    stamp: Stamp,
    after: TuiApp,
    out: Action,
    i: usize,
    k: int,
)
    requires
        at_ease(app),
        app.wf(),
        app.selected_buffer == Some(i),
        app.buffers@.len() <= usize::MAX,
        tui_keys::key_step(app, letter('d'), stamp, after, out),
    ensures
        out == Action::Nothing,
        app.selected_panel == ActivePanel::Preview ==> {
            &&& after.buffers@.len() == app.buffers@.len() - 1
            &&& 0 <= k < i ==> after.buffers@[k] == app.buffers@[k]
            &&& i <= k < after.buffers@.len() ==> after.buffers@[k] == app.buffers@[k + 1]
            &&& app.buffers@.len() == 1 ==> after.selected_buffer is None
            &&& i + 1 < app.buffers@.len() ==> after.selected_buffer == Some(i)
            &&& i > 0 && i + 1 == app.buffers@.len() ==> after.selected_buffer == Some(
                (i - 1) as usize,
            )
            &&& after.preview_scroll == 0
            &&& after.running_requests == app.running_requests
            &&& after.focused_request == app.focused_request
            &&& after.response_view == app.response_view
            &&& after.status_view == app.status_view
        },
        app.selected_panel != ActivePanel::Preview ==> unchanged(app, after),
{
}

/// Left and `h` go from the response to the preview, and do nothing elsewhere; Right and `l` go to
/// the response.
pub proof fn law_left_and_right(app: TuiApp, key: Key, stamp: Stamp, after: TuiApp, out: Action)
    requires
        at_ease(app),
        tui_keys::key_step(app, key, stamp, after, out),
    ensures
        key == letter('h') || key == press(KeyCode::Left) ==> {
            &&& out == Action::Nothing
            &&& app.selected_panel == ActivePanel::Response ==> focus_on(
                app,
                after,
                ActivePanel::Preview,
            )
            &&& app.selected_panel != ActivePanel::Response ==> unchanged(app, after)
        },
        key == letter('l') || key == press(KeyCode::Right) || key == ctrl('l') ==> out
            == Action::Nothing && focus_on(app, after, ActivePanel::Response),
{
}

/// Ctrl+h goes to the panel on the left that had the focus last; Ctrl+k goes to the preview and
/// Ctrl+j to the environments, unless the response has the focus.
pub proof fn law_ctrl_moves_the_focus(
    app: TuiApp,
    key: Key,
    stamp: Stamp,
    after: TuiApp,
    out: Action,
)
    requires
        at_ease(app),
        tui_keys::key_step(app, key, stamp, after, out),
    ensures
        key == ctrl('h') ==> out == Action::Nothing && focus_on(app, after, app.last_left_panel),
        key == ctrl('k') && app.selected_panel != ActivePanel::Response ==> out == Action::Nothing
            && focus_on(app, after, ActivePanel::Preview),
        key == ctrl('j') && app.selected_panel != ActivePanel::Response ==> out == Action::Nothing
            && focus_on(app, after, ActivePanel::Environments),
        key == ctrl('k') || key == ctrl('j') ==> (app.selected_panel == ActivePanel::Response
            ==> out == Action::Nothing && unchanged(app, after)),
{
}

/// Where no popup was open, the panel to return to is the one on the left that has the focus, or
/// had it last.
pub proof fn law_left_panel_is_remembered(
    app: TuiApp,
    key: Key,
    stamp: Stamp,
    after: TuiApp,
    out: Action,
)
    requires
        at_ease(app),
        tui_keys::key_step(app, key, stamp, after, out),
        out != Action::Quit,
    ensures
        after.selected_panel != ActivePanel::Response ==> after.last_left_panel
            == after.selected_panel,
        after.selected_panel == ActivePanel::Response ==> after.last_left_panel
            == app.last_left_panel,
{
}

/// Down and `j` scroll the panel that has the focus down by one line, Up and `k` up by one; no
/// other panel moves.
pub proof fn law_scrolling(app: TuiApp, key: Key, stamp: Stamp, after: TuiApp, out: Action)
    requires
        at_ease(app),
        tui_keys::key_step(app, key, stamp, after, out),
    ensures
        key == letter('j') || key.meaning() == KeyCode::Down ==> {
            &&& out == Action::Nothing
            &&& after == (TuiApp {
                response_scroll: after.response_scroll,
                env_scroll: after.env_scroll,
                preview_scroll: after.preview_scroll,
                last_left_panel: after.last_left_panel,
                ..app
            })
            &&& one_down(
                app.response_scroll,
                after.response_scroll,
                app.selected_panel == ActivePanel::Response,
            )
            &&& one_down(
                app.env_scroll,
                after.env_scroll,
                app.selected_panel == ActivePanel::Environments,
            )
            &&& one_down(
                app.preview_scroll,
                after.preview_scroll,
                app.selected_panel == ActivePanel::Preview,
            )
        },
        key == letter('k') || key.meaning() == KeyCode::Up ==> {
            &&& out == Action::Nothing
            &&& after == (TuiApp {
                response_scroll: after.response_scroll,
                env_scroll: after.env_scroll,
                preview_scroll: after.preview_scroll,
                last_left_panel: after.last_left_panel,
                ..app
            })
            &&& one_up(
                app.response_scroll,
                after.response_scroll,
                app.selected_panel == ActivePanel::Response,
            )
            &&& one_up(
                app.env_scroll,
                after.env_scroll,
                app.selected_panel == ActivePanel::Environments,
            )
            &&& one_up(
                app.preview_scroll,
                after.preview_scroll,
                app.selected_panel == ActivePanel::Preview,
            )
        },
{
}

/// Whether a position is one further down where it moves, as far as there are numbers for it.
pub open spec fn one_down(was: u16, is: u16, moves: bool) -> bool {
    if moves && was < 65535 {
        is == was + 1
    } else {
        is == was
    }
}

/// Whether a position is one further up where it moves, as far as the start.
pub open spec fn one_up(was: u16, is: u16, moves: bool) -> bool {
    if moves && was > 0 {
        is == was - 1
    } else {
        is == was
    }
}

/// `L` shows the next buffer, or the first behind the last; `H` the one before, or the last before
/// the first.
pub proof fn law_next_and_previous_buffer(
    app: TuiApp,
    key: Key,
    stamp: Stamp,
    after: TuiApp,
    out: Action,
    i: usize,
)
    requires
        at_ease(app),
        app.wf(),
        app.buffers@.len() <= usize::MAX,
        app.selected_buffer == Some(i),
        key == letter('L') || key == letter('H'),
        tui_keys::key_step(app, key, stamp, after, out),
    ensures
        out == Action::Nothing,
        after == (TuiApp {
            selected_buffer: after.selected_buffer,
            preview_scroll: 0,
            last_left_panel: after.last_left_panel,
            ..app
        }),
        key == letter('L') && i + 1 < app.buffers@.len() ==> after.selected_buffer == Some(
            (i + 1) as usize,
        ),
        key == letter('L') && i + 1 == app.buffers@.len() ==> after.selected_buffer == Some(
            0usize,
        ),
        key == letter('H') && i > 0 ==> after.selected_buffer == Some((i - 1) as usize),
        key == letter('H') && i == 0 ==> after.selected_buffer == Some(
            (app.buffers@.len() - 1) as usize,
        ),
{
    let n = app.buffers@.len() as int;
    let at = i as int;
    if at + 1 < n {
        assert((at + 1) % n == at + 1) by (nonlinear_arith)
            requires
                0 <= at + 1 < n,
        ;
    } else {
        assert((at + 1) % n == 0) by (nonlinear_arith)
            requires
                at + 1 == n,
                n > 0,
        ;
    }
    if at > 0 {
        assert((at - 1) % n == at - 1) by (nonlinear_arith)
            requires
                0 <= at - 1 < n,
        ;
    } else {
        assert((at - 1) % n == n - 1) by (nonlinear_arith)
            requires
                at == 0,
                n > 0,
        ;
    }
    assert((at + -1) % n == (at - 1) % n);
}

/// Going on by any number of buffers, or back, shows a buffer that many places from the one that
/// was shown, counted around the ends of the list.
pub proof fn law_buffers_are_counted_around(app: TuiApp, i: usize, offset: int)
    requires
        app.wf(),
        app.buffers@.len() <= usize::MAX,
        app.selected_buffer == Some(i),
    ensures
        tui::shifted(app, offset).selected_buffer matches Some(k) && k < app.buffers@.len() && (k - (
        i + offset)) % (app.buffers@.len() as int) == 0,
        tui::shifted(app, offset).buffers == app.buffers,
{
    let n = app.buffers@.len() as int;
    let x = i + offset;
    vstd::arithmetic::div_mod::lemma_fundamental_div_mod(x, n);
    vstd::arithmetic::div_mod::lemma_mod_bound(x, n);
    let q = x / n;
    assert(x % n - x == (-q) * n) by (nonlinear_arith)
        requires
            x == n * q + x % n,
    ;
    vstd::arithmetic::div_mod::lemma_mod_multiples_basic(-q, n);
}

/// The space bar waits for a key. Then `b` lets the user pick one of the open buffers, `h` shows
/// the history, and any other key is let go.
pub proof fn law_space_leads(app: TuiApp, key: Key, stamp: Stamp, after: TuiApp, out: Action)
    requires
        tui_keys::key_step(app, key, stamp, after, out),
        !key.is_ctrl('c'),
    ensures
        at_ease(app) && key == letter(' ') ==> after.leader_pending && out == Action::Nothing
            && unchanged(TuiApp { leader_pending: true, ..app }, after),
        at_ease(TuiApp { leader_pending: false, show_help: false, ..app }) && app.leader_pending
            ==> {
            &&& !after.leader_pending
            &&& after == (TuiApp { telescope: after.telescope, leader_pending: false, ..app })
            &&& key == letter('b') ==> {
                &&& out == Action::Nothing
                &&& after.telescope.active
                &&& after.telescope.query@.len() == 0 && after.telescope.selected == 0
                &&& after.telescope.items@ == tui::buffer_items(app.buffers@)
            }
            &&& key == letter('h') ==> out == Action::LoadHistory
            &&& key.code != KeyCode::Char('b') ==> after.telescope == app.telescope
            &&& key.code != KeyCode::Char('b') && key.code != KeyCode::Char('h') ==> out
                == Action::Nothing
        },
{
}

/// `e` opens in the editor what has the focus: the file of the current buffer, the response unless
/// it is empty, or the file of the active environment.
pub proof fn law_e_edits_what_has_the_focus(
    app: TuiApp,
    stamp: Stamp,
    after: TuiApp,
    out: Action,
)
    requires
        at_ease(app),
        app.wf(),
        tui_keys::key_step(app, letter('e'), stamp, after, out),
    ensures
        unchanged(app, after),
        app.selected_panel == ActivePanel::Environments ==> out == Action::EditActiveEnv,
        app.selected_panel == ActivePanel::Response ==> (out == Action::EditResponse <==>
            app.response_view@.len() > 0),
        app.selected_panel == ActivePanel::Preview ==> (app.selected_buffer matches Some(i) ==> out
            == Action::EditFile(app.buffers@[i as int])),
        app.selected_panel == ActivePanel::Preview && app.selected_buffer is None ==> out
            == Action::Nothing,
{
}

/// Enter in the preview sends the request of the buffer that is shown, unless it is in flight:
/// it is in flight then, its result is awaited, and the response is empty. Elsewhere Enter does
/// nothing.
pub proof fn law_enter_sends_the_request(
    app: TuiApp,
    stamp: Stamp,
    after: TuiApp,
    out: Action,
    i: usize,
)
    requires
        at_ease(app),
        app.wf(),
        app.selected_buffer == Some(i),
        tui_keys::key_step(app, press(KeyCode::Enter), stamp, after, out),
    ensures
        app.selected_panel == ActivePanel::Preview && !in_flight(app, app.buffers@[i as int]@) ==> {
            let path = app.buffers@[i as int];
            &&& out == Action::Run(path)
            &&& after.running_requests@ == app.running_requests@.push(path)
            &&& after.focused_request == Some(path)
            &&& after.response_view@.len() == 0
            &&& after.response_scroll == 0
            &&& after.status_view@ == "Sending "@ + paths::base_name_or(path@, "request"@)
                + "..."@
            &&& after.buffers == app.buffers && after.selected_buffer == app.selected_buffer
        },
        app.selected_panel == ActivePanel::Preview && in_flight(app, app.buffers@[i as int]@)
            ==> out == Action::Nothing && unchanged(app, after),
        app.selected_panel != ActivePanel::Preview ==> out == Action::Nothing && unchanged(
            app,
            after,
        ),
{
    lemma_in_flight(app, app.buffers@[i as int]@);
}

/// Whether the request of a file is in flight.
pub open spec fn in_flight(app: TuiApp, path: Seq<char>) -> bool {
    exists|k: int|
        0 <= k < app.running_requests@.len() && paths::same(
            (#[trigger] app.running_requests@[k])@,
            path,
        )
}

proof fn lemma_in_flight(app: TuiApp, path: Seq<char>)
    ensures
        in_flight(app, path) <==> tui::listed(text::views(app.running_requests@), path),
{
    let names = text::views(app.running_requests@);
    tui::lemma_path_index(names, path);
    if tui::listed(names, path) {
        let k = tui::path_index(names, path) as int;
        assert(names[k] == app.running_requests@[k]@);
    }
    if in_flight(app, path) {
        let k = choose|k: int|
            0 <= k < app.running_requests@.len() && paths::same(
                (#[trigger] app.running_requests@[k])@,
                path,
            );
        assert(names[k] == app.running_requests@[k]@);
    }
}

/// `r` lists the environments again, and changes nothing by itself.
pub proof fn law_r_refreshes(app: TuiApp, stamp: Stamp, after: TuiApp, out: Action)
    requires
        at_ease(app),
        tui_keys::key_step(app, letter('r'), stamp, after, out),
    ensures
        out == Action::RefreshEnvs,
        unchanged(app, after),
{
}

/// Keys without a meaning do nothing.
pub proof fn law_other_keys_do_nothing(
    app: TuiApp,
    c: char,
    key: Key,
    stamp: Stamp,
    after: TuiApp,
    out: Action,
)
    requires
        at_ease(app),
        key == press(KeyCode::Other) || key == press(KeyCode::Backspace) || (key == letter(c)
            && !seq!['?', 'q', 'i', 't', 'd', 'h', 'j', 'k', 'l', 'H', 'L', ' ', 'e', 'r'].contains(
            c,
        )),
        tui_keys::key_step(app, key, stamp, after, out),
    ensures
        out == Action::Nothing,
        unchanged(app, after),
{
    let known = seq!['?', 'q', 'i', 't', 'd', 'h', 'j', 'k', 'l', 'H', 'L', ' ', 'e', 'r'];
    assert(known[0] == '?' && known[1] == 'q' && known[2] == 'i' && known[3] == 't');
    assert(known[4] == 'd' && known[5] == 'h' && known[6] == 'j' && known[7] == 'k');
    assert(known[8] == 'l' && known[9] == 'H' && known[10] == 'L' && known[11] == ' ');
    assert(known[12] == 'e' && known[13] == 'r');
}

// ---------------------------------------------------------------------------------------------
// The picker
// ---------------------------------------------------------------------------------------------

/// Esc hides the picker; Down and Up select the next match and the one before, as far as there is
/// one; Backspace takes the last letter off the query, and Ctrl+u all of them.
pub proof fn law_keys_of_the_picker(
    app: TuiApp,
    key: Key,
    stamp: Stamp,
    after: TuiApp,
    out: Action,
)
    requires
        app.telescope.active,
        app.wf(),
        app.telescope.matching().len() <= usize::MAX,
        tui_keys::key_step(app, key, stamp, after, out),
        key.code != KeyCode::Enter,
        !key.is_ctrl('c'),
    ensures
        out == Action::Nothing,
        after == (TuiApp { telescope: after.telescope, ..app }),
        after.telescope.items == app.telescope.items,
        after.telescope.title == app.telescope.title,
        after.telescope.active <==> key.code != KeyCode::Esc,
        key.code == KeyCode::Esc ==> after.telescope == (Telescope {
            active: false,
            ..app.telescope
        }),
        key.meaning() == KeyCode::Down ==> after.telescope.query == app.telescope.query
            && if app.telescope.selected + 1 < app.telescope.matching().len() {
            after.telescope.selected == app.telescope.selected + 1
        } else {
            after.telescope.selected == app.telescope.selected
        },
        key.meaning() == KeyCode::Up ==> after.telescope.query == app.telescope.query
            && if app.telescope.selected > 0 {
            after.telescope.selected == app.telescope.selected - 1
        } else {
            after.telescope.selected == 0
        },
        key.code == KeyCode::Backspace ==> after.telescope.selected == 0 && (
        app.telescope.query@.len() > 0 ==> after.telescope.query@ == app.telescope.query@.take(
            app.telescope.query@.len() - 1,
        )) && (app.telescope.query@.len() == 0 ==> after.telescope.query@.len() == 0),
        key == ctrl('u') ==> after.telescope.selected == 0 && after.telescope.query@.len() == 0,
{
}

/// Enter in the picker hides it and does what the selected match is for: it opens its file, shows
/// its buffer, or switches to its environment. Without a match it only hides the picker.
pub proof fn law_enter_picks_the_selected(
    app: TuiApp,
    stamp: Stamp,
    after: TuiApp,
    out: Action,
)
    requires
        app.telescope.active,
        app.wf(),
        app.buffers@.len() < usize::MAX,
        tui_keys::key_step(app, press(KeyCode::Enter), stamp, after, out),
    ensures
        !after.telescope.active,
        app.telescope.matching().len() == 0 ==> out == Action::Nothing && after == (TuiApp {
            telescope: after.telescope,
            ..app
        }),
        app.telescope.matching().len() > 0 ==> match app.telescope.matching()[app.telescope.selected as int].action {
            TelescopeAction::OpenFile(path) => out == Action::Nothing && (
            after.current() matches Some(p) && paths::same(p@, path@)) && after.preview_scroll == 0,
            TelescopeAction::SwitchEnv(name) => out == Action::SwitchEnv(name) && after == (
            TuiApp { telescope: after.telescope, ..app }),
            TelescopeAction::SwitchBuffer(path) => out == Action::Nothing && after.buffers
                == app.buffers && (open_at(app.buffers@, path@) ==> (
            after.current() matches Some(p) && paths::same(p@, path@))),
        },
{
    let t = app.telescope;
    if t.matching().len() > 0 {
        match t.matching()[t.selected as int].action {
            TelescopeAction::OpenFile(path) => {
                lemma_open_at(app.buffers@, path@);
                let names = text::views(app.buffers@);
                tui::lemma_path_index(names, path@);
                assert(names.len() == app.buffers@.len());
                if tui::listed(names, path@) {
                    let k = tui::path_index(names, path@) as int;
                    assert(names[k] == app.buffers@[k]@);
                } else {
                    lemma_same_as_itself(path@);
                }
            },
            TelescopeAction::SwitchBuffer(path) => {
                lemma_open_at(app.buffers@, path@);
                let names = text::views(app.buffers@);
                tui::lemma_path_index(names, path@);
                if tui::listed(names, path@) {
                    let k = tui::path_index(names, path@) as int;
                    assert(names[k] == app.buffers@[k]@);
                }
            },
            _ => {},
        }
    }
}

proof fn lemma_same_as_itself(path: Seq<char>)
    ensures
        paths::same(path, path),
{
}

/// Whether some buffer is this file.
pub open spec fn open_at(buffers: Seq<String>, path: Seq<char>) -> bool {
    exists|k: int| 0 <= k < buffers.len() && paths::same((#[trigger] buffers[k])@, path)
}

proof fn lemma_open_at(buffers: Seq<String>, path: Seq<char>)
    ensures
        open_at(buffers, path) <==> tui::listed(text::views(buffers), path),
{
    let names = text::views(buffers);
    tui::lemma_path_index(names, path);
    if tui::listed(names, path) {
        let k = tui::path_index(names, path) as int;
        assert(names[k] == buffers[k]@);
    }
    if open_at(buffers, path) {
        let k = choose|k: int|
            0 <= k < buffers.len() && paths::same((#[trigger] buffers[k])@, path);
        assert(names[k] == buffers[k]@);
    }
}

/// A file that is picked is opened behind the buffers that are open, unless it is one of them. No
/// buffer is lost.
pub proof fn law_picked_file_is_opened(
    app: TuiApp,
    path: String,
    after: TuiApp,
    out: Action,
)
    requires
        app.buffers@.len() < usize::MAX,
        tui::picked(app, TelescopeAction::OpenFile(path), after, out),
    ensures
        open_at(app.buffers@, path@) ==> after.buffers@ == app.buffers@,
        !open_at(app.buffers@, path@) ==> after.buffers@ == app.buffers@.push(path)
            && after.selected_buffer == Some(app.buffers@.len() as usize),
        open_at(after.buffers@, path@),
        after == (TuiApp {
            buffers: after.buffers,
            selected_buffer: after.selected_buffer,
            preview_scroll: 0,
            ..app
        }),
{
    let names = text::views(app.buffers@);
    lemma_open_at(app.buffers@, path@);
    tui::lemma_path_index(names, path@);
    if !open_at(app.buffers@, path@) {
        lemma_same_as_itself(path@);
        assert(after.buffers@[app.buffers@.len() as int] == path);
    }
}

/// Each file, environment or buffer that can be picked is shown by its name, in their order, and
/// picking it is about itself.
pub proof fn law_items_of_pickers(names: Seq<String>, i: int)
    requires
        0 <= i < names.len(),
    ensures
        tui::file_items(names).len() == names.len(),
        tui::file_items(names)[i].display == names[i],
        tui::file_items(names)[i].action == TelescopeAction::OpenFile(names[i]),
        tui::env_items(names).len() == names.len(),
        tui::env_items(names)[i].display == names[i],
        tui::env_items(names)[i].action == TelescopeAction::SwitchEnv(names[i]),
        tui::buffer_items(names).len() == names.len(),
        tui::buffer_items(names)[i].display == names[i],
        tui::buffer_items(names)[i].action == TelescopeAction::SwitchBuffer(names[i]),
{
}

/// A picker that was just opened is shown with all its items, the first of them selected, and an
/// empty query.
pub proof fn law_opened_picker(t: Telescope, title: Seq<char>, items: Seq<TelescopeItem>)
    requires
        tui::just_opened(t, title, items),
    ensures
        t.active,
        t.title@ == title,
        t.items@ == items,
        t.query@.len() == 0,
        t.selected == 0,
{
}

// ---------------------------------------------------------------------------------------------
// The history and the editor
// ---------------------------------------------------------------------------------------------

/// In the history, Down and `j` select the next older entry, Up and `k` the next newer one, as far
/// as there is one. Esc and `q` hide it.
pub proof fn law_keys_of_the_history(
    app: TuiApp,
    key: Key,
    stamp: Stamp,
    after: TuiApp,
    out: Action,
    i: usize,
)
    requires
        app.history_active && !app.telescope.active,
        app.wf(),
        app.history@.len() <= usize::MAX,
        app.selected_entry == Some(i),
        tui_keys::key_step(app, key, stamp, after, out),
        !key.is_ctrl('c'),
    ensures
        out == Action::Nothing,
        key.meaning() == KeyCode::Down || key == letter('j') ==> after == (TuiApp {
            selected_entry: after.selected_entry,
            ..app
        }) && if i + 1 < app.history@.len() {
            after.selected_entry == Some((i + 1) as usize)
        } else {
            after.selected_entry == Some(i)
        },
        key.meaning() == KeyCode::Up || key == letter('k') ==> after == (TuiApp {
            selected_entry: after.selected_entry,
            ..app
        }) && if i > 0 {
            after.selected_entry == Some((i - 1) as usize)
        } else {
            after.selected_entry == Some(i)
        },
        key.code == KeyCode::Esc || key == letter('q') ==> after == (TuiApp {
            history_active: false,
            ..app
        }),
{
}

/// Enter in the history hides it and shows the response of the selected entry from its start; the
/// status names the entry.
pub proof fn law_enter_shows_the_entry(
    app: TuiApp,
    stamp: Stamp,
    after: TuiApp,
    out: Action,
    i: usize,
)
    requires
        app.history_active && !app.telescope.active,
        app.wf(),
        app.selected_entry == Some(i),
        tui_keys::key_step(app, press(KeyCode::Enter), stamp, after, out),
    ensures
        out == Action::Nothing,
        !after.history_active,
        after.response_view == app.history@[i as int].response,
        after.response_scroll == 0,
        after.status_view@ == tui_keys::entry_line(app.history@[i as int]),
        after.history == app.history && after.buffers == app.buffers
            && after.running_requests == app.running_requests && after.focused_request
            == app.focused_request,
{
}

/// The status for an entry of the history shows its method, URL, status and time.
pub proof fn law_line_of_an_entry(e: HistoryEntry)
    ensures
        tui_keys::entry_line(e) == "History | "@ + (e.method@ + seq![' '] + e.url@) + " -> "@ + (
        e.status@ + " ("@ + e.timestamp@ + ")"@),
{
    reveal_strlit(" ");
    assert(" "@ =~= seq![' ']);
    assert(tui_keys::entry_line(e) =~= "History | "@ + (e.method@ + seq![' '] + e.url@) + " -> "@ + (
    e.status@ + " ("@ + e.timestamp@ + ")"@));
}

/// Whether a key went to the editor, and nothing else changed: the editor is as the key leaves it,
/// or closed where the key leaves it, and a change is to be saved to the file that is edited.
pub open spec fn went_to_the_editor(
    app: TuiApp,
    e: GridEditState,
    key: Key,
    stamp: Stamp,
    after: TuiApp,
    out: Action,
    edited: GridEditState,
    done: GridOutcome,
) -> bool {
    &&& grid_keys::grid_step(e, key, stamp, edited, done)
    &&& after == (TuiApp { grid_edit: after.grid_edit, ..app })
    &&& done.exit <==> after.grid_edit is None
    &&& !done.exit ==> after.grid_edit == Some(edited)
    &&& done.changed ==> out is SaveGrid && out->path == edited.path
    &&& !done.changed ==> out == Action::Nothing
}

/// While a request is edited, and neither the picker nor the history is open, every key but Ctrl+c
/// goes to the editor.
pub proof fn law_editor_takes_the_keys(
    app: TuiApp,
    e: GridEditState,
    key: Key,
    stamp: Stamp,
    after: TuiApp,
    out: Action,
)
    requires
        !app.telescope.active && !app.history_active,
        app.grid_edit == Some(e),
        !key.is_ctrl('c'),
        tui_keys::key_step(app, key, stamp, after, out),
    ensures
        exists|edited: GridEditState, done: GridOutcome| #[trigger]
            went_to_the_editor(app, e, key, stamp, after, out, edited, done),
{
    let (edited, done) = choose|edited: GridEditState, done: GridOutcome| #[trigger]
        tui_keys::edit_done(app, e, key, stamp, edited, done, after, out);
    assert(went_to_the_editor(app, e, key, stamp, after, out, edited, done));
}

// ---------------------------------------------------------------------------------------------
// What comes from outside
// ---------------------------------------------------------------------------------------------

/// The result of the request that is awaited is shown, and no result is awaited then. Nothing else
/// changes but what is in flight.
pub proof fn law_awaited_result_is_shown(
    app: TuiApp,
    path: Seq<char>,
    status: Seq<char>,
    response: Seq<char>,
    after: TuiApp,
)
    requires
        tui::finished(app, path, status, response, after),
    ensures
        (app.focused_request matches Some(p) && paths::same(path, p@)) ==> after.status_view@
            == status && after.response_view@ == response && after.focused_request is None,
        after == (TuiApp {
            running_requests: after.running_requests,
            status_view: after.status_view,
            response_view: after.response_view,
            focused_request: after.focused_request,
            ..app
        }),
{
}

/// The buffer that is shown is the one that is selected.
pub proof fn law_current_buffer(app: TuiApp, i: usize)
    ensures
        app.selected_buffer == Some(i) && i < app.buffers@.len() ==> app.current() == Some(
            app.buffers@[i as int],
        ),
        app.selected_buffer is None ==> app.current() is None,
{
}

/// A path is in a list exactly where some path of the list is the same, and its place is that of
/// the first of them.
pub proof fn law_paths_in_lists(list: Seq<Seq<char>>, path: Seq<char>, i: int)
    ensures
        0 <= i < list.len() && paths::same(list[i], path) ==> tui::listed(list, path)
            && tui::path_index(list, path) <= i,
        tui::listed(list, path) ==> paths::same(list[tui::path_index(list, path) as int], path),
{
    tui::lemma_path_index(list, path);
    if 0 <= i < list.len() && paths::same(list[i], path) {
        tui::lemma_listed(list, path, i);
    }
}

/// Taking a path out of a list leaves the others in their order.
pub proof fn law_paths_taken_out(
    list: Seq<Seq<char>>,
    path: Seq<char>,
    last: Seq<char>,
)
    ensures
        paths::same(last, path) ==> tui::without_path(list.push(last), path) == tui::without_path(
            list,
            path,
        ),
        !paths::same(last, path) ==> tui::without_path(list.push(last), path)
            == tui::without_path(list, path).push(last),
        tui::without_path(Seq::empty(), path).len() == 0,
{
    assert(list.push(last).drop_last() =~= list);
}

/// A file is named like a request exactly where its extension is `yaml` or `yml`.
pub proof fn law_names_of_request_files(path: Seq<char>)
    ensures
        paths::suffix(path) == Some("yaml"@) ==> tui::named_like_request(path),
        paths::suffix(path) == Some("yml"@) ==> tui::named_like_request(path),
        tui::named_like_request(path) ==> (paths::suffix(path) matches Some(ext) && (ext
            == "yaml"@ || ext == "yml"@)),
{
}

/// A text looks like a request exactly where both `method:` and `url:` stand somewhere in it.
pub proof fn law_texts_of_requests(
    a: Seq<char>,
    b: Seq<char>,
    c: Seq<char>,
    content: Seq<char>,
)
    ensures
        tui::looks_like_request(a + "method:"@ + b + "url:"@ + c),
        tui::looks_like_request(a + "url:"@ + b + "method:"@ + c),
        !text::occurs(content, "method:"@) ==> !tui::looks_like_request(content),
        !text::occurs(content, "url:"@) ==> !tui::looks_like_request(content),
{
    let s = a + "method:"@ + b + "url:"@ + c;
    let t = a + "url:"@ + b + "method:"@ + c;
    let (m, u) = ("method:"@, "url:"@);
    lemma_found(s, m, a.len() as int);
    lemma_found(s, u, (a + m + b).len() as int);
    lemma_found(t, u, a.len() as int);
    lemma_found(t, m, (a + u + b).len() as int);
}

proof fn lemma_found(s: Seq<char>, p: Seq<char>, i: int)
    requires
        0 <= i,
        i + p.len() <= s.len(),
        s.subrange(i, i + p.len()) =~= p,
    ensures
        text::occurs(s, p),
{
    assert(text::stands_at(s, p, i));
}

/// A directory is passed over exactly where its name starts with a dot.
pub proof fn law_hidden_directories(dir: Seq<char>, name: Seq<char>)
    requires
        list_laws::is_file_name(name),
    ensures
        tui::is_hidden(dir + seq!['/'] + name) <==> name[0] == '.',
{
    list_laws::law_file_name_is_behind_the_last_slash(dir, name);
}

} // verus!
