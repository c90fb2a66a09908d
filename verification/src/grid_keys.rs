//! What each key does in the grid editor.

use crate::grid::{GridCol, GridEditState, GridSection};
use crate::grid;
use crate::keys::{Key, KeyCode};
use crate::text;
use crate::text::{concat2, concat3, decimal_text};
use crate::undo::Stamp;
use vstd::prelude::*;
use vstd::string::*;

verus! {

/// What a key press in the editor asks for.
pub struct GridOutcome {
    /// Whether something was changed, so that the file is to be saved.
    pub changed: bool,
    /// Whether the editor is left.
    pub exit: bool,
}

/// The name of a section in labels.
pub open spec fn section_name(section: GridSection) -> Seq<char> {
    match section {
        GridSection::Query => "Query"@,
        GridSection::Headers => "Headers"@,
        GridSection::Body => "Body"@,
    }
}

/// The name of a column in labels.
pub open spec fn col_name(col: GridCol) -> Seq<char> {
    match col {
        GridCol::Key => "key"@,
        GridCol::Value => "value"@,
    }
}

/// The label of a change of one cell.
pub open spec fn cell_label(
    section: GridSection,
    key: Seq<char>,
    col: GridCol,
    was: Seq<char>,
    is: Seq<char>,
) -> Seq<char> {
    section_name(section) + " "@ + key + "."@ + col_name(col) + ": '"@ + was
        + "' \u{2192} '"@ + is + "'"@
}

/// The label of a row that was deleted.
pub open spec fn delete_label(section: GridSection, key: Seq<char>, value: Seq<char>) -> Seq<char> {
    section_name(section) + " delete "@ + key + " (was '"@ + value + "')"@
}

/// The label of a change of the body, with its lengths in bytes.
pub open spec fn body_label(was: String, is: String) -> Seq<char> {
    "Body edited ("@ + text::decimal(byte_len(was) as nat) + " \u{2192} "@ + text::decimal(
        byte_len(is) as nat,
    ) + " chars)"@
}

/// The length of a text in bytes.
pub open spec fn byte_len(s: String) -> usize {
    vstd::utf8::encode_utf8(s@).len() as usize
}

fn section_text(section: GridSection) -> (r: &'static str)
    ensures
        r@ == section_name(section),
{
    match section {
        GridSection::Query => "Query",
        GridSection::Headers => "Headers",
        GridSection::Body => "Body",
    }
}

fn cell_label_text(
    section: GridSection,
    key: &str,
    col: GridCol,
    was: &str,
    is: &str,
) -> (r: String)
    ensures
        r@ == cell_label(section, key@, col, was@, is@),
{
    let mut s: String = concat3(section_text(section), " ", key);
    s.append(".");
    s.append(
        match col {
            GridCol::Key => "key",
            GridCol::Value => "value",
        },
    );
    s.append(": '");
    s.append(was);
    s.append("' \u{2192} '");
    s.append(is);
    s.append("'");
    s
}

fn delete_label_text(section: GridSection, key: &str, value: &str) -> (r: String)
    ensures
        r@ == delete_label(section, key@, value@),
{
    let mut s: String = concat3(section_text(section), " delete ", key);
    s.append(" (was '");
    s.append(value);
    s.append("')");
    s
}

fn body_label_text(was: &String, is: &String) -> (r: String)
    ensures
        r@ == body_label(*was, *is),
{
    let old_len: usize = was.as_str().len();
    let new_len: usize = is.as_str().len();
    let mut s: String = concat2("Body edited (", decimal_text(old_len as u64).as_str());
    s.append(" \u{2192} ");
    s.append(decimal_text(new_len as u64).as_str());
    s.append(" chars)");
    s
}

/// The section after this one.
pub open spec fn next_section(section: GridSection) -> GridSection {
    match section {
        GridSection::Query => GridSection::Headers,
        GridSection::Headers => GridSection::Body,
        GridSection::Body => GridSection::Query,
    }
}

/// What a key does while the undo tree is shown: Esc and `q` hide it, Up and `k` select a newer
/// state, Down and `j` an older one, Enter goes there.
pub open spec fn tree_step(
    e: GridEditState,
    key: Key,
    after: GridEditState,
    out: GridOutcome,
) -> bool {
    let hidden = GridEditState { undo_tree_active: false, ..e };
    &&& !out.exit
    &&& match key.meaning() {
        KeyCode::Esc | KeyCode::Char('q') => !out.changed && after == hidden,
        KeyCode::Up | KeyCode::Char('k') => !out.changed && after == (GridEditState {
            undo_tree_selected: if e.undo_tree_selected + 1 < e.undo_nodes@.len() {
                (e.undo_tree_selected + 1) as usize
            } else {
                e.undo_tree_selected
            },
            ..e
        }),
        KeyCode::Down | KeyCode::Char('j') => !out.changed && after == (GridEditState {
            undo_tree_selected: if e.undo_tree_selected > 0 {
                (e.undo_tree_selected - 1) as usize
            } else {
                0
            },
            ..e
        }),
        KeyCode::Enter => hidden.jumped(after, e.undo_tree_selected, out.changed),
        _ => !out.changed && after == e,
    }
}

/// Whether `after` is `e` with another text in the cell or body that is typed into.
pub open spec fn retyped(e: GridEditState, after: GridEditState, typed: Seq<char>) -> bool {
    &&& after.editing_text matches Some(t) && t@ == typed
    &&& after == (GridEditState { editing_text: after.editing_text, ..e })
}

/// What a key does while a cell or the body is typed into. Enter commits a cell; in the body it
/// is a line break, and Ctrl+D commits.
pub open spec fn typing_step(
    e: GridEditState,
    key: Key,
    stamp: Stamp,
    after: GridEditState,
    out: GridOutcome,
) -> bool {
    let typed = e.editing_text->0;
    let left = GridEditState { editing_text: None, ..e };
    &&& !out.exit
    &&& if e.section == GridSection::Body && key.is_ctrl('d') {
        &&& out.changed
        &&& (GridEditState { body_text: typed, ..left }).committed(
            after,
            body_label(e.body_text, typed),
            stamp,
        )
    } else {
        match key.meaning() {
            KeyCode::Esc => !out.changed && after == left,
            KeyCode::Enter => if e.section == GridSection::Body {
                !out.changed && retyped(e, after, typed@.push('\n'))
            } else {
                &&& out.changed
                &&& exists|mid: GridEditState|
                    {
                        &&& left.only_rows(
                            mid,
                            grid::with_cell(e.grid(), e.row as int, e.col, typed),
                        )
                        &&& #[trigger] mid.committed(
                            after,
                            cell_label(
                                e.section,
                                grid::cell(e.grid(), e.row as int, GridCol::Key),
                                e.col,
                                grid::cell(e.grid(), e.row as int, e.col),
                                typed@,
                            ),
                            stamp,
                        )
                    }
            },
            KeyCode::Backspace => !out.changed && retyped(
                e,
                after,
                if typed@.len() == 0 {
                    typed@
                } else {
                    typed@.drop_last()
                },
            ),
            KeyCode::Char(c) => if c == 'u' && key.ctrl {
                !out.changed && retyped(e, after, Seq::empty())
            } else if key.ctrl {
                !out.changed && after == e
            } else {
                !out.changed && retyped(e, after, typed@.push(c))
            },
            _ => !out.changed && after == e,
        }
    }
}

/// What a key does while nothing is typed: move, start to type, add or delete a row, show the
/// undo tree, leave.
pub open spec fn moving_step(
    e: GridEditState,
    key: Key,
    stamp: Stamp,
    after: GridEditState,
    out: GridOutcome,
) -> bool {
    let in_grid = e.section != GridSection::Body;
    let len = e.grid().len();
    let same = !out.changed && !out.exit && after == e;
    match key.meaning() {
        KeyCode::Esc => !out.changed && out.exit && after == e,
        KeyCode::Char('u') => !out.changed && !out.exit && after == (GridEditState {
            undo_tree_active: true,
            undo_tree_selected: e.undo_current,
            ..e
        }),
        KeyCode::Tab => !out.changed && !out.exit && after == (GridEditState {
            section: next_section(e.section),
            row: 0,
            col: GridCol::Key,
            ..e
        }),
        KeyCode::Up | KeyCode::Char('k') => if in_grid {
            !out.changed && !out.exit && after == (GridEditState {
                row: if e.row > 0 {
                    (e.row - 1) as usize
                } else {
                    0
                },
                ..e
            })
        } else {
            same
        },
        KeyCode::Down | KeyCode::Char('j') => if in_grid && e.row + 1 < len {
            !out.changed && !out.exit && after == (GridEditState {
                row: (e.row + 1) as usize,
                ..e
            })
        } else {
            same
        },
        KeyCode::Left | KeyCode::Char('h') => if in_grid {
            !out.changed && !out.exit && after == (GridEditState { col: GridCol::Key, ..e })
        } else {
            same
        },
        KeyCode::Right | KeyCode::Char('l') => if in_grid {
            !out.changed && !out.exit && after == (GridEditState { col: GridCol::Value, ..e })
        } else {
            same
        },
        KeyCode::Enter | KeyCode::Char('i') => if !in_grid {
            !out.changed && !out.exit && retyped(e, after, e.body_text@)
        } else if len > 0 {
            !out.changed && !out.exit && retyped(
                e,
                after,
                grid::cell(e.grid(), e.row as int, e.col),
            )
        } else {
            same
        },
        KeyCode::Char('a') => if in_grid {
            &&& !out.changed
            &&& !out.exit
            &&& after.editing_text matches Some(t) && t@ == Seq::<char>::empty()
            &&& after.grid().len() == len + 1
            &&& after.grid().last().0@ == Seq::<char>::empty()
            &&& after.grid().last().1@ == Seq::<char>::empty()
            &&& (GridEditState {
                row: len as usize,
                col: GridCol::Key,
                editing_text: after.editing_text,
                ..e
            }).only_rows(after, e.grid().push(after.grid().last()))
        } else {
            same
        },
        KeyCode::Char('d') => if in_grid && len > 0 {
            &&& out.changed
            &&& !out.exit
            &&& exists|mid: GridEditState|
                {
                    &&& (GridEditState {
                        row: if len > 1 && e.row >= len - 1 {
                            (len - 2) as usize
                        } else {
                            e.row
                        },
                        ..e
                    }).only_rows(mid, e.grid().remove(e.row as int))
                    &&& #[trigger] mid.committed(
                        after,
                        delete_label(
                            e.section,
                            e.grid()[e.row as int].0@,
                            e.grid()[e.row as int].1@,
                        ),
                        stamp,
                    )
                }
        } else {
            same
        },
        _ => same,
    }
}

/// Whether a key asks for redo: Ctrl with `y`, `-`, `_` or `7`, which terminals report for the
/// same control byte.
pub open spec fn is_redo(key: Key) -> bool {
    key.is_ctrl('y') || key.is_ctrl('-') || key.is_ctrl('_') || key.is_ctrl('7')
}

/// What a key does in the editor.
pub open spec fn grid_step(
    e: GridEditState,
    key: Key,
    stamp: Stamp,
    after: GridEditState,
    out: GridOutcome,
) -> bool {
    let left = GridEditState { editing_text: None, ..e };
    if e.undo_tree_active {
        tree_step(e, key, after, out)
    } else if key.is_ctrl('z') {
        !out.exit && left.undone(after, out.changed)
    } else if is_redo(key) {
        !out.exit && left.redone(after, out.changed)
    } else if e.editing_text is Some {
        typing_step(e, key, stamp, after, out)
    } else {
        moving_step(e, key, stamp, after, out)
    }
}

impl GridEditState {
    fn tree_key(&mut self, key: Key) -> (out: GridOutcome)
        requires
            old(self).wf(),
            old(self).undo_tree_active,
        ensures
            final(self).wf(),
            tree_step(*old(self), key, *final(self), out),
    {
        let mut changed: bool = false;
        match key.normalized() {
            KeyCode::Esc | KeyCode::Char('q') => {
                self.undo_tree_active = false;
            },
            KeyCode::Up | KeyCode::Char('k') => {
                if self.undo_tree_selected < self.undo_nodes.len() - 1 {
                    self.undo_tree_selected = self.undo_tree_selected + 1;
                }
            },
            KeyCode::Down | KeyCode::Char('j') => {
                self.undo_tree_selected = self.undo_tree_selected.saturating_sub(1);
            },
            KeyCode::Enter => {
                let target: usize = self.undo_tree_selected;
                self.undo_tree_active = false;
                changed = self.jump_to(target);
            },
            _ => {},
        }
        GridOutcome { changed, exit: false }
    }

    fn typing_key(&mut self, key: Key, stamp: Stamp) -> (out: GridOutcome)
        requires
            old(self).wf(),
            !old(self).undo_tree_active,
            old(self).editing_text is Some,
        ensures
            final(self).wf(),
            typing_step(*old(self), key, stamp, *final(self), out),
    {
        let mut typed: String = match self.editing_text.take() {
            Some(t) => t,
            None => String::new(),
        };
        assert(*self == (GridEditState { editing_text: None, ..*old(self) }));
        let mut changed: bool = false;
        if self.section == GridSection::Body && key.with_ctrl('d') {
            let label: String = body_label_text(&self.body_text, &typed);
            self.body_text = typed;
            self.commit_at(label, stamp);
            changed = true;
        } else {
            match key.normalized() {
                KeyCode::Esc => {},
                KeyCode::Enter => {
                    if self.section == GridSection::Body {
                        typed.push('\n');
                        self.editing_text = Some(typed);
                    } else {
                        let row_key: String = if self.row < self.rows().len() {
                            self.rows()[self.row].0.clone()
                        } else {
                            String::new()
                        };
                        let was: String = self.focused_value();
                        let label: String = cell_label_text(
                            self.section,
                            row_key.as_str(),
                            self.col,
                            was.as_str(),
                            typed.as_str(),
                        );
                        self.set_focused_value(typed);
                        let ghost mid = *self;
                        self.commit_at(label, stamp);
                        changed = true;
                        assert(row_key@ == grid::cell(
                            old(self).grid(),
                            old(self).row as int,
                            GridCol::Key,
                        ));
                        assert(mid.committed(*self, label@, stamp));
                    }
                },
                KeyCode::Backspace => {
                    let _ = typed.pop();
                    self.editing_text = Some(typed);
                },
                KeyCode::Char(c) => {
                    if c == 'u' && key.ctrl {
                        typed.clear();
                    } else if !key.ctrl {
                        typed.push(c);
                    }
                    self.editing_text = Some(typed);
                },
                _ => {
                    self.editing_text = Some(typed);
                },
            }
        }
        GridOutcome { changed, exit: false }
    }

    fn add_row(&mut self)
        requires
            old(self).section != GridSection::Body,
            old(self).wf(),
            !old(self).undo_tree_active,
        ensures
            final(self).wf(),
            final(self).editing_text matches Some(t) && t@ == Seq::<char>::empty(),
            final(self).grid().len() == old(self).grid().len() + 1,
            final(self).grid().last().0@ == Seq::<char>::empty(),
            final(self).grid().last().1@ == Seq::<char>::empty(),
            (GridEditState {
                row: old(self).grid().len() as usize,
                col: GridCol::Key,
                editing_text: final(self).editing_text,
                ..*old(self)
            }).only_rows(*final(self), old(self).grid().push(final(self).grid().last())),
    {
        let last: usize = self.rows().len();
        self.rows_mut().push((String::new(), String::new()));
        self.row = last;
        self.col = GridCol::Key;
        self.editing_text = Some(String::new());
    }

    fn delete_row(&mut self, stamp: Stamp)
        requires
            old(self).section != GridSection::Body,
            old(self).wf(),
            old(self).editing_text is None,
            old(self).grid().len() > 0,
        ensures
            final(self).wf(),
            moving_step(
                *old(self),
                (Key { code: KeyCode::Char('d'), ctrl: false }),
                stamp,
                *final(self),
                (GridOutcome { changed: true, exit: false }),
            ),
    {
        let row: usize = self.row;
        let label: String = delete_label_text(
            self.section,
            self.rows()[row].0.as_str(),
            self.rows()[row].1.as_str(),
        );
        let _ = self.rows_mut().remove(row);
        let len: usize = self.rows().len();
        if len > 0 && self.row >= len {
            self.row = len - 1;
        }
        let ghost mid = *self;
        self.commit_at(label, stamp);
        assert(mid.committed(*self, label@, stamp));
    }

    fn moving_key(&mut self, key: Key, stamp: Stamp) -> (out: GridOutcome)
        requires
            old(self).wf(),
            !old(self).undo_tree_active,
            old(self).editing_text is None,
        ensures
            final(self).wf(),
            moving_step(*old(self), key, stamp, *final(self), out),
    {
        let mut changed: bool = false;
        let mut exit: bool = false;
        let in_grid: bool = self.section != GridSection::Body;
        match key.normalized() {
            KeyCode::Esc => {
                exit = true;
            },
            KeyCode::Char('u') => {
                self.undo_tree_active = true;
                self.undo_tree_selected = self.undo_current;
            },
            KeyCode::Tab => {
                self.section = match self.section {
                    GridSection::Query => GridSection::Headers,
                    GridSection::Headers => GridSection::Body,
                    GridSection::Body => GridSection::Query,
                };
                self.row = 0;
                self.col = GridCol::Key;
            },
            KeyCode::Up | KeyCode::Char('k') => {
                if in_grid {
                    self.row = self.row.saturating_sub(1);
                }
            },
            KeyCode::Down | KeyCode::Char('j') => {
                if in_grid {
                    let len: usize = self.rows().len();
                    if len > 0 && self.row < len - 1 {
                        self.row = self.row + 1;
                    }
                }
            },
            KeyCode::Left | KeyCode::Char('h') => {
                if in_grid {
                    self.col = GridCol::Key;
                }
            },
            KeyCode::Right | KeyCode::Char('l') => {
                if in_grid {
                    self.col = GridCol::Value;
                }
            },
            KeyCode::Enter | KeyCode::Char('i') => {
                if !in_grid {
                    self.editing_text = Some(self.body_text.clone());
                } else if self.rows().len() > 0 {
                    self.editing_text = Some(self.focused_value());
                }
            },
            KeyCode::Char('a') => {
                if in_grid {
                    self.add_row();
                }
            },
            KeyCode::Char('d') => {
                if in_grid && self.rows().len() > 0 {
                    self.delete_row(stamp);
                    changed = true;
                }
            },
            _ => {},
        }
        GridOutcome { changed, exit }
    }

    /// Takes a key press. A change that it makes is committed with the given stamp.
    pub fn handle_key(&mut self, key: Key, stamp: Stamp) -> (out: GridOutcome)
        requires
            old(self).wf(),
        ensures
            final(self).wf(),
            grid_step(*old(self), key, stamp, *final(self), out),
    {
        if self.undo_tree_active {
            self.tree_key(key)
        } else if key.with_ctrl('z') {
            self.editing_text = None;
            let changed: bool = self.undo();
            GridOutcome { changed, exit: false }
        } else if key.with_ctrl('y') || key.with_ctrl('-') || key.with_ctrl('_') || key.with_ctrl(
            '7',
        ) {
            self.editing_text = None;
            let changed: bool = self.redo();
            GridOutcome { changed, exit: false }
        } else if self.editing_text.is_some() {
            self.typing_key(key, stamp)
        } else {
            self.moving_key(key, stamp)
        }
    }
}

} // verus!
