//! A picker: type to filter a list, move over what is left, choose.

use crate::text;
use crate::text::{contains, to_lowercase};
use vstd::prelude::*;

verus! {

/// What happens when an item is picked. Each kind of picker has a variant here; the popup itself
/// does not need to know about any of them.
pub enum TelescopeAction {
    OpenFile(String),
    SwitchEnv(String),
    SwitchBuffer(String),
}

impl Clone for TelescopeAction {
    fn clone(&self) -> (r: Self)
        ensures
            r == *self,
    {
        match self {
            TelescopeAction::OpenFile(p) => TelescopeAction::OpenFile(p.clone()),
            TelescopeAction::SwitchEnv(n) => TelescopeAction::SwitchEnv(n.clone()),
            TelescopeAction::SwitchBuffer(p) => TelescopeAction::SwitchBuffer(p.clone()),
        }
    }
}

/// One row that can be picked: what is shown and matched, and what picking it does.
pub struct TelescopeItem {
    pub display: String,
    pub action: TelescopeAction,
}

impl TelescopeItem {
    /// An item that shows `display`.
    pub fn new(display: String, action: TelescopeAction) -> (r: Self)
        ensures
            r.display == display,
            r.action == action,
    {
        TelescopeItem { display, action }
    }
}

/// Whether an item matches a query: its text holds the query, without regard to case.
pub open spec fn fits(item: TelescopeItem, query: Seq<char>) -> bool {
    text::occurs(text::lower(item.display@), text::lower(query))
}

/// The items that match a query, in their order.
pub open spec fn shown(items: Seq<TelescopeItem>, query: Seq<char>) -> Seq<TelescopeItem>
    decreases items.len(),
{
    if items.len() == 0 {
        items
    } else if fits(items.last(), query) {
        shown(items.drop_last(), query).push(items.last())
    } else {
        shown(items.drop_last(), query)
    }
}

/// The picker: one query, one selection and one filter for every feature that needs a list to
/// choose from. A new picker is a list of [`TelescopeItem`]s and a call of [`Telescope::open`].
pub struct Telescope {
    pub active: bool,
    pub title: String,
    pub items: Vec<TelescopeItem>,
    pub query: String,
    pub selected: usize,
}

impl Default for Telescope {
    fn default() -> (r: Self)
        ensures
            !r.active,
            r.title@ == Seq::<char>::empty(),
            r.items@ == Seq::<TelescopeItem>::empty(),
            r.query@ == Seq::<char>::empty(),
            r.selected == 0,
            r.in_range(),
    {
        Telescope {
            active: false,
            title: String::new(),
            items: Vec::new(),
            query: String::new(),
            selected: 0,
        }
    }
}

impl Telescope {
    /// The items that match the query.
    pub open spec fn matching(&self) -> Seq<TelescopeItem> {
        shown(self.items@, self.query@)
    }

    /// Whether the selection lies on a matching item, or at the start where there is none.
    pub open spec fn in_range(&self) -> bool {
        self.selected == 0 || self.selected < self.matching().len()
    }

    /// Shows the popup with these items, an empty query and the first item selected.
    pub fn open(&mut self, title: String, items: Vec<TelescopeItem>)
        ensures
            final(self).active,
            final(self).title == title,
            final(self).items == items,
            final(self).query@ == Seq::<char>::empty(),
            final(self).selected == 0,
            final(self).in_range(),
    {
        self.title = title;
        self.items = items;
        self.query.clear();
        self.selected = 0;
        self.active = true;
    }

    /// Hides the popup.
    pub fn close(&mut self)
        ensures
            *final(self) == (Telescope { active: false, ..*old(self) }),
            old(self).in_range() ==> final(self).in_range(),
    {
        self.active = false;
    }

    /// The items whose text holds the query, without regard to case, in their order.
    pub fn filtered(&self) -> (r: Vec<&TelescopeItem>)
        ensures
            r@.len() == self.matching().len(),
            forall|i: int| 0 <= i < r@.len() ==> *(#[trigger] r@[i]) == self.matching()[i],
    {
        let q: String = to_lowercase(self.query.as_str());
        let mut out: Vec<&TelescopeItem> = Vec::new();
        for i in 0..self.items.len()
            invariant
                q@ == text::lower(self.query@),
                out@.len() == shown(self.items@.take(i as int), self.query@).len(),
                forall|k: int|
                    0 <= k < out@.len() ==> *(#[trigger] out@[k]) == shown(
                        self.items@.take(i as int),
                        self.query@,
                    )[k],
        {
            let ghost all = self.items@.take(i + 1);
            assert(all.drop_last() == self.items@.take(i as int));
            assert(all.last() == self.items@[i as int]);
            let it: &TelescopeItem = &self.items[i];
            if contains(to_lowercase(it.display.as_str()).as_str(), q.as_str()) {
                out.push(it);
            }
        }
        assert(self.items@.take(self.items@.len() as int) == self.items@);
        out
    }

    /// Selects the item above, if there is one.
    pub fn move_up(&mut self)
        ensures
            *final(self) == (Telescope {
                selected: if old(self).matching().len() > 0 && old(self).selected > 0 {
                    (old(self).selected - 1) as usize
                } else {
                    old(self).selected
                },
                ..*old(self)
            }),
            old(self).in_range() ==> final(self).in_range(),
    {
        if !self.filtered().is_empty() {
            self.selected = self.selected.saturating_sub(1);
        }
    }

    /// Selects the item below, if there is one.
    pub fn move_down(&mut self)
        ensures
            *final(self) == (Telescope {
                selected: if old(self).selected + 1 < old(self).matching().len() {
                    (old(self).selected + 1) as usize
                } else {
                    old(self).selected
                },
                ..*old(self)
            }),
            old(self).in_range() ==> final(self).in_range(),
    {
        let len: usize = self.filtered().len();
        if len > 0 && self.selected < len - 1 {
            self.selected = self.selected + 1;
        }
    }

    /// Types a character into the query and selects the first match.
    pub fn push_char(&mut self, c: char)
        ensures
            *final(self) == (Telescope { query: final(self).query, selected: 0, ..*old(self) }),
            final(self).query@ == old(self).query@.push(c),
            final(self).in_range(),
    {
        self.query.push(c);
        self.selected = 0;
    }

    /// Empties the query, as Ctrl+U does on a command line, and selects the first match.
    pub fn clear_query(&mut self)
        ensures
            *final(self) == (Telescope { query: final(self).query, selected: 0, ..*old(self) }),
            final(self).query@ == Seq::<char>::empty(),
            final(self).in_range(),
    {
        self.query.clear();
        self.selected = 0;
    }

    /// Takes the last character off the query and selects the first match.
    pub fn backspace(&mut self)
        ensures
            *final(self) == (Telescope { query: final(self).query, selected: 0, ..*old(self) }),
            final(self).query@ == (if old(self).query@.len() == 0 {
                old(self).query@
            } else {
                old(self).query@.drop_last()
            }),
            final(self).in_range(),
    {
        let _ = self.query.pop();
        self.selected = 0;
    }

    /// The action of the selected item, if there is one. The popup is closed either way.
    pub fn confirm(&mut self) -> (r: Option<TelescopeAction>)
        ensures
            r == (if old(self).selected < old(self).matching().len() {
                Some(old(self).matching()[old(self).selected as int].action)
            } else {
                None
            }),
            *final(self) == (Telescope { active: false, ..*old(self) }),
            old(self).in_range() ==> final(self).in_range(),
            old(self).in_range() && old(self).matching().len() > 0 ==> r is Some,
    {
        let mut action: Option<TelescopeAction> = None;
        {
            let list: Vec<&TelescopeItem> = self.filtered();
            if self.selected < list.len() {
                action = Some(list[self.selected].action.clone());
            }
        }
        self.active = false;
        action
    }
}

/// Backspace takes back what was typed last.
pub proof fn law_backspace_takes_back(query: Seq<char>, c: char)
    ensures
        query.push(c).drop_last() == query,
{
}

/// Every match is one of the items, and every item that matches is there.
pub proof fn law_shown_are_the_matches(
    items: Seq<TelescopeItem>,
    query: Seq<char>,
    item: TelescopeItem,
)
    ensures
        shown(items, query).contains(item) <==> items.contains(item) && fits(item, query),
        shown(items, query).len() <= items.len(),
    decreases items.len(),
{
    if items.len() > 0 {
        let rest = items.drop_last();
        let last = items.last();
        law_shown_are_the_matches(rest, query, item);
        assert(items == rest.push(last));
        let s = shown(rest, query);
        assert(rest.push(last).contains(item) <==> rest.contains(item) || item == last) by {
            if rest.contains(item) {
                let i = choose|i: int| 0 <= i < rest.len() && rest[i] == item;
                assert(items[i] == item);
            }
            if item == last {
                assert(items[items.len() - 1] == item);
            }
        }
        if fits(last, query) {
            assert(s.push(last).contains(item) <==> s.contains(item) || item == last) by {
                if s.contains(item) {
                    let i = choose|i: int| 0 <= i < s.len() && s[i] == item;
                    assert(s.push(last)[i] == item);
                }
                if item == last {
                    assert(s.push(last)[s.len() as int] == item);
                }
            }
        }
    }
}

/// A query matches the same items in upper and in lower case.
pub proof fn law_search_ignores_case(item: TelescopeItem, query: Seq<char>)
    requires
        text::ascii(query),
    ensures
        fits(item, text::upper_letters(query)) == fits(item, query),
        fits(item, text::lower_letters(query)) == fits(item, query),
{
    let up = text::upper_letters(query);
    let low = text::lower_letters(query);
    assert forall|i: int| 0 <= i < query.len() implies #[trigger] up[i] <= '\u{7f}' && low[i]
        <= '\u{7f}' by {
        assert(query[i] <= '\u{7f}');
    }
    assert forall|i: int| 0 <= i < query.len() implies #[trigger] low[i] <= '\u{7f}' by {
        assert(query[i] <= '\u{7f}');
    }
    assert(text::lower_letters(up) =~= low);
    assert(text::lower_letters(low) =~= low);
}

} // verus!
