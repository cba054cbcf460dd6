//! The menu itself: the entries it owns, the cursor, and the per-tick update.

use vstd::prelude::*;
use crate::error::MenuError;
use crate::cursor::advance;
use crate::keys::{edges, Keys};
use crate::laws::lemma_update_keeps_valid;
use crate::model::{Entry, EntryValue, MenuState};
use crate::options::{MenuOptions, Size};

verus! {

/// What an entry holds.
#[derive(Debug, PartialEq)]
pub enum EntryType<'a, C, F> {
    /// An action for the host to take when the entry is selected.
    Select,
    /// A boolean.
    Bool(bool),
    /// A 32-bit integer with its bounds: (value, min, max).
    I32((i32, i32, i32)),
    /// A submenu.
    Menu(Menu<'a, C, F>),
    /// The way back out of a submenu.
    Return,
}

/// One row: a label and what stands behind it.
#[derive(Debug, PartialEq)]
pub struct MenuEntry<'a, C, F> {
    pub l: &'a str,
    pub t: EntryType<'a, C, F>,
}

/// A menu: a title over a list of entries, one of which is highlighted.
#[derive(Debug, PartialEq)]
pub struct Menu<'a, C, F> {
    pub(crate) title: &'a str,
    pub(crate) highlighted_option: usize,
    pub(crate) selected: bool,
    pub(crate) redraw: bool,
    pub(crate) size: Size,
    pub(crate) options: MenuOptions<C, F>,
    pub(crate) structure: Vec<MenuEntry<'a, C, F>>,
    pub(crate) last_keys: Keys,
    pub(crate) submenu: Option<usize>,
}

/// The model of a menu, field by field. Outside this crate a menu is known
/// by what the functions that make and change it say of its model.
pub open(crate) spec fn menu_state<'a, C, F>(menu: Menu<'a, C, F>) -> MenuState<C, F>
    decreases menu,
{
    MenuState {
        title: menu.title@,
        size: menu.size,
        options: menu.options,
        entries: Seq::new(
            menu.structure@.len(),
            |i: int|
                if 0 <= i < menu.structure@.len() {
                    entry_state(menu.structure@[i])
                } else {
                    arbitrary()
                },
        ),
        highlighted_index: menu.highlighted_option as nat,
        is_selected: menu.selected,
        dirty: menu.redraw,
        previous_snapshot: menu.last_keys,
        active_submenu_index: match menu.submenu {
            Some(i) => Some(i as nat),
            None => None,
        },
    }
}

/// The model of what an entry holds.
pub open spec fn value_state<'a, C, F>(value: EntryType<'a, C, F>) -> EntryValue<C, F>
    decreases value,
{
    match value {
        EntryType::Select => EntryValue::Action,
        EntryType::Bool(on) => EntryValue::Toggle(on),
        EntryType::I32((value, min, max)) => EntryValue::BoundedInt { value, min, max },
        EntryType::Menu(menu) => EntryValue::SubMenu(menu_state(menu)),
        EntryType::Return => EntryValue::Exit,
    }
}

/// The model of an entry.
pub open spec fn entry_state<'a, C, F>(entry: MenuEntry<'a, C, F>) -> Entry<C, F>
    decreases entry,
{
    Entry { label: entry.l@, value: value_state(entry.t) }
}

/// The models of a list of entries, in order.
pub open spec fn entries_state<'a, C, F>(entries: Seq<MenuEntry<'a, C, F>>) -> Seq<Entry<C, F>> {
    Seq::new(entries.len(), |i: int| entry_state(entries[i]))
}

impl<'a, C, F> View for EntryType<'a, C, F> {
    type V = EntryValue<C, F>;

    open spec fn view(&self) -> EntryValue<C, F> {
        value_state(*self)
    }
}

impl<'a, C, F> View for MenuEntry<'a, C, F> {
    type V = Entry<C, F>;

    open spec fn view(&self) -> Entry<C, F> {
        entry_state(*self)
    }
}

impl<'a, C, F> View for Menu<'a, C, F> {
    type V = MenuState<C, F>;

    open spec fn view(&self) -> MenuState<C, F> {
        menu_state(*self)
    }
}

impl<'a, C, F> Menu<'a, C, F> {
    /// A menu over `structure`, which must not be empty. The new menu has
    /// its cursor on the first entry and is dirty.
    pub fn new(
        title: &'a str,
        options: MenuOptions<C, F>,
        size: Size,
        structure: Vec<MenuEntry<'a, C, F>>,
    ) -> (menu: Result<Menu<'a, C, F>, MenuError>)
        ensures
            match menu {
                Ok(menu) => structure@.len() > 0 && menu@ == MenuState::initial(
                    title@,
                    options,
                    size,
                    entries_state(structure@),
                ),
                Err(error) => structure@.len() == 0 && error == MenuError::InvalidState,
            },
    {
        if structure.len() == 0 {
            return Err(MenuError::InvalidState);
        }
        let menu = Menu {
            title,
            highlighted_option: 0,
            selected: false,
            redraw: true,
            size,
            options,
            structure,
            last_keys: Keys::default(),
            submenu: None,
        };
        proof {
            assert(menu@.entries =~= entries_state(structure@));
        }
        Ok(menu)
    }

    /// The highlighted entry, if the latest tick selected it. A selection
    /// lasts until the next tick: read it before the next `update`.
    pub fn selected_option(&self) -> (selected: Option<&MenuEntry<'a, C, F>>)
        requires
            self@.wf(),
        ensures
            match selected {
                Some(entry) => self@.selection() == Some(entry@),
                None => self@.selection() is None,
            },
    {
        if self.selected {
            Some(&self.structure[self.highlighted_option])
        } else {
            None
        }
    }

    /// The entry at `index`, if there is one.
    pub fn entry_at(&self, index: usize) -> (entry: Option<&MenuEntry<'a, C, F>>)
        ensures
            match entry {
                Some(entry) => index < self@.entries.len() && entry@ == self@.entries[index as int],
                None => index >= self@.entries.len(),
            },
    {
        if index < self.structure.len() {
            Some(&self.structure[index])
        } else {
            None
        }
    }

    /// The position of the cursor.
    pub fn highlighted_index(&self) -> (index: usize)
        ensures
            index == self@.highlighted_index,
    {
        self.highlighted_option
    }

    /// Whether the surface is out of date with this menu.
    pub fn is_dirty(&self) -> (dirty: bool)
        ensures
            dirty == self@.dirty,
    {
        self.redraw
    }

    /// The index of the entry whose submenu owns input and drawing, if one
    /// does.
    pub fn active_submenu(&self) -> (active: Option<usize>)
        ensures
            match active {
                Some(index) => self@.active_submenu_index == Some(index as nat),
                None => self@.active_submenu_index is None,
            },
    {
        self.submenu
    }

    /// Marks the menu as needing a render, whatever its state.
    pub fn force_redraw(&mut self)
        ensures
            final(self)@ == old(self)@.force_redraw(),
    {
        self.redraw = true;
        proof {
            assert(self@.entries =~= old(self)@.entries);
        }
    }

    /// Whether the latest selection is the way back out of this menu.
    fn exit_selected(&self) -> (exited: bool)
        requires
            self@.wf(),
        ensures
            exited == self@.exit_selected(),
    {
        match self.selected_option() {
            Some(entry) => match entry.t {
                EntryType::Return => true,
                _ => false,
            },
            None => false,
        }
    }

    /// One tick with the buttons as the host polled them.
    ///
    /// While a submenu is active the snapshot goes to it unchanged; this
    /// menu selects nothing and only watches for the submenu's exit, on which
    /// it takes the focus back and becomes dirty. Otherwise the menu compares
    /// the snapshot with the previous one and acts on the edges: it moves
    /// the cursor, records a selection, steps the entry under the cursor,
    /// and hands the focus to a submenu that was activated.
    pub fn update(&mut self, keys: &Keys)
        requires
            old(self)@.wf(),
        ensures
            final(self)@ == old(self)@.update(*keys),
            final(self)@.wf(),
        decreases *old(self),
    {
        proof {
            lemma_update_keeps_valid(old(self)@, *keys);
        }
        if let Some(active) = self.submenu {
            let mut exited = false;
            match &mut self.structure[active].t {
                EntryType::Menu(sub) => {
                    sub.update(keys);
                    exited = sub.exit_selected();
                },
                _ => {},
            }
            self.selected = false;
            if exited {
                self.submenu = None;
                self.redraw = true;
            }
            proof {
                assert(self@.entries =~= old(self)@.update(*keys).entries);
            }
            return ;
        }
        let fired = edges(&self.last_keys, keys);
        let at = advance(self.highlighted_option, self.structure.len(), fired.up, fired.down).unwrap();
        self.highlighted_option = at;
        self.selected = fired.a;
        if fired.up || fired.down || fired.left || fired.right || fired.a || fired.b {
            self.redraw = true;
        }
        let enters = self.structure[at].t.apply(&fired);
        if enters {
            self.submenu = Some(at);
        }
        self.last_keys = *keys;
        proof {
            assert(self@.entries =~= old(self)@.update(*keys).entries);
        }
    }
}

impl<'a, C, F> EntryType<'a, C, F> {
    /// Steps the value by the buttons that fired while the entry stood under
    /// the cursor, and says whether the focus now belongs to a submenu that
    /// the entry holds.
    pub fn apply(&mut self, fired: &Keys) -> (enters: bool)
        ensures
            final(self)@ == old(self)@.apply(*fired),
            enters == (fired.a && old(self)@ is SubMenu),
    {
        match self {
            EntryType::Bool(on) => {
                if fired.left || fired.right || fired.a {
                    *on = !*on;
                }
                false
            },
            EntryType::I32(bounded) => {
                if fired.right && bounded.0 < bounded.2 {
                    bounded.0 = bounded.0 + 1;
                }
                if fired.left && bounded.0 > bounded.1 {
                    bounded.0 = bounded.0 - 1;
                }
                false
            },
            EntryType::Menu(sub) => {
                if fired.a {
                    sub.force_redraw();
                }
                fired.a
            },
            _ => false,
        }
    }
}

} // verus!
