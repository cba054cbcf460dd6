//! The menu as a mathematical value, and its per-tick protocol as functions
//! on that value. The executable menu is specified against these.

use vstd::prelude::*;
use crate::cursor::spec_advance;
use crate::keys::{spec_edges, Keys};
use crate::options::{MenuOptions, Size};

verus! {

/// What an entry holds.
pub ghost enum EntryValue<C, F> {
    /// Nothing: the host learns of its selection and acts on it.
    Action,
    /// A boolean that flips when the entry is activated.
    Toggle(bool),
    /// An integer that steps by one and stops at its bounds.
    BoundedInt { value: i32, min: i32, max: i32 },
    /// A nested menu, owned by the entry.
    SubMenu(MenuState<C, F>),
    /// The marker that sends the focus back to the parent menu.
    Exit,
}

/// One row of a menu.
pub ghost struct Entry<C, F> {
    pub label: Seq<char>,
    pub value: EntryValue<C, F>,
}

/// A menu between two ticks.
pub ghost struct MenuState<C, F> {
    pub title: Seq<char>,
    pub size: Size,
    pub options: MenuOptions<C, F>,
    pub entries: Seq<Entry<C, F>>,
    /// The position of the cursor.
    pub highlighted_index: nat,
    /// Whether the latest tick selected the highlighted entry: the primary
    /// button fired in it, and this menu had the focus.
    pub is_selected: bool,
    /// Whether what the surface shows is out of date.
    pub dirty: bool,
    /// The snapshot that the next one is compared with.
    pub previous_snapshot: Keys,
    /// The entry whose nested menu owns input and drawing, if any.
    pub active_submenu_index: Option<nat>,
}

impl<C, F> EntryValue<C, F> {
    /// The value after a tick in which the entry was under the cursor and
    /// the buttons in `fired` went down.
    ///
    /// A toggle flips on left, right or primary. An integer takes the right
    /// edge first (one up, unless it is at `max`) and then the left edge (one
    /// down, unless what it now holds is at `min`). A nested menu that the
    /// primary button activates is marked for a full redraw. Nothing else
    /// changes.
    pub open spec fn apply(self, fired: Keys) -> EntryValue<C, F> {
        match self {
            EntryValue::Toggle(on) => {
                if fired.left || fired.right || fired.a {
                    EntryValue::Toggle(!on)
                } else {
                    self
                }
            },
            EntryValue::BoundedInt { value, min, max } => {
                let raised: i32 = if fired.right && value < max {
                    (value + 1) as i32
                } else {
                    value
                };
                let lowered: i32 = if fired.left && raised > min {
                    (raised - 1) as i32
                } else {
                    raised
                };
                EntryValue::BoundedInt { value: lowered, min, max }
            },
            EntryValue::SubMenu(sub) => {
                if fired.a {
                    EntryValue::SubMenu(sub.force_redraw())
                } else {
                    self
                }
            },
            _ => self,
        }
    }
}

impl<C, F> Entry<C, F> {
    /// The entry with its value stepped by `fired`; the label stays.
    pub open spec fn apply(self, fired: Keys) -> Entry<C, F> {
        Entry { label: self.label, value: self.value.apply(fired) }
    }
}

impl<C, F> MenuState<C, F> {
    /// A menu as it is right after construction: cursor on the first entry,
    /// nothing selected, no submenu active, and dirty, so that the first
    /// draw renders.
    pub open spec fn initial(
        title: Seq<char>,
        options: MenuOptions<C, F>,
        size: Size,
        entries: Seq<Entry<C, F>>,
    ) -> MenuState<C, F> {
        MenuState {
            title,
            size,
            options,
            entries,
            highlighted_index: 0,
            is_selected: false,
            dirty: true,
            previous_snapshot: Keys::released(),
            active_submenu_index: None,
        }
    }

    /// Validity: there is at least one entry, the cursor stands on one, an
    /// active submenu index names an entry that holds a menu, and every
    /// nested menu is valid in turn.
    pub open spec fn wf(self) -> bool
        decreases self,
    {
        &&& self.entries.len() >= 1
        &&& self.highlighted_index < self.entries.len()
        &&& match self.active_submenu_index {
            Some(i) => i < self.entries.len() && self.entries[i as int].value is SubMenu,
            None => true,
        }
        &&& forall|i: int|
            0 <= i < self.entries.len() ==> (#[trigger] self.entries[i].value matches EntryValue::SubMenu(
                sub,
            ) ==> sub.wf())
    }

    /// Every integer entry, at every depth, lies within its bounds.
    pub open spec fn values_in_range(self) -> bool
        decreases self,
    {
        forall|i: int|
            0 <= i < self.entries.len() ==> match #[trigger] self.entries[i].value {
                EntryValue::BoundedInt { value, min, max } => min <= value <= max,
                EntryValue::SubMenu(sub) => sub.values_in_range(),
                _ => true,
            }
    }

    /// The same menu, marked as needing a render.
    pub open spec fn force_redraw(self) -> MenuState<C, F> {
        MenuState { dirty: true, ..self }
    }

    /// The entry that the latest tick selected, if it selected one.
    pub open spec fn selection(self) -> Option<Entry<C, F>> {
        if self.is_selected {
            Some(self.entries[self.highlighted_index as int])
        } else {
            None
        }
    }

    /// Whether the latest selection is an exit marker.
    pub open spec fn exit_selected(self) -> bool {
        self.is_selected && self.entries[self.highlighted_index as int].value is Exit
    }

    /// The menu that owns input and drawing: this one, or the focused menu
    /// of its active submenu.
    pub open spec fn focused(self) -> MenuState<C, F>
        decreases self,
    {
        match self.active_submenu_index {
            Some(i) => {
                if i < self.entries.len() && self.entries[i as int].value is SubMenu {
                    self.entries[i as int].value->SubMenu_0.focused()
                } else {
                    self
                }
            },
            None => self,
        }
    }

    /// One tick while this menu owns the input. The cursor moves by the up
    /// and down edges; the primary edge selects; any edge makes the menu
    /// dirty; the entry now under the cursor takes the edges; a nested menu
    /// activated by the primary edge becomes the active submenu; the
    /// snapshot is kept for the next tick.
    pub open spec fn navigate(self, keys: Keys) -> MenuState<C, F> {
        let fired = spec_edges(self.previous_snapshot, keys);
        let at = spec_advance(
            self.highlighted_index as int,
            self.entries.len() as int,
            fired.up,
            fired.down,
        );
        MenuState {
            highlighted_index: at as nat,
            is_selected: fired.a,
            dirty: self.dirty || fired.any(),
            entries: self.entries.update(at, self.entries[at].apply(fired)),
            active_submenu_index: if fired.a && self.entries[at].value is SubMenu {
                Some(at as nat)
            } else {
                None
            },
            previous_snapshot: keys,
            ..self
        }
    }

    /// One tick. While a submenu is active it receives the snapshot as it
    /// came. This menu selects nothing in such a tick, and keeps its cursor,
    /// its other entries and the snapshot it compares with; when the
    /// submenu's latest selection is then an exit marker, it takes the focus
    /// back and becomes dirty. Without an active submenu the menu navigates.
    pub open spec fn update(self, keys: Keys) -> MenuState<C, F>
        decreases self,
    {
        match self.active_submenu_index {
            Some(i) => {
                if i < self.entries.len() && self.entries[i as int].value is SubMenu {
                    let sub = self.entries[i as int].value->SubMenu_0.update(keys);
                    let exited = sub.exit_selected();
                    MenuState {
                        entries: self.entries.update(
                            i as int,
                            Entry {
                                label: self.entries[i as int].label,
                                value: EntryValue::SubMenu(sub),
                            },
                        ),
                        active_submenu_index: if exited {
                            None
                        } else {
                            Some(i)
                        },
                        is_selected: false,
                        dirty: self.dirty || exited,
                        ..self
                    }
                } else {
                    self
                }
            },
            None => self.navigate(keys),
        }
    }

    /// The menu after a sequence of ticks, first snapshot first.
    pub open spec fn run(self, inputs: Seq<Keys>) -> MenuState<C, F>
        decreases inputs.len(),
    {
        if inputs.len() == 0 {
            self
        } else {
            self.run(inputs.drop_last()).update(inputs.last())
        }
    }
}

} // verus!
