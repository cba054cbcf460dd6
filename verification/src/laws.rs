//! What holds of every menu, proved over the model.

use vstd::prelude::*;
use crate::cursor::{lemma_advance_in_range, lemma_advance_rest, spec_advance};
use crate::keys::{spec_edges, Keys};
use crate::model::{Entry, EntryValue, MenuState};
use crate::options::{MenuOptions, Size};
use crate::render::Mark;

verus! {

/// A tick keeps a valid menu valid. In particular the cursor stays on an
/// entry, at every depth.
pub proof fn lemma_update_keeps_valid<C, F>(menu: MenuState<C, F>, keys: Keys)
    requires
        menu.wf(),
    ensures
        menu.update(keys).wf(),
        menu.update(keys).entries.len() == menu.entries.len(),
        menu.update(keys).highlighted_index < menu.entries.len(),
    decreases menu,
{
    let after = menu.update(keys);
    match menu.active_submenu_index {
        Some(i) => {
            lemma_update_keeps_valid(menu.entries[i as int].value->SubMenu_0, keys);
            assert forall|j: int| 0 <= j < after.entries.len() implies (
            #[trigger] after.entries[j].value matches EntryValue::SubMenu(sub) ==> sub.wf()) by {
                if j != i {
                    assert(after.entries[j] == menu.entries[j]);
                }
            }
        },
        None => {
            let fired = spec_edges(menu.previous_snapshot, keys);
            lemma_advance_in_range(
                menu.highlighted_index as int,
                menu.entries.len() as int,
                fired.up,
                fired.down,
            );
            let at = spec_advance(
                menu.highlighted_index as int,
                menu.entries.len() as int,
                fired.up,
                fired.down,
            );
            assert forall|j: int| 0 <= j < after.entries.len() implies (
            #[trigger] after.entries[j].value matches EntryValue::SubMenu(sub) ==> sub.wf()) by {
                if j != at {
                    assert(after.entries[j] == menu.entries[j]);
                } else {
                    assert(after.entries[j] == menu.entries[at].apply(fired));
                    if menu.entries[at].value is SubMenu {
                        assert(menu.entries[at].value->SubMenu_0.wf());
                    }
                }
            }
        },
    }
}

/// A menu built over at least one entry, with valid submenus, is valid, and
/// its first draw renders it in full.
pub proof fn lemma_new_menu_is_valid_and_renders<C, F>(
    title: Seq<char>,
    options: MenuOptions<C, F>,
    size: Size,
    entries: Seq<Entry<C, F>>,
)
    requires
        entries.len() >= 1,
        forall|i: int|
            0 <= i < entries.len() ==> (#[trigger] entries[i].value matches EntryValue::SubMenu(sub)
                ==> sub.wf()),
    ensures
        MenuState::initial(title, options, size, entries).wf(),
        MenuState::initial(title, options, size, entries).draw() == MenuState::initial(
            title,
            options,
            size,
            entries,
        ).scene(),
{
}

/// The list of entries is fixed when the menu is built: a tick changes
/// neither their number nor their order, neither a label nor what kind of
/// value an entry holds, nor the bounds of an integer.
pub proof fn lemma_update_keeps_shape<C, F>(menu: MenuState<C, F>, keys: Keys, i: int)
    requires
        menu.wf(),
        0 <= i < menu.entries.len(),
    ensures
        menu.update(keys).entries.len() == menu.entries.len(),
        menu.update(keys).entries[i].label == menu.entries[i].label,
        match menu.entries[i].value {
            EntryValue::Action => menu.update(keys).entries[i].value is Action,
            EntryValue::Toggle(_) => menu.update(keys).entries[i].value is Toggle,
            EntryValue::BoundedInt { value, min, max } => {
                &&& menu.update(keys).entries[i].value is BoundedInt
                &&& menu.update(keys).entries[i].value->min == min
                &&& menu.update(keys).entries[i].value->max == max
            },
            EntryValue::SubMenu(_) => menu.update(keys).entries[i].value is SubMenu,
            EntryValue::Exit => menu.update(keys).entries[i].value is Exit,
        },
{
    lemma_update_keeps_valid(menu, keys);
    if menu.active_submenu_index is None {
        let fired = spec_edges(menu.previous_snapshot, keys);
        lemma_advance_in_range(
            menu.highlighted_index as int,
            menu.entries.len() as int,
            fired.up,
            fired.down,
        );
    }
}

/// However many ticks go by and whatever the buttons do, a valid menu stays
/// valid and its cursor stays on one of its entries.
pub proof fn lemma_cursor_stays_in_range<C, F>(menu: MenuState<C, F>, inputs: Seq<Keys>)
    requires
        menu.wf(),
    ensures
        menu.run(inputs).wf(),
        menu.run(inputs).entries.len() == menu.entries.len(),
        0 <= menu.run(inputs).highlighted_index < menu.entries.len(),
    decreases inputs.len(),
{
    if inputs.len() > 0 {
        lemma_cursor_stays_in_range(menu, inputs.drop_last());
        lemma_update_keeps_valid(menu.run(inputs.drop_last()), inputs.last());
    }
}

/// The menu that owns the focus of a valid menu is valid, so its cursor too
/// stands on one of its entries.
pub proof fn lemma_focused_is_valid<C, F>(menu: MenuState<C, F>)
    requires
        menu.wf(),
    ensures
        menu.focused().wf(),
        menu.focused().active_submenu_index is None,
    decreases menu,
{
    match menu.active_submenu_index {
        Some(i) => {
            lemma_focused_is_valid(menu.entries[i as int].value->SubMenu_0);
        },
        None => {},
    }
}

/// A snapshot that equals the one before it has no edges.
pub proof fn lemma_held_buttons_do_not_fire(keys: Keys)
    ensures
        spec_edges(keys, keys) == Keys::released(),
{
}

/// An entry that no edge reaches keeps its value.
pub proof fn lemma_apply_without_edges<C, F>(value: EntryValue<C, F>)
    ensures
        value.apply(Keys::released()) == value,
{
}

/// Holding the buttons moves the cursor once: of two ticks with the same
/// snapshot, the second leaves the cursor where the first put it.
///
/// One kind of first tick is set apart: the tick that closes a submenu. The
/// parent handles the second tick after it, and compares that snapshot with
/// the one it kept from before the submenu opened. Of such a pair the
/// statement is made where that comparison moves no cursor: it finds neither
/// or both of the up and down edges, or the parent has a single entry.
pub proof fn lemma_held_snapshot_moves_cursor_once<C, F>(menu: MenuState<C, F>, keys: Keys)
    requires
        menu.wf(),
        menu.active_submenu_index is Some && menu.update(keys).active_submenu_index is None ==> {
            ||| spec_edges(menu.previous_snapshot, keys).up == spec_edges(
                menu.previous_snapshot,
                keys,
            ).down
            ||| menu.entries.len() == 1
        },
    ensures
        menu.update(keys).update(keys).highlighted_index == menu.update(keys).highlighted_index,
{
    lemma_update_keeps_valid(menu, keys);
    let once = menu.update(keys);
    if once.active_submenu_index is None {
        if menu.active_submenu_index is None {
            lemma_advance_rest(once.highlighted_index as int, once.entries.len() as int, false);
        } else {
            let kept = spec_edges(menu.previous_snapshot, keys);
            if kept.up == kept.down {
                lemma_advance_rest(
                    once.highlighted_index as int,
                    once.entries.len() as int,
                    kept.up,
                );
            }
        }
    }
}

/// The pairs that the statement above leaves out are those on which it does
/// not hold: after a tick that closes a submenu, a second tick with the same
/// snapshot moves the parent's cursor if the parent has more than one entry
/// and finds one of the up and down edges against the snapshot it kept.
pub proof fn lemma_kept_snapshot_moves_cursor_after_close<C, F>(menu: MenuState<C, F>, keys: Keys)
    requires
        menu.wf(),
        menu.active_submenu_index is Some,
        menu.update(keys).active_submenu_index is None,
        spec_edges(menu.previous_snapshot, keys).up != spec_edges(menu.previous_snapshot, keys).down,
        menu.entries.len() > 1,
    ensures
        menu.update(keys).update(keys).highlighted_index != menu.update(keys).highlighted_index,
{
    lemma_update_keeps_valid(menu, keys);
}

/// While a menu navigates, a second tick with the same snapshot changes
/// nothing but the selection, which lasts one tick.
pub proof fn lemma_held_snapshot_changes_nothing<C, F>(menu: MenuState<C, F>, keys: Keys)
    requires
        menu.wf(),
        menu.active_submenu_index is None,
        menu.update(keys).active_submenu_index is None,
    ensures
        menu.update(keys).update(keys) == (MenuState { is_selected: false, ..menu.update(keys) }),
{
    lemma_update_keeps_valid(menu, keys);
    let once = menu.update(keys);
    let twice = once.update(keys);
    lemma_advance_rest(once.highlighted_index as int, once.entries.len() as int, false);
    lemma_apply_without_edges(once.entries[once.highlighted_index as int].value);
    assert(twice.entries =~= once.entries);
}

/// Stepping an integer that lies within its bounds leaves it within them,
/// whichever buttons fire.
pub proof fn lemma_apply_keeps_bounds<C, F>(held: EntryValue<C, F>, fired: Keys)
    requires
        held matches EntryValue::BoundedInt { value, min, max } && min <= value <= max,
    ensures
        held.apply(fired) matches EntryValue::BoundedInt { value, min, max } && min == held->min
            && max == held->max && min <= value <= max,
{
}

/// A tick keeps every integer entry within its bounds, at every depth.
pub proof fn lemma_update_keeps_values_in_range<C, F>(menu: MenuState<C, F>, keys: Keys)
    requires
        menu.wf(),
        menu.values_in_range(),
    ensures
        menu.update(keys).values_in_range(),
    decreases menu,
{
    let after = menu.update(keys);
    match menu.active_submenu_index {
        Some(i) => {
            assert(menu.entries[i as int].value->SubMenu_0.values_in_range());
            lemma_update_keeps_values_in_range(menu.entries[i as int].value->SubMenu_0, keys);
            assert forall|j: int| 0 <= j < after.entries.len() implies match #[trigger] after.entries[j].value {
                EntryValue::BoundedInt { value, min, max } => min <= value <= max,
                EntryValue::SubMenu(sub) => sub.values_in_range(),
                _ => true,
            } by {
                if j != i {
                    assert(after.entries[j] == menu.entries[j]);
                }
            }
        },
        None => {
            let fired = spec_edges(menu.previous_snapshot, keys);
            lemma_advance_in_range(
                menu.highlighted_index as int,
                menu.entries.len() as int,
                fired.up,
                fired.down,
            );
            let at = spec_advance(
                menu.highlighted_index as int,
                menu.entries.len() as int,
                fired.up,
                fired.down,
            );
            assert forall|j: int| 0 <= j < after.entries.len() implies match #[trigger] after.entries[j].value {
                EntryValue::BoundedInt { value, min, max } => min <= value <= max,
                EntryValue::SubMenu(sub) => sub.values_in_range(),
                _ => true,
            } by {
                if j != at {
                    assert(after.entries[j] == menu.entries[j]);
                } else {
                    assert(after.entries[j] == menu.entries[at].apply(fired));
                    let before = menu.entries[at].value;
                    if before is BoundedInt {
                        lemma_apply_keeps_bounds(before, fired);
                    }
                    if before is SubMenu {
                        assert(before->SubMenu_0.values_in_range());
                    }
                }
            }
        },
    }
}

/// Rendering touches no value: neither a draw that succeeded nor a forced
/// redraw takes an integer out of its bounds.
pub proof fn lemma_rendering_keeps_values_in_range<C, F>(menu: MenuState<C, F>)
    requires
        menu.values_in_range(),
    ensures
        menu.drawn().values_in_range(),
        menu.force_redraw().values_in_range(),
    decreases menu,
{
    let after = menu.drawn();
    match menu.active_submenu_index {
        Some(i) => {
            if i < menu.entries.len() && menu.entries[i as int].value is SubMenu {
                assert(menu.entries[i as int].value->SubMenu_0.values_in_range());
                lemma_rendering_keeps_values_in_range(menu.entries[i as int].value->SubMenu_0);
                assert forall|j: int| 0 <= j < after.entries.len() implies match #[trigger] after.entries[j].value {
                    EntryValue::BoundedInt { value, min, max } => min <= value <= max,
                    EntryValue::SubMenu(sub) => sub.values_in_range(),
                    _ => true,
                } by {
                    if j != i {
                        assert(after.entries[j] == menu.entries[j]);
                    }
                }
            }
        },
        None => {},
    }
}

/// Starting from integers within their bounds, every state that ticks can
/// reach has its integers within their bounds.
pub proof fn lemma_values_stay_in_range<C, F>(menu: MenuState<C, F>, inputs: Seq<Keys>)
    requires
        menu.wf(),
        menu.values_in_range(),
    ensures
        menu.run(inputs).values_in_range(),
    decreases inputs.len(),
{
    if inputs.len() > 0 {
        lemma_values_stay_in_range(menu, inputs.drop_last());
        lemma_cursor_stays_in_range(menu, inputs.drop_last());
        lemma_update_keeps_values_in_range(menu.run(inputs.drop_last()), inputs.last());
    }
}

/// The rows of a render depend on the entries, the options and the size of
/// the surface, and on nothing else.
proof fn lemma_rows_read<C, F>(one: MenuState<C, F>, other: MenuState<C, F>, n: int)
    requires
        one.entries == other.entries,
        one.options == other.options,
        one.size == other.size,
    ensures
        one.rows(n) == other.rows(n),
    decreases n,
{
    if n > 0 {
        lemma_rows_read(one, other, n - 1);
    }
}

/// Nothing changes unseen. A tick in which no button fires leaves a menu
/// that navigates as it was, but for the selection and the snapshot it
/// keeps; a tick in which a button fires leaves it dirty. So a menu that is
/// clean after a tick renders as it did before the tick.
pub proof fn lemma_change_marks_dirty<C, F>(menu: MenuState<C, F>, keys: Keys)
    requires
        menu.wf(),
        menu.active_submenu_index is None,
    ensures
        !spec_edges(menu.previous_snapshot, keys).any() ==> menu.update(keys) == (MenuState {
            is_selected: false,
            previous_snapshot: keys,
            ..menu
        }),
        spec_edges(menu.previous_snapshot, keys).any() ==> menu.update(keys).dirty,
        !menu.update(keys).dirty ==> menu.update(keys).scene() == menu.scene(),
{
    let fired = spec_edges(menu.previous_snapshot, keys);
    if !fired.any() {
        lemma_advance_rest(menu.highlighted_index as int, menu.entries.len() as int, false);
        lemma_apply_without_edges(menu.entries[menu.highlighted_index as int].value);
        assert(fired == Keys::released());
        assert(menu.update(keys).entries =~= menu.entries);
        lemma_rows_read(menu.update(keys), menu, menu.entries.len() as int);
    }
}

/// A forced redraw makes a menu dirty and changes nothing else. A menu that
/// draws itself then renders in full on the next draw.
pub proof fn lemma_force_redraw_renders<C, F>(menu: MenuState<C, F>)
    requires
        menu.wf(),
    ensures
        menu.force_redraw().wf(),
        menu.force_redraw().dirty,
        menu.force_redraw().scene() == menu.scene(),
        menu.active_submenu_index is None ==> menu.force_redraw().draw() == menu.scene(),
{
    lemma_rows_read(menu.force_redraw(), menu, menu.entries.len() as int);
}

/// Drawing is idempotent. A draw renders the focused menu in full exactly
/// when that menu is dirty; once a draw has succeeded, a second draw with no
/// tick in between has nothing to do, and reporting its success changes
/// nothing.
pub proof fn lemma_draw_is_idempotent<C, F>(menu: MenuState<C, F>)
    requires
        menu.wf(),
    ensures
        menu.focused().dirty ==> menu.draw() == menu.focused().scene(),
        !menu.focused().dirty ==> menu.draw() == Seq::<Mark<C>>::empty(),
        menu.drawn().wf(),
        !menu.drawn().focused().dirty,
        menu.drawn().draw() == Seq::<Mark<C>>::empty(),
        menu.drawn().drawn() == menu.drawn(),
    decreases menu,
{
    let after = menu.drawn();
    match menu.active_submenu_index {
        Some(i) => {
            let sub = menu.entries[i as int].value->SubMenu_0;
            lemma_draw_is_idempotent(sub);
            assert forall|j: int| 0 <= j < after.entries.len() implies (
            #[trigger] after.entries[j].value matches EntryValue::SubMenu(s) ==> s.wf()) by {
                if j != i {
                    assert(after.entries[j] == menu.entries[j]);
                }
            }
            assert(after.drawn().entries =~= after.entries);
        },
        None => {},
    }
}

/// A submenu takes the focus when the primary button fires on its entry:
/// from the next tick on it owns input and drawing, and it is dirty, so its
/// first draw renders in full.
pub proof fn lemma_primary_edge_opens_submenu<C, F>(menu: MenuState<C, F>, keys: Keys)
    requires
        menu.wf(),
        menu.active_submenu_index is None,
        spec_edges(menu.previous_snapshot, keys).a,
        menu.update(keys).entries[menu.update(keys).highlighted_index as int].value is SubMenu,
    ensures
        menu.update(keys).active_submenu_index == Some(menu.update(keys).highlighted_index),
        menu.update(keys).entries[menu.update(keys).highlighted_index as int].value->SubMenu_0.dirty,
        menu.update(keys).wf(),
{
    lemma_update_keeps_valid(menu, keys);
    let fired = spec_edges(menu.previous_snapshot, keys);
    lemma_advance_in_range(
        menu.highlighted_index as int,
        menu.entries.len() as int,
        fired.up,
        fired.down,
    );
}

/// While a submenu is active, a tick goes to it and to nothing else: the
/// submenu takes the snapshot as it came, the parent selects nothing, and
/// the parent's cursor, its other entries and the snapshot it keeps stay as
/// they are.
/// The submenu keeps the focus until its latest selection is an exit marker;
/// in that tick the parent takes the focus back and is dirty, so the next
/// draw renders the parent in full.
pub proof fn lemma_active_submenu_takes_the_tick<C, F>(menu: MenuState<C, F>, keys: Keys)
    requires
        menu.wf(),
        menu.active_submenu_index is Some,
    ensures
        ({
            let i = menu.active_submenu_index->0 as int;
            let sub = menu.entries[i].value->SubMenu_0;
            let after = menu.update(keys);
            &&& after.entries.len() == menu.entries.len()
            &&& after.entries[i] == (Entry {
                label: menu.entries[i].label,
                value: EntryValue::SubMenu(sub.update(keys)),
            })
            &&& forall|j: int|
                0 <= j < menu.entries.len() && j != i ==> after.entries[j] == menu.entries[j]
            &&& after.highlighted_index == menu.highlighted_index
            &&& !after.is_selected
            &&& after.previous_snapshot == menu.previous_snapshot
            &&& if sub.update(keys).exit_selected() {
                &&& after.active_submenu_index is None
                &&& after.dirty
                &&& after.focused() == after
                &&& after.draw() == after.scene()
            } else {
                &&& after.active_submenu_index == menu.active_submenu_index
                &&& after.dirty == menu.dirty
                &&& after.focused() == sub.update(keys).focused()
                &&& after.draw() == sub.update(keys).draw()
            }
        }),
{
}

} // verus!
