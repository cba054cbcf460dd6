use embedded_graphics_menu::{EntryType, Keys, Menu, MenuEntry, MenuError, MenuOptions, Size};

fn released() -> Keys {
    Keys { up: false, down: false, left: false, right: false, a: false, b: false }
}

fn up() -> Keys {
    Keys { up: true, ..released() }
}

fn down() -> Keys {
    Keys { down: true, ..released() }
}

fn right() -> Keys {
    Keys { right: true, ..released() }
}

fn primary() -> Keys {
    Keys { a: true, ..released() }
}

fn options() -> MenuOptions<u8, ()> {
    MenuOptions { background: 0, text: 1, highlight: 2, font: (), border: 15, spacing: 15 }
}

fn three_entries<'a>() -> Menu<'a, u8, ()> {
    let structure = vec![
        MenuEntry { l: "Start", t: EntryType::Select },
        MenuEntry { l: "Sound", t: EntryType::Bool(false) },
        MenuEntry { l: "Volume", t: EntryType::I32((-3, -10, 10)) },
    ];
    Menu::new("Main", options(), Size::new(128, 160), structure).unwrap()
}

/// One press and release of the given buttons.
fn press(menu: &mut Menu<u8, ()>, keys: Keys) {
    menu.update(&keys);
    menu.update(&released());
}

fn volume(menu: &Menu<u8, ()>) -> i32 {
    match menu.entry_at(2).map(|entry| &entry.t) {
        Some(EntryType::I32((value, _, _))) => *value,
        _ => panic!("the third entry holds an integer"),
    }
}

#[test]
fn a_menu_needs_an_entry() {
    let made: Result<Menu<u8, ()>, MenuError> =
        Menu::new("Empty", options(), Size::new(128, 160), Vec::new());
    assert_eq!(made, Err(MenuError::InvalidState));
}

#[test]
fn a_new_menu_starts_on_its_first_entry_and_dirty() {
    let menu = three_entries();
    assert_eq!(menu.highlighted_index(), 0);
    assert!(menu.is_dirty());
    assert_eq!(menu.active_submenu(), None);
    assert!(menu.selected_option().is_none());
}

#[test]
fn a_new_menu_has_not_seen_any_button() {
    // The first snapshot is compared with "all released": a button that is
    // already held in it fires.
    let mut menu = three_entries();
    menu.update(&down());
    assert_eq!(menu.highlighted_index(), 1);
}

#[test]
fn entries_are_found_by_index() {
    let menu = three_entries();
    assert_eq!(menu.entry_at(0), Some(&MenuEntry { l: "Start", t: EntryType::Select }));
    assert_eq!(menu.entry_at(1), Some(&MenuEntry { l: "Sound", t: EntryType::Bool(false) }));
    assert_eq!(
        menu.entry_at(2),
        Some(&MenuEntry { l: "Volume", t: EntryType::I32((-3, -10, 10)) })
    );
    assert_eq!(menu.entry_at(3), None);
    assert_eq!(menu.entry_at(usize::MAX), None);
}

#[test]
fn an_up_edge_on_the_first_entry_wraps_to_the_last() {
    let mut menu = three_entries();
    menu.update(&up());
    assert_eq!(menu.highlighted_index(), 2);
}

#[test]
fn a_down_edge_on_the_last_entry_wraps_to_the_first() {
    let mut menu = three_entries();
    press(&mut menu, down());
    press(&mut menu, down());
    assert_eq!(menu.highlighted_index(), 2);
    press(&mut menu, down());
    assert_eq!(menu.highlighted_index(), 0);
}

#[test]
fn two_downs_reach_the_volume_and_each_right_edge_raises_it_by_one() {
    let mut menu = three_entries();
    press(&mut menu, down());
    press(&mut menu, down());
    assert_eq!(menu.highlighted_index(), 2);
    press(&mut menu, right());
    assert_eq!(volume(&menu), -2);
    for _ in 0..9 {
        press(&mut menu, right());
    }
    assert_eq!(volume(&menu), 7);
    assert_eq!(menu.highlighted_index(), 2);
}

#[test]
fn the_volume_climbs_from_minus_three_to_ten_and_stays() {
    let mut menu = three_entries();
    press(&mut menu, down());
    press(&mut menu, down());
    let mut seen = Vec::new();
    for _ in 0..15 {
        press(&mut menu, right());
        seen.push(volume(&menu));
    }
    assert_eq!(seen, vec![-2, -1, 0, 1, 2, 3, 4, 5, 6, 7, 8, 9, 10, 10, 10]);
}

#[test]
fn ten_right_edges_from_zero_reach_ten_and_the_eleventh_is_clamped() {
    let structure = vec![
        MenuEntry { l: "Start", t: EntryType::Select },
        MenuEntry { l: "Sound", t: EntryType::Bool(false) },
        MenuEntry { l: "Volume", t: EntryType::I32((0, -10, 10)) },
    ];
    let mut menu = Menu::new("Main", options(), Size::new(128, 160), structure).unwrap();
    press(&mut menu, down());
    press(&mut menu, down());
    assert_eq!(menu.highlighted_index(), 2);
    press(&mut menu, right());
    assert_eq!(volume(&menu), 1);
    for _ in 0..9 {
        press(&mut menu, right());
    }
    assert_eq!(volume(&menu), 10);
    press(&mut menu, right());
    assert_eq!(volume(&menu), 10);
}

#[test]
fn the_volume_falls_to_minus_ten_and_stays() {
    let mut menu = three_entries();
    press(&mut menu, up());
    let left = Keys { left: true, ..released() };
    for _ in 0..7 {
        press(&mut menu, left);
    }
    assert_eq!(volume(&menu), -10);
    press(&mut menu, left);
    assert_eq!(volume(&menu), -10);
}

#[test]
fn a_held_direction_moves_the_cursor_once() {
    let mut menu = three_entries();
    menu.update(&up());
    assert_eq!(menu.highlighted_index(), 2);
    menu.update(&up());
    assert_eq!(menu.highlighted_index(), 2);
    menu.update(&up());
    assert_eq!(menu.highlighted_index(), 2);
    menu.update(&released());
    menu.update(&up());
    assert_eq!(menu.highlighted_index(), 1);
}

#[test]
fn a_held_right_steps_an_integer_once() {
    let mut menu = three_entries();
    press(&mut menu, up());
    menu.update(&right());
    menu.update(&right());
    menu.update(&right());
    assert_eq!(volume(&menu), -2);
}

#[test]
fn up_and_down_in_one_tick_leave_the_cursor() {
    let mut menu = three_entries();
    menu.update(&Keys { up: true, down: true, ..released() });
    assert_eq!(menu.highlighted_index(), 0);
    assert!(menu.is_dirty());
}

#[test]
fn the_entry_under_the_moved_cursor_takes_the_edges() {
    // Down and right in one tick: the cursor moves first, and the entry it
    // lands on is the one that right steps.
    let mut menu = three_entries();
    press(&mut menu, down());
    menu.update(&Keys { down: true, right: true, ..released() });
    assert_eq!(menu.highlighted_index(), 2);
    assert_eq!(volume(&menu), -2);
    assert_eq!(menu.entry_at(1), Some(&MenuEntry { l: "Sound", t: EntryType::Bool(false) }));
}

#[test]
fn the_selection_lasts_one_tick() {
    let mut menu = three_entries();
    menu.update(&primary());
    assert_eq!(menu.selected_option(), Some(&MenuEntry { l: "Start", t: EntryType::Select }));
    menu.update(&primary());
    assert_eq!(menu.selected_option(), None);
    menu.update(&released());
    assert_eq!(menu.selected_option(), None);
}

#[test]
fn the_primary_button_selects_and_flips_a_toggle() {
    let mut menu = three_entries();
    press(&mut menu, down());
    menu.update(&primary());
    assert_eq!(menu.selected_option(), Some(&MenuEntry { l: "Sound", t: EntryType::Bool(true) }));
}

#[test]
fn the_cursor_stays_on_an_entry_whatever_the_buttons_do() {
    let mut menu = three_entries();
    let mut seed: u32 = 12345;
    for _ in 0..500 {
        seed = seed.wrapping_mul(1103515245).wrapping_add(12345);
        let bits = seed >> 16;
        let keys = Keys {
            up: bits & 1 != 0,
            down: bits & 2 != 0,
            left: bits & 4 != 0,
            right: bits & 8 != 0,
            a: bits & 16 != 0,
            b: bits & 32 != 0,
        };
        menu.update(&keys);
        assert!(menu.highlighted_index() < 3);
        let held = volume(&menu);
        assert!(-10 <= held && held <= 10);
    }
}

#[test]
fn any_edge_makes_the_menu_dirty() {
    let all = [
        Keys { up: true, ..released() },
        Keys { down: true, ..released() },
        Keys { left: true, ..released() },
        Keys { right: true, ..released() },
        Keys { a: true, ..released() },
        Keys { b: true, ..released() },
    ];
    for keys in all {
        let mut menu = three_entries();
        let done: Result<(), ()> = Ok(());
        assert_eq!(menu.finish_draw(done), Ok(()));
        assert!(!menu.is_dirty());
        menu.update(&keys);
        assert!(menu.is_dirty());
    }
}

#[test]
fn a_tick_without_an_edge_leaves_a_clean_menu_clean() {
    let mut menu = three_entries();
    menu.update(&down());
    let done: Result<(), ()> = Ok(());
    assert_eq!(menu.finish_draw(done), Ok(()));
    menu.update(&down());
    assert!(!menu.is_dirty());
    menu.update(&released());
    assert!(!menu.is_dirty());
}

#[test]
fn force_redraw_makes_the_menu_dirty() {
    let mut menu = three_entries();
    let done: Result<(), ()> = Ok(());
    assert_eq!(menu.finish_draw(done), Ok(()));
    assert!(!menu.is_dirty());
    menu.force_redraw();
    assert!(menu.is_dirty());
    menu.force_redraw();
    assert!(menu.is_dirty());
}
