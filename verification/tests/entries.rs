use embedded_graphics_menu::{EntryType, Keys, Menu, MenuEntry, MenuOptions, Size};

type Value<'a> = EntryType<'a, u8, ()>;

fn released() -> Keys {
    Keys { up: false, down: false, left: false, right: false, a: false, b: false }
}

fn left() -> Keys {
    Keys { left: true, ..released() }
}

fn right() -> Keys {
    Keys { right: true, ..released() }
}

fn primary() -> Keys {
    Keys { a: true, ..released() }
}

fn both() -> Keys {
    Keys { left: true, right: true, ..released() }
}

fn small_menu<'a>() -> Menu<'a, u8, ()> {
    let options =
        MenuOptions { background: 0, text: 1, highlight: 2, font: (), border: 4, spacing: 10 };
    let structure = vec![MenuEntry { l: "Back", t: EntryType::Return }];
    Menu::new("Sub", options, Size::new(64, 48), structure).unwrap()
}

#[test]
fn a_toggle_flips_on_left_right_and_primary() {
    let mut value: Value = EntryType::Bool(false);
    assert!(!value.apply(&left()));
    assert_eq!(value, EntryType::Bool(true));
    value.apply(&right());
    assert_eq!(value, EntryType::Bool(false));
    value.apply(&primary());
    assert_eq!(value, EntryType::Bool(true));
}

#[test]
fn a_toggle_flips_once_when_several_buttons_fire() {
    let mut value: Value = EntryType::Bool(true);
    value.apply(&Keys { left: true, right: true, a: true, ..released() });
    assert_eq!(value, EntryType::Bool(false));
}

#[test]
fn a_toggle_ignores_the_other_buttons() {
    let mut value: Value = EntryType::Bool(true);
    value.apply(&Keys { up: true, down: true, b: true, ..released() });
    assert_eq!(value, EntryType::Bool(true));
    value.apply(&released());
    assert_eq!(value, EntryType::Bool(true));
}

#[test]
fn an_integer_steps_by_one() {
    let mut value: Value = EntryType::I32((-3, -10, 10));
    value.apply(&right());
    assert_eq!(value, EntryType::I32((-2, -10, 10)));
    value.apply(&left());
    value.apply(&left());
    assert_eq!(value, EntryType::I32((-4, -10, 10)));
}

#[test]
fn an_integer_stops_at_its_bounds() {
    let mut value: Value = EntryType::I32((10, -10, 10));
    value.apply(&right());
    assert_eq!(value, EntryType::I32((10, -10, 10)));
    let mut value: Value = EntryType::I32((-10, -10, 10));
    value.apply(&left());
    assert_eq!(value, EntryType::I32((-10, -10, 10)));
}

#[test]
fn an_integer_at_the_end_of_its_type_does_not_overflow() {
    let mut value: Value = EntryType::I32((i32::MAX, i32::MIN, i32::MAX));
    value.apply(&right());
    assert_eq!(value, EntryType::I32((i32::MAX, i32::MIN, i32::MAX)));
    let mut value: Value = EntryType::I32((i32::MIN, i32::MIN, i32::MAX));
    value.apply(&left());
    assert_eq!(value, EntryType::I32((i32::MIN, i32::MIN, i32::MAX)));
}

#[test]
fn left_and_right_together_cancel_inside_the_bounds() {
    let mut value: Value = EntryType::I32((0, -10, 10));
    value.apply(&both());
    assert_eq!(value, EntryType::I32((0, -10, 10)));
}

#[test]
fn left_and_right_together_at_the_bounds() {
    // Right is taken first, then left sees the raised value.
    let mut value: Value = EntryType::I32((-10, -10, 10));
    value.apply(&both());
    assert_eq!(value, EntryType::I32((-10, -10, 10)));
    let mut value: Value = EntryType::I32((10, -10, 10));
    value.apply(&both());
    assert_eq!(value, EntryType::I32((9, -10, 10)));
    let mut value: Value = EntryType::I32((5, 5, 5));
    value.apply(&both());
    assert_eq!(value, EntryType::I32((5, 5, 5)));
}

#[test]
fn an_integer_ignores_the_primary_button() {
    let mut value: Value = EntryType::I32((1, 0, 2));
    assert!(!value.apply(&Keys { a: true, b: true, up: true, down: true, ..released() }));
    assert_eq!(value, EntryType::I32((1, 0, 2)));
}

#[test]
fn actions_and_exits_hold_nothing_to_change() {
    let mut value: Value = EntryType::Select;
    assert!(!value.apply(&Keys { left: true, right: true, a: true, ..released() }));
    assert_eq!(value, EntryType::Select);
    let mut value: Value = EntryType::Return;
    assert!(!value.apply(&Keys { left: true, right: true, a: true, ..released() }));
    assert_eq!(value, EntryType::Return);
}

#[test]
fn the_primary_button_enters_a_submenu_and_marks_it_dirty() {
    let mut sub = small_menu();
    let done: Result<(), ()> = Ok(());
    assert_eq!(sub.finish_draw(done), Ok(()));
    assert!(!sub.is_dirty());
    let mut value: Value = EntryType::Menu(sub);
    assert!(value.apply(&primary()));
    match &value {
        EntryType::Menu(sub) => assert!(sub.is_dirty()),
        _ => panic!("the entry holds a menu"),
    }
}

#[test]
fn other_buttons_leave_a_submenu_alone() {
    let mut sub = small_menu();
    let done: Result<(), ()> = Ok(());
    assert_eq!(sub.finish_draw(done), Ok(()));
    let mut value: Value = EntryType::Menu(sub);
    assert!(!value.apply(&Keys { left: true, right: true, b: true, ..released() }));
    match &value {
        EntryType::Menu(sub) => assert!(!sub.is_dirty()),
        _ => panic!("the entry holds a menu"),
    }
}
