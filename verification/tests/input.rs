use embedded_graphics_menu::{advance, edges, Keys, MenuError};

fn released() -> Keys {
    Keys { up: false, down: false, left: false, right: false, a: false, b: false }
}

fn all_held() -> Keys {
    Keys { up: true, down: true, left: true, right: true, a: true, b: true }
}

#[test]
fn default_keys_are_all_released() {
    assert_eq!(Keys::default(), released());
}

#[test]
fn a_button_that_goes_down_fires() {
    let fired = edges(&released(), &Keys { up: true, a: true, ..released() });
    assert_eq!(fired, Keys { up: true, a: true, ..released() });
}

#[test]
fn every_button_fires_on_its_own_edge() {
    assert_eq!(edges(&released(), &all_held()), all_held());
    assert_eq!(
        edges(&released(), &Keys { down: true, ..released() }),
        Keys { down: true, ..released() }
    );
    assert_eq!(
        edges(&released(), &Keys { left: true, ..released() }),
        Keys { left: true, ..released() }
    );
    assert_eq!(
        edges(&released(), &Keys { right: true, ..released() }),
        Keys { right: true, ..released() }
    );
    assert_eq!(edges(&released(), &Keys { b: true, ..released() }), Keys { b: true, ..released() });
}

#[test]
fn a_held_button_does_not_fire_again() {
    assert_eq!(edges(&all_held(), &all_held()), released());
}

#[test]
fn a_released_button_does_not_fire() {
    assert_eq!(edges(&all_held(), &released()), released());
}

#[test]
fn only_the_new_button_fires_next_to_a_held_one() {
    let before = Keys { left: true, ..released() };
    let now = Keys { left: true, b: true, ..released() };
    assert_eq!(edges(&before, &now), Keys { b: true, ..released() });
}

#[test]
fn the_cursor_steps_down_and_up() {
    assert_eq!(advance(0, 3, false, true), Ok(1));
    assert_eq!(advance(1, 3, false, true), Ok(2));
    assert_eq!(advance(2, 3, true, false), Ok(1));
    assert_eq!(advance(1, 3, true, false), Ok(0));
}

#[test]
fn the_cursor_wraps_at_both_ends() {
    assert_eq!(advance(0, 3, true, false), Ok(2));
    assert_eq!(advance(2, 3, false, true), Ok(0));
}

#[test]
fn up_and_down_together_cancel() {
    assert_eq!(advance(0, 3, true, true), Ok(0));
    assert_eq!(advance(1, 3, true, true), Ok(1));
    assert_eq!(advance(2, 3, true, true), Ok(2));
}

#[test]
fn without_an_edge_the_cursor_rests() {
    assert_eq!(advance(1, 3, false, false), Ok(1));
}

#[test]
fn a_single_entry_keeps_the_cursor() {
    assert_eq!(advance(0, 1, true, false), Ok(0));
    assert_eq!(advance(0, 1, false, true), Ok(0));
}

#[test]
fn a_cursor_past_the_end_goes_to_the_front() {
    assert_eq!(advance(5, 3, false, false), Ok(0));
    assert_eq!(advance(5, 3, false, true), Ok(0));
    assert_eq!(advance(5, 3, true, false), Ok(0));
    assert_eq!(advance(3, 3, true, false), Ok(2));
    assert_eq!(advance(usize::MAX, 3, false, true), Ok(0));
}

#[test]
fn an_empty_list_has_no_cursor() {
    assert_eq!(advance(0, 0, false, false), Err(MenuError::InvalidState));
    assert_eq!(advance(0, 0, true, false), Err(MenuError::InvalidState));
    assert_eq!(advance(7, 0, false, true), Err(MenuError::InvalidState));
}
