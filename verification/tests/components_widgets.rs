use portal_session::components::{Input, InputMode, Menu, Offset};
use portal_session::keys::{KeyCode, KeyEvent, KeyEventKind};

fn labels(items: &[&str]) -> Vec<String> {
    items.iter().map(|s| s.to_string()).collect()
}

fn typed(text: &str) -> Input {
    let mut input = Input::new("label", true);
    for c in text.chars() {
        input.enter_char(c);
    }
    input
}

#[test]
fn new_input_is_empty_with_cursor_at_start() {
    let input = Input::new("Identifiant", true);
    assert_eq!(input.label, "Identifiant");
    assert_eq!(input.value, "");
    assert_eq!(input.mode, InputMode::Editing);
    assert_eq!(input.index, 0);
    let input = Input::new("Mot de passe", false);
    assert_eq!(input.label, "Mot de passe");
    assert_eq!(input.mode, InputMode::Normal);
}

#[test]
fn enter_char_appends_and_moves_the_cursor() {
    let input = typed("abc");
    assert_eq!(input.value, "abc");
    assert_eq!(input.index, 3);
}

#[test]
fn enter_char_inserts_at_the_cursor() {
    let mut input = typed("ac");
    input.move_cursor(Offset::Left);
    input.enter_char('b');
    assert_eq!(input.value, "abc");
    assert_eq!(input.index, 2);
    input.reset_cursor();
    input.enter_char('>');
    assert_eq!(input.value, ">abc");
    assert_eq!(input.index, 1);
}

#[test]
fn enter_char_counts_characters_not_bytes() {
    let mut input = typed("éà");
    assert_eq!(input.index, 2);
    input.move_cursor(Offset::Left);
    input.enter_char('ç');
    assert_eq!(input.value, "éçà");
    assert_eq!(input.index, 2);
}

#[test]
fn enter_char_with_cursor_behind_the_text_appends() {
    let mut input = typed("ab");
    input.index = 10;
    input.enter_char('c');
    assert_eq!(input.value, "abc");
    assert_eq!(input.index, 3);
}

#[test]
fn delete_char_removes_the_character_left_of_the_cursor() {
    let mut input = typed("abc");
    input.delete_char();
    assert_eq!(input.value, "ab");
    assert_eq!(input.index, 2);
    input.move_cursor(Offset::Left);
    input.delete_char();
    assert_eq!(input.value, "b");
    assert_eq!(input.index, 0);
}

#[test]
fn delete_char_at_the_start_does_nothing() {
    let mut input = typed("abc");
    input.reset_cursor();
    input.delete_char();
    assert_eq!(input.value, "abc");
    assert_eq!(input.index, 0);
    let mut empty = Input::new("label", true);
    empty.delete_char();
    assert_eq!(empty.value, "");
    assert_eq!(empty.index, 0);
}

#[test]
fn delete_char_handles_wide_characters() {
    let mut input = typed("a€b");
    input.move_cursor(Offset::Left);
    input.delete_char();
    assert_eq!(input.value, "ab");
    assert_eq!(input.index, 1);
}

#[test]
fn delete_char_with_cursor_behind_the_text() {
    let mut input = typed("abc");
    input.index = 4;
    input.delete_char();
    assert_eq!(input.value, "abc");
    assert_eq!(input.index, 3);
    input.index = 9;
    input.delete_char();
    assert_eq!(input.value, "abc");
    assert_eq!(input.index, 3);
}

#[test]
fn move_cursor_stays_inside_the_text() {
    let mut input = typed("ab");
    input.move_cursor(Offset::Right);
    assert_eq!(input.index, 2);
    input.move_cursor(Offset::Left);
    assert_eq!(input.index, 1);
    input.move_cursor(Offset::Left);
    assert_eq!(input.index, 0);
    input.move_cursor(Offset::Left);
    assert_eq!(input.index, 0);
    input.move_cursor(Offset::Right);
    assert_eq!(input.index, 1);
}

#[test]
fn move_cursor_brings_a_stray_cursor_back() {
    let mut input = typed("ab");
    input.index = usize::MAX;
    input.move_cursor(Offset::Right);
    assert_eq!(input.index, 2);
    input.index = 7;
    input.move_cursor(Offset::Left);
    assert_eq!(input.index, 2);
}

#[test]
fn byte_index_counts_the_bytes_left_of_the_cursor() {
    let mut input = typed("é€a");
    assert_eq!(input.byte_index(), 6);
    input.move_cursor(Offset::Left);
    assert_eq!(input.byte_index(), 5);
    input.move_cursor(Offset::Left);
    assert_eq!(input.byte_index(), 2);
    input.move_cursor(Offset::Left);
    assert_eq!(input.byte_index(), 0);
    input.index = 40;
    assert_eq!(input.byte_index(), 6);
}

#[test]
fn reset_cursor_keeps_the_text() {
    let mut input = typed("abc");
    input.reset_cursor();
    assert_eq!(input.value, "abc");
    assert_eq!(input.index, 0);
}

#[test]
fn submit_input_empties_the_text() {
    let mut input = typed("abc");
    input.submit_input();
    assert_eq!(input.value, "");
    assert_eq!(input.index, 0);
    assert_eq!(input.label, "label");
    assert_eq!(input.mode, InputMode::Editing);
}

#[test]
fn input_handle_key_edits_the_text() {
    let mut input = Input::new("label", true);
    assert!(!input.handle_key(KeyCode::Char('a')));
    assert!(!input.handle_key(KeyCode::Char('c')));
    assert!(!input.handle_key(KeyCode::Left));
    assert!(!input.handle_key(KeyCode::Char('b')));
    assert_eq!(input.value, "abc");
    assert!(!input.handle_key(KeyCode::Right));
    assert_eq!(input.index, 3);
    assert!(!input.handle_key(KeyCode::Backspace));
    assert_eq!(input.value, "ab");
    assert!(!input.handle_key(KeyCode::Up));
    assert!(!input.handle_key(KeyCode::Other));
    assert_eq!(input.value, "ab");
    assert_eq!(input.mode, InputMode::Editing);
}

#[test]
fn input_handle_key_enter_ends_the_editing() {
    let mut input = typed("abc");
    assert!(input.handle_key(KeyCode::Enter));
    assert_eq!(input.mode, InputMode::Normal);
    assert_eq!(input.value, "abc");
    assert_eq!(input.index, 3);
}

#[test]
fn new_menu_selects_its_first_entry() {
    let menu = Menu::new("Actions", labels(&["a", "b"]));
    assert_eq!(menu.title, "Actions");
    assert_eq!(menu.options, labels(&["a", "b"]));
    assert_eq!(menu.selected, Some(0));
}

#[test]
fn new_menu_without_entries_selects_nothing() {
    let menu = Menu::new("Actions", Vec::new());
    assert_eq!(menu.selected, None);
}

#[test]
fn menu_down_moves_to_the_next_entry_and_stops_at_the_last() {
    let mut menu = Menu::new("Actions", labels(&["a", "b", "c"]));
    menu.handle_key(KeyEvent::press(KeyCode::Down));
    assert_eq!(menu.selected, Some(1));
    menu.handle_key(KeyEvent::press(KeyCode::Char('j')));
    assert_eq!(menu.selected, Some(2));
    menu.handle_key(KeyEvent::press(KeyCode::Down));
    assert_eq!(menu.selected, Some(2));
}

#[test]
fn menu_up_moves_to_the_previous_entry_and_stops_at_the_first() {
    let mut menu = Menu::new("Actions", labels(&["a", "b", "c"]));
    menu.handle_key(KeyEvent::press(KeyCode::End));
    assert_eq!(menu.selected, Some(2));
    menu.handle_key(KeyEvent::press(KeyCode::Up));
    assert_eq!(menu.selected, Some(1));
    menu.handle_key(KeyEvent::press(KeyCode::Char('k')));
    assert_eq!(menu.selected, Some(0));
    menu.handle_key(KeyEvent::press(KeyCode::Up));
    assert_eq!(menu.selected, Some(0));
}

#[test]
fn menu_home_and_end_jump() {
    let mut menu = Menu::new("Actions", labels(&["a", "b", "c", "d"]));
    menu.handle_key(KeyEvent::press(KeyCode::Char('G')));
    assert_eq!(menu.selected, Some(3));
    menu.handle_key(KeyEvent::press(KeyCode::Char('g')));
    assert_eq!(menu.selected, Some(0));
    menu.handle_key(KeyEvent::press(KeyCode::End));
    assert_eq!(menu.selected, Some(3));
    menu.handle_key(KeyEvent::press(KeyCode::Home));
    assert_eq!(menu.selected, Some(0));
}

#[test]
fn menu_left_clears_the_selection() {
    let mut menu = Menu::new("Actions", labels(&["a", "b"]));
    menu.handle_key(KeyEvent::press(KeyCode::Left));
    assert_eq!(menu.selected, None);
    menu.handle_key(KeyEvent::press(KeyCode::Down));
    assert_eq!(menu.selected, Some(0));
    menu.handle_key(KeyEvent::press(KeyCode::Char('h')));
    assert_eq!(menu.selected, None);
    menu.handle_key(KeyEvent::press(KeyCode::Up));
    assert_eq!(menu.selected, Some(1));
}

#[test]
fn menu_other_keys_change_nothing() {
    let mut menu = Menu::new("Actions", labels(&["a", "b"]));
    menu.handle_key(KeyEvent::press(KeyCode::Down));
    for code in [
        KeyCode::Char('x'),
        KeyCode::Char('q'),
        KeyCode::Right,
        KeyCode::Enter,
        KeyCode::Backspace,
        KeyCode::Other,
    ] {
        menu.handle_key(KeyEvent::press(code));
        assert_eq!(menu.selected, Some(1));
    }
}

#[test]
fn menu_without_entries_never_selects() {
    let mut menu = Menu::new("Actions", Vec::new());
    for code in [KeyCode::Down, KeyCode::Up, KeyCode::Home, KeyCode::End, KeyCode::Left] {
        menu.handle_key(KeyEvent::press(code));
        assert_eq!(menu.selected, None);
    }
}

#[test]
fn menu_reads_the_key_whatever_the_kind_of_event() {
    let mut menu = Menu::new("Actions", labels(&["a", "b"]));
    menu.handle_key(KeyEvent { code: KeyCode::Down, kind: KeyEventKind::Release });
    assert_eq!(menu.selected, Some(1));
}

#[test]
fn menu_settle_brings_a_stray_selection_back() {
    let mut menu = Menu::new("Actions", labels(&["a", "b"]));
    menu.selected = Some(17);
    menu.settle();
    assert_eq!(menu.selected, Some(1));
    menu.options.clear();
    menu.settle();
    assert_eq!(menu.selected, None);
}

#[test]
fn menu_selection_methods() {
    let mut menu = Menu::new("Actions", labels(&["a", "b", "c"]));
    menu.select_last();
    assert_eq!(menu.selected, Some(2));
    menu.select_previous();
    assert_eq!(menu.selected, Some(1));
    menu.select_first();
    assert_eq!(menu.selected, Some(0));
    menu.select_next();
    assert_eq!(menu.selected, Some(1));
    menu.select_none();
    assert_eq!(menu.selected, None);
    menu.select_previous();
    assert_eq!(menu.selected, Some(2));
}
