//! The two widgets that hold state: a one-line text input with a cursor, and
//! a menu with at most one selected entry.

use crate::keys::{KeyCode, KeyEvent};
use crate::text::{push_char, views};
use ratatui::widgets::ListState;
use vstd::prelude::*;
use vstd::string::*;

verus! {

/// Whether an input takes the keys that are typed.
#[derive(Clone, Copy, Debug, PartialEq, Eq, Structural)]
pub enum InputMode {
    Normal,
    Editing,
}

/// A direction in which the cursor moves by one character.
#[derive(Clone, Copy, Debug, PartialEq, Eq, Structural)]
pub enum Offset {
    Left,
    Right,
}

/// A labelled one-line text input. `index` counts the characters left of the
/// cursor.
#[derive(Debug)]
pub struct Input {
    pub label: String,
    pub value: String,
    pub mode: InputMode,
    pub index: usize,
}

/// What an `Input` holds.
pub struct InputView {
    pub label: Seq<char>,
    pub value: Seq<char>,
    pub mode: InputMode,
    pub index: nat,
}

/// `i`, brought into `0 ..= len`.
pub open spec fn clamp_cursor(i: int, len: nat) -> nat {
    if i < 0 {
        0
    } else if i > len {
        len
    } else {
        i as nat
    }
}

impl InputView {
    /// An empty input.
    pub open spec fn new(label: Seq<char>, focus: bool) -> InputView {
        InputView {
            label,
            value: Seq::empty(),
            mode: if focus {
                InputMode::Editing
            } else {
                InputMode::Normal
            },
            index: 0,
        }
    }

    /// The cursor is inside the text or just behind it.
    pub open spec fn wf(self) -> bool {
        self.index <= self.value.len()
    }

    /// The cursor one character further in the direction of `offset`, but
    /// never outside the text.
    pub open spec fn move_cursor(self, offset: Offset) -> InputView {
        let target = match offset {
            Offset::Left => self.index - 1,
            Offset::Right => self.index as int + 1,
        };
        InputView { index: clamp_cursor(target, self.value.len()), ..self }
    }

    /// `c` put in at the cursor (at the end, where the cursor is behind it),
    /// and the cursor moved behind `c`.
    pub open spec fn enter_char(self, c: char) -> InputView {
        let at = clamp_cursor(self.index as int, self.value.len()) as int;
        let value = self.value.take(at).push(c) + self.value.skip(at);
        InputView { value, index: clamp_cursor(self.index as int + 1, value.len()), ..self }
    }

    /// The character left of the cursor taken out and the cursor moved one to
    /// the left; nothing where the cursor is at the start.
    pub open spec fn delete_char(self) -> InputView {
        if self.index == 0 {
            self
        } else {
            let len = self.value.len();
            let keep = clamp_cursor(self.index - 1, len) as int;
            let from = clamp_cursor(self.index as int, len) as int;
            let value = self.value.take(keep) + self.value.skip(from);
            InputView { value, index: clamp_cursor(self.index - 1, value.len()), ..self }
        }
    }

    /// The number of bytes that the UTF-8 text of the characters left of the
    /// cursor takes.
    pub open spec fn byte_index(self) -> nat {
        let at = clamp_cursor(self.index as int, self.value.len()) as int;
        vstd::utf8::encode_utf8(self.value.take(at)).len()
    }

    /// The cursor at the start.
    pub open spec fn reset_cursor(self) -> InputView {
        InputView { index: 0, ..self }
    }

    /// The text emptied and the cursor at the start.
    pub open spec fn submit_input(self) -> InputView {
        InputView { value: Seq::empty(), index: 0, ..self }
    }

    /// The input after the key `code`.
    pub open spec fn handle_key(self, code: KeyCode) -> InputView {
        match code {
            KeyCode::Char(c) => self.enter_char(c),
            KeyCode::Backspace => self.delete_char(),
            KeyCode::Left => self.move_cursor(Offset::Left),
            KeyCode::Right => self.move_cursor(Offset::Right),
            KeyCode::Enter => InputView { mode: InputMode::Normal, ..self },
            _ => self,
        }
    }
}

impl View for Input {
    type V = InputView;

    open spec fn view(&self) -> InputView {
        InputView {
            label: self.label@,
            value: self.value@,
            mode: self.mode,
            index: self.index as nat,
        }
    }
}

impl Input {
    /// An empty input with the cursor at the start, in editing mode if it has
    /// the focus.
    pub fn new(label: &str, focus: bool) -> (input: Input)
        ensures
            input@ == InputView::new(label@, focus),
    {
        Input {
            label: String::from_str(label),
            value: String::new(),
            mode: match focus {
                true => InputMode::Editing,
                false => InputMode::Normal,
            },
            index: 0,
        }
    }

    /// Moves the cursor by one character, staying within the text.
    pub fn move_cursor(&mut self, offset: Offset)
        ensures
            final(self)@ == old(self)@.move_cursor(offset),
            final(self)@.wf(),
    {
        let len = self.value.as_str().unicode_len();
        let cursor_move = match offset {
            Offset::Left => self.index.saturating_sub(1),
            Offset::Right => self.index.saturating_add(1),
        };
        self.index = if cursor_move > len {
            len
        } else {
            cursor_move
        };
    }

    /// Puts `new_char` in at the cursor and moves the cursor behind it.
    pub fn enter_char(&mut self, new_char: char)
        ensures
            final(self)@ == old(self)@.enter_char(new_char),
    {
        let len = self.value.as_str().unicode_len();
        let at = if self.index > len {
            len
        } else {
            self.index
        };
        let mut value = String::from_str(self.value.as_str().substring_char(0, at));
        push_char(&mut value, new_char);
        value.append(self.value.as_str().substring_char(at, len));
        self.value = value;
        self.move_cursor(Offset::Right);
    }

    /// Takes out the character left of the cursor, if there is one.
    pub fn delete_char(&mut self)
        ensures
            final(self)@ == old(self)@.delete_char(),
    {
        let is_not_cursor_leftmost = self.index != 0;
        if is_not_cursor_leftmost {
            let len = self.value.as_str().unicode_len();
            let current_index = if self.index > len {
                len
            } else {
                self.index
            };
            let from_left_to_current_index = if self.index - 1 > len {
                len
            } else {
                self.index - 1
            };
            let mut value = String::from_str(
                self.value.as_str().substring_char(0, from_left_to_current_index),
            );
            value.append(self.value.as_str().substring_char(current_index, len));
            self.value = value;
            self.move_cursor(Offset::Left);
        }
    }

    /// The offset in bytes, in the UTF-8 text of `value`, of the character
    /// under the cursor; the length in bytes where the cursor is behind the text.
    pub fn byte_index(&self) -> (offset: usize)
        ensures
            offset == self@.byte_index() as usize,
    {
        let len = self.value.as_str().unicode_len();
        let at = if self.index > len {
            len
        } else {
            self.index
        };
        let left = self.value.as_str().substring_char(0, at);
        assert(left@ =~= self@.value.take(at as int));
        left.len()
    }

    /// Puts the cursor at the start.
    pub fn reset_cursor(&mut self)
        ensures
            final(self)@ == old(self)@.reset_cursor(),
    {
        self.index = 0;
    }

    /// Empties the text and puts the cursor at the start.
    pub fn submit_input(&mut self)
        ensures
            final(self)@ == old(self)@.submit_input(),
    {
        self.value = String::new();
        self.reset_cursor();
    }

    /// Applies one key to the input. Returns `true` when the key was Enter,
    /// which ends the editing of this input.
    pub fn handle_key(&mut self, code: KeyCode) -> (done: bool)
        ensures
            final(self)@ == old(self)@.handle_key(code),
            done == (code == KeyCode::Enter),
    {
        match code {
            KeyCode::Char(to_insert) => self.enter_char(to_insert),
            KeyCode::Backspace => self.delete_char(),
            KeyCode::Left => self.move_cursor(Offset::Left),
            KeyCode::Right => self.move_cursor(Offset::Right),
            KeyCode::Enter => {
                self.mode = InputMode::Normal;
                return true;
            },
            _ => {},
        }
        return false;
    }
}

/// A titled list of entries of which at most one is selected.
#[derive(Debug)]
pub struct Menu {
    pub title: String,
    pub options: Vec<String>,
    pub selected: Option<usize>,
}

/// What a `Menu` holds.
pub struct MenuView {
    pub title: Seq<char>,
    pub options: Seq<Seq<char>>,
    pub selected: Option<nat>,
}

/// The selection as a list of `len` entries shows it: none on an empty list,
/// the last entry for an index behind the end.
pub open spec fn settle(selected: Option<int>, len: nat) -> Option<nat> {
    match selected {
        None => None,
        Some(i) => if len == 0 {
            None
        } else if i >= len {
            Some((len - 1) as nat)
        } else if i < 0 {
            Some(0)
        } else {
            Some(i as nat)
        },
    }
}

/// The selection as a plain integer, for arithmetic.
pub open spec fn selection_int(selected: Option<nat>) -> Option<int> {
    match selected {
        None => None,
        Some(i) => Some(i as int),
    }
}

impl MenuView {
    /// A menu with its first entry selected; nothing selected if it has no entry.
    pub open spec fn new(title: Seq<char>, options: Seq<Seq<char>>) -> MenuView {
        MenuView { title, options, selected: settle(Some(0), options.len()) }
    }

    /// The selection, if there is one, is an index into the entries.
    pub open spec fn wf(self) -> bool {
        self.selected matches Some(i) ==> i < self.options.len()
    }

    /// The selection moved to the next entry; to the first where nothing was
    /// selected; unmoved at the last.
    pub open spec fn select_next(self) -> MenuView {
        let target = match self.selected {
            None => 0,
            Some(i) => i as int + 1,
        };
        MenuView { selected: settle(Some(target), self.options.len()), ..self }
    }

    /// The selection moved to the previous entry; to the last where nothing
    /// was selected; unmoved at the first.
    pub open spec fn select_previous(self) -> MenuView {
        let target = match self.selected {
            None => self.options.len() as int,
            Some(i) => i as int - 1,
        };
        MenuView { selected: settle(Some(target), self.options.len()), ..self }
    }

    /// The first entry selected.
    pub open spec fn select_first(self) -> MenuView {
        MenuView { selected: settle(Some(0), self.options.len()), ..self }
    }

    /// The last entry selected.
    pub open spec fn select_last(self) -> MenuView {
        MenuView { selected: settle(Some(self.options.len() as int), self.options.len()), ..self }
    }

    /// Nothing selected.
    pub open spec fn select_none(self) -> MenuView {
        MenuView { selected: None, ..self }
    }

    /// The menu after the key `code`: the arrow keys, Home and End, or the
    /// letters `h`, `j`, `k`, `g` and `G`, move the selection; other keys
    /// change nothing.
    pub open spec fn handle_key(self, code: KeyCode) -> MenuView {
        match code {
            KeyCode::Left => self.select_none(),
            KeyCode::Down => self.select_next(),
            KeyCode::Up => self.select_previous(),
            KeyCode::Home => self.select_first(),
            KeyCode::End => self.select_last(),
            KeyCode::Char(c) => if c == 'h' {
                self.select_none()
            } else if c == 'j' {
                self.select_next()
            } else if c == 'k' {
                self.select_previous()
            } else if c == 'g' {
                self.select_first()
            } else if c == 'G' {
                self.select_last()
            } else {
                self
            },
            _ => self,
        }
    }
}

impl View for Menu {
    type V = MenuView;

    open spec fn view(&self) -> MenuView {
        MenuView {
            title: self.title@,
            options: views(self.options@),
            selected: match self.selected {
                None => None,
                Some(i) => Some(i as nat),
            },
        }
    }
}

/// `ratatui::widgets::ListState::select` on a list state whose selection is
/// not set: the selection becomes `index`.
#[verifier::external_body]
fn list_select(index: Option<usize>) -> (selected: Option<usize>)
    ensures
        selected == index,
{
    let mut state = ListState::default();
    state.select(index);
    state.selected()
}

/// `ratatui::widgets::ListState::select_next` on a list state with the
/// selection `current`: the index after the selected one, without wrapping at
/// the largest `usize`, or 0 where nothing was selected. The list state knows
/// no length, so the index may lie behind the end of the list.
#[verifier::external_body]
fn list_select_next(current: Option<usize>) -> (selected: Option<usize>)
    ensures
        selected == Some(
            match current {
                None => 0usize,
                Some(i) => if i == usize::MAX {
                    usize::MAX
                } else {
                    (i + 1) as usize
                },
            },
        ),
{
    let mut state = ListState::default().with_selected(current);
    state.select_next();
    state.selected()
}

/// `ratatui::widgets::ListState::select_previous` on a list state with the
/// selection `current`: the index before the selected one, 0 staying 0, or the
/// largest `usize` where nothing was selected.
#[verifier::external_body]
fn list_select_previous(current: Option<usize>) -> (selected: Option<usize>)
    ensures
        selected == Some(
            match current {
                None => usize::MAX,
                Some(i) => if i == 0 {
                    0usize
                } else {
                    (i - 1) as usize
                },
            },
        ),
{
    let mut state = ListState::default().with_selected(current);
    state.select_previous();
    state.selected()
}

/// `ratatui::widgets::ListState::select_first` on a list state with the
/// selection `current`: index 0 is selected.
#[verifier::external_body]
fn list_select_first(current: Option<usize>) -> (selected: Option<usize>)
    ensures
        selected == Some(0usize),
{
    let mut state = ListState::default().with_selected(current);
    state.select_first();
    state.selected()
}

/// `ratatui::widgets::ListState::select_last` on a list state with the
/// selection `current`: the largest `usize` is selected, which a list shows
/// as its last entry.
#[verifier::external_body]
fn list_select_last(current: Option<usize>) -> (selected: Option<usize>)
    ensures
        selected == Some(usize::MAX),
{
    let mut state = ListState::default().with_selected(current);
    state.select_last();
    state.selected()
}

impl Menu {
    /// A menu with the given title and entries, the first entry selected.
    pub fn new(title: &str, options: Vec<String>) -> (menu: Menu)
        ensures
            menu@ == MenuView::new(title@, views(options@)),
            menu@.wf(),
    {
        let mut menu = Menu { options, selected: list_select(Some(0)), title: String::from_str(title) };
        menu.settle();
        menu
    }

    /// Brings the selection into the list, as the list does when it is drawn:
    /// no selection on an empty list, the last entry for an index behind the end.
    pub fn settle(&mut self)
        ensures
            final(self)@ == (MenuView {
                selected: settle(selection_int(old(self)@.selected), old(self)@.options.len()),
                ..old(self)@
            }),
            final(self)@.wf(),
    {
        let len = self.options.len();
        self.selected = match self.selected {
            None => None,
            Some(i) => if len == 0 {
                None
            } else if i >= len {
                Some(len - 1)
            } else {
                Some(i)
            },
        };
    }

    /// Selects nothing.
    pub fn select_none(&mut self)
        ensures
            final(self)@ == old(self)@.select_none(),
    {
        self.selected = list_select(None);
    }

    /// Selects the entry after the selected one.
    pub fn select_next(&mut self)
        ensures
            final(self)@ == old(self)@.select_next(),
            final(self)@.wf(),
    {
        self.selected = list_select_next(self.selected);
        assert(self.options@.len() == self.options.len());
        self.settle();
    }

    /// Selects the entry before the selected one.
    pub fn select_previous(&mut self)
        ensures
            final(self)@ == old(self)@.select_previous(),
            final(self)@.wf(),
    {
        self.selected = list_select_previous(self.selected);
        assert(self.options@.len() == self.options.len());
        self.settle();
    }

    /// Selects the first entry.
    pub fn select_first(&mut self)
        ensures
            final(self)@ == old(self)@.select_first(),
            final(self)@.wf(),
    {
        self.selected = list_select_first(self.selected);
        self.settle();
    }

    /// Selects the last entry.
    pub fn select_last(&mut self)
        ensures
            final(self)@ == old(self)@.select_last(),
            final(self)@.wf(),
    {
        self.selected = list_select_last(self.selected);
        assert(self.options@.len() == self.options.len());
        self.settle();
    }

    /// Applies one key to the menu.
    pub fn handle_key(&mut self, key: KeyEvent)
        ensures
            final(self)@ == old(self)@.handle_key(key.code),
            old(self)@.wf() ==> final(self)@.wf(),
    {
        match key.code {
            KeyCode::Left => self.select_none(),
            KeyCode::Down => self.select_next(),
            KeyCode::Up => self.select_previous(),
            KeyCode::Home => self.select_first(),
            KeyCode::End => self.select_last(),
            KeyCode::Char(c) => {
                if c == 'h' {
                    self.select_none()
                } else if c == 'j' {
                    self.select_next()
                } else if c == 'k' {
                    self.select_previous()
                } else if c == 'g' {
                    self.select_first()
                } else if c == 'G' {
                    self.select_last()
                }
            },
            _ => {},
        }
    }
}

} // verus!
