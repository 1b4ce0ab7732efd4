//! The key bindings: from a raw key (already freed of terminal details by
//! the caller) and the current mode to a semantic action.
use crate::actions::EditorAction;
use crate::buffer::HorizontalDirection;
use crate::buffer::RectilinearDirection;
use crate::buffer::VerticalDirection;
use crate::editor::Mode;
use crate::leader_menu::SubMenu;
use vstd::prelude::*;

verus! {

/// A raw key press, independent of any terminal library's encoding.
#[derive(Debug, Clone, Copy, PartialEq, Eq, Structural)]
pub enum Key {
    Char(char),
    Left,
    Right,
    Up,
    Down,
    Esc,
    Enter,
    Backspace,
    Delete,
    Home,
    End,
    Tab,
    BackTab,
}

/// How a key resolved: to an action, to nothing (the key is unbound), or to
/// the explicit not-implemented signal that Command mode answers with —
/// loudly distinct from an unbound key.
#[derive(Debug, Clone, PartialEq, Eq, Structural)]
pub enum KeyResolution {
    Bound(EditorAction),
    Unbound,
    NotImplemented,
}

pub struct KeyMap {}

pub open spec fn normal_binding(key: Key) -> Option<EditorAction> {
    match key {
        Key::Char(c) => if c == ' ' {
            Some(EditorAction::EnterMenu)
        } else if c == 'i' {
            Some(EditorAction::EnterInsert)
        } else if c == 'I' {
            Some(EditorAction::MoveToHomeAndEnterInsert)
        } else if c == 'S' {
            Some(EditorAction::ReplaceLine)
        } else if c == 'h' {
            Some(EditorAction::MoveCursor(Mode::Normal, RectilinearDirection::Left))
        } else if c == 'j' {
            Some(EditorAction::MoveCursor(Mode::Normal, RectilinearDirection::Down))
        } else if c == 'k' {
            Some(EditorAction::MoveCursor(Mode::Normal, RectilinearDirection::Up))
        } else if c == 'l' {
            Some(EditorAction::MoveCursor(Mode::Normal, RectilinearDirection::Right))
        } else if c == '$' {
            Some(EditorAction::EOL)
        } else if c == '0' {
            Some(EditorAction::Home)
        } else if c == 'G' {
            Some(EditorAction::EndOfBuffer)
        } else if c == 'a' {
            Some(EditorAction::Append)
        } else if c == 'A' {
            Some(EditorAction::AppendAtEOL)
        } else if c == 'o' {
            Some(EditorAction::InsertNewLine(VerticalDirection::Down))
        } else if c == 'O' {
            Some(EditorAction::InsertNewLine(VerticalDirection::Up))
        } else if c == 'x' {
            Some(EditorAction::RemoveChar(HorizontalDirection::Forward))
        } else if c == 'X' {
            Some(EditorAction::RemoveChar(HorizontalDirection::Backward))
        } else if c == 'v' {
            Some(EditorAction::EnterSelect)
        } else {
            None
        },
        Key::Left => Some(EditorAction::MoveCursor(Mode::Normal, RectilinearDirection::Left)),
        Key::Down => Some(EditorAction::MoveCursor(Mode::Normal, RectilinearDirection::Down)),
        Key::Up => Some(EditorAction::MoveCursor(Mode::Normal, RectilinearDirection::Up)),
        Key::Right => Some(EditorAction::MoveCursor(Mode::Normal, RectilinearDirection::Right)),
        Key::Tab => Some(EditorAction::CycleTab(HorizontalDirection::Forward)),
        Key::BackTab => Some(EditorAction::CycleTab(HorizontalDirection::Backward)),
        Key::Enter => Some(EditorAction::NextLine),
        Key::Backspace => Some(EditorAction::Back),
        _ => None,
    }
}

/// Insert mode: every plain character inserts itself; the rest is editing
/// and motion.
pub open spec fn insert_binding(key: Key) -> Option<EditorAction> {
    match key {
        Key::Char(c) => Some(EditorAction::InsertChar(c)),
        Key::Esc => Some(EditorAction::ExitInsert),
        Key::Enter => Some(EditorAction::InsertLineBreak),
        Key::Delete => Some(EditorAction::RemoveChar(HorizontalDirection::Forward)),
        Key::Backspace => Some(EditorAction::RemoveChar(HorizontalDirection::Backward)),
        Key::Left => Some(EditorAction::MoveCursor(Mode::Insert, RectilinearDirection::Left)),
        Key::Right => Some(EditorAction::MoveCursor(Mode::Insert, RectilinearDirection::Right)),
        Key::Up => Some(EditorAction::MoveCursor(Mode::Insert, RectilinearDirection::Up)),
        Key::Down => Some(EditorAction::MoveCursor(Mode::Insert, RectilinearDirection::Down)),
        Key::Home => Some(EditorAction::Home),
        Key::End => Some(EditorAction::EOL),
        _ => None,
    }
}

/// Select mode: Normal-rule motions, plus leaving the selection.
pub open spec fn select_binding(key: Key) -> Option<EditorAction> {
    match key {
        Key::Char(c) => if c == 'I' {
            Some(EditorAction::MoveToHomeAndEnterInsert)
        } else if c == 'S' {
            Some(EditorAction::ReplaceLine)
        } else if c == 'h' {
            Some(EditorAction::MoveCursor(Mode::Normal, RectilinearDirection::Left))
        } else if c == 'j' {
            Some(EditorAction::MoveCursor(Mode::Normal, RectilinearDirection::Down))
        } else if c == 'k' {
            Some(EditorAction::MoveCursor(Mode::Normal, RectilinearDirection::Up))
        } else if c == 'l' {
            Some(EditorAction::MoveCursor(Mode::Normal, RectilinearDirection::Right))
        } else if c == '$' {
            Some(EditorAction::EOL)
        } else if c == '0' {
            Some(EditorAction::Home)
        } else if c == 'G' {
            Some(EditorAction::EndOfBuffer)
        } else if c == 'v' {
            Some(EditorAction::ExitSelect)
        } else {
            None
        },
        Key::Left => Some(EditorAction::MoveCursor(Mode::Normal, RectilinearDirection::Left)),
        Key::Down => Some(EditorAction::MoveCursor(Mode::Normal, RectilinearDirection::Down)),
        Key::Up => Some(EditorAction::MoveCursor(Mode::Normal, RectilinearDirection::Up)),
        Key::Right => Some(EditorAction::MoveCursor(Mode::Normal, RectilinearDirection::Right)),
        Key::Enter => Some(EditorAction::NextLine),
        Key::Backspace => Some(EditorAction::Back),
        Key::Esc => Some(EditorAction::ExitSelect),
        _ => None,
    }
}

/// The leader menu swallows all input while open.
pub open spec fn root_menu_binding(key: Key) -> Option<EditorAction> {
    match key {
        Key::Char(c) => if c == ' ' {
            Some(EditorAction::ExitMenu)
        } else if c == 'q' {
            Some(EditorAction::ExitEditor)
        } else if c == 'w' {
            Some(EditorAction::SaveBuffer)
        } else {
            None
        },
        Key::Esc => Some(EditorAction::ExitMenu),
        _ => None,
    }
}

pub open spec fn handle_key_spec(key: Key, mode: Mode) -> KeyResolution {
    match mode {
        Mode::Normal => match normal_binding(key) {
            Some(a) => KeyResolution::Bound(a),
            None => KeyResolution::Unbound,
        },
        Mode::Insert => match insert_binding(key) {
            Some(a) => KeyResolution::Bound(a),
            None => KeyResolution::Unbound,
        },
        Mode::Select(_) => match select_binding(key) {
            Some(a) => KeyResolution::Bound(a),
            None => KeyResolution::Unbound,
        },
        Mode::Command => KeyResolution::NotImplemented,
    }
}

impl KeyMap {
    fn resolve_normal(key: &Key) -> (r: Option<EditorAction>)
        ensures
            r == normal_binding(*key),
    {
        match key {
            Key::Char(c) => {
                if *c == ' ' {
                    Some(EditorAction::EnterMenu)
                } else if *c == 'i' {
                    Some(EditorAction::EnterInsert)
                } else if *c == 'I' {
                    Some(EditorAction::MoveToHomeAndEnterInsert)
                } else if *c == 'S' {
                    Some(EditorAction::ReplaceLine)
                } else if *c == 'h' {
                    Some(EditorAction::MoveCursor(Mode::Normal, RectilinearDirection::Left))
                } else if *c == 'j' {
                    Some(EditorAction::MoveCursor(Mode::Normal, RectilinearDirection::Down))
                } else if *c == 'k' {
                    Some(EditorAction::MoveCursor(Mode::Normal, RectilinearDirection::Up))
                } else if *c == 'l' {
                    Some(EditorAction::MoveCursor(Mode::Normal, RectilinearDirection::Right))
                } else if *c == '$' {
                    Some(EditorAction::EOL)
                } else if *c == '0' {
                    Some(EditorAction::Home)
                } else if *c == 'G' {
                    Some(EditorAction::EndOfBuffer)
                } else if *c == 'a' {
                    Some(EditorAction::Append)
                } else if *c == 'A' {
                    Some(EditorAction::AppendAtEOL)
                } else if *c == 'o' {
                    Some(EditorAction::InsertNewLine(VerticalDirection::Down))
                } else if *c == 'O' {
                    Some(EditorAction::InsertNewLine(VerticalDirection::Up))
                } else if *c == 'x' {
                    Some(EditorAction::RemoveChar(HorizontalDirection::Forward))
                } else if *c == 'X' {
                    Some(EditorAction::RemoveChar(HorizontalDirection::Backward))
                } else if *c == 'v' {
                    Some(EditorAction::EnterSelect)
                } else {
                    None
                }
            },
            Key::Left => Some(EditorAction::MoveCursor(Mode::Normal, RectilinearDirection::Left)),
            Key::Down => Some(EditorAction::MoveCursor(Mode::Normal, RectilinearDirection::Down)),
            Key::Up => Some(EditorAction::MoveCursor(Mode::Normal, RectilinearDirection::Up)),
            Key::Right => Some(
                EditorAction::MoveCursor(Mode::Normal, RectilinearDirection::Right),
            ),
            Key::Tab => Some(EditorAction::CycleTab(HorizontalDirection::Forward)),
            Key::BackTab => Some(EditorAction::CycleTab(HorizontalDirection::Backward)),
            Key::Enter => Some(EditorAction::NextLine),
            Key::Backspace => Some(EditorAction::Back),
            _ => None,
        }
    }

    fn resolve_insert(key: &Key) -> (r: Option<EditorAction>)
        ensures
            r == insert_binding(*key),
    {
        match key {
            Key::Char(c) => Some(EditorAction::InsertChar(*c)),
            Key::Esc => Some(EditorAction::ExitInsert),
            Key::Enter => Some(EditorAction::InsertLineBreak),
            Key::Delete => Some(EditorAction::RemoveChar(HorizontalDirection::Forward)),
            Key::Backspace => Some(EditorAction::RemoveChar(HorizontalDirection::Backward)),
            Key::Left => Some(EditorAction::MoveCursor(Mode::Insert, RectilinearDirection::Left)),
            Key::Right => Some(
                EditorAction::MoveCursor(Mode::Insert, RectilinearDirection::Right),
            ),
            Key::Up => Some(EditorAction::MoveCursor(Mode::Insert, RectilinearDirection::Up)),
            Key::Down => Some(EditorAction::MoveCursor(Mode::Insert, RectilinearDirection::Down)),
            Key::Home => Some(EditorAction::Home),
            Key::End => Some(EditorAction::EOL),
            _ => None,
        }
    }

    fn resolve_select(key: &Key) -> (r: Option<EditorAction>)
        ensures
            r == select_binding(*key),
    {
        match key {
            Key::Char(c) => {
                if *c == 'I' {
                    Some(EditorAction::MoveToHomeAndEnterInsert)
                } else if *c == 'S' {
                    Some(EditorAction::ReplaceLine)
                } else if *c == 'h' {
                    Some(EditorAction::MoveCursor(Mode::Normal, RectilinearDirection::Left))
                } else if *c == 'j' {
                    Some(EditorAction::MoveCursor(Mode::Normal, RectilinearDirection::Down))
                } else if *c == 'k' {
                    Some(EditorAction::MoveCursor(Mode::Normal, RectilinearDirection::Up))
                } else if *c == 'l' {
                    Some(EditorAction::MoveCursor(Mode::Normal, RectilinearDirection::Right))
                } else if *c == '$' {
                    Some(EditorAction::EOL)
                } else if *c == '0' {
                    Some(EditorAction::Home)
                } else if *c == 'G' {
                    Some(EditorAction::EndOfBuffer)
                } else if *c == 'v' {
                    Some(EditorAction::ExitSelect)
                } else {
                    None
                }
            },
            Key::Left => Some(EditorAction::MoveCursor(Mode::Normal, RectilinearDirection::Left)),
            Key::Down => Some(EditorAction::MoveCursor(Mode::Normal, RectilinearDirection::Down)),
            Key::Up => Some(EditorAction::MoveCursor(Mode::Normal, RectilinearDirection::Up)),
            Key::Right => Some(
                EditorAction::MoveCursor(Mode::Normal, RectilinearDirection::Right),
            ),
            Key::Enter => Some(EditorAction::NextLine),
            Key::Backspace => Some(EditorAction::Back),
            Key::Esc => Some(EditorAction::ExitSelect),
            _ => None,
        }
    }

    /// Resolves one key under the current mode. Command mode's parsing is
    /// not implemented: it answers with the distinct not-implemented signal,
    /// never with a silent drop.
    pub fn handle_key(&self, key: &Key, mode: &Mode) -> (r: KeyResolution)
        ensures
            r == handle_key_spec(*key, *mode),
    {
        let resolved = match mode {
            Mode::Normal => Self::resolve_normal(key),
            Mode::Insert => Self::resolve_insert(key),
            Mode::Select(_) => Self::resolve_select(key),
            Mode::Command => {
                return KeyResolution::NotImplemented;
            },
        };
        match resolved {
            Some(a) => KeyResolution::Bound(a),
            None => KeyResolution::Unbound,
        }
    }

    /// While a leader menu is open, all input routes here instead of the
    /// mode dispatcher.
    pub fn handle_menu_input(&self, key: &Key, menu: &SubMenu) -> (r: Option<EditorAction>)
        ensures
            r == (match *menu {
                SubMenu::Root => root_menu_binding(*key),
            }),
    {
        match menu {
            SubMenu::Root => match key {
                Key::Char(c) => {
                    if *c == ' ' {
                        Some(EditorAction::ExitMenu)
                    } else if *c == 'q' {
                        Some(EditorAction::ExitEditor)
                    } else if *c == 'w' {
                        Some(EditorAction::SaveBuffer)
                    } else {
                        None
                    }
                },
                Key::Esc => Some(EditorAction::ExitMenu),
                _ => None,
            },
        }
    }
}

impl Default for KeyMap {
    fn default() -> (r: KeyMap)
        ensures
            r == (KeyMap {  }),
    {
        KeyMap {  }
    }
}

} // verus!
