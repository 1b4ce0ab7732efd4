//! A modal, terminal-resident text editor core: a line buffer, a
//! cursor/viewport engine with sticky-column memory, and a mode state
//! machine driving mode-aware motions and edits.
#![allow(non_snake_case)]

pub mod actions;
pub mod buffer;
pub mod config;
pub mod editor;
pub mod keymap;
pub mod leader_menu;
pub mod line_numbers;
pub mod selection;
pub mod text_window;
pub mod ui;

pub use actions::EditorAction;
pub use buffer::Buffer;
pub use buffer::BufferPosition;
pub use buffer::HorizontalDirection;
pub use buffer::RectilinearDirection;
pub use buffer::VerticalDirection;
pub use editor::Editor;
pub use editor::EditorEffect;
pub use editor::Mode;
pub use keymap::Key;
pub use keymap::KeyMap;
pub use selection::Selection;
pub use text_window::TextWindowState;
