//! The semantic actions of the editor. A keymap collaborator resolves raw
//! key events to these; the editor executes them against one buffer and its
//! viewport.
use crate::buffer::HorizontalDirection;
use crate::buffer::RectilinearDirection;
use crate::buffer::VerticalDirection;
use crate::editor::Mode;
use vstd::prelude::*;

verus! {

#[derive(Debug, Clone, PartialEq, Eq, Structural)]
pub enum EditorAction {
    Append,
    AppendAtEOL,
    Back,
    CycleTab(HorizontalDirection),
    EndOfBuffer,
    EnterInsert,
    EnterMenu,
    EnterSelect,
    EOL,
    ExitEditor,
    ExitInsert,
    ExitMenu,
    ExitSelect,
    Home,
    InsertChar(char),
    InsertLineBreak,
    InsertNewLine(VerticalDirection),
    MoveCursor(Mode, RectilinearDirection),
    MoveToHomeAndEnterInsert,
    NextLine,
    RemoveChar(HorizontalDirection),
    ReplaceLine,
    SaveBuffer,
}

} // verus!
