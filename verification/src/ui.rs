//! One tab per open buffer: the buffer itself, the viewport state that
//! tracks it, and the tab's copy of the editor mode for its widgets.
use crate::buffer::Buffer;
use crate::editor::Mode;
use crate::text_window::TextWindowState;
use vstd::prelude::*;

verus! {

#[derive(Debug, Clone)]
pub struct Tab {}

pub struct TabState {
    pub window_states: TextWindowState,
    pub buffer: Buffer,
    pub mode: Mode,
}

impl Tab {
    pub fn new() -> (r: Tab) {
        Tab {  }
    }
}

impl TabState {
    /// The viewport is well-formed and its cursor addresses a real slot of
    /// this tab's buffer.
    pub open spec fn wf(self) -> bool {
        &&& self.window_states.wf()
        &&& self.window_states.cursor_in_buffer(self.buffer@)
    }

    pub fn new(buf: Buffer, mode: Mode) -> (r: TabState)
        ensures
            r.buffer == buf,
            r.mode == mode,
            r.window_states == crate::text_window::initial_window_state(),
            r.wf(),
    {
        TabState { window_states: TextWindowState::new(), buffer: buf, mode }
    }

    pub fn get_cursor_pos(&self) -> (r: (u16, u16))
        requires
            self.window_states.wf(),
        ensures
            r == crate::text_window::cursor_screen_pos_spec(self.window_states, self.buffer@),
    {
        self.window_states.get_cursor_pos(&self.buffer)
    }

    /// The mode lives on the editor; every render copies it down so the
    /// tab's widgets agree with the dispatcher.
    pub fn propagate_mode(&mut self, mode: Mode)
        ensures
            *final(self) == (TabState { mode, ..*old(self) }),
    {
        self.mode = mode;
    }
}

} // verus!
