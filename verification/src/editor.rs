//! The editor: tabs of buffers, the mode state machine, and the action
//! handlers that translate one semantic action into a coordinated buffer and
//! viewport mutation.
//!
//! Every handler is specified by a step function over the current tab's
//! buffer view and window state; `execute_editor_action` is proved to land
//! exactly on it. Writing a buffer to disk and prompting for a name are I/O,
//! so those two outcomes are handed back to the caller as an
//! [`EditorEffect`] instead of being performed here.
use crate::actions::EditorAction;
use crate::buffer::Buffer;
use crate::buffer::BufferPosition;
use crate::buffer::HorizontalDirection;
use crate::buffer::RectilinearDirection;
use crate::buffer::VerticalDirection;
use crate::buffer::insert_char_at;
use crate::buffer::join_lines_at;
use crate::buffer::remove_char_at;
use crate::buffer::split_line_at;
use crate::leader_menu::SubMenu;
use crate::selection::Selection;
use crate::text_window::TextWindowState;
use crate::text_window::advance_spec;
use crate::text_window::jump_past_EOL_spec;
use crate::text_window::jump_spec;
use crate::text_window::jump_to_EOL_spec;
use crate::text_window::jump_to_home_spec;
use crate::text_window::jump_to_last_line_spec;
use crate::text_window::line_len_at;
use crate::text_window::move_cursor_spec;
use crate::text_window::past_EOL_spec;
use crate::text_window::snap_to_EOL_spec;
use crate::ui::Tab;
use crate::ui::TabState;
use vstd::prelude::*;

verus! {

#[derive(Debug, Clone, PartialEq, Eq, Structural)]
pub enum Mode {
    Normal,
    Command,
    Insert,
    Select(Selection),
}

/// What the caller must do after an action: nothing, write the current
/// buffer to its path, or prompt the user to name the buffer first.
#[derive(Debug, Clone, PartialEq, Eq, Structural)]
pub enum EditorEffect {
    Nothing,
    SaveRequested,
    NameNeeded,
}

/// Entering Insert clears the end-of-line tracking flag so it does not leak
/// into insert-mode vertical motion.
pub open spec fn enter_insert_window(w: TextWindowState) -> TextWindowState {
    TextWindowState { stick_to_EOL: false, ..w }
}

/// Leaving Insert clamps the cursor back onto the last character and
/// refreshes the manual column to the post-snap column.
pub open spec fn exit_insert_window(w: TextWindowState, lines: Seq<Seq<char>>) -> TextWindowState {
    let w1 = snap_to_EOL_spec(w, lines);
    TextWindowState { last_manual_col: w1.cursor.col, ..w1 }
}

/// Insert a character at the cursor, then advance the insertion cursor.
pub open spec fn insert_char_step(lines: Seq<Seq<char>>, w: TextWindowState, c: char) -> (Seq<
    Seq<char>,
>, TextWindowState) {
    let l2 = insert_char_at(lines, w.cursor.line as int, w.cursor.col as int, c);
    (l2, advance_spec(w, l2))
}

/// Remove a character in the given direction under the current mode's rules.
/// Normal mode deletes within the line only; Insert mode additionally joins
/// lines at the boundaries (deleting the line break). Whatever happened, the
/// manual column is refreshed from wherever the cursor ended up.
pub open spec fn remove_char_step(
    lines: Seq<Seq<char>>,
    w: TextWindowState,
    mode: Mode,
    dir: HorizontalDirection,
) -> (Seq<Seq<char>>, TextWindowState) {
    let pos = w.cursor;
    let len = line_len_at(lines, pos.line as int);
    let count = lines.len();
    let step: (Seq<Seq<char>>, TextWindowState) = match (mode, dir) {
        (Mode::Normal, HorizontalDirection::Forward) => if pos.col < len {
            let l2 = remove_char_at(lines, pos.line as int, pos.col as int);
            (l2, snap_to_EOL_spec(w, l2))
        } else {
            (lines, w)
        },
        (Mode::Normal, HorizontalDirection::Backward) => if pos.col > 0 && pos.col < len {
            let l2 = remove_char_at(lines, pos.line as int, pos.col - 1);
            (l2, move_cursor_spec(w, l2, Mode::Normal, RectilinearDirection::Left))
        } else {
            (lines, w)
        },
        (Mode::Insert, HorizontalDirection::Forward) => if pos.col < len {
            (remove_char_at(lines, pos.line as int, pos.col as int), w)
        } else if pos.col == len && pos.line + 1 < count {
            (join_lines_at(lines, pos.line as int), w)
        } else {
            (lines, w)
        },
        (Mode::Insert, HorizontalDirection::Backward) => if pos.col > 0 && pos.col <= len {
            let l2 = remove_char_at(lines, pos.line as int, pos.col - 1);
            (l2, move_cursor_spec(w, l2, Mode::Insert, RectilinearDirection::Left))
        } else if pos.col == 0 && pos.line > 0 {
            let w1 = move_cursor_spec(w, lines, Mode::Insert, RectilinearDirection::Up);
            let w2 = jump_past_EOL_spec(w1, lines);
            (join_lines_at(lines, pos.line - 1), w2)
        } else {
            (lines, w)
        },
        _ => (lines, w),
    };
    (step.0, TextWindowState { last_manual_col: step.1.cursor.col, ..step.1 })
}

/// Clear the current line (synthesizing one in an empty buffer), snap the
/// cursor onto it, and enter Insert.
pub open spec fn replace_line_step(lines: Seq<Seq<char>>, w: TextWindowState) -> (Seq<Seq<char>>,
TextWindowState) {
    let w1 = enter_insert_window(w);
    let l2 = if lines.len() == 0 {
        seq![Seq::<char>::empty()]
    } else {
        lines.update(w.cursor.line as int, Seq::<char>::empty())
    };
    (l2, snap_to_EOL_spec(w1, l2))
}

/// Enter Insert just after the current character (or at an empty line's
/// origin): the cursor advances unless it is already past the line's end.
pub open spec fn append_window(w: TextWindowState, lines: Seq<Seq<char>>) -> TextWindowState {
    let w1 = enter_insert_window(w);
    if past_EOL_spec(w1, lines) {
        w1
    } else {
        advance_spec(w1, lines)
    }
}

/// Jump to the line's end and keep tracking ends on later vertical motion;
/// in Insert mode the cursor parks one past the last character.
pub open spec fn sticky_EOL_window(
    w: TextWindowState,
    lines: Seq<Seq<char>>,
    insert: bool,
) -> TextWindowState {
    let w1 = jump_to_EOL_spec(TextWindowState { stick_to_EOL: true, ..w }, lines);
    if insert {
        jump_past_EOL_spec(w1, lines)
    } else {
        w1
    }
}

/// Open an empty line above or below the cursor (two lines in a zero-line
/// buffer), put the cursor at its start, and enter Insert.
pub open spec fn insert_new_line_step(
    lines: Seq<Seq<char>>,
    w: TextWindowState,
    dir: VerticalDirection,
) -> (Seq<Seq<char>>, TextWindowState) {
    let down = dir is Down;
    let line = if down {
        w.cursor.line + 1
    } else {
        w.cursor.line as int
    };
    let l2 = if lines.len() == 0 {
        seq![Seq::<char>::empty(), Seq::<char>::empty()]
    } else {
        lines.insert(line, Seq::<char>::empty())
    };
    let w1 = if down {
        jump_spec(w, l2, BufferPosition { line: line as usize, col: 0 })
    } else {
        jump_to_home_spec(w)
    };
    (l2, enter_insert_window(w1))
}

/// Split the current line at the cursor and land at the start of the newly
/// created next line.
pub open spec fn insert_line_break_step(lines: Seq<Seq<char>>, w: TextWindowState) -> (Seq<
    Seq<char>,
>, TextWindowState) {
    let l2 = split_line_at(lines, w.cursor.line as int, w.cursor.col as int);
    (l2, jump_spec(w, l2, BufferPosition { line: (w.cursor.line + 1) as usize, col: 0 }))
}

/// Jump to the start of the next line, if one exists.
pub open spec fn next_line_window(w: TextWindowState, lines: Seq<Seq<char>>) -> TextWindowState {
    if w.cursor.line + 1 < lines.len() {
        let w1 = jump_spec(w, lines, BufferPosition { line: (w.cursor.line + 1) as usize, col: 0 });
        TextWindowState { stick_to_EOL: false, ..w1 }
    } else {
        w
    }
}

/// One step left, or from column 0 up to the previous line's end.
pub open spec fn back_window(
    w: TextWindowState,
    lines: Seq<Seq<char>>,
    mode: Mode,
) -> TextWindowState {
    if w.cursor.col > 0 {
        move_cursor_spec(w, lines, mode, RectilinearDirection::Left)
    } else if w.cursor.line > 0 {
        jump_to_EOL_spec(move_cursor_spec(w, lines, mode, RectilinearDirection::Up), lines)
    } else {
        w
    }
}

/// While in Select mode the selection's moving endpoint follows the live
/// cursor after every executed action.
pub open spec fn selection_updated(mode: Mode, cursor: BufferPosition) -> Mode {
    match mode {
        Mode::Select(sel) => Mode::Select(
            Selection { fixed_point: sel.fixed_point, moving_point: cursor },
        ),
        _ => mode,
    }
}

pub struct Editor {
    pub active: bool,
    pub current_tab: usize,
    pub mode: Mode,
    pub tabs: Vec<Tab>,
    pub tab_states: Vec<TabState>,
    pub lower_menu: Option<SubMenu>,
}

impl Editor {
    pub open spec fn wf(self) -> bool {
        &&& self.tabs@.len() == self.tab_states@.len()
        &&& self.tab_states@.len() >= 1
        &&& self.current_tab < self.tab_states@.len()
        &&& forall|i: int|
            0 <= i < self.tab_states@.len() ==> (#[trigger] self.tab_states@[i]).wf()
    }

    pub open spec fn cur_ts(self) -> TabState {
        self.tab_states@[self.current_tab as int]
    }

    pub open spec fn cur_lines(self) -> Seq<Seq<char>> {
        self.cur_ts().buffer@
    }

    pub open spec fn cur_win(self) -> TextWindowState {
        self.cur_ts().window_states
    }

    /// Everything a single-tab edit leaves alone: the other tabs, the tab
    /// list, which tab is current, the activity flag, the menu overlay, and
    /// the current buffer's identity (name and path).
    pub open spec fn frame_except_current(a: Editor, b: Editor) -> bool {
        &&& b.active == a.active
        &&& b.lower_menu == a.lower_menu
        &&& b.current_tab == a.current_tab
        &&& b.tabs == a.tabs
        &&& b.tab_states@.len() == a.tab_states@.len()
        &&& forall|j: int|
            0 <= j < a.tab_states@.len() && j != a.current_tab ==> #[trigger] b.tab_states@[j]
                == a.tab_states@[j]
        &&& b.cur_ts().mode == a.cur_ts().mode
        &&& b.cur_ts().buffer.name == a.cur_ts().buffer.name
        &&& b.cur_ts().buffer.path == a.cur_ts().buffer.path
    }

    pub fn new(buffers: Vec<Buffer>) -> (r: Editor)
        requires
            buffers@.len() >= 1,
        ensures
            r.wf(),
            r.active,
            r.current_tab == 0,
            r.mode == Mode::Normal,
            r.lower_menu is None,
            r.tab_states@.len() == buffers@.len(),
            forall|i: int|
                0 <= i < buffers@.len() ==> (#[trigger] r.tab_states@[i]).buffer == buffers@[i]
                    && r.tab_states@[i].window_states
                    == crate::text_window::initial_window_state() && r.tab_states@[i].mode
                    == Mode::Normal,
    {
        let mut buffers = buffers;
        let ghost orig = buffers@;
        let mut tabs: Vec<Tab> = Vec::new();
        let mut tab_states: Vec<TabState> = Vec::new();
        while buffers.len() > 0
            invariant
                tab_states@.len() + buffers@.len() == orig.len(),
                tabs@.len() == tab_states@.len(),
                buffers@ == orig.subrange(tab_states@.len() as int, orig.len() as int),
                forall|i: int|
                    0 <= i < tab_states@.len() ==> (#[trigger] tab_states@[i]).buffer == orig[i]
                        && tab_states@[i].window_states
                        == crate::text_window::initial_window_state() && tab_states@[i].mode
                        == Mode::Normal && tab_states@[i].wf(),
            decreases buffers@.len(),
        {
            let b = buffers.remove(0);
            tabs.push(Tab::new());
            tab_states.push(TabState::new(b, Mode::Normal));
        }
        Editor {
            active: true,
            current_tab: 0,
            mode: Mode::Normal,
            tabs,
            tab_states,
            lower_menu: None,
        }
    }

    pub fn get_mode(&self) -> (r: &Mode)
        ensures
            *r == self.mode,
    {
        &self.mode
    }

    pub fn is_active(&self) -> (r: bool)
        ensures
            r == self.active,
    {
        self.active
    }

    pub fn current_tabstate(&self) -> (r: &TabState)
        requires
            self.wf(),
        ensures
            *r == self.cur_ts(),
    {
        &self.tab_states[self.current_tab]
    }

    pub fn current_buffer(&self) -> (r: &Buffer)
        requires
            self.wf(),
        ensures
            *r == self.cur_ts().buffer,
    {
        &self.tab_states[self.current_tab].buffer
    }

    pub fn current_bufpos(&self) -> (r: BufferPosition)
        requires
            self.wf(),
        ensures
            r == self.cur_win().cursor,
    {
        self.tab_states[self.current_tab].window_states.cursor
    }

    /// Copies the editor's mode down into every tab so their widgets agree
    /// with the dispatcher; done once before every render.
    pub fn propagate_mode(&mut self)
        requires
            old(self).wf(),
        ensures
            final(self).wf(),
            final(self).active == old(self).active,
            final(self).lower_menu == old(self).lower_menu,
            final(self).current_tab == old(self).current_tab,
            final(self).mode == old(self).mode,
            final(self).tabs == old(self).tabs,
            final(self).tab_states@.len() == old(self).tab_states@.len(),
            forall|j: int|
                0 <= j < old(self).tab_states@.len() ==> #[trigger] final(self).tab_states@[j]
                    == (TabState { mode: old(self).mode, ..old(self).tab_states@[j] }),
    {
        let mut i: usize = 0;
        let n = self.tab_states.len();
        while i < n
            invariant
                n == self.tab_states@.len(),
                n == old(self).tab_states@.len(),
                i <= n,
                self.active == old(self).active,
                self.lower_menu == old(self).lower_menu,
                self.current_tab == old(self).current_tab,
                self.mode == old(self).mode,
                self.tabs == old(self).tabs,
                forall|j: int|
                    0 <= j < i ==> #[trigger] self.tab_states@[j] == (TabState {
                        mode: old(self).mode,
                        ..old(self).tab_states@[j]
                    }),
                forall|j: int|
                    i <= j < n ==> #[trigger] self.tab_states@[j] == old(self).tab_states@[j],
            decreases n - i,
        {
            let ghost pre = self.tab_states@;
            let mode = copy_mode(&self.mode);
            let mut ts = self.tab_states.remove(i);
            ts.propagate_mode(mode);
            self.tab_states.insert(i, ts);
            proof {
                lemma_remove_insert(pre, i as int, self.tab_states@[i as int]);
            }
            i = i + 1;
        }
        proof {
            assert forall|j: int|
                0 <= j < old(self).tab_states@.len() implies (#[trigger] self.tab_states@[j]).wf() by {
                assert(old(self).tab_states@[j].wf());
            }
        }
    }
}

/// A handler that only moved the viewport: the current tab's buffer and
/// everything outside the current tab are untouched, and the window landed
/// exactly on `w2`.
pub open spec fn window_step(a: Editor, b: Editor, w2: TextWindowState) -> bool {
    &&& Editor::frame_except_current(a, b)
    &&& b.cur_ts().buffer == a.cur_ts().buffer
    &&& b.cur_ts().window_states == w2
}

/// A handler that edited the current tab's buffer and viewport together:
/// the buffer's lines landed on `l2` and the window on `w2`.
pub open spec fn buffer_step(a: Editor, b: Editor, l2: Seq<Seq<char>>, w2: TextWindowState) -> bool {
    &&& Editor::frame_except_current(a, b)
    &&& b.cur_ts().buffer@ == l2
    &&& b.cur_ts().window_states == w2
}

pub open spec fn cycle_tab_spec(cur: int, n: int, dir: HorizontalDirection) -> int {
    match dir {
        HorizontalDirection::Forward => (cur + 1) % n,
        HorizontalDirection::Backward => if cur == 0 {
            n - 1
        } else {
            cur - 1
        },
    }
}

impl Editor {
    fn detach_current(&mut self) -> (ts: TabState)
        requires
            old(self).wf(),
        ensures
            ts == old(self).cur_ts(),
            final(self).tab_states@ == old(self).tab_states@.remove(
                old(self).current_tab as int,
            ),
            final(self).active == old(self).active,
            final(self).lower_menu == old(self).lower_menu,
            final(self).current_tab == old(self).current_tab,
            final(self).mode == old(self).mode,
            final(self).tabs == old(self).tabs,
    {
        self.tab_states.remove(self.current_tab)
    }

    fn attach_current(&mut self, ts: TabState)
        requires
            old(self).current_tab <= old(self).tab_states@.len(),
        ensures
            final(self).tab_states@ == old(self).tab_states@.insert(
                old(self).current_tab as int,
                ts,
            ),
            final(self).active == old(self).active,
            final(self).lower_menu == old(self).lower_menu,
            final(self).current_tab == old(self).current_tab,
            final(self).mode == old(self).mode,
            final(self).tabs == old(self).tabs,
    {
        self.tab_states.insert(self.current_tab, ts);
    }

    fn enter_menu(&mut self)
        ensures
            *final(self) == (Editor { lower_menu: Some(SubMenu::Root), ..*old(self) }),
    {
        self.lower_menu = Some(SubMenu::Root);
    }

    fn exit_menu(&mut self)
        ensures
            *final(self) == (Editor { lower_menu: None, ..*old(self) }),
    {
        self.lower_menu = None;
    }

    fn enter_insert(&mut self)
        requires
            old(self).wf(),
        ensures
            final(self).wf(),
            window_step(*old(self), *final(self), enter_insert_window(old(self).cur_win())),
            final(self).mode == Mode::Insert,
    {
        let mut ts = self.detach_current();
        ts.window_states.stick_to_EOL = false;
        self.attach_current(ts);
        proof {
            lemma_remove_insert(
                old(self).tab_states@,
                self.current_tab as int,
                self.tab_states@[self.current_tab as int],
            );
        }
        self.mode = Mode::Insert;
    }

    fn exit_insert(&mut self)
        requires
            old(self).wf(),
        ensures
            final(self).wf(),
            window_step(
                *old(self),
                *final(self),
                exit_insert_window(old(self).cur_win(), old(self).cur_lines()),
            ),
            final(self).mode == Mode::Normal,
    {
        self.mode = Mode::Normal;
        let mut ts = self.detach_current();
        ts.window_states.snap_to_EOL(&ts.buffer);
        ts.window_states.last_manual_col = ts.window_states.cursor.col;
        self.attach_current(ts);
        proof {
            lemma_remove_insert(
                old(self).tab_states@,
                self.current_tab as int,
                self.tab_states@[self.current_tab as int],
            );
        }
    }

    fn insert_char(&mut self, c: char)
        requires
            old(self).wf(),
        ensures
            final(self).wf(),
            final(self).mode == old(self).mode,
            buffer_step(
                *old(self),
                *final(self),
                insert_char_step(old(self).cur_lines(), old(self).cur_win(), c).0,
                insert_char_step(old(self).cur_lines(), old(self).cur_win(), c).1,
            ),
    {
        let mut ts = self.detach_current();
        let pos = ts.window_states.cursor;
        ts.buffer.insert_char(c, &pos);
        proof {
            crate::buffer::lemma_line_len_fits(&ts.buffer, pos.line as int);
        }
        ts.window_states.advance_insertion_cursor(&ts.buffer);
        self.attach_current(ts);
        proof {
            lemma_remove_insert(
                old(self).tab_states@,
                self.current_tab as int,
                self.tab_states@[self.current_tab as int],
            );
        }
    }

    #[verifier::rlimit(80)]
    fn remove_char(&mut self, dir: HorizontalDirection)
        requires
            old(self).wf(),
        ensures
            final(self).wf(),
            final(self).mode == old(self).mode,
            buffer_step(
                *old(self),
                *final(self),
                remove_char_step(
                    old(self).cur_lines(),
                    old(self).cur_win(),
                    old(self).mode,
                    dir,
                ).0,
                remove_char_step(
                    old(self).cur_lines(),
                    old(self).cur_win(),
                    old(self).mode,
                    dir,
                ).1,
            ),
    {
        let insert = matches!(self.mode, Mode::Insert);
        let normal = matches!(self.mode, Mode::Normal);
        let mut ts = self.detach_current();
        let pos = ts.window_states.cursor;
        let len = match ts.buffer.line_length(pos.line) {
            Some(l) => l,
            None => 0,
        };
        let count = ts.buffer.lines_count();
        match dir {
            HorizontalDirection::Forward => {
                if normal && pos.col < len {
                    ts.buffer.remove_char(&pos);
                    ts.window_states.snap_to_EOL(&ts.buffer);
                } else if insert && pos.col <= len {
                    if pos.col < len {
                        ts.buffer.remove_char(&pos);
                    } else if pos.line + 1 < count {
                        ts.buffer.join_with_next_line(pos.line);
                    }
                }
            },
            HorizontalDirection::Backward => {
                if normal && pos.col > 0 && pos.col < len {
                    ts.buffer.remove_char(&(BufferPosition { line: pos.line, col: pos.col - 1 }));
                    ts.window_states.move_cursor(
                        &ts.buffer,
                        &Mode::Normal,
                        RectilinearDirection::Left,
                    );
                } else if insert && pos.col <= len {
                    if pos.col > 0 {
                        ts.buffer.remove_char(
                            &(BufferPosition { line: pos.line, col: pos.col - 1 }),
                        );
                        ts.window_states.move_cursor(
                            &ts.buffer,
                            &Mode::Insert,
                            RectilinearDirection::Left,
                        );
                    } else if pos.line > 0 {
                        ts.window_states.move_cursor(
                            &ts.buffer,
                            &Mode::Insert,
                            RectilinearDirection::Up,
                        );
                        ts.window_states.jump_past_EOL(&ts.buffer);
                        ts.buffer.join_with_next_line(pos.line - 1);
                    }
                }
            },
        }
        ts.window_states.last_manual_col = ts.window_states.cursor.col;
        self.attach_current(ts);
        proof {
            lemma_remove_insert(
                old(self).tab_states@,
                self.current_tab as int,
                self.tab_states@[self.current_tab as int],
            );
        }
    }

    fn replace_line(&mut self)
        requires
            old(self).wf(),
        ensures
            final(self).wf(),
            final(self).mode == Mode::Insert,
            buffer_step(
                *old(self),
                *final(self),
                replace_line_step(old(self).cur_lines(), old(self).cur_win()).0,
                replace_line_step(old(self).cur_lines(), old(self).cur_win()).1,
            ),
    {
        self.enter_insert();
        let mut ts = self.detach_current();
        let pos = ts.window_states.cursor;
        ts.buffer.clear_line(&pos);
        ts.window_states.snap_to_EOL(&ts.buffer);
        self.attach_current(ts);
        proof {
            lemma_remove_insert(
                old(self).tab_states@,
                self.current_tab as int,
                self.tab_states@[self.current_tab as int],
            );
        }
    }

    fn append(&mut self)
        requires
            old(self).wf(),
        ensures
            final(self).wf(),
            final(self).mode == Mode::Insert,
            window_step(
                *old(self),
                *final(self),
                append_window(old(self).cur_win(), old(self).cur_lines()),
            ),
    {
        self.enter_insert();
        let mut ts = self.detach_current();
        if !ts.window_states.cursor_past_EOL(&ts.buffer) {
            proof {
                crate::buffer::lemma_line_len_fits(&ts.buffer, ts.window_states.cursor.line as int);
            }
            ts.window_states.advance_insertion_cursor(&ts.buffer);
        }
        self.attach_current(ts);
        proof {
            lemma_remove_insert(
                old(self).tab_states@,
                self.current_tab as int,
                self.tab_states@[self.current_tab as int],
            );
        }
    }

    fn insert_new_line(&mut self, dir: VerticalDirection)
        requires
            old(self).wf(),
        ensures
            final(self).wf(),
            final(self).mode == Mode::Insert,
            buffer_step(
                *old(self),
                *final(self),
                insert_new_line_step(old(self).cur_lines(), old(self).cur_win(), dir).0,
                insert_new_line_step(old(self).cur_lines(), old(self).cur_win(), dir).1,
            ),
    {
        let down = matches!(dir, VerticalDirection::Down);
        let mut ts = self.detach_current();
        proof {
            crate::buffer::lemma_lines_count_fits(&ts.buffer);
        }
        let line = if down {
            ts.window_states.cursor.line + 1
        } else {
            ts.window_states.cursor.line
        };
        if ts.buffer.lines_count() == 0 {
            ts.buffer.add_line(0, Vec::new());
            ts.buffer.add_line(1, Vec::new());
            proof {
                assert(ts.buffer@ =~= seq![Seq::<char>::empty(), Seq::<char>::empty()]);
            }
        } else {
            ts.buffer.add_line(line, Vec::new());
        }
        if down {
            let pos = BufferPosition { line, col: 0 };
            ts.window_states.jump(&ts.buffer, &pos);
        } else {
            ts.window_states.jump_to_home();
        }
        ts.window_states.stick_to_EOL = false;
        self.attach_current(ts);
        proof {
            lemma_remove_insert(
                old(self).tab_states@,
                self.current_tab as int,
                self.tab_states@[self.current_tab as int],
            );
        }
        self.mode = Mode::Insert;
    }

    fn insert_line_break(&mut self)
        requires
            old(self).wf(),
        ensures
            final(self).wf(),
            final(self).mode == old(self).mode,
            buffer_step(
                *old(self),
                *final(self),
                insert_line_break_step(old(self).cur_lines(), old(self).cur_win()).0,
                insert_line_break_step(old(self).cur_lines(), old(self).cur_win()).1,
            ),
    {
        let mut ts = self.detach_current();
        let pos = ts.window_states.cursor;
        proof {
            crate::buffer::lemma_lines_count_fits(&ts.buffer);
        }
        ts.buffer.split_line(&pos);
        let new_pos = BufferPosition { line: pos.line + 1, col: 0 };
        ts.window_states.jump(&ts.buffer, &new_pos);
        self.attach_current(ts);
        proof {
            lemma_remove_insert(
                old(self).tab_states@,
                self.current_tab as int,
                self.tab_states@[self.current_tab as int],
            );
        }
    }

    /// Decides what saving means right now: a named buffer is written to its
    /// path by the caller, an unnamed one must be named first. Either way the
    /// menu overlay closes.
    fn save_current_buffer(&mut self) -> (r: EditorEffect)
        requires
            old(self).wf(),
        ensures
            *final(self) == (Editor { lower_menu: None, ..*old(self) }),
            r == (if old(self).cur_ts().buffer.name is Some {
                EditorEffect::SaveRequested
            } else {
                EditorEffect::NameNeeded
            }),
    {
        let named = self.current_buffer().read_name().is_some();
        let r = if named {
            EditorEffect::SaveRequested
        } else {
            EditorEffect::NameNeeded
        };
        self.lower_menu = None;
        r
    }

    fn exit(&mut self)
        ensures
            *final(self) == (Editor { active: false, ..*old(self) }),
    {
        self.active = false;
    }

    fn cycle_tab(&mut self, dir: HorizontalDirection)
        requires
            old(self).wf(),
        ensures
            final(self).wf(),
            *final(self) == (Editor {
                current_tab: cycle_tab_spec(
                    old(self).current_tab as int,
                    old(self).tabs@.len() as int,
                    dir,
                ) as usize,
                ..*old(self)
            }),
    {
        let n = self.tabs.len();
        self.current_tab = match dir {
            HorizontalDirection::Forward => (self.current_tab + 1) % n,
            HorizontalDirection::Backward => if self.current_tab == 0 {
                n - 1
            } else {
                self.current_tab - 1
            },
        };
    }

    fn move_cursor(&mut self, mode: &Mode, dir: RectilinearDirection)
        requires
            old(self).wf(),
        ensures
            final(self).wf(),
            final(self).mode == old(self).mode,
            window_step(
                *old(self),
                *final(self),
                move_cursor_spec(old(self).cur_win(), old(self).cur_lines(), *mode, dir),
            ),
    {
        let mut ts = self.detach_current();
        ts.window_states.move_cursor(&ts.buffer, mode, dir);
        self.attach_current(ts);
        proof {
            lemma_remove_insert(
                old(self).tab_states@,
                self.current_tab as int,
                self.tab_states@[self.current_tab as int],
            );
        }
    }

    fn jump_to_EOL(&mut self)
        requires
            old(self).wf(),
        ensures
            final(self).wf(),
            final(self).mode == old(self).mode,
            window_step(
                *old(self),
                *final(self),
                jump_to_EOL_spec(old(self).cur_win(), old(self).cur_lines()),
            ),
    {
        let mut ts = self.detach_current();
        ts.window_states.jump_to_EOL(&ts.buffer);
        self.attach_current(ts);
        proof {
            lemma_remove_insert(
                old(self).tab_states@,
                self.current_tab as int,
                self.tab_states@[self.current_tab as int],
            );
        }
    }

    fn sticky_jump_to_EOL(&mut self)
        requires
            old(self).wf(),
        ensures
            final(self).wf(),
            final(self).mode == old(self).mode,
            window_step(
                *old(self),
                *final(self),
                sticky_EOL_window(
                    old(self).cur_win(),
                    old(self).cur_lines(),
                    old(self).mode is Insert,
                ),
            ),
    {
        let insert = matches!(self.mode, Mode::Insert);
        let mut ts = self.detach_current();
        ts.window_states.sticky_jump_to_EOL(&ts.buffer);
        if insert {
            ts.window_states.jump_past_EOL(&ts.buffer);
        }
        self.attach_current(ts);
        proof {
            lemma_remove_insert(
                old(self).tab_states@,
                self.current_tab as int,
                self.tab_states@[self.current_tab as int],
            );
        }
    }

    fn jump_to_home(&mut self)
        requires
            old(self).wf(),
        ensures
            final(self).wf(),
            final(self).mode == old(self).mode,
            window_step(*old(self), *final(self), jump_to_home_spec(old(self).cur_win())),
    {
        let mut ts = self.detach_current();
        ts.window_states.jump_to_home();
        self.attach_current(ts);
        proof {
            lemma_remove_insert(
                old(self).tab_states@,
                self.current_tab as int,
                self.tab_states@[self.current_tab as int],
            );
        }
    }

    fn jump_to_last_line(&mut self)
        requires
            old(self).wf(),
        ensures
            final(self).wf(),
            final(self).mode == old(self).mode,
            window_step(
                *old(self),
                *final(self),
                jump_to_last_line_spec(old(self).cur_win(), old(self).cur_lines()),
            ),
    {
        let mut ts = self.detach_current();
        ts.window_states.jump_to_last_line(&ts.buffer);
        self.attach_current(ts);
        proof {
            lemma_remove_insert(
                old(self).tab_states@,
                self.current_tab as int,
                self.tab_states@[self.current_tab as int],
            );
        }
    }

    fn jump_to_next_line(&mut self)
        requires
            old(self).wf(),
        ensures
            final(self).wf(),
            final(self).mode == old(self).mode,
            window_step(
                *old(self),
                *final(self),
                next_line_window(old(self).cur_win(), old(self).cur_lines()),
            ),
    {
        let mut ts = self.detach_current();
        proof {
            crate::buffer::lemma_lines_count_fits(&ts.buffer);
        }
        let line = ts.window_states.cursor.line + 1;
        if line < ts.buffer.lines_count() {
            let pos = BufferPosition { line, col: 0 };
            ts.window_states.jump(&ts.buffer, &pos);
            ts.window_states.stick_to_EOL = false;
        }
        self.attach_current(ts);
        proof {
            lemma_remove_insert(
                old(self).tab_states@,
                self.current_tab as int,
                self.tab_states@[self.current_tab as int],
            );
        }
    }

    fn back(&mut self)
        requires
            old(self).wf(),
        ensures
            final(self).wf(),
            final(self).mode == old(self).mode,
            window_step(
                *old(self),
                *final(self),
                back_window(old(self).cur_win(), old(self).cur_lines(), old(self).mode),
            ),
    {
        let mode = copy_mode(&self.mode);
        let mut ts = self.detach_current();
        if ts.window_states.cursor.col > 0 {
            ts.window_states.move_cursor(&ts.buffer, &mode, RectilinearDirection::Left);
        } else if ts.window_states.cursor.line > 0 {
            ts.window_states.move_cursor(&ts.buffer, &mode, RectilinearDirection::Up);
            ts.window_states.jump_to_EOL(&ts.buffer);
        }
        self.attach_current(ts);
        proof {
            lemma_remove_insert(
                old(self).tab_states@,
                self.current_tab as int,
                self.tab_states@[self.current_tab as int],
            );
        }
    }

    fn enter_select(&mut self)
        requires
            old(self).wf(),
        ensures
            *final(self) == (Editor {
                mode: Mode::Select(
                    Selection {
                        fixed_point: old(self).cur_win().cursor,
                        moving_point: old(self).cur_win().cursor,
                    },
                ),
                ..*old(self)
            }),
    {
        let pos = self.current_bufpos();
        self.mode = Mode::Select(Selection::from_single(&pos));
    }

    fn exit_select(&mut self)
        ensures
            *final(self) == (Editor { mode: Mode::Normal, ..*old(self) }),
    {
        self.mode = Mode::Normal;
    }

    /// While in Select mode, keeps the selection's moving endpoint equal to
    /// the live cursor.
    pub fn update_selection(&mut self)
        requires
            old(self).wf(),
        ensures
            *final(self) == (Editor {
                mode: selection_updated(old(self).mode, old(self).cur_win().cursor),
                ..*old(self)
            }),
    {
        let pos = self.current_bufpos();
        match &self.mode {
            Mode::Select(sel) => {
                let fixed = sel.fixed_point;
                self.mode = Mode::Select(Selection { fixed_point: fixed, moving_point: pos });
            },
            _ => {},
        }
    }
}

/// The selection follow-up applied after every action: in Select mode the
/// moving endpoint lands on the (possibly moved) cursor.
pub open spec fn post_mode(m: Mode, w: TextWindowState) -> Mode {
    selection_updated(m, w.cursor)
}

/// The full contract of `execute_editor_action`: how the editor after the
/// action (`b`) relates to the editor before it (`a`), per action.
pub open spec fn execute_post(a: Editor, b: Editor, action: EditorAction) -> bool {
    match action {
        EditorAction::Append => window_step(a, b, append_window(a.cur_win(), a.cur_lines()))
            && b.mode == post_mode(Mode::Insert, b.cur_win()),
        EditorAction::AppendAtEOL => {
            let w1 = sticky_EOL_window(a.cur_win(), a.cur_lines(), a.mode is Insert);
            window_step(a, b, append_window(w1, a.cur_lines())) && b.mode == post_mode(
                Mode::Insert,
                b.cur_win(),
            )
        },
        EditorAction::Back => window_step(
            a,
            b,
            back_window(a.cur_win(), a.cur_lines(), a.mode),
        ) && b.mode == post_mode(a.mode, b.cur_win()),
        EditorAction::CycleTab(dir) => {
            let c2 = cycle_tab_spec(a.current_tab as int, a.tabs@.len() as int, dir);
            b == (Editor {
                current_tab: c2 as usize,
                mode: selection_updated(a.mode, a.tab_states@[c2].window_states.cursor),
                ..a
            })
        },
        EditorAction::EndOfBuffer => window_step(
            a,
            b,
            jump_to_last_line_spec(a.cur_win(), a.cur_lines()),
        ) && b.mode == post_mode(a.mode, b.cur_win()),
        EditorAction::EnterInsert => window_step(a, b, enter_insert_window(a.cur_win()))
            && b.mode == post_mode(Mode::Insert, b.cur_win()),
        EditorAction::EnterMenu => b == (Editor {
            lower_menu: Some(SubMenu::Root),
            mode: post_mode(a.mode, a.cur_win()),
            ..a
        }),
        EditorAction::EnterSelect => b == (Editor {
            mode: Mode::Select(
                Selection {
                    fixed_point: a.cur_win().cursor,
                    moving_point: a.cur_win().cursor,
                },
            ),
            ..a
        }),
        EditorAction::EOL => window_step(
            a,
            b,
            sticky_EOL_window(a.cur_win(), a.cur_lines(), a.mode is Insert),
        ) && b.mode == post_mode(a.mode, b.cur_win()),
        EditorAction::ExitEditor => b == (Editor {
            active: false,
            mode: post_mode(a.mode, a.cur_win()),
            ..a
        }),
        EditorAction::ExitInsert => window_step(
            a,
            b,
            exit_insert_window(a.cur_win(), a.cur_lines()),
        ) && b.mode == Mode::Normal,
        EditorAction::ExitMenu => b == (Editor {
            lower_menu: None,
            mode: post_mode(a.mode, a.cur_win()),
            ..a
        }),
        EditorAction::ExitSelect => b == (Editor { mode: Mode::Normal, ..a }),
        EditorAction::Home => window_step(a, b, jump_to_home_spec(a.cur_win())) && b.mode
            == post_mode(a.mode, b.cur_win()),
        EditorAction::InsertChar(c) => {
            let step = insert_char_step(a.cur_lines(), a.cur_win(), c);
            buffer_step(a, b, step.0, step.1) && b.mode == post_mode(a.mode, b.cur_win())
        },
        EditorAction::InsertLineBreak => {
            let step = insert_line_break_step(a.cur_lines(), a.cur_win());
            buffer_step(a, b, step.0, step.1) && b.mode == post_mode(a.mode, b.cur_win())
        },
        EditorAction::InsertNewLine(dir) => {
            let step = insert_new_line_step(a.cur_lines(), a.cur_win(), dir);
            buffer_step(a, b, step.0, step.1) && b.mode == post_mode(Mode::Insert, b.cur_win())
        },
        EditorAction::MoveCursor(m, dir) => window_step(
            a,
            b,
            move_cursor_spec(a.cur_win(), a.cur_lines(), m, dir),
        ) && b.mode == post_mode(a.mode, b.cur_win()),
        EditorAction::MoveToHomeAndEnterInsert => window_step(
            a,
            b,
            enter_insert_window(jump_to_home_spec(a.cur_win())),
        ) && b.mode == post_mode(Mode::Insert, b.cur_win()),
        EditorAction::NextLine => window_step(
            a,
            b,
            next_line_window(a.cur_win(), a.cur_lines()),
        ) && b.mode == post_mode(a.mode, b.cur_win()),
        EditorAction::RemoveChar(dir) => {
            let step = remove_char_step(a.cur_lines(), a.cur_win(), a.mode, dir);
            buffer_step(a, b, step.0, step.1) && b.mode == post_mode(a.mode, b.cur_win())
        },
        EditorAction::ReplaceLine => {
            let step = replace_line_step(a.cur_lines(), a.cur_win());
            buffer_step(a, b, step.0, step.1) && b.mode == post_mode(Mode::Insert, b.cur_win())
        },
        EditorAction::SaveBuffer => b == (Editor {
            lower_menu: None,
            mode: post_mode(a.mode, a.cur_win()),
            ..a
        }),
    }
}

/// Which follow-up the caller owes for an action: only a save request asks
/// for anything.
pub open spec fn execute_effect(a: Editor, action: EditorAction) -> EditorEffect {
    match action {
        EditorAction::SaveBuffer => if a.cur_ts().buffer.name is Some {
            EditorEffect::SaveRequested
        } else {
            EditorEffect::NameNeeded
        },
        _ => EditorEffect::Nothing,
    }
}

impl Editor {
    /// The single entry point of the action layer: applies one fully
    /// resolved semantic action to the current buffer, viewport and mode,
    /// and reports what I/O follow-up, if any, the caller owes.
    pub fn execute_editor_action(&mut self, action: EditorAction) -> (r: EditorEffect)
        requires
            old(self).wf(),
        ensures
            final(self).wf(),
            execute_post(*old(self), *final(self), action),
            r == execute_effect(*old(self), action),
    {
        let mut effect = EditorEffect::Nothing;
        match action {
            EditorAction::Append => self.append(),
            EditorAction::AppendAtEOL => {
                self.sticky_jump_to_EOL();
                self.append();
            },
            EditorAction::Back => self.back(),
            EditorAction::CycleTab(dir) => {
                self.cycle_tab(dir);
                proof {
                    vstd::std_specs::vec::axiom_spec_len(&self.tabs);
                    let n = old(self).tabs@.len() as int;
                    let c2 = cycle_tab_spec(old(self).current_tab as int, n, dir);
                    assert(0 <= c2 < n);
                }
            },
            EditorAction::EndOfBuffer => self.jump_to_last_line(),
            EditorAction::EnterInsert => self.enter_insert(),
            EditorAction::EnterMenu => self.enter_menu(),
            EditorAction::EnterSelect => self.enter_select(),
            EditorAction::EOL => self.sticky_jump_to_EOL(),
            EditorAction::ExitEditor => self.exit(),
            EditorAction::ExitInsert => self.exit_insert(),
            EditorAction::ExitMenu => self.exit_menu(),
            EditorAction::ExitSelect => self.exit_select(),
            EditorAction::Home => self.jump_to_home(),
            EditorAction::InsertChar(c) => self.insert_char(c),
            EditorAction::InsertLineBreak => self.insert_line_break(),
            EditorAction::InsertNewLine(dir) => self.insert_new_line(dir),
            EditorAction::MoveCursor(m, dir) => self.move_cursor(&m, dir),
            EditorAction::MoveToHomeAndEnterInsert => {
                self.jump_to_home();
                self.enter_insert();
            },
            EditorAction::NextLine => self.jump_to_next_line(),
            EditorAction::RemoveChar(dir) => self.remove_char(dir),
            EditorAction::ReplaceLine => self.replace_line(),
            EditorAction::SaveBuffer => {
                effect = self.save_current_buffer();
            },
        }
        self.update_selection();
        effect
    }
}

/// Rebuilds the mode value so verified code learns the copy equals the
/// original (a derived `Clone` carries no such guarantee).
fn copy_mode(m: &Mode) -> (r: Mode)
    ensures
        r == *m,
{
    match m {
        Mode::Normal => Mode::Normal,
        Mode::Command => Mode::Command,
        Mode::Insert => Mode::Insert,
        Mode::Select(sel) => Mode::Select(
            Selection { fixed_point: sel.fixed_point, moving_point: sel.moving_point },
        ),
    }
}

proof fn lemma_remove_insert<A>(s: Seq<A>, i: int, x: A)
    requires
        0 <= i < s.len(),
    ensures
        s.remove(i).insert(i, x) == s.update(i, x),
{
    assert(s.remove(i).insert(i, x) =~= s.update(i, x));
}

} // verus!
