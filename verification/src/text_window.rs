//! The cursor/viewport engine: scroll origin, last rendered size, the cursor,
//! and the two pieces of motion memory (`last_manual_col`, `stick_to_EOL`)
//! that make vertical motion and mode transitions behave predictably.
//!
//! Each mutation is specified by a spec-level transition function over the
//! buffer's view; the executable method is proved to land exactly on it.
use crate::buffer::Buffer;
use crate::buffer::BufferPosition;
use crate::buffer::RectilinearDirection;
use crate::editor::Mode;
use vstd::prelude::*;

verus! {

/// The cursor's relative row within the viewport as an exact fraction of the
/// height: `num` rows down out of `den` (the height minus one). Kept exact so
/// that "the cursor sits on the bottom edge" is the crisp test `num == den`.
#[derive(Debug, Clone, Copy, PartialEq, Eq, Structural)]
pub struct VerticalRatio {
    pub num: usize,
    pub den: usize,
}

impl VerticalRatio {
    /// The fraction is exactly one: the cursor sits on the bottom edge.
    /// A zero denominator (a one-row viewport) never counts as one.
    pub open spec fn spec_is_one(self) -> bool {
        self.den != 0 && self.num == self.den
    }

    pub fn is_one(&self) -> (r: bool)
        ensures
            r == self.spec_is_one(),
    {
        self.den != 0 && self.num == self.den
    }

    pub open spec fn spec_zero() -> VerticalRatio {
        VerticalRatio { num: 0, den: 1 }
    }

    pub fn zero() -> (r: VerticalRatio)
        ensures
            r == VerticalRatio::spec_zero(),
    {
        VerticalRatio { num: 0, den: 1 }
    }
}

/// The rectangle of buffer coordinates the last render made visible.
#[derive(Debug, Clone, PartialEq, Eq, Structural)]
pub struct ScreenBounds {
    pub top_line: usize,
    pub bottom_line: usize,
    pub leftmost_col: usize,
    pub rightmost_col: usize,
}

#[derive(Debug, Clone, PartialEq, Eq, Structural)]
pub struct TextWindowState {
    pub top_line: usize,
    pub leftmost_col: usize,
    pub last_height: usize,
    pub last_width: usize,
    pub cur_vertical_percent: VerticalRatio,
    pub cursor: BufferPosition,
    pub last_manual_col: usize,
    pub stick_to_EOL: bool,
}

/// The length of line `i`, with any out-of-range line counting as length 0
/// for motion math.
pub open spec fn line_len_at(lines: Seq<Seq<char>>, i: int) -> nat {
    if 0 <= i < lines.len() {
        lines[i].len()
    } else {
        0
    }
}

pub open spec fn ratio_at(rel: int, height: int) -> VerticalRatio {
    VerticalRatio { num: rel as usize, den: (height - 1) as usize }
}

/// Cursor and scroll origin home: column 0, no remembered column, no
/// end-of-line tracking.
pub open spec fn jump_to_home_spec(s: TextWindowState) -> TextWindowState {
    TextWindowState {
        cursor: BufferPosition { line: s.cursor.line, col: 0 },
        leftmost_col: 0,
        last_manual_col: 0,
        stick_to_EOL: false,
        ..s
    }
}

/// Cursor to the last character of the current line (column 0 when the line
/// is empty), re-anchoring the horizontal scroll so the cursor stays visible,
/// at the right edge when the line is wider than the viewport.
pub open spec fn jump_to_EOL_spec(s: TextWindowState, lines: Seq<Seq<char>>) -> TextWindowState {
    if lines.len() == 0 {
        jump_to_home_spec(s)
    } else {
        let len = line_len_at(lines, s.cursor.line as int);
        if len == 0 {
            TextWindowState {
                cursor: BufferPosition { line: s.cursor.line, col: 0 },
                leftmost_col: 0,
                ..s
            }
        } else {
            let col = (len - 1) as usize;
            let to_the_right = col >= s.leftmost_col + s.last_width;
            let out_of_bounds = to_the_right || col < s.leftmost_col;
            let lm = if !out_of_bounds {
                s.leftmost_col
            } else if to_the_right || col >= s.last_width {
                (col + 1 - s.last_width) as usize
            } else {
                0
            };
            TextWindowState {
                cursor: BufferPosition { line: s.cursor.line, col },
                leftmost_col: lm,
                ..s
            }
        }
    }
}

/// The cursor sits at or past the last character of its line (always true in
/// an empty buffer).
pub open spec fn past_EOL_spec(s: TextWindowState, lines: Seq<Seq<char>>) -> bool {
    lines.len() == 0 || s.cursor.col >= line_len_at(lines, s.cursor.line as int)
}

/// One column to the right, remembered as the new manual column, scrolling
/// by one if the cursor would leave the visible width. Used after every
/// character insertion.
pub open spec fn advance_spec(s: TextWindowState, lines: Seq<Seq<char>>) -> TextWindowState {
    if lines.len() == 0 {
        s
    } else {
        let col = (s.cursor.col + 1) as usize;
        TextWindowState {
            cursor: BufferPosition { line: s.cursor.line, col },
            last_manual_col: col,
            leftmost_col: if col >= s.leftmost_col + s.last_width {
                (s.leftmost_col + 1) as usize
            } else {
                s.leftmost_col
            },
            ..s
        }
    }
}

/// The space immediately after the last character of the line: where Insert
/// mode parks the cursor at end-of-line.
pub open spec fn jump_past_EOL_spec(s: TextWindowState, lines: Seq<Seq<char>>) -> TextWindowState {
    let t = jump_to_EOL_spec(s, lines);
    if !past_EOL_spec(t, lines) {
        advance_spec(t, lines)
    } else {
        t
    }
}

/// Pulls a cursor left onto the line when an edit shortened the line out
/// from under it; otherwise leaves everything alone.
pub open spec fn snap_to_EOL_spec(s: TextWindowState, lines: Seq<Seq<char>>) -> TextWindowState {
    if lines.len() == 0 {
        TextWindowState {
            cursor: BufferPosition { line: s.cursor.line, col: 0 },
            leftmost_col: 0,
            ..s
        }
    } else if s.cursor.col >= line_len_at(lines, s.cursor.line as int) {
        jump_to_EOL_spec(s, lines)
    } else {
        s
    }
}

pub open spec fn is_on_screen_spec(s: TextWindowState, pos: BufferPosition) -> bool {
    &&& s.top_line <= pos.line < s.top_line + s.last_height
    &&& s.leftmost_col <= pos.col < s.leftmost_col + s.last_width
}

/// Non-incremental cursor relocation. Within the visible rectangle only the
/// cursor and its relative-row fraction move; a vertically out-of-view target
/// re-anchors `top_line` so the target sits `min(height/2, line)` rows from
/// the top, and a horizontally out-of-view one re-anchors `leftmost_col` so
/// the target sits about three quarters of the way across the width. The
/// manual column is remembered either way.
pub open spec fn jump_spec(
    s: TextWindowState,
    lines: Seq<Seq<char>>,
    pos: BufferPosition,
) -> TextWindowState {
    if is_on_screen_spec(s, pos) {
        TextWindowState {
            cursor: pos,
            cur_vertical_percent: ratio_at(pos.line - s.top_line, s.last_height as int),
            last_manual_col: pos.col,
            ..s
        }
    } else {
        let vert_out = pos.line < s.top_line || pos.line >= s.top_line + s.last_height;
        let s1 = if lines.len() > 0 && vert_out {
            let clamped = if pos.line >= lines.len() {
                lines.len() - 1
            } else {
                pos.line as int
            };
            let rel = if s.last_height as int / 2 <= clamped {
                s.last_height as int / 2
            } else {
                clamped
            };
            TextWindowState {
                top_line: (clamped - rel) as usize,
                cur_vertical_percent: ratio_at(rel, s.last_height as int),
                ..s
            }
        } else {
            s
        };
        let hor_out = pos.col < s.leftmost_col || pos.col >= s.leftmost_col + s.last_width;
        let s2 = if hor_out {
            let rel_col = if s.last_width as int * 3 / 4 <= pos.col {
                s.last_width as int * 3 / 4
            } else {
                pos.col as int
            };
            TextWindowState { leftmost_col: (pos.col - rel_col) as usize, ..s1 }
        } else {
            s1
        };
        TextWindowState { cursor: pos, last_manual_col: pos.col, ..s2 }
    }
}

/// Cursor to the last line, with the last line as the bottom visible row (or
/// the whole buffer visible when it is shorter than the viewport), snapped
/// onto the line's end if the old column overshoots it.
pub open spec fn jump_to_last_line_spec(
    s: TextWindowState,
    lines: Seq<Seq<char>>,
) -> TextWindowState {
    let line = if lines.len() > 0 {
        (lines.len() - 1) as usize
    } else {
        0
    };
    let top = if line >= s.last_height {
        (line - s.last_height + 1) as usize
    } else {
        0
    };
    let s1 = TextWindowState {
        top_line: top,
        cursor: BufferPosition { line, col: s.cursor.col },
        cur_vertical_percent: ratio_at(line - top, s.last_height as int),
        ..s
    };
    let s2 = snap_to_EOL_spec(s1, lines);
    TextWindowState { last_manual_col: s2.cursor.col, ..s2 }
}

/// The shared second phase of a vertical motion: the line has changed, now
/// re-derive the column from the remembered intent against the new line's
/// geometry. Too-short lines (or an active end-of-line tracking flag) snap to
/// the end of the line — one past it in Insert mode, preserving the manual
/// column across the snap — and otherwise the manual column is restored,
/// clamped onto the line.
pub open spec fn resolve_column_spec(
    s: TextWindowState,
    lines: Seq<Seq<char>>,
    insert: bool,
) -> TextWindowState {
    let len = line_len_at(lines, s.cursor.line as int);
    if s.cursor.col >= len || s.stick_to_EOL {
        let t = jump_to_EOL_spec(s, lines);
        if insert {
            TextWindowState { last_manual_col: s.last_manual_col, ..jump_past_EOL_spec(t, lines) }
        } else {
            t
        }
    } else if insert && s.last_manual_col >= len {
        TextWindowState { last_manual_col: s.last_manual_col, ..jump_past_EOL_spec(s, lines) }
    } else {
        let target = if s.last_manual_col as int <= len - 1 {
            s.last_manual_col as int
        } else {
            len - 1
        };
        jump_spec(s, lines, BufferPosition { line: s.cursor.line, col: target as usize })
    }
}

pub open spec fn move_up_spec(
    s: TextWindowState,
    lines: Seq<Seq<char>>,
    insert: bool,
) -> TextWindowState {
    if s.cursor.line == 0 {
        s
    } else {
        let line = (s.cursor.line - 1) as usize;
        let s1 = if line < s.top_line {
            TextWindowState {
                cursor: BufferPosition { line, col: s.cursor.col },
                cur_vertical_percent: VerticalRatio::spec_zero(),
                top_line: line,
                ..s
            }
        } else {
            TextWindowState {
                cursor: BufferPosition { line, col: s.cursor.col },
                cur_vertical_percent: ratio_at(line - s.top_line, s.last_height as int),
                ..s
            }
        };
        resolve_column_spec(s1, lines, insert)
    }
}

pub open spec fn move_down_spec(
    s: TextWindowState,
    lines: Seq<Seq<char>>,
    insert: bool,
) -> TextWindowState {
    if s.cursor.line + 1 >= lines.len() {
        s
    } else {
        let line = (s.cursor.line + 1) as usize;
        let s1 = if s.cur_vertical_percent.spec_is_one() {
            TextWindowState {
                cursor: BufferPosition { line, col: s.cursor.col },
                top_line: (s.top_line + 1) as usize,
                ..s
            }
        } else {
            TextWindowState {
                cursor: BufferPosition { line, col: s.cursor.col },
                cur_vertical_percent: ratio_at(line - s.top_line, s.last_height as int),
                ..s
            }
        };
        resolve_column_spec(s1, lines, insert)
    }
}

pub open spec fn move_right_normal_spec(
    s: TextWindowState,
    lines: Seq<Seq<char>>,
) -> TextWindowState {
    if lines.len() == 0 {
        s
    } else {
        let len = line_len_at(lines, s.cursor.line as int);
        if s.cursor.col + 1 >= len {
            s
        } else {
            let col = (s.cursor.col + 1) as usize;
            TextWindowState {
                stick_to_EOL: false,
                cursor: BufferPosition { line: s.cursor.line, col },
                last_manual_col: col,
                leftmost_col: if col >= s.leftmost_col + s.last_width {
                    (s.leftmost_col + 1) as usize
                } else {
                    s.leftmost_col
                },
                ..s
            }
        }
    }
}

pub open spec fn move_right_insert_spec(
    s: TextWindowState,
    lines: Seq<Seq<char>>,
) -> TextWindowState {
    if lines.len() == 0 {
        s
    } else if past_EOL_spec(s, lines) {
        if s.cursor.line == lines.len() - 1 {
            s
        } else {
            jump_spec(
                TextWindowState { stick_to_EOL: false, ..s },
                lines,
                BufferPosition { line: (s.cursor.line + 1) as usize, col: 0 },
            )
        }
    } else {
        let col = (s.cursor.col + 1) as usize;
        TextWindowState {
            stick_to_EOL: false,
            cursor: BufferPosition { line: s.cursor.line, col },
            last_manual_col: col,
            leftmost_col: if col >= s.leftmost_col + s.last_width {
                (s.leftmost_col + 1) as usize
            } else {
                s.leftmost_col
            },
            ..s
        }
    }
}

pub open spec fn move_left_normal_spec(s: TextWindowState) -> TextWindowState {
    if s.cursor.col == 0 {
        s
    } else {
        let col = (s.cursor.col - 1) as usize;
        TextWindowState {
            stick_to_EOL: false,
            cursor: BufferPosition { line: s.cursor.line, col },
            last_manual_col: col,
            leftmost_col: if col < s.leftmost_col {
                col
            } else {
                s.leftmost_col
            },
            ..s
        }
    }
}

pub open spec fn move_left_insert_spec(
    s: TextWindowState,
    lines: Seq<Seq<char>>,
) -> TextWindowState {
    if lines.len() == 0 {
        s
    } else if s.cursor.col == 0 {
        if s.cursor.line == 0 {
            s
        } else {
            let prev_len = line_len_at(lines, s.cursor.line - 1);
            let t = jump_spec(
                TextWindowState { stick_to_EOL: false, ..s },
                lines,
                BufferPosition { line: (s.cursor.line - 1) as usize, col: prev_len as usize },
            );
            let u = jump_past_EOL_spec(t, lines);
            TextWindowState { last_manual_col: u.cursor.col, ..u }
        }
    } else {
        let col = (s.cursor.col - 1) as usize;
        TextWindowState {
            stick_to_EOL: false,
            cursor: BufferPosition { line: s.cursor.line, col },
            last_manual_col: col,
            leftmost_col: if col < s.leftmost_col {
                col
            } else {
                s.leftmost_col
            },
            ..s
        }
    }
}

/// One rectilinear motion under the given mode's boundary rules; Command and
/// Select gate all motions off (Select motion is driven with Normal rules by
/// the key bindings).
pub open spec fn move_cursor_spec(
    s: TextWindowState,
    lines: Seq<Seq<char>>,
    mode: Mode,
    dir: RectilinearDirection,
) -> TextWindowState {
    match (mode, dir) {
        (Mode::Normal, RectilinearDirection::Up) => move_up_spec(s, lines, false),
        (Mode::Insert, RectilinearDirection::Up) => move_up_spec(s, lines, true),
        (Mode::Normal, RectilinearDirection::Down) => move_down_spec(s, lines, false),
        (Mode::Insert, RectilinearDirection::Down) => move_down_spec(s, lines, true),
        (Mode::Normal, RectilinearDirection::Right) => move_right_normal_spec(s, lines),
        (Mode::Insert, RectilinearDirection::Right) => move_right_insert_spec(s, lines),
        (Mode::Normal, RectilinearDirection::Left) => move_left_normal_spec(s),
        (Mode::Insert, RectilinearDirection::Left) => move_left_insert_spec(s, lines),
        (Mode::Command, _) => s,
        (Mode::Select(_), _) => s,
    }
}

/// A fresh viewport: origin scroll, a placeholder two-by-two size until the
/// first render reports real dimensions, cursor at the origin, no memory.
pub open spec fn initial_window_state() -> TextWindowState {
    TextWindowState {
        top_line: 0,
        leftmost_col: 0,
        last_height: 2,
        last_width: 2,
        cur_vertical_percent: VerticalRatio::spec_zero(),
        cursor: BufferPosition { line: 0, col: 0 },
        last_manual_col: 0,
        stick_to_EOL: false,
    }
}

/// How many decimal digits the number prints with.
pub open spec fn decimal_digits(n: nat) -> nat
    decreases n,
{
    if n < 10 {
        1
    } else {
        (1 + decimal_digits(n / 10)) as nat
    }
}

pub open spec fn pow10(d: nat) -> nat
    decreases d,
{
    if d == 0 {
        1
    } else {
        10 * pow10((d - 1) as nat)
    }
}

proof fn lemma_decimal_digits_pos(n: nat)
    ensures
        decimal_digits(n) >= 1,
{
}

proof fn lemma_digits_lt_pow(n: nat, d: nat)
    requires
        d >= 1,
        n < pow10(d),
    ensures
        decimal_digits(n) <= d,
    decreases d,
{
    if n >= 10 {
        assert(pow10(d) == 10 * pow10((d - 1) as nat));
        if d == 1 {
            assert(pow10(1nat) == 10);
        } else {
            assert(n / 10 < pow10((d - 1) as nat));
            lemma_digits_lt_pow(n / 10, (d - 1) as nat);
        }
    }
}

/// How many decimal digits the number prints with: the width of one line
/// number in the gutter.
pub fn digit_count(n: usize) -> (r: usize)
    ensures
        r == decimal_digits(n as nat),
        r <= 20,
{
    proof {
        reveal_with_fuel(pow10, 21);
        assert(pow10(20nat) == 100000000000000000000);
        lemma_digits_lt_pow(n as nat, 20);
    }
    let mut r: usize = 1;
    let mut rest = n;
    while rest >= 10
        invariant
            1 <= r,
            r + decimal_digits(rest as nat) == 1 + decimal_digits(n as nat),
            decimal_digits(n as nat) <= 20,
        decreases rest,
    {
        proof {
            lemma_decimal_digits_pos((rest / 10) as nat);
        }
        rest = rest / 10;
        r = r + 1;
    }
    proof {
        lemma_decimal_digits_pos(rest as nat);
    }
    r
}

/// Where the cursor paints on screen: its viewport-relative row, and its
/// column shifted right past the line-number gutter and its two-column gap.
/// An off-screen cursor paints at the origin. The coordinates are truncated
/// into terminal cells exactly as the renderer's cell type demands.
pub open spec fn cursor_screen_pos_spec(s: TextWindowState, lines: Seq<Seq<char>>) -> (u16, u16) {
    if is_on_screen_spec(s, s.cursor) {
        let gutter = decimal_digits(lines.len()) + 1;
        (
            (s.cursor.col - s.leftmost_col + gutter + 2) as u16,
            (s.cursor.line - s.top_line) as u16,
        )
    } else {
        (0u16, 0u16)
    }
}

/// The column the cursor rests on after a jump to the end of a line of the
/// given length: the last character, or column 0 of an empty line.
pub open spec fn eol_col(len: nat) -> nat {
    if len == 0 {
        0
    } else {
        (len - 1) as nat
    }
}

/// Motions at the buffer's edges are silent no-ops, the whole cursor and
/// scroll state bit-for-bit unchanged: Left at column 0 and Right at the
/// end of the line under Normal rules, Up at line 0 and Down at the last
/// line under either rule set.
pub proof fn lemma_boundary_motions_are_no_ops(s: TextWindowState, lines: Seq<Seq<char>>)
    ensures
        s.cursor.col == 0 ==> move_cursor_spec(s, lines, Mode::Normal, RectilinearDirection::Left)
            == s,
        s.cursor.col + 1 >= line_len_at(lines, s.cursor.line as int) ==> move_cursor_spec(
            s,
            lines,
            Mode::Normal,
            RectilinearDirection::Right,
        ) == s,
        s.cursor.line == 0 ==> move_cursor_spec(s, lines, Mode::Normal, RectilinearDirection::Up)
            == s,
        s.cursor.line == 0 ==> move_cursor_spec(s, lines, Mode::Insert, RectilinearDirection::Up)
            == s,
        s.cursor.line + 1 >= lines.len() ==> move_cursor_spec(
            s,
            lines,
            Mode::Normal,
            RectilinearDirection::Down,
        ) == s,
        s.cursor.line + 1 >= lines.len() ==> move_cursor_spec(
            s,
            lines,
            Mode::Insert,
            RectilinearDirection::Down,
        ) == s,
{
}

/// End-of-line stickiness: a sticky jump raises the tracking flag, and while
/// it is raised every vertical motion that changes line lands the cursor on
/// the new line's end — one past it under Insert rules — with the flag
/// still raised, so the tracking continues.
pub proof fn lemma_eol_stickiness(s: TextWindowState, lines: Seq<Seq<char>>)
    requires
        lines.len() > 0,
        lines.len() <= usize::MAX,
        forall|i: int| 0 <= i < lines.len() ==> (#[trigger] lines[i]).len() <= usize::MAX,
        s.cursor.line < lines.len(),
    ensures
        jump_to_EOL_spec(TextWindowState { stick_to_EOL: true, ..s }, lines).stick_to_EOL,
        s.stick_to_EOL && s.cursor.line > 0 ==> {
            let u = move_up_spec(s, lines, false);
            u.cursor.col == eol_col(line_len_at(lines, s.cursor.line - 1)) && u.stick_to_EOL
        },
        s.stick_to_EOL && s.cursor.line + 1 < lines.len() ==> {
            let d = move_down_spec(s, lines, false);
            d.cursor.col == eol_col(line_len_at(lines, s.cursor.line + 1)) && d.stick_to_EOL
        },
        s.stick_to_EOL && s.cursor.line > 0 ==> {
            let u = move_up_spec(s, lines, true);
            u.cursor.col == line_len_at(lines, s.cursor.line - 1) && u.stick_to_EOL
        },
        s.stick_to_EOL && s.cursor.line + 1 < lines.len() ==> {
            let d = move_down_spec(s, lines, true);
            d.cursor.col == line_len_at(lines, s.cursor.line + 1) && d.stick_to_EOL
        },
{
}

/// A horizontal motion that actually moves clears the end-of-line tracking
/// flag, under either rule set.
pub proof fn lemma_horizontal_motion_clears_stickiness(s: TextWindowState, lines: Seq<Seq<char>>)
    requires
        lines.len() > 0,
        s.cursor.line < lines.len(),
    ensures
        s.cursor.col > 0 ==> !move_cursor_spec(
            s,
            lines,
            Mode::Normal,
            RectilinearDirection::Left,
        ).stick_to_EOL,
        s.cursor.col + 1 < line_len_at(lines, s.cursor.line as int) ==> !move_cursor_spec(
            s,
            lines,
            Mode::Normal,
            RectilinearDirection::Right,
        ).stick_to_EOL,
        s.cursor.col > 0 || s.cursor.line > 0 ==> !move_cursor_spec(
            s,
            lines,
            Mode::Insert,
            RectilinearDirection::Left,
        ).stick_to_EOL,
        !past_EOL_spec(s, lines) || s.cursor.line + 1 < lines.len() ==> !move_cursor_spec(
            s,
            lines,
            Mode::Insert,
            RectilinearDirection::Right,
        ).stick_to_EOL,
{
}

/// Insert-mode boundary crossing: Left at column 0 of a line that has a
/// predecessor lands one past the end of that predecessor; Right from at or
/// past the end of a line that has a successor lands at the successor's
/// column 0. At the buffer's first and last line the same motions are
/// no-ops.
pub proof fn lemma_insert_mode_boundary_crossing(s: TextWindowState, lines: Seq<Seq<char>>)
    requires
        lines.len() > 0,
        lines.len() <= usize::MAX,
        forall|i: int| 0 <= i < lines.len() ==> (#[trigger] lines[i]).len() <= usize::MAX,
        s.cursor.line < lines.len(),
    ensures
        s.cursor.col == 0 && s.cursor.line > 0 ==> {
            let u = move_cursor_spec(s, lines, Mode::Insert, RectilinearDirection::Left);
            u.cursor.line == s.cursor.line - 1 && u.cursor.col == line_len_at(
                lines,
                s.cursor.line - 1,
            )
        },
        past_EOL_spec(s, lines) && s.cursor.line + 1 < lines.len() ==> {
            let r = move_cursor_spec(s, lines, Mode::Insert, RectilinearDirection::Right);
            r.cursor.line == s.cursor.line + 1 && r.cursor.col == 0
        },
        s.cursor.col == 0 && s.cursor.line == 0 ==> move_cursor_spec(
            s,
            lines,
            Mode::Insert,
            RectilinearDirection::Left,
        ) == s,
        past_EOL_spec(s, lines) && s.cursor.line == lines.len() - 1 ==> move_cursor_spec(
            s,
            lines,
            Mode::Insert,
            RectilinearDirection::Right,
        ) == s,
{
}

impl TextWindowState {
    /// Viewport sizes are what the renderer last reported for a terminal
    /// region, so they are positive and fit a terminal dimension.
    pub open spec fn wf(self) -> bool {
        &&& 1 <= self.last_height <= 0xFFFF
        &&& 1 <= self.last_width <= 0xFFFF
        &&& self.top_line <= self.cursor.line
    }

    /// The cursor's line exists (or the buffer is empty and the cursor sits
    /// on the synthetic line 0).
    pub open spec fn line_in_buffer(self, lines: Seq<Seq<char>>) -> bool {
        if lines.len() == 0 {
            self.cursor.line == 0
        } else {
            self.cursor.line < lines.len()
        }
    }

    /// The cursor addresses a real slot of the buffer: in an empty buffer it
    /// rests at the origin, otherwise its line exists and its column is at
    /// most one past the line's last character.
    pub open spec fn cursor_in_buffer(self, lines: Seq<Seq<char>>) -> bool {
        if lines.len() == 0 {
            self.cursor.line == 0 && self.cursor.col == 0
        } else {
            self.cursor.line < lines.len() && self.cursor.col <= lines[self.cursor.line
                as int].len()
        }
    }

    pub fn new() -> (r: TextWindowState)
        ensures
            r == initial_window_state(),
            r.wf(),
    {
        TextWindowState {
            top_line: 0,
            leftmost_col: 0,
            last_height: 2,
            last_width: 2,
            cur_vertical_percent: VerticalRatio::zero(),
            cursor: BufferPosition { line: 0, col: 0 },
            last_manual_col: 0,
            stick_to_EOL: false,
        }
    }

    /// The renderer reports the size it actually drew, so that motion math
    /// between renders uses current geometry.
    pub fn set_viewport_size(&mut self, height: usize, width: usize)
        requires
            1 <= height <= 0xFFFF,
            1 <= width <= 0xFFFF,
        ensures
            *final(self) == (TextWindowState {
                last_height: height,
                last_width: width,
                ..*old(self)
            }),
            old(self).wf() ==> final(self).wf(),
    {
        self.last_height = height;
        self.last_width = width;
    }

    /// The visible rectangle, in buffer coordinates.
    pub fn screen_bounds(&self) -> (r: ScreenBounds)
        requires
            self.top_line + self.last_height - 1 <= usize::MAX,
            self.leftmost_col + self.last_width - 1 <= usize::MAX,
            self.last_height >= 1,
            self.last_width >= 1,
        ensures
            r.top_line == self.top_line,
            r.bottom_line == self.top_line + self.last_height - 1,
            r.leftmost_col == self.leftmost_col,
            r.rightmost_col == self.leftmost_col + self.last_width - 1,
    {
        ScreenBounds {
            top_line: self.top_line,
            bottom_line: self.top_line + (self.last_height - 1),
            leftmost_col: self.leftmost_col,
            rightmost_col: self.leftmost_col + (self.last_width - 1),
        }
    }

    pub fn is_on_screen(&self, pos: &BufferPosition) -> (r: bool)
        ensures
            r == is_on_screen_spec(*self, *pos),
    {
        let within_vertically = pos.line >= self.top_line && pos.line - self.top_line
            < self.last_height;
        let within_horizontally = pos.col >= self.leftmost_col && pos.col - self.leftmost_col
            < self.last_width;
        within_vertically && within_horizontally
    }

    /// Checks if the cursor is past the last character in the line.
    pub fn cursor_past_EOL(&self, buf: &Buffer) -> (r: bool)
        ensures
            r == past_EOL_spec(*self, buf@),
    {
        if buf.lines_count() == 0 {
            return true;
        }
        let len = match buf.line_length(self.cursor.line) {
            Some(l) => l,
            None => 0,
        };
        self.cursor.col >= len
    }

    pub fn jump_to_home(&mut self)
        ensures
            *final(self) == jump_to_home_spec(*old(self)),
    {
        self.cursor = BufferPosition { line: self.cursor.line, col: 0 };
        self.leftmost_col = 0;
        self.last_manual_col = 0;
        self.stick_to_EOL = false;
    }

    pub fn jump_to_EOL(&mut self, buf: &Buffer)
        requires
            buf@.len() > 0 ==> old(self).cursor.line < buf@.len(),
        ensures
            *final(self) == jump_to_EOL_spec(*old(self), buf@),
            old(self).line_in_buffer(buf@) ==> final(self).cursor_in_buffer(buf@),
    {
        if buf.lines_count() == 0 {
            self.jump_to_home();
            return;
        }
        let len = match buf.line_length(self.cursor.line) {
            Some(l) => l,
            None => 0,
        };
        if len == 0 {
            self.cursor = BufferPosition { line: self.cursor.line, col: 0 };
            self.leftmost_col = 0;
            return;
        }
        let col = len - 1;
        self.cursor = BufferPosition { line: self.cursor.line, col };
        let to_the_right = col >= self.leftmost_col && col - self.leftmost_col >= self.last_width;
        let out_of_bounds = to_the_right || col < self.leftmost_col;
        if !out_of_bounds {
            return;
        }
        if to_the_right || col >= self.last_width {
            self.leftmost_col = col + 1 - self.last_width;
        } else {
            self.leftmost_col = 0;
        }
    }

    pub fn advance_insertion_cursor(&mut self, buf: &Buffer)
        requires
            buf@.len() > 0 ==> old(self).cursor.col < usize::MAX,
            buf@.len() > 0 ==> old(self).last_width >= 1,
        ensures
            *final(self) == advance_spec(*old(self), buf@),
    {
        if buf.lines_count() == 0 {
            return;
        }
        let col = self.cursor.col + 1;
        self.cursor = BufferPosition { line: self.cursor.line, col };
        self.last_manual_col = col;
        if col >= self.leftmost_col && col - self.leftmost_col >= self.last_width {
            self.leftmost_col = self.leftmost_col + 1;
        }
    }

    /// Jumps to a space immediately following the last character in the line.
    /// Meant for use in insert mode.
    pub fn jump_past_EOL(&mut self, buf: &Buffer)
        requires
            buf@.len() > 0 ==> old(self).cursor.line < buf@.len(),
            buf@.len() > 0 ==> old(self).last_width >= 1,
        ensures
            *final(self) == jump_past_EOL_spec(*old(self), buf@),
            old(self).line_in_buffer(buf@) ==> final(self).cursor_in_buffer(buf@),
    {
        self.jump_to_EOL(buf);
        proof {
            if buf@.len() > 0 {
                crate::buffer::lemma_line_len_fits(buf, self.cursor.line as int);
            }
        }
        if !self.cursor_past_EOL(buf) {
            self.advance_insertion_cursor(buf);
        }
    }

    pub fn snap_to_EOL(&mut self, buf: &Buffer)
        requires
            buf@.len() > 0 ==> old(self).cursor.line < buf@.len(),
        ensures
            *final(self) == snap_to_EOL_spec(*old(self), buf@),
            old(self).line_in_buffer(buf@) ==> final(self).cursor_in_buffer(buf@),
    {
        if buf.lines_count() == 0 {
            self.cursor = BufferPosition { line: self.cursor.line, col: 0 };
            self.leftmost_col = 0;
            return;
        }
        let len = match buf.line_length(self.cursor.line) {
            Some(l) => l,
            None => 0,
        };
        if self.cursor.col >= len {
            self.jump_to_EOL(buf);
        }
    }

    pub fn jump(&mut self, buf: &Buffer, pos: &BufferPosition)
        requires
            old(self).wf(),
            buf@.len() > 0,
            pos.line < buf@.len(),
            pos.col <= buf@[pos.line as int].len(),
        ensures
            *final(self) == jump_spec(*old(self), buf@, *pos),
            final(self).wf(),
            final(self).cursor_in_buffer(buf@),
    {
        if self.is_on_screen(pos) {
            self.cursor = pos.clone();
            self.cur_vertical_percent = VerticalRatio {
                num: pos.line - self.top_line,
                den: self.last_height - 1,
            };
            self.last_manual_col = pos.col;
            return;
        }
        let vert_out = pos.line < self.top_line || pos.line - self.top_line >= self.last_height;
        if vert_out {
            let count = buf.lines_count();
            let clamped = if pos.line >= count {
                count - 1
            } else {
                pos.line
            };
            let rel = if self.last_height / 2 <= clamped {
                self.last_height / 2
            } else {
                clamped
            };
            self.top_line = clamped - rel;
            self.cur_vertical_percent = VerticalRatio { num: rel, den: self.last_height - 1 };
        }
        let hor_out = pos.col < self.leftmost_col || pos.col - self.leftmost_col
            >= self.last_width;
        if hor_out {
            let rel_col = if self.last_width * 3 / 4 <= pos.col {
                self.last_width * 3 / 4
            } else {
                pos.col
            };
            self.leftmost_col = pos.col - rel_col;
        }
        self.cursor = pos.clone();
        self.last_manual_col = pos.col;
    }

    /// Marks the end-of-line jump as sticky: vertical motion keeps tracking
    /// each visited line's end until another horizontal motion clears it.
    pub fn sticky_jump_to_EOL(&mut self, buf: &Buffer)
        requires
            buf@.len() > 0 ==> old(self).cursor.line < buf@.len(),
        ensures
            *final(self) == jump_to_EOL_spec(
                TextWindowState { stick_to_EOL: true, ..*old(self) },
                buf@,
            ),
            old(self).line_in_buffer(buf@) ==> final(self).cursor_in_buffer(buf@),
    {
        self.stick_to_EOL = true;
        self.jump_to_EOL(buf);
    }

    /// The second phase of a vertical motion, shared by Up and Down: the
    /// line has already changed, now re-derive the column from the
    /// remembered intent against the new line's geometry.
    fn resolve_column(&mut self, buf: &Buffer, insert: bool)
        requires
            old(self).wf(),
            buf@.len() > 0,
            old(self).cursor.line < buf@.len(),
        ensures
            *final(self) == resolve_column_spec(*old(self), buf@, insert),
            final(self).wf(),
            final(self).cursor_in_buffer(buf@),
    {
        let len = match buf.line_length(self.cursor.line) {
            Some(l) => l,
            None => 0,
        };
        if self.cursor.col >= len || self.stick_to_EOL {
            self.jump_to_EOL(buf);
            if insert {
                let saved = self.last_manual_col;
                self.jump_past_EOL(buf);
                self.last_manual_col = saved;
            }
        } else if insert && self.last_manual_col >= len {
            let saved = self.last_manual_col;
            self.jump_past_EOL(buf);
            self.last_manual_col = saved;
        } else {
            let target = if self.last_manual_col <= len - 1 {
                self.last_manual_col
            } else {
                len - 1
            };
            let pos = BufferPosition { line: self.cursor.line, col: target };
            self.jump(buf, &pos);
        }
    }

    /// One rectilinear motion under the given mode's boundary rules. A move
    /// that would leave the buffer is a silent no-op; a vertical move
    /// remembers the cursor's intent and reapplies it against the new line.
    pub fn move_cursor(&mut self, buf: &Buffer, mode: &Mode, dir: RectilinearDirection)
        requires
            old(self).wf(),
            old(self).line_in_buffer(buf@),
        ensures
            *final(self) == move_cursor_spec(*old(self), buf@, *mode, dir),
            final(self).wf(),
            final(self).line_in_buffer(buf@),
            old(self).cursor_in_buffer(buf@) ==> final(self).cursor_in_buffer(buf@),
    {
        let insert = matches!(mode, Mode::Insert);
        if !(matches!(mode, Mode::Normal) || insert) {
            return;
        }
        match dir {
            RectilinearDirection::Up => {
                if self.cursor.line == 0 {
                    return;
                }
                let line = self.cursor.line - 1;
                self.cursor = BufferPosition { line, col: self.cursor.col };
                if line < self.top_line {
                    self.cur_vertical_percent = VerticalRatio::zero();
                    self.top_line = line;
                } else {
                    self.cur_vertical_percent = VerticalRatio {
                        num: line - self.top_line,
                        den: self.last_height - 1,
                    };
                }
                self.resolve_column(buf, insert);
            },
            RectilinearDirection::Down => {
                let count = buf.lines_count();
                if count == 0 || self.cursor.line >= count - 1 {
                    return;
                }
                let line = self.cursor.line + 1;
                self.cursor = BufferPosition { line, col: self.cursor.col };
                if self.cur_vertical_percent.is_one() {
                    self.top_line = self.top_line + 1;
                } else {
                    self.cur_vertical_percent = VerticalRatio {
                        num: line - self.top_line,
                        den: self.last_height - 1,
                    };
                }
                self.resolve_column(buf, insert);
            },
            RectilinearDirection::Right => {
                if buf.lines_count() == 0 {
                    return;
                }
                if insert {
                    let line = self.cursor.line;
                    if self.cursor_past_EOL(buf) {
                        if line == buf.lines_count() - 1 {
                            return;
                        }
                        self.stick_to_EOL = false;
                        let pos = BufferPosition { line: line + 1, col: 0 };
                        self.jump(buf, &pos);
                    } else {
                        proof {
                            crate::buffer::lemma_line_len_fits(buf, line as int);
                        }
                        let col = self.cursor.col + 1;
                        self.stick_to_EOL = false;
                        self.cursor = BufferPosition { line, col };
                        self.last_manual_col = col;
                        if col >= self.leftmost_col && col - self.leftmost_col
                            >= self.last_width {
                            self.leftmost_col = self.leftmost_col + 1;
                        }
                    }
                } else {
                    let len = match buf.line_length(self.cursor.line) {
                        Some(l) => l,
                        None => 0,
                    };
                    if len == 0 || self.cursor.col >= len - 1 {
                        return;
                    }
                    let col = self.cursor.col + 1;
                    self.stick_to_EOL = false;
                    self.cursor = BufferPosition { line: self.cursor.line, col };
                    self.last_manual_col = col;
                    if col >= self.leftmost_col && col - self.leftmost_col >= self.last_width {
                        self.leftmost_col = self.leftmost_col + 1;
                    }
                }
            },
            RectilinearDirection::Left => {
                if insert {
                    if buf.lines_count() == 0 {
                        return;
                    }
                    let line = self.cursor.line;
                    if self.cursor.col == 0 {
                        if line == 0 {
                            return;
                        }
                        self.stick_to_EOL = false;
                        let prev_len = match buf.line_length(line - 1) {
                            Some(l) => l,
                            None => 0,
                        };
                        let pos = BufferPosition { line: line - 1, col: prev_len };
                        self.jump(buf, &pos);
                        self.jump_past_EOL(buf);
                        self.last_manual_col = self.cursor.col;
                    } else {
                        let col = self.cursor.col - 1;
                        self.stick_to_EOL = false;
                        self.cursor = BufferPosition { line, col };
                        self.last_manual_col = col;
                        if col < self.leftmost_col {
                            self.leftmost_col = col;
                        }
                    }
                } else {
                    if self.cursor.col == 0 {
                        return;
                    }
                    let col = self.cursor.col - 1;
                    self.stick_to_EOL = false;
                    self.cursor = BufferPosition { line: self.cursor.line, col };
                    self.last_manual_col = col;
                    if col < self.leftmost_col {
                        self.leftmost_col = col;
                    }
                }
            },
        }
    }

    pub fn get_cursor_pos(&self, buf: &Buffer) -> (r: (u16, u16))
        requires
            self.wf(),
        ensures
            r == cursor_screen_pos_spec(*self, buf@),
    {
        let gutter = digit_count(buf.lines_count()) + 1;
        if self.is_on_screen(&self.cursor) {
            #[verifier::truncate]
            let x = (self.cursor.col - self.leftmost_col + gutter + 2) as u16;
            #[verifier::truncate]
            let y = (self.cursor.line - self.top_line) as u16;
            (x, y)
        } else {
            (0, 0)
        }
    }

    pub fn jump_to_last_line(&mut self, buf: &Buffer)
        requires
            old(self).wf(),
        ensures
            *final(self) == jump_to_last_line_spec(*old(self), buf@),
            final(self).wf(),
            final(self).cursor_in_buffer(buf@),
    {
        let count = buf.lines_count();
        let line = if count > 0 {
            count - 1
        } else {
            0
        };
        self.top_line = if line >= self.last_height {
            line - self.last_height + 1
        } else {
            0
        };
        self.cursor = BufferPosition { line, col: self.cursor.col };
        self.cur_vertical_percent = VerticalRatio {
            num: line - self.top_line,
            den: self.last_height - 1,
        };
        self.snap_to_EOL(buf);
        self.last_manual_col = self.cursor.col;
    }
}

} // verus!
