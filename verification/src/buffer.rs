//! The line buffer: the text content of one file as an ordered sequence of
//! lines, plus the structural edits the action handlers drive it with.
//!
//! An empty buffer (zero lines) is a valid state distinct from a buffer
//! holding one empty line; every mutation special-cases zero-line buffers
//! before any indexing. Columns index scalar characters, never bytes, so a
//! line is held as a `Vec<char>`.
use vstd::prelude::*;

verus! {

#[derive(Debug, Clone, Copy, PartialEq, Eq, Structural)]
pub enum HorizontalDirection {
    Forward,
    Backward,
}

#[derive(Debug, Clone, Copy, PartialEq, Eq, Structural)]
pub enum VerticalDirection {
    Up,
    Down,
}

#[derive(Debug, Clone, Copy, PartialEq, Eq, Structural)]
pub enum RectilinearDirection {
    Up,
    Right,
    Down,
    Left,
}

/// A character slot `{line, col}`. It carries no validity guarantee of its
/// own: callers must re-validate against a buffer snapshot after any edit.
#[derive(Debug, Clone, Copy, PartialEq, Eq, Structural)]
pub struct BufferPosition {
    pub line: usize,
    pub col: usize,
}

pub struct Buffer {
    pub name: Option<String>,
    pub path: Option<String>,
    pub lines: Vec<Vec<char>>,
}

impl View for Buffer {
    type V = Seq<Seq<char>>;

    open spec fn view(&self) -> Seq<Seq<char>> {
        self.lines@.map_values(|l: Vec<char>| l@)
    }
}

/// The result of inserting `c` at `(line, col)`: a zero-line buffer gains its
/// first line holding only `c`; otherwise `c` lands at character index `col`.
pub open spec fn insert_char_at(lines: Seq<Seq<char>>, line: int, col: int, c: char) -> Seq<
    Seq<char>,
> {
    if lines.len() == 0 {
        seq![seq![c]]
    } else {
        lines.update(line, lines[line].insert(col, c))
    }
}

/// The result of removing the character at `(line, col)`; out-of-range
/// positions leave the buffer unchanged.
pub open spec fn remove_char_at(lines: Seq<Seq<char>>, line: int, col: int) -> Seq<Seq<char>> {
    if 0 <= line < lines.len() && 0 <= col < lines[line].len() {
        lines.update(line, lines[line].remove(col))
    } else {
        lines
    }
}

/// The result of splitting line `line` at column `col`: the text before the
/// column stays, the rest becomes a new line immediately after. A zero-line
/// buffer first synthesizes one empty line.
pub open spec fn split_line_at(lines: Seq<Seq<char>>, line: int, col: int) -> Seq<Seq<char>> {
    let base = if lines.len() == 0 {
        seq![Seq::<char>::empty()]
    } else {
        lines
    };
    base.update(line, base[line].subrange(0, col)).insert(
        line + 1,
        base[line].subrange(col, base[line].len() as int),
    )
}

/// The result of appending line `line + 1` onto line `line` and removing the
/// former; a no-op when no next line exists.
pub open spec fn join_lines_at(lines: Seq<Seq<char>>, line: int) -> Seq<Seq<char>> {
    if line < 0 || line + 1 >= lines.len() {
        lines
    } else {
        lines.update(line, lines[line] + lines[line + 1]).remove(line + 1)
    }
}

impl Buffer {
    pub fn read_name(&self) -> (r: Option<&String>)
        ensures
            r is Some <==> self.name is Some,
            r is Some ==> *r->0 == self.name->0,
    {
        match &self.name {
            Some(name) => Some(name),
            None => None,
        }
    }

    pub fn set_name(&mut self, new_name: String)
        ensures
            final(self).name == Some(new_name),
            final(self).path == old(self).path,
            final(self)@ == old(self)@,
            final(self).lines == old(self).lines,
    {
        self.name = Some(new_name);
    }

    pub fn path(&self) -> (r: Option<&String>)
        ensures
            r is Some <==> self.path is Some,
            r is Some ==> *r->0 == self.path->0,
    {
        match &self.path {
            Some(path) => Some(path),
            None => None,
        }
    }

    /// Stores the path the buffer will save to. Callers hand in an absolute
    /// path; resolving a relative one against the working directory is the
    /// shell-facing caller's concern.
    pub fn set_path(&mut self, new_path: String)
        ensures
            final(self).path == Some(new_path),
            final(self).name == old(self).name,
            final(self)@ == old(self)@,
            final(self).lines == old(self).lines,
    {
        self.path = Some(new_path);
    }

    pub fn untitled() -> (r: Buffer)
        ensures
            r.name is None,
            r.path is None,
            r@ == Seq::<Seq<char>>::empty(),
    {
        Buffer { name: None, path: None, lines: Vec::new() }
    }

    /// A named buffer with no lines yet: the state of a new file that does
    /// not exist on disk.
    pub fn empty(name: String, path: String) -> (r: Buffer)
        ensures
            r.name == Some(name),
            r.path == Some(path),
            r@ == Seq::<Seq<char>>::empty(),
    {
        Buffer { name: Some(name), path: Some(path), lines: Vec::new() }
    }

    pub fn lines_count(&self) -> (r: usize)
        ensures
            r == self@.len(),
    {
        self.lines.len()
    }

    /// `None` when the buffer is empty or the index is out of range; motion
    /// math treats that as length 0, but it is not the same as a line that
    /// exists and is empty.
    pub fn line_length(&self, index: usize) -> (r: Option<usize>)
        ensures
            r == if self@.len() == 0 || index >= self@.len() {
                Option::<usize>::None
            } else {
                Option::Some(self@[index as int].len() as usize)
            },
            index < self@.len() ==> self@[index as int].len() <= usize::MAX,
    {
        let count = self.lines_count();
        if count == 0 || index >= count {
            return None;
        }
        Some(self.lines[index].len())
    }

    pub fn insert_char(&mut self, c: char, pos: &BufferPosition)
        requires
            old(self)@.len() > 0 ==> pos.line < old(self)@.len() && pos.col <= old(self)@[pos.line
                as int].len(),
        ensures
            final(self)@ == insert_char_at(old(self)@, pos.line as int, pos.col as int, c),
            final(self).name == old(self).name,
            final(self).path == old(self).path,
    {
        if self.lines.len() == 0 {
            let mut first: Vec<char> = Vec::new();
            first.push(c);
            self.lines.push(first);
            proof {
                assert(self@ =~= insert_char_at(old(self)@, pos.line as int, pos.col as int, c));
            }
            return;
        }
        let mut line = self.lines.remove(pos.line);
        line.insert(pos.col, c);
        self.lines.insert(pos.line, line);
        proof {
            assert(self@ =~= insert_char_at(old(self)@, pos.line as int, pos.col as int, c));
        }
    }

    pub fn remove_char(&mut self, pos: &BufferPosition)
        ensures
            final(self)@ == remove_char_at(old(self)@, pos.line as int, pos.col as int),
            final(self).name == old(self).name,
            final(self).path == old(self).path,
    {
        if self.lines.len() == 0 {
            return;
        }
        if pos.line < self.lines.len() {
            let len = self.lines[pos.line].len();
            if pos.col >= len {
                return;
            }
            let mut line = self.lines.remove(pos.line);
            line.remove(pos.col);
            self.lines.insert(pos.line, line);
            proof {
                assert(self@ =~= remove_char_at(old(self)@, pos.line as int, pos.col as int));
            }
        }
    }

    /// Replaces the addressed line with an empty one; a zero-line buffer
    /// gains a single empty line instead.
    pub fn clear_line(&mut self, pos: &BufferPosition)
        requires
            old(self)@.len() > 0 ==> pos.line < old(self)@.len(),
        ensures
            final(self)@ == if old(self)@.len() == 0 {
                seq![Seq::<char>::empty()]
            } else {
                old(self)@.update(pos.line as int, Seq::<char>::empty())
            },
            final(self).name == old(self).name,
            final(self).path == old(self).path,
    {
        if self.lines.len() == 0 {
            self.lines.push(Vec::new());
            proof {
                assert(self@ =~= seq![Seq::<char>::empty()]);
            }
            return;
        }
        self.lines.set(pos.line, Vec::new());
        proof {
            assert(self@ =~= old(self)@.update(pos.line as int, Seq::<char>::empty()));
        }
    }

    /// Inserts a new line at `index`, shifting subsequent lines down;
    /// `index` may equal the line count (append).
    pub fn add_line(&mut self, index: usize, content: Vec<char>)
        requires
            index <= old(self)@.len(),
        ensures
            final(self)@ == old(self)@.insert(index as int, content@),
            final(self).name == old(self).name,
            final(self).path == old(self).path,
    {
        self.lines.insert(index, content);
        proof {
            assert(self@ =~= old(self)@.insert(index as int, content@));
        }
    }

    pub fn split_line(&mut self, pos: &BufferPosition)
        requires
            old(self)@.len() == 0 ==> pos.line == 0 && pos.col == 0,
            old(self)@.len() > 0 ==> pos.line < old(self)@.len() && pos.col <= old(self)@[pos.line
                as int].len(),
        ensures
            final(self)@ == split_line_at(old(self)@, pos.line as int, pos.col as int),
            final(self).name == old(self).name,
            final(self).path == old(self).path,
    {
        if self.lines.len() == 0 {
            self.lines.push(Vec::new());
        }
        let mut line = self.lines.remove(pos.line);
        let tail = line.split_off(pos.col);
        self.lines.insert(pos.line, line);
        self.lines.insert(pos.line + 1, tail);
        proof {
            assert(self@ =~= split_line_at(old(self)@, pos.line as int, pos.col as int));
        }
    }

    pub fn join_with_next_line(&mut self, line: usize)
        ensures
            final(self)@ == join_lines_at(old(self)@, line as int),
            final(self).name == old(self).name,
            final(self).path == old(self).path,
    {
        let count = self.lines.len();
        if count == 0 || line >= count - 1 {
            return;
        }
        let mut second = self.lines.remove(line + 1);
        let mut first = self.lines.remove(line);
        first.append(&mut second);
        self.lines.insert(line, first);
        proof {
            assert(self@ =~= join_lines_at(old(self)@, line as int));
        }
    }
}

/// Every line of a buffer is held in a vector, so its character count fits
/// the machine word that indexes it.
pub proof fn lemma_line_len_fits(b: &Buffer, i: int)
    requires
        0 <= i < b@.len(),
    ensures
        b@[i].len() <= usize::MAX,
{
    assert(b@[i] == b.lines@[i]@);
    let v = b.lines@[i];
    vstd::std_specs::vec::axiom_spec_len(&v);
}

/// What saving writes: every line followed by a line break.
pub open spec fn flattened_with_breaks(lines: Seq<Seq<char>>) -> Seq<char>
    decreases lines.len(),
{
    if lines.len() == 0 {
        Seq::empty()
    } else {
        lines[0].push('\n') + flattened_with_breaks(lines.drop_first())
    }
}

/// The position of the first line break, or the whole length when there is
/// none.
pub open spec fn line_break_index(s: Seq<char>) -> nat
    decreases s.len(),
{
    if s.len() == 0 {
        0
    } else if s[0] == '\n' {
        0
    } else {
        (1 + line_break_index(s.drop_first())) as nat
    }
}

/// A piece that a line break terminated loses one trailing carriage return:
/// the other half of a Windows line ending.
pub open spec fn strip_cr(l: Seq<char>) -> Seq<char> {
    if l.len() > 0 && l.last() == '\r' {
        l.drop_last()
    } else {
        l
    }
}

/// What loading reads out of a file's text: pieces split at line breaks,
/// each terminated piece freed of a trailing carriage return, and a final
/// line break producing no extra empty line.
pub open spec fn split_into_lines(s: Seq<char>) -> Seq<Seq<char>>
    decreases s.len(),
{
    if s.len() == 0 {
        Seq::empty()
    } else {
        let i = line_break_index(s) as int;
        if i >= s.len() {
            seq![s]
        } else {
            seq![strip_cr(s.take(i))] + split_into_lines(s.skip(i + 1))
        }
    }
}

proof fn lemma_line_break_index_none(s: Seq<char>)
    requires
        forall|j: int| 0 <= j < s.len() ==> s[j] != '\n',
    ensures
        line_break_index(s) == s.len(),
    decreases s.len(),
{
    if s.len() > 0 {
        assert(forall|j: int|
            0 <= j < s.drop_first().len() ==> s.drop_first()[j] == s[j + 1] && s[j + 1] != '\n');
        lemma_line_break_index_none(s.drop_first());
    }
}

proof fn lemma_line_break_index_at(s: Seq<char>, k: int)
    requires
        0 <= k < s.len(),
        s[k] == '\n',
        forall|j: int| 0 <= j < k ==> s[j] != '\n',
    ensures
        line_break_index(s) == k,
    decreases s.len(),
{
    if k > 0 {
        assert(forall|j: int| 0 <= j < s.drop_first().len() ==> s.drop_first()[j] == s[j + 1]);
        lemma_line_break_index_at(s.drop_first(), k - 1);
    }
}

proof fn lemma_flattened_snoc(lines: Seq<Seq<char>>, i: int)
    requires
        0 <= i < lines.len(),
    ensures
        flattened_with_breaks(lines.take(i + 1)) == flattened_with_breaks(lines.take(i)) + (
        lines[i].push('\n')),
    decreases i,
{
    let t1 = lines.take(i + 1);
    if i == 0 {
        assert(t1.len() == 1 && t1[0] == lines[0]);
        assert(t1.drop_first() =~= Seq::<Seq<char>>::empty());
        assert(flattened_with_breaks(t1.drop_first()) =~= Seq::<char>::empty());
        assert(flattened_with_breaks(t1) == lines[0].push('\n')
            + flattened_with_breaks(t1.drop_first()));
        assert(lines[0].push('\n') + Seq::<char>::empty() =~= lines[0].push('\n'));
        assert(flattened_with_breaks(lines.take(0)) =~= Seq::<char>::empty());
        assert(flattened_with_breaks(lines.take(0)) + lines[0].push('\n') =~= lines[0].push(
            '\n',
        ));
    } else {
        let d = lines.drop_first();
        lemma_flattened_snoc(d, i - 1);
        assert(t1.drop_first() =~= d.take(i));
        assert(lines.take(i).drop_first() =~= d.take(i - 1));
        assert(flattened_with_breaks(t1) == lines[0].push('\n') + flattened_with_breaks(d.take(i)));
        assert(flattened_with_breaks(lines.take(i)) == lines[0].push('\n')
            + flattened_with_breaks(d.take(i - 1)));
        assert(lines[0].push('\n') + (flattened_with_breaks(d.take(i - 1)) + d[i - 1].push('\n'))
            =~= (lines[0].push('\n') + flattened_with_breaks(d.take(i - 1))) + d[i - 1].push(
            '\n',
        ));
    }
}

impl Buffer {
    /// The text that saving this buffer writes: every line followed by a
    /// line break. Performing the write is the caller's concern.
    pub fn save_contents(&self) -> (r: Vec<char>)
        ensures
            r@ == flattened_with_breaks(self@),
    {
        let mut out: Vec<char> = Vec::new();
        let mut i: usize = 0;
        let n = self.lines.len();
        while i < n
            invariant
                n == self@.len(),
                i <= n,
                out@ == flattened_with_breaks(self@.take(i as int)),
            decreases n - i,
        {
            let mut j: usize = 0;
            let m = self.lines[i].len();
            while j < m
                invariant
                    n == self@.len(),
                    i < n,
                    m == self@[i as int].len(),
                    j <= m,
                    out@ == flattened_with_breaks(self@.take(i as int)) + self@[i as int].take(
                        j as int,
                    ),
                decreases m - j,
            {
                out.push(self.lines[i][j]);
                proof {
                    assert(out@ =~= flattened_with_breaks(self@.take(i as int)) + self@[i
                        as int].take(j + 1));
                }
                j = j + 1;
            }
            out.push('\n');
            proof {
                lemma_flattened_snoc(self@, i as int);
                assert(self@[i as int].take(m as int) =~= self@[i as int]);
                assert(out@ =~= flattened_with_breaks(self@.take(i as int)) + self@[i as int].push(
                    '\n',
                ));
            }
            i = i + 1;
        }
        proof {
            assert(self@.take(n as int) =~= self@);
        }
        out
    }

    /// A named buffer whose lines come from the given file text, split at
    /// line breaks. Reading the file is the caller's concern.
    pub fn from_contents(name: String, path: String, contents: &Vec<char>) -> (r: Buffer)
        ensures
            r.name == Some(name),
            r.path == Some(path),
            r@ == split_into_lines(contents@),
    {
        let s = contents;
        let n = s.len();
        let mut lines: Vec<Vec<char>> = Vec::new();
        let mut cur: Vec<char> = Vec::new();
        let mut start: usize = 0;
        let mut k: usize = 0;
        proof {
            assert(s@.skip(0) =~= s@);
            assert(lines@.map_values(|l: Vec<char>| l@) =~= Seq::<Seq<char>>::empty());
            assert(Seq::<Seq<char>>::empty() + split_into_lines(s@) =~= split_into_lines(s@));
        }
        while k < n
            invariant
                n == s@.len(),
                start <= k <= n,
                cur@ == s@.subrange(start as int, k as int),
                forall|j: int| start <= j < k ==> s@[j] != '\n',
                split_into_lines(s@) == lines@.map_values(|l: Vec<char>| l@) + split_into_lines(
                    s@.skip(start as int),
                ),
            decreases n - k,
        {
            let c = s[k];
            if c == '\n' {
                if cur.len() > 0 && cur[cur.len() - 1] == '\r' {
                    cur.pop();
                }
                proof {
                    let rest = s@.skip(start as int);
                    assert(forall|j: int|
                        0 <= j < k - start ==> rest[j] == s@[j + start] && s@[j + start] != '\n');
                    assert(rest[k - start] == s@[k as int]);
                    lemma_line_break_index_at(rest, k - start);
                    assert(rest.take(k - start) =~= s@.subrange(start as int, k as int));
                    assert(cur@ =~= strip_cr(s@.subrange(start as int, k as int)));
                    assert(rest.skip(k - start + 1) =~= s@.skip(k + 1));
                    assert(split_into_lines(rest) == seq![strip_cr(rest.take(k - start))]
                        + split_into_lines(rest.skip(k - start + 1)));
                }
                let ghost done_old = lines@.map_values(|l: Vec<char>| l@);
                let ghost piece = cur@;
                lines.push(cur);
                cur = Vec::new();
                start = k + 1;
                k = k + 1;
                proof {
                    assert(lines@.map_values(|l: Vec<char>| l@) =~= done_old.push(piece));
                    assert(done_old + (seq![piece] + split_into_lines(s@.skip(start as int)))
                        =~= done_old.push(piece) + split_into_lines(s@.skip(start as int)));
                    assert(cur@ =~= s@.subrange(start as int, k as int));
                }
            } else {
                cur.push(c);
                k = k + 1;
                proof {
                    assert(cur@ =~= s@.subrange(start as int, k as int));
                }
            }
        }
        if cur.len() > 0 {
            proof {
                let rest = s@.skip(start as int);
                assert(forall|j: int|
                    0 <= j < rest.len() ==> rest[j] == s@[j + start] && s@[j + start] != '\n');
                lemma_line_break_index_none(rest);
                assert(rest =~= s@.subrange(start as int, n as int));
                assert(split_into_lines(rest) == seq![rest]);
            }
            let ghost done_old = lines@.map_values(|l: Vec<char>| l@);
            let ghost piece = cur@;
            lines.push(cur);
            proof {
                assert(lines@.map_values(|l: Vec<char>| l@) =~= done_old.push(piece));
                assert(done_old + seq![piece] =~= done_old.push(piece));
            }
        } else {
            proof {
                assert(s@.skip(start as int) =~= Seq::<char>::empty());
                assert(lines@.map_values(|l: Vec<char>| l@) =~= split_into_lines(s@));
            }
        }
        Buffer { name: Some(name), path: Some(path), lines }
    }
}

/// A buffer's line count is a vector length, so it fits the machine word
/// that indexes it.
pub proof fn lemma_lines_count_fits(b: &Buffer)
    ensures
        b@.len() <= usize::MAX,
{
    vstd::std_specs::vec::axiom_spec_len(&b.lines);
}

/// A buffer with zero lines and a buffer holding one empty line are distinct
/// states: no sequence of edits may conflate them.
pub proof fn lemma_empty_buffer_states_distinct(a: Seq<Seq<char>>, b: Seq<Seq<char>>)
    requires
        a.len() == 0,
        b == seq![Seq::<char>::empty()],
    ensures
        a != b,
{
    assert(b.len() == 1);
}

/// Splitting a line and immediately joining at the same index restores the
/// original lines exactly.
pub proof fn lemma_split_join_round_trip(lines: Seq<Seq<char>>, line: int, col: int)
    requires
        0 <= line < lines.len(),
        0 <= col <= lines[line].len(),
    ensures
        join_lines_at(split_line_at(lines, line, col), line) == lines,
{
    let split = split_line_at(lines, line, col);
    assert(split.len() == lines.len() + 1);
    assert(split[line] + split[line + 1] =~= lines[line]);
    assert(join_lines_at(split, line) =~~= lines);
}

} // verus!
