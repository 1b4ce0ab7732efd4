//! The gutter's line numbers: absolute, or relative to the selected line.
use vstd::prelude::*;

verus! {

pub enum LineNumberType {
    Absolute,
    Relative,
}

pub struct LineNumbers {
    pub number_type: LineNumberType,
    pub first_line: usize,
    pub last_line: usize,
    pub selected: usize,
}

impl LineNumbers {
    pub fn new(number_type: LineNumberType, first_line: usize, last_line: usize, selected: usize) -> (r: LineNumbers)
        ensures
            r.first_line == first_line,
            r.last_line == last_line,
            r.selected == selected,
            r.number_type == number_type,
    {
        LineNumbers { number_type, first_line, last_line, selected }
    }

    /// The number shown on the `i`-th visible row: the line number itself, or
    /// its distance from the selected line (which shows its own number).
    pub open spec fn number_at(self, i: int) -> int {
        let x = self.first_line + i;
        match self.number_type {
            LineNumberType::Absolute => x,
            LineNumberType::Relative => if x == self.selected {
                x
            } else if x > self.selected {
                x - self.selected
            } else {
                self.selected - x
            },
        }
    }

    pub fn generate_numbers(&self) -> (r: Vec<usize>)
        requires
            self.last_line < usize::MAX,
        ensures
            r@.len() == if self.first_line <= self.last_line {
                self.last_line - self.first_line + 1
            } else {
                0
            },
            forall|i: int| 0 <= i < r@.len() ==> r@[i] == self.number_at(i),
    {
        let mut r: Vec<usize> = Vec::new();
        if self.first_line > self.last_line {
            return r;
        }
        let mut x = self.first_line;
        while x <= self.last_line
            invariant
                self.first_line <= x <= self.last_line + 1,
                self.last_line < usize::MAX,
                r@.len() == x - self.first_line,
                forall|i: int| 0 <= i < r@.len() ==> r@[i] == self.number_at(i),
            decreases self.last_line + 1 - x,
        {
            let n = match self.number_type {
                LineNumberType::Absolute => x,
                LineNumberType::Relative => if x == self.selected {
                    x
                } else if x > self.selected {
                    x - self.selected
                } else {
                    self.selected - x
                },
            };
            r.push(n);
            x = x + 1;
        }
        r
    }
}

} // verus!
