//! The range a Select-mode session sweeps out: one endpoint fixed where the
//! mode was entered, the other following the live cursor.
use crate::buffer::BufferPosition;
use vstd::prelude::*;

verus! {

#[derive(Debug, Clone, PartialEq, Eq, Structural)]
pub struct Selection {
    pub fixed_point: BufferPosition,
    pub moving_point: BufferPosition,
}

impl Selection {
    pub fn from_single(bufpos: &BufferPosition) -> (r: Selection)
        ensures
            r.fixed_point == *bufpos,
            r.moving_point == *bufpos,
    {
        Selection { fixed_point: bufpos.clone(), moving_point: bufpos.clone() }
    }

    pub fn from_pair(fixed: &BufferPosition, moving: &BufferPosition) -> (r: Selection)
        ensures
            r.fixed_point == *fixed,
            r.moving_point == *moving,
    {
        Selection { fixed_point: fixed.clone(), moving_point: moving.clone() }
    }
}

} // verus!
