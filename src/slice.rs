//! A slice of a named line as a tab describes it: where it begins (a mark
//! or an index), where it ends (a mark or a count), and in which rounds of a
//! repeat it is played.

use vstd::prelude::*;

verus! {

#[derive(Clone, Debug)]
pub enum SliceBegin {
    Mark(String),
    Index(usize),
}

#[derive(Clone, Debug)]
pub enum SliceEnd {
    Mark(String),
    Count(usize),
}

#[derive(Clone, Debug)]
pub struct Slice {
    pub begin: SliceBegin,
    pub end: SliceEnd,
    pub rounds: Option<Vec<usize>>,
}

impl Slice {
    pub fn new(begin: SliceBegin, end: SliceEnd, rounds: Option<Vec<usize>>) -> (r: Slice)
        ensures
            r.begin == begin,
            r.end == end,
            r.rounds == rounds,
    {
        Slice { begin, end, rounds }
    }
}

} // verus!
