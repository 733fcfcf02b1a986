//! Lines: ordered sequences of shared entry handles; and slices: views of a
//! range of a line. A slice is not checked against its line when it is made;
//! reading its entries fails when the range reaches past the line's end.
//!
//! Two flavours exist: `RcLine` and `RcSlice` for use on one thread, and
//! `ArcLine` and `ArcSlice` for sharing across threads.

use std::rc::Rc;
use std::sync::Arc;
use vstd::prelude::*;
use crate::error::ErrorKind;
use crate::proto::ProtoEntry;

verus! {

/// Whether `count` entries from `index` lie within `len` entries.
pub open spec fn slice_in_range(len: int, index: int, count: int) -> bool {
    index + count <= len
}

/// Relies on `Rc::clone`: the new handle refers to the same entry.
#[verifier::external_body]
fn share_rc(e: &Rc<ProtoEntry>) -> (r: Rc<ProtoEntry>)
    ensures
        r == *e,
{
    Rc::clone(e)
}

/// Relies on `Arc::clone`: the new handle refers to the same entry.
#[verifier::external_body]
fn share_arc(e: &Arc<ProtoEntry>) -> (r: Arc<ProtoEntry>)
    ensures
        r == *e,
{
    Arc::clone(e)
}

#[derive(Clone)]
pub struct RcLine {
    pub entries: Vec<Rc<ProtoEntry>>,
}

#[derive(Clone)]
pub struct RcSlice {
    pub line: Rc<RcLine>,
    pub index: usize,
    pub count: usize,
}

/// The entries of several lines, one line after another.
pub open spec fn rc_concat(lines: Seq<RcLine>) -> Seq<Rc<ProtoEntry>>
    decreases lines.len(),
{
    if lines.len() == 0 {
        Seq::empty()
    } else {
        rc_concat(lines.drop_last()) + lines.last().entries@
    }
}

fn append_rc(dst: &mut Vec<Rc<ProtoEntry>>, src: &Vec<Rc<ProtoEntry>>)
    ensures
        final(dst)@ == old(dst)@ + src@,
{
    let mut i: usize = 0;
    while i < src.len()
        invariant
            0 <= i <= src@.len(),
            dst@ == old(dst)@ + src@.subrange(0, i as int),
        decreases src@.len() - i,
    {
        dst.push(share_rc(&src[i]));
        i = i + 1;
        assert(dst@ =~= old(dst)@ + src@.subrange(0, i as int));
    }
    assert(src@.subrange(0, i as int) =~= src@);
}

impl RcLine {
    pub fn new(entries: Vec<Rc<ProtoEntry>>) -> (r: RcLine)
        ensures
            r.entries@ == entries@,
    {
        RcLine { entries }
    }

    /// A line holding each entry behind a new handle, in order.
    pub fn from_protos(v: Vec<ProtoEntry>) -> (r: RcLine)
        ensures
            r.entries@.len() == v@.len(),
            forall|i: int| 0 <= i < v@.len() ==> *#[trigger] r.entries@[i] == v@[i],
    {
        let mut entries: Vec<Rc<ProtoEntry>> = Vec::new();
        for entry in iter: v
            invariant
                entries@.len() == iter.index(),
                forall|i: int| 0 <= i < iter.index() ==> *#[trigger] entries@[i] == iter.seq()[i],
                iter.seq() == v@,
        {
            entries.push(Rc::new(entry));
        }
        RcLine { entries }
    }

    /// A line of the entries of `lines`, in order; the handles are shared,
    /// not the entries copied.
    pub fn from_lines(lines: Vec<RcLine>) -> (r: RcLine)
        ensures
            r.entries@ == rc_concat(lines@),
    {
        let mut entries: Vec<Rc<ProtoEntry>> = Vec::new();
        let mut i: usize = 0;
        while i < lines.len()
            invariant
                0 <= i <= lines@.len(),
                entries@ == rc_concat(lines@.subrange(0, i as int)),
            decreases lines@.len() - i,
        {
            append_rc(&mut entries, &lines[i].entries);
            assert(lines@.subrange(0, i as int + 1).drop_last() =~= lines@.subrange(0, i as int));
            i = i + 1;
        }
        assert(lines@.subrange(0, i as int) =~= lines@);
        RcLine { entries }
    }

    /// A view of `count` entries from `index`; the range is not checked here.
    pub fn get_slice(self, index: usize, count: usize) -> (r: RcSlice)
        ensures
            r.line.entries@ == self.entries@,
            r.index == index,
            r.count == count,
    {
        RcSlice { line: Rc::new(self), index, count }
    }
}

impl RcSlice {
    /// The entries in view, sharing the line's handles; fails when the range
    /// reaches past the end of the line.
    pub fn entries(&self) -> (r: Result<Vec<Rc<ProtoEntry>>, ErrorKind>)
        ensures
            slice_in_range(self.line.entries@.len() as int, self.index as int, self.count as int)
                ==> (r matches Ok(v) && v@ == self.line.entries@.subrange(
                self.index as int,
                self.index + self.count,
            )),
            !slice_in_range(self.line.entries@.len() as int, self.index as int, self.count as int)
                ==> r == Err::<Vec<Rc<ProtoEntry>>, ErrorKind>(ErrorKind::OutOfRangeSlice),
    {
        let all = &self.line.entries;
        if self.index > all.len() || self.count > all.len() - self.index {
            return Err(ErrorKind::OutOfRangeSlice);
        }
        let mut out: Vec<Rc<ProtoEntry>> = Vec::new();
        let mut i: usize = self.index;
        let end = self.index + self.count;
        while i < end
            invariant
                self.index <= i <= end,
                end == self.index + self.count,
                end <= all@.len(),
                out@ == all@.subrange(self.index as int, i as int),
            decreases end - i,
        {
            out.push(share_rc(&all[i]));
            i = i + 1;
            assert(out@ =~= all@.subrange(self.index as int, i as int));
        }
        Ok(out)
    }
}

/// Concatenating two lines and viewing the whole result gives the entries of
/// the first line followed by those of the second.
pub proof fn lemma_rc_concat_full_slice(a: RcLine, b: RcLine)
    ensures
        ({
            let all = rc_concat(seq![a, b]);
            &&& slice_in_range(all.len() as int, 0, (a.entries@.len() + b.entries@.len()) as int)
            &&& all.subrange(0, (a.entries@.len() + b.entries@.len()) as int) == a.entries@ + b.entries@
        }),
{
    let lines = seq![a, b];
    assert(lines.drop_last() =~= seq![a]);
    let first = seq![a];
    assert(first.drop_last() =~= Seq::<RcLine>::empty());
    assert(first.last() == a);
    assert(rc_concat(first.drop_last()) == Seq::<Rc<ProtoEntry>>::empty());
    assert(rc_concat(first) =~= a.entries@);
    let all = rc_concat(lines);
    assert(all =~= a.entries@ + b.entries@);
    assert(all.subrange(0, all.len() as int) =~= all);
}

#[derive(Clone)]
pub struct ArcLine {
    pub entries: Vec<Arc<ProtoEntry>>,
}

#[derive(Clone)]
pub struct ArcSlice {
    pub line: Arc<ArcLine>,
    pub index: usize,
    pub count: usize,
}

/// The entries of several lines, one line after another.
pub open spec fn arc_concat(lines: Seq<ArcLine>) -> Seq<Arc<ProtoEntry>>
    decreases lines.len(),
{
    if lines.len() == 0 {
        Seq::empty()
    } else {
        arc_concat(lines.drop_last()) + lines.last().entries@
    }
}

fn append_arc(dst: &mut Vec<Arc<ProtoEntry>>, src: &Vec<Arc<ProtoEntry>>)
    ensures
        final(dst)@ == old(dst)@ + src@,
{
    let mut i: usize = 0;
    while i < src.len()
        invariant
            0 <= i <= src@.len(),
            dst@ == old(dst)@ + src@.subrange(0, i as int),
        decreases src@.len() - i,
    {
        dst.push(share_arc(&src[i]));
        i = i + 1;
        assert(dst@ =~= old(dst)@ + src@.subrange(0, i as int));
    }
    assert(src@.subrange(0, i as int) =~= src@);
}

impl ArcLine {
    pub fn new(entries: Vec<Arc<ProtoEntry>>) -> (r: ArcLine)
        ensures
            r.entries@ == entries@,
    {
        ArcLine { entries }
    }

    /// A line holding each entry behind a new handle, in order.
    pub fn from_protos(v: Vec<ProtoEntry>) -> (r: ArcLine)
        ensures
            r.entries@.len() == v@.len(),
            forall|i: int| 0 <= i < v@.len() ==> *#[trigger] r.entries@[i] == v@[i],
    {
        let mut entries: Vec<Arc<ProtoEntry>> = Vec::new();
        for entry in iter: v
            invariant
                entries@.len() == iter.index(),
                forall|i: int| 0 <= i < iter.index() ==> *#[trigger] entries@[i] == iter.seq()[i],
                iter.seq() == v@,
        {
            entries.push(Arc::new(entry));
        }
        ArcLine { entries }
    }

    /// A line of the entries of `lines`, in order; the handles are shared,
    /// not the entries copied.
    pub fn from_lines(lines: Vec<ArcLine>) -> (r: ArcLine)
        ensures
            r.entries@ == arc_concat(lines@),
    {
        let mut entries: Vec<Arc<ProtoEntry>> = Vec::new();
        let mut i: usize = 0;
        while i < lines.len()
            invariant
                0 <= i <= lines@.len(),
                entries@ == arc_concat(lines@.subrange(0, i as int)),
            decreases lines@.len() - i,
        {
            append_arc(&mut entries, &lines[i].entries);
            assert(lines@.subrange(0, i as int + 1).drop_last() =~= lines@.subrange(0, i as int));
            i = i + 1;
        }
        assert(lines@.subrange(0, i as int) =~= lines@);
        ArcLine { entries }
    }

    /// A view of `count` entries from `index`; the range is not checked here.
    pub fn get_slice(self, index: usize, count: usize) -> (r: ArcSlice)
        ensures
            r.line.entries@ == self.entries@,
            r.index == index,
            r.count == count,
    {
        ArcSlice { line: Arc::new(self), index, count }
    }
}

impl ArcSlice {
    /// The entries in view, sharing the line's handles; fails when the range
    /// reaches past the end of the line.
    pub fn entries(&self) -> (r: Result<Vec<Arc<ProtoEntry>>, ErrorKind>)
        ensures
            slice_in_range(self.line.entries@.len() as int, self.index as int, self.count as int)
                ==> (r matches Ok(v) && v@ == self.line.entries@.subrange(
                self.index as int,
                self.index + self.count,
            )),
            !slice_in_range(self.line.entries@.len() as int, self.index as int, self.count as int)
                ==> r == Err::<Vec<Arc<ProtoEntry>>, ErrorKind>(ErrorKind::OutOfRangeSlice),
    {
        let all = &self.line.entries;
        if self.index > all.len() || self.count > all.len() - self.index {
            return Err(ErrorKind::OutOfRangeSlice);
        }
        let mut out: Vec<Arc<ProtoEntry>> = Vec::new();
        let mut i: usize = self.index;
        let end = self.index + self.count;
        while i < end
            invariant
                self.index <= i <= end,
                end == self.index + self.count,
                end <= all@.len(),
                out@ == all@.subrange(self.index as int, i as int),
            decreases end - i,
        {
            out.push(share_arc(&all[i]));
            i = i + 1;
            assert(out@ =~= all@.subrange(self.index as int, i as int));
        }
        Ok(out)
    }
}

/// Concatenating two lines and viewing the whole result gives the entries of
/// the first line followed by those of the second.
pub proof fn lemma_arc_concat_full_slice(a: ArcLine, b: ArcLine)
    ensures
        ({
            let all = arc_concat(seq![a, b]);
            &&& slice_in_range(all.len() as int, 0, (a.entries@.len() + b.entries@.len()) as int)
            &&& all.subrange(0, (a.entries@.len() + b.entries@.len()) as int) == a.entries@ + b.entries@
        }),
{
    let lines = seq![a, b];
    assert(lines.drop_last() =~= seq![a]);
    let first = seq![a];
    assert(first.drop_last() =~= Seq::<ArcLine>::empty());
    assert(first.last() == a);
    assert(arc_concat(first.drop_last()) == Seq::<Arc<ProtoEntry>>::empty());
    assert(arc_concat(first) =~= a.entries@);
    let all = arc_concat(lines);
    assert(all =~= a.entries@ + b.entries@);
    assert(all.subrange(0, all.len() as int) =~= all);
}

} // verus!
