use std::rc::Rc;
use std::sync::Arc;

use notation::duration::{Duration, Units};
use notation::entry::CoreEntry;
use notation::error::ErrorKind;
use notation::line::{ArcLine, RcLine};
use notation::proto::ProtoEntry;
use notation::slice::{Slice, SliceBegin, SliceEnd};

fn rest(u: Units) -> ProtoEntry {
    ProtoEntry::Core(CoreEntry::Rest(Duration::Simple(u)))
}

#[test]
fn concatenated_lines_slice_in_order_sharing_entries() {
    let a = RcLine::from_protos(vec![rest(Units::Whole), rest(Units::Half)]);
    let b = RcLine::from_protos(vec![ProtoEntry::Mark(String::from("end"))]);
    let originals: Vec<Rc<ProtoEntry>> = a.entries.iter().chain(b.entries.iter()).cloned().collect();
    let joined = RcLine::from_lines(vec![a, b]);
    let slice = joined.get_slice(0, 3);
    let entries = slice.entries().unwrap();
    assert_eq!(entries.len(), 3);
    for (got, orig) in entries.iter().zip(originals.iter()) {
        assert!(Rc::ptr_eq(got, orig));
    }
    assert_eq!(*entries[0], rest(Units::Whole));
    assert!(entries[2].is_mark_str("end"));
}

#[test]
fn slice_is_checked_only_when_read() {
    let line = RcLine::from_protos(vec![rest(Units::Quarter), rest(Units::Eighth)]);
    let slice = line.get_slice(1, 5);
    assert_eq!(slice.index, 1);
    assert_eq!(slice.count, 5);
    assert_eq!(slice.entries().err(), Some(ErrorKind::OutOfRangeSlice));
    let line = RcLine::from_protos(vec![rest(Units::Quarter), rest(Units::Eighth)]);
    let tail = line.get_slice(1, 1).entries().unwrap();
    assert_eq!(*tail[0], rest(Units::Eighth));
    let far = RcLine::new(vec![]).get_slice(usize::MAX, 2);
    assert_eq!(far.entries().err(), Some(ErrorKind::OutOfRangeSlice));
}

#[test]
fn arc_lines_share_entries_across_lines() {
    let a = ArcLine::from_protos(vec![rest(Units::Whole)]);
    let b = ArcLine::from_protos(vec![rest(Units::Sixteenth), rest(Units::Half)]);
    let first = Arc::clone(&a.entries[0]);
    let joined = ArcLine::from_lines(vec![a.clone(), b, a]);
    assert_eq!(joined.entries.len(), 4);
    assert!(Arc::ptr_eq(&joined.entries[0], &first));
    assert!(Arc::ptr_eq(&joined.entries[3], &first));
    let view = joined.get_slice(1, 2).entries().unwrap();
    assert_eq!(*view[0], rest(Units::Sixteenth));
    assert_eq!(*view[1], rest(Units::Half));
    let whole = ArcLine::new(vec![first.clone()]).get_slice(0, 2);
    assert_eq!(whole.entries().err(), Some(ErrorKind::OutOfRangeSlice));
}

#[test]
fn tab_slice_holds_its_bounds() {
    let s = Slice::new(SliceBegin::Mark(String::from("intro")), SliceEnd::Count(4), Some(vec![1, 2]));
    assert!(matches!(s.begin, SliceBegin::Mark(ref m) if m == "intro"));
    assert!(matches!(s.end, SliceEnd::Count(4)));
    assert_eq!(s.rounds, Some(vec![1, 2]));
    let t = Slice::new(SliceBegin::Index(2), SliceEnd::Mark(String::from("outro")), None);
    assert!(matches!(t.begin, SliceBegin::Index(2)));
    assert!(t.rounds.is_none());
}
