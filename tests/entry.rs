use notation::duration::{Duration, Signature, Tempo, Units};
use notation::entry::{Chord, CoreEntry, Entry, Roman, Solfege};
use notation::fretted::{FrettedEntry, PickEvent};
use notation::pitch::{Note, Octave, Pitch, PitchName, PitchSign};
use notation::proto::ProtoEntry;
use notation::scale::{Syllable, SyllableNote};

fn c4() -> Note {
    Note::new(Octave::P4, Pitch::new(PitchName::C, PitchSign::Natural))
}

#[test]
fn core_durations() {
    let q = Duration::Simple(Units::Quarter);
    assert_eq!(CoreEntry::Rest(q).duration(), q);
    assert_eq!(CoreEntry::Note(c4(), q).duration(), q);
    let chord = Chord { root: Syllable::Do, minor: false };
    assert_eq!(CoreEntry::Chord(chord, Duration::Simple(Units::Whole)).duration(), Duration::Simple(Units::Whole));
    assert_eq!(CoreEntry::Signature(Signature::new(Units::Quarter, 4)).duration(), Duration::Zero);
    assert_eq!(CoreEntry::Tempo(Tempo::new(90)).duration(), Duration::Zero);
    assert_eq!(Entry::duration(&CoreEntry::Rest(q)), q);
}

#[test]
fn core_predicates_and_accessors_agree() {
    let q = Duration::Simple(Units::Quarter);
    let note = CoreEntry::Note(c4(), q);
    assert!(note.is_note());
    assert!(!note.is_rest());
    assert_eq!(note.as_note(), Some(&c4()));
    assert_eq!(note.as_rest(), None);
    let rest = CoreEntry::from(q);
    assert!(rest.is_rest());
    assert_eq!(rest.as_rest(), Some(&q));
    let sol = Solfege { syllable_note: SyllableNote::new(Octave::P4, Syllable::Do), note: c4() };
    let s = CoreEntry::from((sol, q));
    assert!(s.is_solfege());
    assert_eq!(s.as_solfege(), Some(&sol));
    assert_eq!(s.as_chord(), None);
    let roman = CoreEntry::Roman(Roman { root: Syllable::So, minor: false }, q);
    assert!(roman.is_roman());
    assert_eq!(roman.as_roman().map(|r| r.root), Some(Syllable::So));
    assert!(CoreEntry::Signature(Signature::new(Units::Quarter, 4)).is_signature());
    assert!(CoreEntry::from(Tempo::new(60)).is_tempo());
    let chord = CoreEntry::Chord(Chord { root: Syllable::La, minor: true }, q);
    assert!(chord.is_chord());
    assert_eq!(chord.as_chord().map(|c| c.minor), Some(true));
}

#[test]
fn proto_durations() {
    let e = Duration::Simple(Units::Eighth);
    assert_eq!(ProtoEntry::Mark(String::from("verse")).duration(), Duration::Zero);
    assert_eq!(ProtoEntry::from((String::from("la"), e)).duration(), e);
    assert_eq!(ProtoEntry::from(CoreEntry::Rest(e)).duration(), e);
    assert_eq!(
        ProtoEntry::from((String::from("k"), String::from("v"))).duration(),
        Duration::Zero
    );
    let pick: FrettedEntry<6> = FrettedEntry::Pick(PickEvent::new(vec![0, 2]), e);
    assert_eq!(ProtoEntry::from(pick).duration(), e);
}

#[test]
fn proto_marks() {
    let m = ProtoEntry::from(String::from("chorus"));
    assert!(m.is_mark());
    assert!(m.is_mark_str("chorus"));
    assert!(!m.is_mark_str("verse"));
    assert!(m.is_mark_string(&String::from("chorus")));
    assert_eq!(m.as_mark(), Some(&String::from("chorus")));
    assert!(!ProtoEntry::from((String::from("chorus"), Duration::Zero)).is_mark_str("chorus"));
}

#[test]
fn proto_try_into_keeps_the_entry_on_failure() {
    let q = Duration::Simple(Units::Quarter);
    let core = ProtoEntry::Core(CoreEntry::Rest(q));
    assert!(core.is_core());
    assert_eq!(core.as_core(), Some(&CoreEntry::Rest(q)));
    assert_eq!(core.clone().try_into_core(), Ok(CoreEntry::Rest(q)));
    assert_eq!(core.clone().try_into_fretted6(), Err(core.clone()));
    let word = ProtoEntry::Word(String::from("hey"), q);
    assert!(word.is_word());
    assert_eq!(word.clone().try_into_core(), Err(word.clone()));
    assert_eq!(word.clone().try_into_fretted4(), Err(word));
}

#[test]
fn proto_fretted_predicates() {
    let q = Duration::Simple(Units::Quarter);
    let six: FrettedEntry<6> = FrettedEntry::Pick(PickEvent::new(vec![1]), q);
    let p = ProtoEntry::from(six.clone());
    assert!(p.is_fretted());
    assert!(p.is_fretted6());
    assert!(!p.is_fretted4());
    assert!(p.is_fretted_pick());
    assert!(!p.is_fretted_strum());
    assert!(!p.is_fretted_shape());
    assert!(!p.is_fretted_fretboard());
    assert_eq!(p.as_fretted6(), Some(&six));
    assert_eq!(p.clone().try_into_fretted6(), Ok(six));
    let four: FrettedEntry<4> = FrettedEntry::Pick(PickEvent::new(vec![3]), q);
    let p4 = ProtoEntry::from(four.clone());
    assert!(p4.is_fretted4());
    assert_eq!(p4.as_fretted4(), Some(&four));
    assert_eq!(p4.try_into_fretted4(), Ok(four));
    assert!(!ProtoEntry::Core(CoreEntry::Rest(q)).is_fretted());
}

#[test]
fn chords_and_romans_convert_with_their_duration() {
    let h = Duration::Simple(Units::Half);
    let chord = Chord { root: Syllable::Fa, minor: false };
    assert_eq!(CoreEntry::from((chord, h)), CoreEntry::Chord(chord, h));
    let roman = Roman { root: Syllable::La, minor: true };
    let e = CoreEntry::from((roman, h));
    assert!(e.is_roman());
    assert_eq!(e.duration(), h);
}
