use notation::pitch::{Note, Octave, Pitch, PitchName, PitchSign, Semitones};

const OCTAVES: [Octave; 10] = [
    Octave::P0,
    Octave::P1,
    Octave::P2,
    Octave::P3,
    Octave::P4,
    Octave::P5,
    Octave::P6,
    Octave::P7,
    Octave::P8,
    Octave::P9,
];

fn canonical_pitches() -> Vec<Pitch> {
    vec![
        Pitch::new(PitchName::C, PitchSign::Natural),
        Pitch::new(PitchName::C, PitchSign::Sharp),
        Pitch::new(PitchName::D, PitchSign::Natural),
        Pitch::new(PitchName::D, PitchSign::Sharp),
        Pitch::new(PitchName::E, PitchSign::Natural),
        Pitch::new(PitchName::F, PitchSign::Natural),
        Pitch::new(PitchName::F, PitchSign::Sharp),
        Pitch::new(PitchName::G, PitchSign::Natural),
        Pitch::new(PitchName::G, PitchSign::Sharp),
        Pitch::new(PitchName::A, PitchSign::Natural),
        Pitch::new(PitchName::A, PitchSign::Sharp),
        Pitch::new(PitchName::B, PitchSign::Natural),
    ]
}

#[test]
fn note_round_trips_through_semitones() {
    for octave in OCTAVES {
        for pitch in canonical_pitches() {
            let note = Note::new(octave, pitch);
            assert_eq!(Note::from(Semitones::from(note)), note);
        }
    }
}

#[test]
fn note_semitones_are_octave_plus_pitch() {
    let a4 = Note::new(Octave::P4, Pitch::new(PitchName::A, PitchSign::Natural));
    assert_eq!(Semitones::from(a4), Semitones(57));
    assert_eq!(Semitones::from(Octave::P3), Semitones(36));
    assert_eq!(Semitones::from(Pitch::new(PitchName::G, PitchSign::Sharp)), Semitones(8));
}

#[test]
fn pitch_semitones_wrap_into_one_octave() {
    assert_eq!(Semitones::from(Pitch::new(PitchName::C, PitchSign::Flat)), Semitones(11));
    assert_eq!(Semitones::from(Pitch::new(PitchName::B, PitchSign::Sharp)), Semitones(0));
    assert_eq!(
        Semitones::from(Pitch::new(PitchName::E, PitchSign::Flat)),
        Semitones::from(Pitch::new(PitchName::D, PitchSign::Sharp))
    );
}

#[test]
fn enharmonic_spelling_comes_back_canonical() {
    let e_flat = Note::new(Octave::P2, Pitch::new(PitchName::E, PitchSign::Flat));
    assert!(!e_flat.pitch.is_canonical_spelling());
    let back = Note::from(Semitones::from(e_flat));
    assert_eq!(back, Note::new(Octave::P2, Pitch::new(PitchName::D, PitchSign::Sharp)));
}

#[test]
fn semitones_outside_the_range_keep_their_pitch_class() {
    let low = Note::from(Semitones(-1));
    assert_eq!(low, Note::new(Octave::P0, Pitch::new(PitchName::B, PitchSign::Natural)));
    let high = Note::from(Semitones(121));
    assert_eq!(high, Note::new(Octave::P9, Pitch::new(PitchName::C, PitchSign::Sharp)));
    assert_eq!(Pitch::from(Semitones(-13)), Pitch::new(PitchName::B, PitchSign::Natural));
}

#[test]
fn octave_levels() {
    assert_eq!(Octave::P7.level(), 7);
    assert_eq!(Octave::from_level(3), Octave::P3);
    assert_eq!(Octave::from_level(200), Octave::P9);
    assert_eq!(Octave::from(Semitones(59)), Octave::P4);
}

#[test]
fn semitone_arithmetic_is_checked() {
    assert_eq!(Semitones(7).checked_add(Semitones(5)), Some(Semitones(12)));
    assert_eq!(Semitones(7).checked_sub(Semitones(12)), Some(Semitones(-5)));
    assert_eq!(Semitones(i32::MAX).checked_add(Semitones(1)), None);
    assert_eq!(Semitones(i32::MIN).checked_sub(Semitones(1)), None);
}

#[test]
fn notes_order_by_semitones() {
    let b3 = Note::new(Octave::P3, Pitch::new(PitchName::B, PitchSign::Natural));
    let c4 = Note::new(Octave::P4, Pitch::new(PitchName::C, PitchSign::Natural));
    let c_flat4 = Note::new(Octave::P4, Pitch::new(PitchName::C, PitchSign::Flat));
    assert!(b3.is_lower_than(&c4));
    assert!(!c4.is_lower_than(&b3));
    assert!(!c4.is_lower_than(&c4));
    assert!(c4.is_lower_than(&c_flat4));
}
