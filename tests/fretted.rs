use notation::error::ErrorKind;
use notation::fretted::{
    Finger, Fretboard, Fretboard4, Fretboard6, FrettedEntry, HandShape, HandShape6, PickEvent,
    StrumEvent,
};
use notation::duration::{Duration, Units};
use notation::pitch::{Note, Octave, Pitch, PitchName, PitchSign};

fn note(octave: Octave, name: PitchName, sign: PitchSign) -> Note {
    Note::new(octave, Pitch::new(name, sign))
}

#[test]
fn standard_guitar_fret_notes() {
    let board = Fretboard6::standard().unwrap();
    assert_eq!(board.tuning.len(), 6);
    assert_eq!(board.calc_fret_note(0, 0), Ok(note(Octave::P4, PitchName::E, PitchSign::Natural)));
    assert_eq!(board.calc_fret_note(5, 3), Ok(note(Octave::P2, PitchName::G, PitchSign::Natural)));
    assert_eq!(board.calc_fret_note(4, 3), Ok(note(Octave::P3, PitchName::C, PitchSign::Natural)));
    assert_eq!(board.calc_fret_note(6, 0), Err(ErrorKind::UnsupportedConfiguration));
    assert_eq!(board.calc_fret_note(0, 23), Err(ErrorKind::UnsupportedConfiguration));
}

#[test]
fn capo_shifts_every_string() {
    let standard = Fretboard6::standard().unwrap();
    let board = Fretboard6::new(standard.tuning.clone(), 22, 2).unwrap();
    assert_eq!(board.calc_fret_note(1, 0), Ok(note(Octave::P4, PitchName::C, PitchSign::Sharp)));
    assert_eq!(board.calc_fret_note(5, 1), Ok(note(Octave::P2, PitchName::G, PitchSign::Natural)));
    assert_eq!(board.calc_fret_note(0, 21), Err(ErrorKind::UnsupportedConfiguration));
}

#[test]
fn bass_tuning() {
    let board = Fretboard4::standard().unwrap();
    assert_eq!(board.calc_fret_note(3, 0), Ok(note(Octave::P1, PitchName::E, PitchSign::Natural)));
    assert_eq!(board.calc_fret_note(4, 0), Err(ErrorKind::UnsupportedConfiguration));
}

#[test]
fn unsupported_string_counts_are_refused() {
    assert_eq!(Fretboard::<5>::standard(), Err(ErrorKind::UnsupportedConfiguration));
    let frets = vec![Some(0); 5];
    assert_eq!(HandShape::<5>::from_frets(frets), Err(ErrorKind::UnsupportedConfiguration));
    let tuning = Fretboard6::standard().unwrap().tuning;
    assert_eq!(Fretboard::<4>::new(tuning.clone(), 20, 0), Err(ErrorKind::UnsupportedConfiguration));
    assert_eq!(Fretboard6::new(tuning, 5, 7), Err(ErrorKind::UnsupportedConfiguration));
}

#[test]
fn hand_shape_lengths() {
    let shape = HandShape6::from_frets(vec![Some(3), Some(0), Some(0), Some(0), Some(2), Some(3)])
        .unwrap();
    assert_eq!(shape.string_fret(4), Ok(Some(2)));
    assert_eq!(shape.string_finger(4), Ok(None));
    assert_eq!(shape.string_fret(6), Err(ErrorKind::UnsupportedConfiguration));
    assert_eq!(shape.string_finger(9), Err(ErrorKind::UnsupportedConfiguration));
    assert_eq!(shape.fingers.len(), 6);
    assert_eq!(
        HandShape6::new(vec![None; 6], vec![Some(Finger::Index); 5]),
        Err(ErrorKind::UnsupportedConfiguration)
    );
    let fingered = HandShape6::new(vec![Some(1); 6], vec![Some(Finger::Index); 6]).unwrap();
    assert_eq!(fingered.string_finger(0), Ok(Some(Finger::Index)));
}

#[test]
fn picks_and_strums_name_existing_strings() {
    let q = Duration::Simple(Units::Quarter);
    let ok = FrettedEntry::<4>::new_pick(PickEvent::new(vec![0, 3]), q);
    assert!(ok.as_ref().map(|e| e.is_pick()).unwrap_or(false));
    assert_eq!(
        FrettedEntry::<4>::new_pick(PickEvent::new(vec![4]), q),
        Err(ErrorKind::UnsupportedConfiguration)
    );
    let strum = FrettedEntry::<6>::new_strum(StrumEvent::new(vec![0, 1, 2, 3, 4, 5]), q).unwrap();
    assert!(strum.is_strum());
    assert_eq!(strum.duration(), q);
    assert!(!strum.is_shape());
    assert!(!strum.is_fretboard());
}
