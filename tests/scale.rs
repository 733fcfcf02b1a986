use notation::pitch::{Note, Octave, Pitch, PitchName, PitchSign, Semitones};
use notation::scale::{Key, Scale, Syllable, SyllableNote, UnknownSyllable};

fn note(octave: Octave, name: PitchName, sign: PitchSign) -> Note {
    Note::new(octave, Pitch::new(name, sign))
}

#[test]
fn major_scale_in_c() {
    let key = Key::default();
    let scale = Scale::Major;
    let mi = scale.calc_note(&key, &SyllableNote::new(Octave::P4, Syllable::Mi));
    assert_eq!(mi, Ok(note(Octave::P4, PitchName::E, PitchSign::Natural)));
    let ti = scale.calc_note(&key, &SyllableNote::new(Octave::P3, Syllable::Ti));
    assert_eq!(ti, Ok(note(Octave::P3, PitchName::B, PitchSign::Natural)));
}

#[test]
fn resolution_carries_into_the_next_octave() {
    let key = Key::new(Pitch::new(PitchName::A, PitchSign::Natural));
    let so = Scale::Major.calc_note(&key, &SyllableNote::new(Octave::P4, Syllable::So));
    assert_eq!(so, Ok(note(Octave::P5, PitchName::E, PitchSign::Natural)));
}

#[test]
fn pitch_class_is_key_plus_interval() {
    let keys = [
        Pitch::new(PitchName::C, PitchSign::Natural),
        Pitch::new(PitchName::E, PitchSign::Flat),
        Pitch::new(PitchName::F, PitchSign::Sharp),
        Pitch::new(PitchName::B, PitchSign::Natural),
    ];
    for scale in [Scale::Major, Scale::Minor, Scale::MajorPentatonic, Scale::MinorPentatonic] {
        for tonic in keys {
            for syllable in scale.get_syllables() {
                let sn = SyllableNote::new(Octave::P3, syllable);
                let n = scale.calc_note(&Key::new(tonic), &sn).unwrap();
                let expected = (Semitones::from(tonic).0 + syllable.interval() as i32) % 12;
                assert_eq!(Semitones::from(n.pitch).0, expected);
            }
        }
    }
}

#[test]
fn minor_scale_uses_lowered_degrees() {
    let key = Key::new(Pitch::new(PitchName::A, PitchSign::Natural));
    let me = Scale::Minor.calc_note(&key, &SyllableNote::new(Octave::P4, Syllable::Me));
    assert_eq!(me, Ok(note(Octave::P5, PitchName::C, PitchSign::Natural)));
}

#[test]
fn undefined_syllable_fails() {
    let r = Scale::Major.calc_note(&Key::default(), &SyllableNote::new(Octave::P4, Syllable::Fi));
    assert_eq!(r, Err(UnknownSyllable { scale: Scale::Major, syllable: Syllable::Fi }));
    assert!(!Scale::MajorPentatonic.has_syllable(Syllable::Fa));
}

#[test]
fn syllables_are_ordered_and_regenerated() {
    let s = Scale::Major.get_syllables();
    assert_eq!(
        s,
        vec![
            Syllable::Do,
            Syllable::Re,
            Syllable::Mi,
            Syllable::Fa,
            Syllable::So,
            Syllable::La,
            Syllable::Ti
        ]
    );
    assert_eq!(Scale::Major.get_syllables(), s);
    assert_eq!(Scale::MinorPentatonic.get_syllables().len(), 5);
    assert_eq!(Scale::Minor.degree_syllable(6), Some(Syllable::Le));
    assert_eq!(Scale::Minor.degree_syllable(8), None);
    assert_eq!(Scale::Minor.degree_syllable(0), None);
}
