use notation::context::{Context, ContextDsl, FrettedContext, OctaveTweak};
use notation::duration::{Duration, DurationTweak, Units};
use notation::entry::CoreEntry;
use notation::error::{ErrorKind, ParseError};
use notation::fretted::FrettedEntry;
use notation::parser::{parse_partial, parse_tab, parse_with_context};
use notation::pitch::{Note, Octave, Pitch, PitchName, PitchSign};
use notation::proto::ProtoEntry;
use notation::scale::{Key, Scale, Syllable};
use notation::shape::ShapeDsl;

fn natural(octave: Octave, name: PitchName) -> Note {
    Note::new(octave, Pitch::new(name, PitchSign::Natural))
}

fn annotation(name: &str, value: &str) -> ProtoEntry {
    ProtoEntry::Extra(format!("dsl::context::{}", name), String::from(value))
}

fn solfege_note(e: &ProtoEntry) -> Note {
    e.as_core().and_then(|c| c.as_solfege()).map(|s| s.note).unwrap()
}

fn shape_frets(e: &ProtoEntry) -> Vec<Option<u8>> {
    match e {
        ProtoEntry::Fretted6(FrettedEntry::Shape(s, _)) => s.frets.clone(),
        ProtoEntry::Fretted4(FrettedEntry::Shape(s, _)) => s.frets.clone(),
        _ => panic!("not a shape: {:?}", e),
    }
}

#[test]
fn solfege_degrees_resolve_in_c_major() {
    let entries = parse_tab("$key=C $scale=major 1 2 3").unwrap();
    assert_eq!(entries.len(), 5);
    assert_eq!(entries[0], annotation("key", "C"));
    assert_eq!(entries[1], annotation("scale", "major"));
    let expected = [PitchName::C, PitchName::D, PitchName::E];
    for (e, name) in entries[2..].iter().zip(expected) {
        let core = e.as_core().unwrap();
        assert!(core.is_solfege());
        assert_eq!(core.duration(), Duration::Simple(Units::Quarter));
        assert_eq!(solfege_note(e), natural(Octave::P4, name));
    }
    let first = entries[2].as_core().unwrap().as_solfege().unwrap();
    assert_eq!(first.syllable_note.syllable, Syllable::Do);
}

#[test]
fn six_string_shape_is_stored_reversed() {
    let entries = parse_tab("$string_num=6 (3 2 0 0 0 3)").unwrap();
    assert_eq!(entries.len(), 2);
    assert_eq!(entries[0], annotation("string_num", "6"));
    assert!(entries[1].is_fretted6());
    assert!(entries[1].is_fretted_shape());
    let frets = shape_frets(&entries[1]);
    assert_eq!(frets, vec![Some(3), Some(0), Some(0), Some(0), Some(2), Some(3)]);
    let src = "3 2 0 0 0 1";
    let (shape, next) = ShapeDsl::parse_without_paren(src.as_bytes(), 0, false, false).unwrap();
    assert_eq!(next, src.len());
    assert_eq!(shape.frets, vec![Some(1), Some(0), Some(0), Some(0), Some(2), Some(3)]);
    assert_eq!(shape.frets[0], Some(1));
    assert_eq!(shape.frets[5], Some(3));
    assert!(shape.duration_tweak.is_none());
}

#[test]
fn shape_token_with_unplayed_strings_and_tweak() {
    let entries = parse_tab("(_ 3 2 0 1 0 *)").unwrap();
    let frets = shape_frets(&entries[0]);
    assert_eq!(frets, vec![Some(0), Some(1), Some(0), Some(2), Some(3), None]);
    assert_eq!(entries[0].duration(), Duration::Simple(Units::Half));
    let (shape, next) = ShapeDsl::parse_without_paren(b"12 _/)", 0, true, true).unwrap();
    assert_eq!(shape.frets, vec![None, Some(12)]);
    assert_eq!(shape.duration_tweak, Some(DurationTweak::Halve));
    assert_eq!(next, 5);
}

#[test]
fn shape_needs_paren_in_multied_mode() {
    let r = ShapeDsl::parse_without_paren(b"3 2", 0, true, false);
    assert_eq!(r.err(), Some(ParseError::new(ErrorKind::MalformedToken, 0)));
}

#[test]
fn four_string_shapes_and_picks() {
    let entries = parse_tab("$string_num=4 (0 2 2 0) p14/ s1234").unwrap();
    assert_eq!(entries.len(), 4);
    assert!(entries[1].is_fretted4());
    assert_eq!(shape_frets(&entries[1]), vec![Some(0), Some(2), Some(2), Some(0)]);
    match &entries[2] {
        ProtoEntry::Fretted4(FrettedEntry::Pick(p, d)) => {
            assert_eq!(p.strings, vec![0, 3]);
            assert_eq!(*d, Duration::Simple(Units::Eighth));
        }
        other => panic!("not a pick: {:?}", other),
    }
    assert!(entries[3].is_fretted_strum());
}

#[test]
fn unknown_directive_reports_its_offset() {
    let r = parse_tab("1 2 $tempo=120 3");
    assert_eq!(r, Err(ParseError { kind: ErrorKind::InvalidDirective, offset: 4 }));
    let (done, err) = parse_partial("1 2 $tempo=120 3");
    assert_eq!(done.len(), 2);
    assert_eq!(err, Some(ParseError::new(ErrorKind::InvalidDirective, 4)));
    let d = ContextDsl::parse(b"  $foo=1", 2);
    assert_eq!(d, Err(ParseError::new(ErrorKind::InvalidDirective, 2)));
}

#[test]
fn malformed_directive_value() {
    assert_eq!(
        parse_tab("$key=H"),
        Err(ParseError::new(ErrorKind::InvalidDirective, 0))
    );
    assert_eq!(
        parse_tab(" $duration=3"),
        Err(ParseError::new(ErrorKind::InvalidDirective, 1))
    );
    assert_eq!(parse_tab("$scale"), Err(ParseError::new(ErrorKind::InvalidDirective, 0)));
}

#[test]
fn directives_read_their_values() {
    let src = b"$key=Bb $scale=minor_penta $duration=8. $octave=3 $string_num=4";
    let mut pos = 0;
    let mut ctx = Context::default();
    let mut seen = vec![];
    while pos < src.len() {
        assert!(ContextDsl::peek(src, pos));
        let (d, next) = ContextDsl::parse(src, pos).unwrap();
        d.apply(&mut ctx).unwrap();
        seen.push(d);
        pos = next + 1;
    }
    assert_eq!(seen[0], ContextDsl::Key(Key::new(Pitch::new(PitchName::B, PitchSign::Flat))));
    assert_eq!(ctx.scale(), Scale::MinorPentatonic);
    assert_eq!(ctx.duration(), Duration::Dotted(Units::Eighth));
    assert_eq!(ctx.base_octave(), Octave::P3);
    assert_eq!(ctx.fretted(), FrettedContext { string_num: 4 });
    assert!(!ContextDsl::peek(b"1", 0));
}

#[test]
fn unsupported_string_count_fails_where_it_is_set() {
    let r = parse_tab("1 $string_num=5 2");
    assert_eq!(r, Err(ParseError::new(ErrorKind::UnsupportedConfiguration, 2)));
    let mut ctx = Context::default();
    let r = ContextDsl::StringNum(7).apply(&mut ctx);
    assert_eq!(r, Err(ErrorKind::UnsupportedConfiguration));
    assert_eq!(ctx, Context::default());
}

#[test]
fn shape_with_wrong_string_count_fails() {
    assert_eq!(
        parse_tab("(1 2 3)"),
        Err(ParseError::new(ErrorKind::UnsupportedConfiguration, 0))
    );
    assert_eq!(parse_tab("p7"), Err(ParseError::new(ErrorKind::UnsupportedConfiguration, 0)));
}

#[test]
fn duration_tweak_applies_to_one_token() {
    let entries = parse_tab("1* 2 3. 0/").unwrap();
    assert_eq!(entries[0].duration(), Duration::Simple(Units::Half));
    assert_eq!(entries[1].duration(), Duration::Simple(Units::Quarter));
    assert_eq!(entries[2].duration(), Duration::Dotted(Units::Quarter));
    assert_eq!(entries[3].as_core(), Some(&CoreEntry::Rest(Duration::Simple(Units::Eighth))));
}

#[test]
fn unsupported_tweak_fails() {
    let r = parse_tab("$duration=32 1 2/");
    assert_eq!(r, Err(ParseError::new(ErrorKind::UnsupportedTweak, 15)));
    assert_eq!(parse_tab("1~"), Err(ParseError::new(ErrorKind::UnsupportedTweak, 0)));
}

#[test]
fn octave_marks_shift_one_degree() {
    let entries = parse_tab("$key=G 1' 5,").unwrap();
    assert_eq!(solfege_note(&entries[1]), natural(Octave::P5, PitchName::G));
    assert_eq!(solfege_note(&entries[2]), natural(Octave::P4, PitchName::D));
    assert_eq!(
        parse_tab("$octave=9 1'"),
        Err(ParseError::new(ErrorKind::UnsupportedConfiguration, 10))
    );
}

#[test]
fn degrees_beyond_the_scale_fail() {
    assert_eq!(
        parse_tab("$scale=major_penta 6"),
        Err(ParseError::new(ErrorKind::UnknownSyllable, 19))
    );
    assert_eq!(parse_tab("8"), Err(ParseError::new(ErrorKind::UnknownSyllable, 0)));
}

#[test]
fn malformed_tokens_fail() {
    assert_eq!(parse_tab("1 x"), Err(ParseError::new(ErrorKind::MalformedToken, 2)));
    assert_eq!(parse_tab("12"), Err(ParseError::new(ErrorKind::MalformedToken, 0)));
    assert_eq!(parse_tab("(3 2 0 0 0 3"), Err(ParseError::new(ErrorKind::MalformedToken, 12)));
    assert_eq!(parse_tab("(3 2 0 0 0 300)"), Err(ParseError::new(ErrorKind::MalformedToken, 11)));
    assert_eq!(parse_tab("p"), Err(ParseError::new(ErrorKind::MalformedToken, 0)));
    assert_eq!(parse_tab("0'"), Err(ParseError::new(ErrorKind::MalformedToken, 0)));
}

#[test]
fn empty_source_gives_no_entries() {
    assert_eq!(parse_tab(""), Ok(vec![]));
    assert_eq!(parse_tab(" \n\t "), Ok(vec![]));
}

#[test]
fn context_is_threaded_through_one_parse() {
    let mut ctx = Context::default();
    let (entries, err) = parse_with_context(b"$key=D $duration=2 3", &mut ctx);
    assert!(err.is_none());
    assert_eq!(entries.len(), 3);
    assert_eq!(entries[1], annotation("duration", "2"));
    assert_eq!(solfege_note(&entries[2]), Note::new(Octave::P4, Pitch::new(PitchName::F, PitchSign::Sharp)));
    assert_eq!(ctx.key(), Key::new(Pitch::new(PitchName::D, PitchSign::Natural)));
    assert_eq!(ctx.duration(), Duration::Simple(Units::Half));
    let fresh = parse_tab("3").unwrap();
    assert_eq!(solfege_note(&fresh[0]), natural(Octave::P4, PitchName::E));
}

#[test]
fn context_calc_note_and_octave() {
    let ctx = Context::default();
    assert_eq!(ctx.octave(&Some(OctaveTweak::Lower)), Ok(Octave::P3));
    assert_eq!(ctx.calc_note(&None, &Syllable::La), Ok(natural(Octave::P4, PitchName::A)));
    assert_eq!(ctx.calc_note(&None, &Syllable::Fi), Err(ErrorKind::UnknownSyllable));
    assert_eq!(
        ctx.tweaked_duration(&Some(DurationTweak::Double)),
        Ok(Duration::Simple(Units::Half))
    );
    assert_eq!(ctx.duration(), Duration::Simple(Units::Quarter));
}

#[test]
fn marks_words_and_extras() {
    let entries = parse_tab("#verse \"la\" \"doo\"* @capo=2 1").unwrap();
    assert_eq!(entries.len(), 5);
    assert!(entries[0].is_mark_str("verse"));
    assert_eq!(entries[0].duration(), Duration::Zero);
    assert_eq!(entries[1], ProtoEntry::Word(String::from("la"), Duration::Simple(Units::Quarter)));
    assert_eq!(entries[2], ProtoEntry::Word(String::from("doo"), Duration::Simple(Units::Half)));
    assert_eq!(entries[3], ProtoEntry::Extra(String::from("capo"), String::from("2")));
    assert!(entries[4].is_core());
}

#[test]
fn malformed_annotations_fail() {
    assert_eq!(parse_tab("#"), Err(ParseError::new(ErrorKind::MalformedToken, 0)));
    assert_eq!(parse_tab("1 \"open"), Err(ParseError::new(ErrorKind::MalformedToken, 2)));
    assert_eq!(parse_tab("\"a\"b"), Err(ParseError::new(ErrorKind::MalformedToken, 0)));
    assert_eq!(parse_tab("@novalue"), Err(ParseError::new(ErrorKind::MalformedToken, 0)));
    assert_eq!(parse_tab("#caf\u{e9}"), Err(ParseError::new(ErrorKind::MalformedToken, 0)));
}

#[test]
fn directives_leave_annotations() {
    let entries = parse_tab("$string_num=4 $string_num=6 $octave=3 $key=Eb $duration=8.").unwrap();
    assert_eq!(
        entries,
        vec![
            annotation("string_num", "4"),
            annotation("string_num", "6"),
            annotation("octave", "3"),
            annotation("key", "Eb"),
            annotation("duration", "8."),
        ]
    );
    for e in entries.iter() {
        assert_eq!(e.duration(), Duration::Zero);
    }
    let mut ctx = Context::default();
    let (entries, err) = parse_with_context(b"$key=D", &mut ctx);
    assert!(err.is_none());
    assert_eq!(entries, vec![annotation("key", "D")]);
    assert_eq!(ctx.key(), Key::new(Pitch::new(PitchName::D, PitchSign::Natural)));
}

#[test]
fn fret_literals_may_have_leading_zeros() {
    let entries = parse_tab("(0003 2 0 0 0 0255)").unwrap();
    assert_eq!(shape_frets(&entries[0]), vec![Some(255), Some(0), Some(0), Some(0), Some(2), Some(3)]);
    assert_eq!(parse_tab("(3 2 0 0 0 0256)"), Err(ParseError::new(ErrorKind::MalformedToken, 11)));
    let (shape, _) = ShapeDsl::parse_without_paren(b"000000012", 0, false, false).unwrap();
    assert_eq!(shape.frets, vec![Some(12)]);
}
