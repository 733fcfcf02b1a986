use notation::duration::{Duration, DurationTweak, Signature, Tempo, Units, UnsupportedTweak};

fn all_durations() -> Vec<Duration> {
    let units = [
        Units::Whole,
        Units::Half,
        Units::Quarter,
        Units::Eighth,
        Units::Sixteenth,
        Units::ThirtySecond,
    ];
    let mut v = vec![Duration::Zero];
    for u in units {
        v.push(Duration::Simple(u));
        v.push(Duration::Dotted(u));
    }
    v
}

const TWEAKS: [DurationTweak; 4] = [
    DurationTweak::Double,
    DurationTweak::Halve,
    DurationTweak::AddDot,
    DurationTweak::RemoveDot,
];

#[test]
fn tweak_then_inverse_restores_or_both_fail() {
    let all = all_durations();
    for d in all.iter() {
        for t in TWEAKS {
            match d.tweak(t) {
                Ok(e) => assert_eq!(e.tweak(t.inverse()), Ok(*d)),
                Err(_) => {
                    for e in all.iter() {
                        assert_ne!(e.tweak(t.inverse()), Ok(*d));
                    }
                }
            }
        }
    }
}

#[test]
fn tweaks_move_one_denomination() {
    let quarter = Duration::Simple(Units::Quarter);
    assert_eq!(quarter.tweak(DurationTweak::Double), Ok(Duration::Simple(Units::Half)));
    assert_eq!(quarter.tweak(DurationTweak::Halve), Ok(Duration::Simple(Units::Eighth)));
    assert_eq!(quarter.tweak(DurationTweak::AddDot), Ok(Duration::Dotted(Units::Quarter)));
    let dotted = Duration::Dotted(Units::Eighth);
    assert_eq!(dotted.tweak(DurationTweak::Double), Ok(Duration::Dotted(Units::Quarter)));
    assert_eq!(dotted.tweak(DurationTweak::RemoveDot), Ok(Duration::Simple(Units::Eighth)));
}

#[test]
fn tweaks_fail_at_the_boundaries() {
    let shortest = Duration::Simple(Units::ThirtySecond);
    assert_eq!(
        shortest.tweak(DurationTweak::Halve),
        Err(UnsupportedTweak { duration: shortest, tweak: DurationTweak::Halve })
    );
    let longest = Duration::Simple(Units::Whole);
    assert!(longest.tweak(DurationTweak::Double).is_err());
    assert!(Duration::Dotted(Units::Half).tweak(DurationTweak::AddDot).is_err());
    assert!(Duration::Simple(Units::Half).tweak(DurationTweak::RemoveDot).is_err());
    assert!(Duration::Zero.tweak(DurationTweak::Double).is_err());
}

#[test]
fn lengths_in_sixty_fourths() {
    assert_eq!(Duration::Zero.length(), 0);
    assert_eq!(Duration::Simple(Units::Whole).length(), 64);
    assert_eq!(Duration::Dotted(Units::Quarter).length(), 24);
    assert_eq!(Duration::Dotted(Units::ThirtySecond).length(), 3);
    assert!(Duration::Simple(Units::Eighth).is_shorter_than(&Duration::Dotted(Units::Eighth)));
    assert!(!Duration::Simple(Units::Half).is_shorter_than(&Duration::Simple(Units::Quarter)));
}

#[test]
fn default_duration_is_a_quarter() {
    assert_eq!(Duration::default(), Duration::Simple(Units::Quarter));
}

#[test]
fn signature_bar_length() {
    let sig = Signature::new(Units::Quarter, 3);
    assert_eq!(sig.bar_length(), 48);
    assert_eq!(Signature::new(Units::Whole, 255).bar_length(), 16320);
    assert_eq!(Tempo::new(120).bpm, 120);
}
