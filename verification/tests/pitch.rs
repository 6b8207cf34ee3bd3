use songwalker_core::pitch::note_to_midi;

#[test]
fn note_to_midi_basic() {
    assert_eq!(note_to_midi("A4"), Some(69));
    assert_eq!(note_to_midi("C4"), Some(60));
    assert_eq!(note_to_midi("C0"), Some(12));
    assert_eq!(note_to_midi("C-1"), Some(0));
}

#[test]
fn note_to_midi_accidentals() {
    // F#4 and Gb4 are the same pitch.
    assert_eq!(note_to_midi("F#4"), Some(66));
    assert_eq!(note_to_midi("Gb4"), Some(66));
    assert_eq!(note_to_midi("Bb5"), Some(82));
    assert_eq!(note_to_midi("C#3"), Some(49));
}

#[test]
fn note_to_midi_edges() {
    assert_eq!(note_to_midi(""), None);
    assert_eq!(note_to_midi("H4"), None);
    assert_eq!(note_to_midi("C"), None);
    assert_eq!(note_to_midi("C#"), None);
    assert_eq!(note_to_midi("Cx4"), None);
    assert_eq!(note_to_midi("G9"), Some(127));
    assert_eq!(note_to_midi("B#0"), Some(24));
    assert_eq!(note_to_midi("Cb0"), Some(11));
    // An octave too large for i32 does not parse.
    assert_eq!(note_to_midi("C99999999999"), None);
}

#[test]
fn note_to_midi_plus_octave() {
    // The octave accepts an explicit plus sign, as integer parsing does.
    assert_eq!(note_to_midi("C+4"), Some(60));
}
