use soundchip::note::Note;
use soundchip::tuning::{get_midi_note, midi_frequency_of, quantize_frequency};

#[test]
fn note_codes() {
    assert_eq!(Note::LowerBound.midi_note(), 11);
    assert_eq!(Note::C0.midi_note(), 12);
    assert_eq!(Note::C4.midi_note(), 60);
    assert_eq!(Note::A4.midi_note(), 69);
    assert_eq!(Note::C10.midi_note(), 132);
    assert_eq!(Note::UpperBound.midi_note(), 133);
}

#[test]
fn note_from_code_saturates() {
    assert_eq!(Note::from_code(0), Note::LowerBound);
    assert_eq!(Note::from_code(11), Note::LowerBound);
    assert_eq!(Note::from_code(12), Note::C0);
    assert_eq!(Note::from_code(69), Note::A4);
    assert_eq!(Note::from_code(133), Note::UpperBound);
    assert_eq!(Note::from_code(255), Note::UpperBound);
    for code in 11..=133u8 {
        assert_eq!(Note::from_code(code).midi_note(), code);
    }
}

#[test]
fn note_frequencies() {
    assert_eq!(Note::A4.frequency(), 440000);
    assert_eq!(Note::A5.frequency(), 880000);
    assert_eq!(Note::C0.frequency(), 16351);
    assert_eq!(Note::C4.frequency(), 261625);
    assert_eq!(Note::C10.frequency(), 16744036);
}

#[test]
fn tuning_helpers() {
    assert_eq!(get_midi_note(0, 4), 60);
    assert_eq!(get_midi_note(-1, 11), 132);
    assert_eq!(get_midi_note(11, 9), 131);
    assert_eq!(midi_frequency_of(69), 440000);
    assert_eq!(midi_frequency_of(57), 220000);
    assert_eq!(midi_frequency_of(11), 15433);
    assert_eq!(quantize_frequency(440_999), 440000);
    assert_eq!(quantize_frequency(441_000), 442000);
}
