use vstd::prelude::*;

use vstd::arithmetic::div_mod::lemma_div_is_ordered;

verus! {

/// Width of one step of the frequency ladder, in millihertz.
pub const FREQ_STEP_MILLIHZ: u32 = 2000;

/// Number of steps above zero on the frequency ladder.
pub const TONE_FREQ_STEPS: u32 = 8192;

/// Highest frequency on the ladder, in millihertz.
pub const FREQ_MAX_MILLIHZ: u32 = 16384000;

/// Highest MIDI code that the tuning table covers.
pub const MIDI_CODE_MAX: u8 = 143;

/// Equal-tempered frequencies of the twelve semitones of the highest octave
/// (MIDI codes 132 to 143, A above it at 28160 Hz), in millihertz.
pub open spec fn top_octave(semitone: int) -> int {
    if semitone == 0 { 16744036 }
    else if semitone == 1 { 17739688 }
    else if semitone == 2 { 18794545 }
    else if semitone == 3 { 19912127 }
    else if semitone == 4 { 21096164 }
    else if semitone == 5 { 22350607 }
    else if semitone == 6 { 23679643 }
    else if semitone == 7 { 25087708 }
    else if semitone == 8 { 26579501 }
    else if semitone == 9 { 28160000 }
    else if semitone == 10 { 29834481 }
    else { 31608531 }
}

/// `x` halved `k` times, rounding down at each step: one octave down per halving.
pub open spec fn halve(x: int, k: nat) -> int
    decreases k,
{
    if k == 0 { x } else { halve(x / 2, (k - 1) as nat) }
}

/// Equal-tempered frequency of a MIDI code, in millihertz (MIDI code 69 is 440 Hz).
pub open spec fn midi_frequency(code: int) -> int {
    halve(top_octave(code % 12), (11 - code / 12) as nat)
}

/// MIDI code of a note given by semitone (C is 0) and octave (C4 is code 60).
pub open spec fn note_code(note: int, octave: int) -> int {
    (octave + 1) * 12 + note
}

/// The ladder step nearest to a frequency, saturating at the top of the ladder.
pub open spec fn quantize_spec(millihertz: int) -> int {
    let step = (millihertz + FREQ_STEP_MILLIHZ / 2) / FREQ_STEP_MILLIHZ as int;
    if step > TONE_FREQ_STEPS { FREQ_MAX_MILLIHZ as int } else { step * FREQ_STEP_MILLIHZ }
}

/// Whether a frequency lies on the ladder.
pub open spec fn on_ladder(millihertz: int) -> bool {
    &&& 0 <= millihertz <= FREQ_MAX_MILLIHZ
    &&& millihertz % FREQ_STEP_MILLIHZ as int == 0
}

fn top_octave_of(semitone: u8) -> (r: u32)
    requires
        semitone < 12,
    ensures
        r == top_octave(semitone as int),
{
    match semitone {
        0 => 16744036,
        1 => 17739688,
        2 => 18794545,
        3 => 19912127,
        4 => 21096164,
        5 => 22350607,
        6 => 23679643,
        7 => 25087708,
        8 => 26579501,
        9 => 28160000,
        10 => 29834481,
        _ => 31608531,
    }
}

/// Frequency of a MIDI code, in millihertz.
pub fn midi_frequency_of(code: u8) -> (r: u32)
    requires
        code <= MIDI_CODE_MAX,
    ensures
        r == midi_frequency(code as int),
{
    let top = top_octave_of(code % 12);
    let octaves_down: u8 = 11 - code / 12;
    let mut r: u32 = top;
    let mut i: u8 = 0;
    while i < octaves_down
        invariant
            i <= octaves_down,
            octaves_down == 11 - code / 12,
            halve(r as int, (octaves_down - i) as nat) == midi_frequency(code as int),
        decreases octaves_down - i,
    {
        assert(halve(r as int, (octaves_down - i) as nat) == halve(r as int / 2, (octaves_down - i - 1) as nat));
        r = r / 2;
        i = i + 1;
    }
    r
}

/// MIDI code of a note and an octave, each clamped into its range (semitone 0 to 11,
/// octave 0 to 10).
pub fn get_midi_note(note: i32, octave: i32) -> (r: u8)
    ensures
        r == note_code(
            if note < 0 { 0 } else if note > 11 { 11 } else { note as int },
            if octave < 0 { 0 } else if octave > 10 { 10 } else { octave as int },
        ),
        r <= MIDI_CODE_MAX,
{
    let n: u8 = if note < 0 { 0 } else if note > 11 { 11 } else { note as u8 };
    let o: u8 = if octave < 0 { 0 } else if octave > 10 { 10 } else { octave as u8 };
    (o + 1) * 12 + n
}

/// Quantizes a frequency onto the nearest step of the ladder.
pub fn quantize_frequency(millihertz: u32) -> (r: u32)
    ensures
        r == quantize_spec(millihertz as int),
        on_ladder(r as int),
{
    let step: u64 = (millihertz as u64 + (FREQ_STEP_MILLIHZ / 2) as u64) / FREQ_STEP_MILLIHZ as u64;
    if step > TONE_FREQ_STEPS as u64 {
        FREQ_MAX_MILLIHZ
    } else {
        assert(step * 2000 <= 16384000 && (step * 2000) % 2000 == 0) by (nonlinear_arith)
            requires step <= 8192;
        (step * FREQ_STEP_MILLIHZ as u64) as u32
    }
}

/// Every quantized frequency lies on the ladder.
pub proof fn lemma_quantize_on_ladder(millihertz: int)
    requires
        millihertz >= 0,
    ensures
        on_ladder(quantize_spec(millihertz)),
{
    let step = (millihertz + 1000) / 2000;
    assert(step >= 0);
    if step <= 8192 {
        assert(step * 2000 <= 16384000 && (step * 2000) % 2000 == 0) by (nonlinear_arith)
            requires 0 <= step <= 8192;
    }
}

/// Quantization is monotonic: a higher request never gives a lower frequency.
pub proof fn lemma_quantize_monotonic(a: int, b: int)
    requires
        0 <= a <= b,
    ensures
        quantize_spec(a) <= quantize_spec(b),
{
    lemma_div_is_ordered(a + 1000, b + 1000, 2000);
    let sa = (a + 1000) / 2000;
    let sb = (b + 1000) / 2000;
    assert(sa * 2000 <= sb * 2000) by (nonlinear_arith)
        requires sa <= sb;
}

} // verus!
