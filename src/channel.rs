use vstd::prelude::*;

use crate::note::{clamp_note_code, NOTE_CODE_MAX, NOTE_CODE_MIN};
use crate::tuning::{
    get_midi_note, midi_frequency, midi_frequency_of, note_code, on_ladder, quantize_frequency,
    quantize_spec,
};

verus! {

/// Largest level of an unsigned 4-bit register.
pub const MAX_U4: u8 = 15;

/// Largest magnitude of a signed 4-bit register, as used for pan.
pub const MAX_I4: i8 = 7;

/// Number of entries of a wavetable.
pub const WAVETABLE_LEN: usize = 16;

/// One full cycle of the phase accumulator: phase is a fraction of this.
pub const PHASE_ONE: u64 = 4294967296;

/// The span of phase that one wavetable entry covers.
pub const PHASE_PER_INDEX: u32 = 268435456;

/// Noise values are fractions of 65536; this one stands for one half.
pub const NOISE_HALF: u16 = 32768;

/// The span of noise that one of the sixteen quantized noise levels covers.
pub const NOISE_PER_LEVEL: u16 = 4096;

/// Denominator of `Tick::mix`: the crossfade of two values over 15 each, weighted over 15.
pub const MIX_SCALE: i32 = 225;

/// Denominator of the pan multipliers.
pub const PAN_SCALE: u8 = 14;

/// What the tone output is generated from.
#[derive(Debug, Default, Clone, Copy, PartialEq, Eq, Structural)]
pub enum WaveMode {
    #[default]
    WaveTable,
    Random1Bit,
    RandomSample,
}

/// What one sample of a channel comes to, in exact fractions.
///
/// The audible output is `mix / 225` shaped by the volume curve at `volume` (or, at
/// volume 0, the previous output decayed), then multiplied by `left / 14` and
/// `right / 14`.
#[derive(Debug, Clone, Copy, PartialEq, Eq, Structural)]
pub struct Tick {
    /// Crossfade of tone and noise, over 225: -225 is -1.0 and 225 is 1.0.
    pub mix: i32,
    /// The committed volume.
    pub volume: u8,
    /// Left multiplier, over 14.
    pub left: u8,
    /// Right multiplier, over 14.
    pub right: u8,
    /// Whether a pending volume or pan was committed on this sample.
    pub committed: bool,
}

/// The mathematical content of a `Tick`.
pub struct TickModel {
    pub mix: int,
    pub volume: int,
    pub left: int,
    pub right: int,
    pub committed: bool,
}

impl View for Tick {
    type V = TickModel;

    open spec fn view(&self) -> TickModel {
        TickModel {
            mix: self.mix as int,
            volume: self.volume as int,
            left: self.left as int,
            right: self.right as int,
            committed: self.committed,
        }
    }
}

/// The state of a channel, over mathematical integers.
pub struct ChannelModel {
    pub wavetable: Seq<u8>,
    pub wave_mode: WaveMode,
    pub volume: int,
    pub pan: int,
    pub noise_mix: int,
    pub queued_volume: Option<int>,
    pub queued_pan: Option<int>,
    /// In millihertz.
    pub frequency: int,
    /// A fraction of `PHASE_ONE`.
    pub phase: int,
    pub last_index: int,
    pub last_sample: int,
    /// Samples since the last wrap of the phase, saturating.
    pub cycle_step: int,
    /// Tone output, over 15.
    pub wave_out: int,
    /// Noise output: -1 or 1, or 0 before the first wavetable-index crossing.
    pub noise_out: int,
}

/// A level clamped into 0 to 15.
pub open spec fn clamp_u4(level: int) -> int {
    if level > MAX_U4 { MAX_U4 as int } else if level < 0 { 0 } else { level }
}

/// A pan clamped into -7 to 7.
pub open spec fn clamp_i4(pan: int) -> int {
    if pan > MAX_I4 { MAX_I4 as int } else if pan < -MAX_I4 { -MAX_I4 as int } else { pan }
}

/// Linear crossfade of a tone (over 15) and a noise value by `noise_mix / 15`, over 225.
pub open spec fn crossfade(wave_out: int, noise_out: int, noise_mix: int) -> int {
    wave_out * (15 - noise_mix) + 15 * noise_out * noise_mix
}

/// The noise output for a white-noise value: below one half gives -1, else 1.
pub open spec fn noise_level(white_noise: int) -> int {
    if white_noise < NOISE_HALF { -1 } else { 1 }
}

/// Phase advance per sample: `frequency / sample_rate` as a fraction of `PHASE_ONE`.
pub open spec fn phase_increment(frequency: int, sample_rate: int) -> int {
    frequency * PHASE_ONE / (sample_rate * 1000)
}

impl ChannelModel {
    pub open spec fn wf(self) -> bool {
        &&& self.wavetable.len() == WAVETABLE_LEN
        &&& 0 <= self.volume <= MAX_U4
        &&& -MAX_I4 <= self.pan <= MAX_I4
        &&& 0 <= self.noise_mix <= MAX_U4
        &&& (self.queued_volume matches Some(v) ==> 0 <= v <= MAX_U4)
        &&& (self.queued_pan matches Some(p) ==> -MAX_I4 <= p <= MAX_I4)
        &&& on_ladder(self.frequency)
        &&& 0 <= self.phase < PHASE_ONE
        &&& 0 <= self.last_index < WAVETABLE_LEN
        &&& 0 <= self.last_sample <= MAX_U4
        &&& 0 <= self.cycle_step <= u64::MAX
        &&& -15 <= self.wave_out <= 15
        &&& -1 <= self.noise_out <= 1
    }

    /// The wavetable index that the phase points at.
    pub open spec fn index(self) -> int {
        self.phase / PHASE_PER_INDEX as int
    }

    /// Whether this sample crosses into another wavetable index.
    pub open spec fn is_crossing(self) -> bool {
        self.index() != self.last_index
    }

    /// Whether pending volume and pan are applied on this sample: the first
    /// wavetable-index crossing after a wrap of the phase.
    pub open spec fn is_commit_point(self) -> bool {
        self.is_crossing() && self.cycle_step == 0
    }

    /// Pending volume and pan applied, at a commit point.
    pub open spec fn committed(self) -> Self {
        if self.is_commit_point() {
            ChannelModel {
                volume: match self.queued_volume { Some(v) => v, None => self.volume },
                pan: match self.queued_pan { Some(p) => p, None => self.pan },
                queued_volume: None,
                queued_pan: None,
                ..self
            }
        } else {
            self
        }
    }

    /// The 4-bit tone level for a wavetable index and a structured-noise value.
    pub open spec fn tone_level(self, index: int, lfsr_noise: int) -> int {
        match self.wave_mode {
            WaveMode::WaveTable => clamp_u4(self.wavetable[index] as int),
            WaveMode::Random1Bit => if lfsr_noise < NOISE_HALF { 0 } else { MAX_U4 as int },
            WaveMode::RandomSample => lfsr_noise / NOISE_PER_LEVEL as int,
        }
    }

    /// Tone and noise outputs refreshed, at a wavetable-index crossing.
    pub open spec fn refreshed(self, white_noise: int, lfsr_noise: int) -> Self {
        if self.is_crossing() {
            let level = self.tone_level(self.index(), lfsr_noise);
            ChannelModel {
                last_index: self.index(),
                noise_out: noise_level(white_noise),
                last_sample: level,
                wave_out: if level != self.last_sample { 2 * level - 15 } else { self.wave_out },
                ..self
            }
        } else {
            self
        }
    }

    /// The phase advanced by one sample; a wrap zeroes the cycle step.
    pub open spec fn stepped(self, sample_rate: int) -> Self {
        let sum = self.phase + phase_increment(self.frequency, sample_rate);
        if sum >= PHASE_ONE {
            ChannelModel { phase: sum % PHASE_ONE as int, cycle_step: 0, ..self }
        } else {
            ChannelModel {
                phase: sum,
                cycle_step: if self.cycle_step < u64::MAX { self.cycle_step + 1 } else { self.cycle_step },
                ..self
            }
        }
    }

    /// The state after one sample.
    pub open spec fn advance(self, sample_rate: int, white_noise: int, lfsr_noise: int) -> Self {
        self.committed().refreshed(white_noise, lfsr_noise).stepped(sample_rate)
    }

    /// What one sample comes to.
    pub open spec fn output(self, white_noise: int, lfsr_noise: int) -> TickModel {
        let s = self.committed().refreshed(white_noise, lfsr_noise);
        TickModel {
            mix: crossfade(s.wave_out, s.noise_out, s.noise_mix),
            volume: s.volume,
            left: MAX_I4 - s.pan,
            right: MAX_I4 + s.pan,
            committed: self.is_commit_point() && (self.queued_volume is Some || self.queued_pan is Some),
        }
    }

    pub open spec fn with_volume(self, volume: int) -> Self {
        ChannelModel { queued_volume: Some(clamp_u4(volume)), ..self }
    }

    pub open spec fn with_pan(self, pan: int) -> Self {
        ChannelModel { queued_pan: Some(clamp_i4(pan)), ..self }
    }

    pub open spec fn with_noise_mix(self, noise_mix: int) -> Self {
        ChannelModel { noise_mix: clamp_u4(noise_mix), ..self }
    }

    pub open spec fn with_frequency(self, millihertz: int) -> Self {
        ChannelModel { frequency: quantize_spec(millihertz), ..self }
    }

    /// A new channel: silent, volume and pan pending at 0, a sawtooth wavetable, at C4.
    pub open spec fn initial() -> Self {
        ChannelModel {
            wavetable: Seq::new(16, |i: int| i as u8),
            wave_mode: WaveMode::WaveTable,
            volume: 0,
            pan: 0,
            noise_mix: 0,
            queued_volume: Some(0),
            queued_pan: Some(0),
            frequency: quantize_spec(midi_frequency(note_code(0, 4))),
            phase: 0,
            last_index: 0,
            last_sample: 0,
            cycle_step: 0,
            wave_out: 0,
            noise_out: 0,
        }
    }
}

/// A single sound channel. It always plays: silence is volume 0. Volume and pan
/// changes wait for the start of the next waveform period; noise mix and frequency
/// apply at once.
#[derive(Debug)]
pub struct Channel {
    /// Sixteen 4-bit levels, one waveform period; entries above 15 read as 15.
    /// Only read in `WaveMode::WaveTable`.
    pub wavetable: [u8; 16],
    pub wave_mode: WaveMode,
    volume: u8,
    pan: i8,
    noise_mix: u8,
    queued_volume: Option<u8>,
    queued_pan: Option<i8>,
    wave_out: i8,
    noise_out: i8,
    left_mult: u8,
    right_mult: u8,
    frequency: u32,
    phase: u32,
    last_sample_index: usize,
    last_sample: u8,
    cycle_step: u64,
}

impl View for Channel {
    type V = ChannelModel;

    closed spec fn view(&self) -> ChannelModel {
        ChannelModel {
            wavetable: self.wavetable@,
            wave_mode: self.wave_mode,
            volume: self.volume as int,
            pan: self.pan as int,
            noise_mix: self.noise_mix as int,
            queued_volume: match self.queued_volume { Some(v) => Some(v as int), None => None },
            queued_pan: match self.queued_pan { Some(p) => Some(p as int), None => None },
            frequency: self.frequency as int,
            phase: self.phase as int,
            last_index: self.last_sample_index as int,
            last_sample: self.last_sample as int,
            cycle_step: self.cycle_step as int,
            wave_out: self.wave_out as int,
            noise_out: self.noise_out as int,
        }
    }
}

impl Channel {
    /// The model is well formed and the pan multipliers follow the committed pan.
    pub closed spec fn wf(&self) -> bool {
        &&& self@.wf()
        &&& self.left_mult == MAX_I4 - self.pan
        &&& self.right_mult == MAX_I4 + self.pan
    }

    /// Current frequency, in millihertz.
    pub fn frequency(&self) -> (r: u32)
        ensures
            r == self@.frequency,
    {
        self.frequency
    }

    /// The committed volume.
    pub fn volume(&self) -> (r: u8)
        ensures
            r == self@.volume,
    {
        self.volume
    }

    /// The committed stereo pan; zero is centered.
    pub fn pan(&self) -> (r: i8)
        ensures
            r == self@.pan,
    {
        self.pan
    }

    /// Current noise mix: 0 is pure tone, 15 pure noise.
    pub fn noise_mix(&self) -> (r: u8)
        ensures
            r == self@.noise_mix,
    {
        self.noise_mix
    }

    /// Queues a volume (clamped to 15), applied at the next commit point.
    pub fn set_volume(&mut self, volume: u8)
        requires
            old(self).wf(),
        ensures
            final(self).wf(),
            final(self)@ == old(self)@.with_volume(volume as int),
    {
        let volume = if volume > MAX_U4 { MAX_U4 } else { volume };
        self.queued_volume = Some(volume);
    }

    /// Queues a stereo pan (clamped to -7..7), applied at the next commit point.
    pub fn set_pan(&mut self, pan: i8)
        requires
            old(self).wf(),
        ensures
            final(self).wf(),
            final(self)@ == old(self)@.with_pan(pan as int),
    {
        let pan = if pan > MAX_I4 { MAX_I4 } else if pan < -MAX_I4 { -MAX_I4 } else { pan };
        self.queued_pan = Some(pan);
    }

    /// Sets the mix of tone and noise (clamped to 15), at once.
    pub fn set_noise_mix(&mut self, mix: u8)
        requires
            old(self).wf(),
        ensures
            final(self).wf(),
            final(self)@ == old(self)@.with_noise_mix(mix as int),
    {
        let mix = if mix > MAX_U4 { MAX_U4 } else { mix };
        self.noise_mix = mix;
    }

    /// Sets the pitch from a semitone (C is 0, clamped to 0..11) and an octave
    /// (clamped to 0..10).
    pub fn set_note(&mut self, note: i32, octave: i32)
        requires
            old(self).wf(),
        ensures
            final(self).wf(),
            final(self)@ == old(self)@.with_frequency(midi_frequency(note_code(
                if note < 0 { 0 } else if note > 11 { 11 } else { note as int },
                if octave < 0 { 0 } else if octave > 10 { 10 } else { octave as int },
            ))),
    {
        let midi_note = get_midi_note(note, octave);
        self.set_midi_note(midi_note);
    }

    /// Sets the pitch from a MIDI code (C4 is 60), saturating at the codes that
    /// `Note` covers.
    pub fn set_midi_note(&mut self, note: u8)
        requires
            old(self).wf(),
        ensures
            final(self).wf(),
            final(self)@ == old(self)@.with_frequency(midi_frequency(clamp_note_code(note as int))),
    {
        let code = if note < NOTE_CODE_MIN { NOTE_CODE_MIN } else if note > NOTE_CODE_MAX { NOTE_CODE_MAX } else { note };
        let frequency = midi_frequency_of(code);
        self.set_frequency(frequency);
    }

    /// Sets the frequency, in millihertz, quantized onto the ladder.
    pub fn set_frequency(&mut self, frequency: u32)
        requires
            old(self).wf(),
        ensures
            final(self).wf(),
            final(self)@ == old(self)@.with_frequency(frequency as int),
    {
        self.frequency = quantize_frequency(frequency);
    }

    /// Recomputes the pan multipliers from the committed pan.
    fn calculate_multipliers(&mut self)
        requires
            -MAX_I4 <= old(self).pan <= MAX_I4,
        ensures
            final(self)@ == old(self)@,
            final(self).left_mult == MAX_I4 - old(self).pan,
            final(self).right_mult == MAX_I4 + old(self).pan,
            final(self).pan == old(self).pan,
    {
        self.left_mult = (MAX_I4 - self.pan) as u8;
        self.right_mult = (MAX_I4 + self.pan) as u8;
    }

    /// Produces one sample and advances the phase by one sample at `sample_rate`.
    /// `white_noise` and `lfsr_noise` are fractions of 65536.
    pub fn next_sample(&mut self, sample_rate: u32, white_noise: u16, lfsr_noise: u16) -> (r: Tick)
        requires
            old(self).wf(),
            sample_rate > 0,
        ensures
            final(self).wf(),
            final(self)@ == old(self)@.advance(sample_rate as int, white_noise as int, lfsr_noise as int),
            r@ == old(self)@.output(white_noise as int, lfsr_noise as int),
    {
        let ghost start = self@;
        let sample_index: usize = (self.phase / PHASE_PER_INDEX) as usize;
        let mut committed = false;
        if sample_index != self.last_sample_index {
            self.last_sample_index = sample_index;
            if self.cycle_step == 0 {
                if let Some(volume) = self.queued_volume {
                    self.volume = volume;
                    self.queued_volume = None;
                    committed = true;
                }
                if let Some(pan) = self.queued_pan {
                    self.pan = pan;
                    self.queued_pan = None;
                    committed = true;
                }
                if committed {
                    self.calculate_multipliers();
                }
            }
            self.noise_out = if white_noise < NOISE_HALF { -1 } else { 1 };
            let sample: u8 = match self.wave_mode {
                WaveMode::WaveTable => {
                    let level = self.wavetable[sample_index];
                    if level > MAX_U4 { MAX_U4 } else { level }
                },
                WaveMode::Random1Bit => if lfsr_noise < NOISE_HALF { 0 } else { MAX_U4 },
                WaveMode::RandomSample => (lfsr_noise / NOISE_PER_LEVEL) as u8,
            };
            if sample != self.last_sample {
                self.wave_out = 2 * (sample as i8) - 15;
                self.last_sample = sample;
            }
        }
        assert(self@ == start.committed().refreshed(white_noise as int, lfsr_noise as int));
        let noise_mix = self.noise_mix as i32;
        let wave_out = self.wave_out as i32;
        let noise_out = self.noise_out as i32;
        assert(-225 <= wave_out * (15 - noise_mix) <= 225 && -225 <= 15 * noise_out * noise_mix <= 225)
            by (nonlinear_arith)
            requires
                -15 <= wave_out <= 15,
                -1 <= noise_out <= 1,
                0 <= noise_mix <= 15,
        ;
        let mix: i32 = wave_out * (15 - noise_mix) + 15 * noise_out * noise_mix;
        let tick = Tick {
            mix,
            volume: self.volume,
            left: self.left_mult,
            right: self.right_mult,
            committed,
        };
        let increment: u64 = (self.frequency as u64) * PHASE_ONE / ((sample_rate as u64) * 1000);
        let sum: u64 = self.phase as u64 + increment;
        if sum >= PHASE_ONE {
            self.phase = (sum % PHASE_ONE) as u32;
            self.cycle_step = 0;
        } else {
            self.phase = sum as u32;
            self.cycle_step = if self.cycle_step < u64::MAX { self.cycle_step + 1 } else { self.cycle_step };
        }
        tick
    }
}

impl Default for Channel {
    /// A silent channel: volume and pan pending at 0, a sawtooth wavetable, at C4.
    fn default() -> (r: Self)
        ensures
            r.wf(),
            r@ == ChannelModel::initial(),
    {
        let mut result = Channel {
            wavetable: [0, 1, 2, 3, 4, 5, 6, 7, 8, 9, 10, 11, 12, 13, 14, 15],
            wave_mode: WaveMode::WaveTable,
            volume: 0,
            pan: 0,
            noise_mix: 0,
            queued_volume: None,
            queued_pan: None,
            wave_out: 0,
            noise_out: 0,
            left_mult: 7,
            right_mult: 7,
            frequency: 0,
            phase: 0,
            last_sample_index: 0,
            last_sample: 0,
            cycle_step: 0,
        };
        result.set_volume(0);
        result.set_pan(0);
        result.set_noise_mix(0);
        result.set_note(0, 4);
        assert(result@.wavetable =~= ChannelModel::initial().wavetable);
        result
    }
}

} // verus!
