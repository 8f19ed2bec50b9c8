use soundchip::channel::{Channel, Tick, WaveMode};

fn run(c: &mut Channel, n: usize, white: u16, lfsr: u16) -> Vec<Tick> {
    let mut out = Vec::new();
    for _ in 0..n {
        out.push(c.next_sample(44100, white, lfsr));
    }
    out
}

#[test]
fn default_channel_is_silent_at_c4() {
    let c = Channel::default();
    assert_eq!(c.volume(), 0);
    assert_eq!(c.pan(), 0);
    assert_eq!(c.noise_mix(), 0);
    assert_eq!(c.frequency(), 262000);
    assert_eq!(c.wave_mode, WaveMode::WaveTable);
    assert_eq!(c.wavetable, [0, 1, 2, 3, 4, 5, 6, 7, 8, 9, 10, 11, 12, 13, 14, 15]);
}

#[test]
fn volume_is_deferred_until_commit_point() {
    let mut c = Channel::default();
    c.set_volume(15);
    assert_eq!(c.volume(), 0);
    let ticks = run(&mut c, 169, 0, 0);
    assert!(ticks.iter().all(|t| t.volume == 0 && !t.committed));
    assert_eq!(c.volume(), 0);
    let t = c.next_sample(44100, 0, 0);
    assert!(t.committed);
    assert_eq!(c.volume(), 15);
}

#[test]
fn scenario_default_channel_at_full_volume() {
    let mut c = Channel::default();
    c.set_volume(15);
    let ticks = run(&mut c, 400, 0, 0);
    // Silent until the first index crossing after a wrap.
    for t in &ticks[..169] {
        assert_eq!(t.volume, 0);
    }
    // The very first sample has not crossed an index yet.
    assert_eq!(ticks[0].mix, 0);
    let t = ticks[169];
    assert_eq!(t, Tick { mix: -225, volume: 15, left: 7, right: 7, committed: true });
    // The sawtooth climbs by 2/15 per index: -225, -195, -165, ...
    assert_eq!(ticks[178].mix, -225);
    assert_eq!(ticks[179].mix, -195);
    assert_eq!(ticks[190].mix, -165);
    for t in &ticks[170..] {
        assert_eq!(t.volume, 15);
        assert_eq!((t.left, t.right), (7, 7));
        assert!(!t.committed);
    }
}

fn committed_channel_with_pan(pan: i8) -> Tick {
    let mut c = Channel::default();
    c.set_volume(15);
    c.set_pan(pan);
    run(&mut c, 170, 0, 0)[169]
}

#[test]
fn pan_full_right() {
    let t = committed_channel_with_pan(7);
    assert_eq!((t.left, t.right), (0, 14));
}

#[test]
fn pan_full_left() {
    let t = committed_channel_with_pan(-7);
    assert_eq!((t.left, t.right), (14, 0));
}

#[test]
fn pan_center() {
    let t = committed_channel_with_pan(0);
    assert_eq!((t.left, t.right), (7, 7));
}

#[test]
fn pan_out_of_range_is_clamped() {
    let t = committed_channel_with_pan(100);
    assert_eq!((t.left, t.right), (0, 14));
    let t = committed_channel_with_pan(-100);
    assert_eq!((t.left, t.right), (14, 0));
}

#[test]
fn volume_and_noise_mix_are_clamped() {
    let mut c = Channel::default();
    c.set_noise_mix(200);
    assert_eq!(c.noise_mix(), 15);
    c.set_volume(200);
    run(&mut c, 170, 0, 0);
    assert_eq!(c.volume(), 15);
}

#[test]
fn noise_mix_zero_ignores_noise() {
    let mut a = Channel::default();
    let mut b = Channel::default();
    a.set_volume(15);
    b.set_volume(15);
    let ta = run(&mut a, 400, 0, 0);
    let tb = run(&mut b, 400, 65535, 40000);
    assert_eq!(ta, tb);
}

#[test]
fn noise_mix_full_ignores_wavetable() {
    let mut a = Channel::default();
    let mut b = Channel::default();
    b.wavetable = [15, 3, 9, 0, 7, 7, 1, 12, 2, 5, 15, 0, 8, 4, 11, 6];
    a.set_noise_mix(15);
    b.set_noise_mix(15);
    let ta = run(&mut a, 400, 50000, 0);
    let tb = run(&mut b, 400, 50000, 0);
    assert_eq!(ta, tb);
    assert_eq!(ta[20].mix, 225);
    let ta = run(&mut a, 400, 100, 0);
    assert_eq!(ta[399].mix, -225);
}

#[test]
fn noise_mix_halfway_blends() {
    let mut c = Channel::default();
    c.set_noise_mix(5);
    // Before the first crossing tone and noise are both 0.
    assert_eq!(c.next_sample(44100, 65535, 0).mix, 0);
    let ticks = run(&mut c, 11, 65535, 0);
    // Index 1 of the sawtooth is -13/15, noise is 1: (-13 * 10 + 15 * 5) / 225.
    assert_eq!(ticks[10].mix, -13 * 10 + 15 * 5);
}

#[test]
fn wavetable_entries_above_fifteen_read_as_fifteen() {
    let mut c = Channel::default();
    c.wavetable = [200; 16];
    let ticks = run(&mut c, 20, 0, 0);
    assert_eq!(ticks[19].mix, 225);
}

#[test]
fn random_one_bit_mode() {
    let mut c = Channel::default();
    c.wave_mode = WaveMode::Random1Bit;
    let ticks = run(&mut c, 20, 0, 40000);
    assert_eq!(ticks[19].mix, 225);
    let ticks = run(&mut c, 20, 0, 100);
    assert_eq!(ticks[19].mix, -225);
}

#[test]
fn random_sample_mode() {
    let mut c = Channel::default();
    c.wave_mode = WaveMode::RandomSample;
    // 8192 / 4096 is level 2: (2 * 2 - 15) * 15.
    let ticks = run(&mut c, 20, 0, 8192);
    assert_eq!(ticks[19].mix, -165);
}

#[test]
fn frequency_is_quantized() {
    let mut c = Channel::default();
    c.set_frequency(261_625);
    assert_eq!(c.frequency(), 262000);
    c.set_frequency(999);
    assert_eq!(c.frequency(), 0);
    c.set_frequency(1000);
    assert_eq!(c.frequency(), 2000);
    c.set_frequency(u32::MAX);
    assert_eq!(c.frequency(), 16_384_000);
    let mut last = 0;
    for x in (0..20_000_000u32).step_by(7919) {
        c.set_frequency(x);
        let f = c.frequency();
        assert_eq!(f % 2000, 0);
        assert!(f <= 16_384_000);
        assert!(f >= last);
        last = f;
    }
}

#[test]
fn set_note_and_midi_note() {
    let mut c = Channel::default();
    c.set_note(9, 4);
    assert_eq!(c.frequency(), 440000);
    c.set_midi_note(69);
    assert_eq!(c.frequency(), 440000);
    c.set_midi_note(0);
    assert_eq!(c.frequency(), 16000);
    c.set_note(-3, -1);
    assert_eq!(c.frequency(), 16000);
    c.set_note(20, 20);
    assert_eq!(c.frequency(), 16_384_000);
}

#[test]
fn cycle_wraps_once_per_period() {
    // A sawtooth at full volume shows its index in the mix; a fall from the top
    // index to the bottom is one period.
    let mut c = Channel::default();
    c.set_volume(15);
    let ticks = run(&mut c, 44100, 0, 0);
    let mut periods = 0;
    for w in ticks.windows(2) {
        if w[0].mix == 225 && w[1].mix == -225 {
            periods += 1;
        }
    }
    assert_eq!(periods, 261);
}
