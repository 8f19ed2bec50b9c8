use vstd::prelude::*;

use vstd::arithmetic::div_mod::{lemma_fundamental_div_mod, lemma_fundamental_div_mod_converse};

use crate::channel::{
    crossfade, phase_increment, ChannelModel, WaveMode, MAX_I4, MAX_U4, PHASE_ONE, PHASE_PER_INDEX,
};
use crate::tuning::{lemma_quantize_monotonic, lemma_quantize_on_ladder, on_ladder};

verus! {

/// Whether a noise value is a fraction of 65536.
pub open spec fn noise_in_range(noise: int) -> bool {
    0 <= noise < 65536
}

/// The state after `k` samples at a fixed sample rate and fixed noise values.
pub open spec fn run(
    m: ChannelModel,
    sample_rate: int,
    white_noise: int,
    lfsr_noise: int,
    k: nat,
) -> ChannelModel
    decreases k,
{
    if k == 0 {
        m
    } else {
        run(m, sample_rate, white_noise, lfsr_noise, (k - 1) as nat).advance(sample_rate, white_noise, lfsr_noise)
    }
}

/// One sample keeps a channel well formed, and leaves its wavetable and frequency.
pub proof fn lemma_advance_wf(m: ChannelModel, sample_rate: int, white_noise: int, lfsr_noise: int)
    requires
        m.wf(),
        sample_rate > 0,
        noise_in_range(white_noise),
        noise_in_range(lfsr_noise),
    ensures
        m.advance(sample_rate, white_noise, lfsr_noise).wf(),
        m.advance(sample_rate, white_noise, lfsr_noise).frequency == m.frequency,
        m.advance(sample_rate, white_noise, lfsr_noise).wavetable == m.wavetable,
{
    let s = m.committed().refreshed(white_noise, lfsr_noise);
    assert(s.wf());
    let inc = phase_increment(m.frequency, sample_rate);
    assert(inc >= 0) by (nonlinear_arith)
        requires
            inc == m.frequency * PHASE_ONE / (sample_rate * 1000),
            m.frequency >= 0,
            sample_rate > 0,
    ;
}

/// Setting the volume only queues it: the committed volume stays until the next
/// commit point, where it becomes the new volume exactly.
pub proof fn lemma_volume_deferred(
    m: ChannelModel,
    volume: int,
    sample_rate: int,
    white_noise: int,
    lfsr_noise: int,
)
    requires
        m.wf(),
        0 <= volume <= MAX_U4,
    ensures
        m.with_volume(volume).volume == m.volume,
        m.with_volume(volume).advance(sample_rate, white_noise, lfsr_noise).volume == if m.with_volume(
            volume,
        ).is_commit_point() {
            volume
        } else {
            m.volume
        },
        !m.with_volume(volume).is_commit_point() ==> m.with_volume(volume).advance(
            sample_rate,
            white_noise,
            lfsr_noise,
        ).queued_volume == Some(volume),
        m.with_volume(volume).is_commit_point() ==> m.with_volume(volume).advance(
            sample_rate,
            white_noise,
            lfsr_noise,
        ).queued_volume is None,
{
}

/// Once a pan is committed the two multipliers add up to one: full right is 0 and 1,
/// full left 1 and 0, center one half each.
pub proof fn lemma_pan_symmetry(m: ChannelModel, pan: int, white_noise: int, lfsr_noise: int)
    requires
        m.wf(),
        -MAX_I4 <= pan <= MAX_I4,
        m.queued_pan == Some(pan),
        m.is_commit_point(),
    ensures
        m.output(white_noise, lfsr_noise).left == MAX_I4 - pan,
        m.output(white_noise, lfsr_noise).right == MAX_I4 + pan,
        m.output(white_noise, lfsr_noise).left + m.output(white_noise, lfsr_noise).right == 14,
        pan == 7 ==> m.output(white_noise, lfsr_noise).left == 0 && m.output(
            white_noise,
            lfsr_noise,
        ).right == 14,
        pan == -7 ==> m.output(white_noise, lfsr_noise).left == 14 && m.output(
            white_noise,
            lfsr_noise,
        ).right == 0,
        pan == 0 ==> m.output(white_noise, lfsr_noise).left == 7 && m.output(
            white_noise,
            lfsr_noise,
        ).right == 7,
{
}

/// Setting a frequency always lands on the ladder, and higher requests never give
/// lower frequencies.
pub proof fn lemma_frequency_quantized(m: ChannelModel, a: int, b: int)
    requires
        0 <= a <= b,
    ensures
        on_ladder(m.with_frequency(a).frequency),
        on_ladder(m.with_frequency(b).frequency),
        m.with_frequency(a).frequency <= m.with_frequency(b).frequency,
{
    lemma_quantize_on_ladder(a);
    lemma_quantize_on_ladder(b);
    lemma_quantize_monotonic(a, b);
}

/// With no noise mixed in, a wavetable channel's output does not depend on the noise
/// streams.
pub proof fn lemma_no_noise_mix_ignores_noise(
    m: ChannelModel,
    white_a: int,
    lfsr_a: int,
    white_b: int,
    lfsr_b: int,
)
    requires
        m.wf(),
        m.noise_mix == 0,
        m.wave_mode == WaveMode::WaveTable,
    ensures
        m.output(white_a, lfsr_a) == m.output(white_b, lfsr_b),
{
}

/// With noise mixed in fully, the output does not depend on the wavetable.
pub proof fn lemma_full_noise_mix_ignores_wavetable(
    m: ChannelModel,
    wavetable: Seq<u8>,
    white_noise: int,
    lfsr_noise: int,
)
    requires
        m.wf(),
        wavetable.len() == m.wavetable.len(),
        m.noise_mix == MAX_U4,
    ensures
        (ChannelModel { wavetable, ..m }).output(white_noise, lfsr_noise) == m.output(
            white_noise,
            lfsr_noise,
        ),
{
    let a = (ChannelModel { wavetable, ..m }).committed().refreshed(white_noise, lfsr_noise);
    let b = m.committed().refreshed(white_noise, lfsr_noise);
    assert(a.noise_out == b.noise_out && a.noise_mix == 15 && b.noise_mix == 15);
    assert(crossfade(a.wave_out, a.noise_out, 15) == 225 * a.noise_out) by (nonlinear_arith);
    assert(crossfade(b.wave_out, b.noise_out, 15) == 225 * b.noise_out) by (nonlinear_arith);
}

/// After `k` samples at a fixed frequency the phase is the start phase plus `k`
/// increments, modulo one full cycle; so the wavetable index runs through the table
/// once per cycle of the phase.
pub proof fn lemma_phase_after(
    m: ChannelModel,
    sample_rate: int,
    white_noise: int,
    lfsr_noise: int,
    k: nat,
)
    requires
        m.wf(),
        sample_rate > 0,
        noise_in_range(white_noise),
        noise_in_range(lfsr_noise),
    ensures
        run(m, sample_rate, white_noise, lfsr_noise, k).wf(),
        run(m, sample_rate, white_noise, lfsr_noise, k).frequency == m.frequency,
        run(m, sample_rate, white_noise, lfsr_noise, k).phase == (m.phase + k * phase_increment(
            m.frequency,
            sample_rate,
        )) % PHASE_ONE as int,
        run(m, sample_rate, white_noise, lfsr_noise, k).index() == ((m.phase + k * phase_increment(
            m.frequency,
            sample_rate,
        )) % PHASE_ONE as int) / PHASE_PER_INDEX as int,
    decreases k,
{
    if k > 0 {
        let prev = run(m, sample_rate, white_noise, lfsr_noise, (k - 1) as nat);
        lemma_phase_after(m, sample_rate, white_noise, lfsr_noise, (k - 1) as nat);
        lemma_advance_wf(prev, sample_rate, white_noise, lfsr_noise);
        lemma_wrap_step(m.phase, phase_increment(m.frequency, sample_rate), (k - 1) as nat);
    }
}

/// One more increment on the accumulated phase `start + k * inc`: its remainder
/// modulo a full cycle, and whether the count of whole cycles grows.
proof fn lemma_wrap_step(start: int, inc: int, k: nat)
    requires
        0 <= start,
        0 <= inc,
    ensures
        ({
            let p = PHASE_ONE as int;
            let x = start + k * inc;
            let y = start + (k + 1) * inc;
            &&& (x % p + inc) % p == y % p
            &&& (x % p + inc >= p) == (y / p > x / p)
        }),
{
    let p = PHASE_ONE as int;
    let x = start + k * inc;
    let y = start + (k + 1) * inc;
    assert(y == x + inc) by (nonlinear_arith)
        requires
            x == start + k * inc,
            y == start + (k + 1) * inc,
    ;
    assert(x >= 0) by (nonlinear_arith)
        requires
            x == start + k * inc,
            start >= 0,
            inc >= 0,
            k >= 0,
    ;
    lemma_fundamental_div_mod(x, p);
    let q = x / p;
    let r = x % p;
    let s = r + inc;
    lemma_fundamental_div_mod(s, p);
    let a = s / p;
    let b = s % p;
    assert(y == (q + a) * p + b) by (nonlinear_arith)
        requires
            y == x + inc,
            x == p * q + r,
            s == r + inc,
            s == p * a + b,
    ;
    lemma_fundamental_div_mod_converse(y, p, q + a, b);
    assert(a >= 0) by (nonlinear_arith)
        requires
            s == p * a + b,
            s >= 0,
            0 <= b < p,
    ;
    if s >= p {
        assert(a >= 1) by (nonlinear_arith)
            requires
                s == p * a + b,
                s >= p,
                0 <= b < p,
        ;
    } else {
        assert(a == 0) by (nonlinear_arith)
            requires
                s == p * a + b,
                0 <= s < p,
                0 <= b < p,
        ;
    }
}

/// The cycle step returns to 0 exactly on the samples where the accumulated phase
/// passes a whole cycle: once per period, or more at frequencies above the sample rate.
pub proof fn lemma_cycle_step_resets_on_wrap(
    m: ChannelModel,
    sample_rate: int,
    white_noise: int,
    lfsr_noise: int,
    k: nat,
)
    requires
        m.wf(),
        sample_rate > 0,
        noise_in_range(white_noise),
        noise_in_range(lfsr_noise),
    ensures
        (run(m, sample_rate, white_noise, lfsr_noise, k + 1).cycle_step == 0) == ((m.phase + (k + 1)
            * phase_increment(m.frequency, sample_rate)) / PHASE_ONE as int > (m.phase + k
            * phase_increment(m.frequency, sample_rate)) / PHASE_ONE as int),
{
    let inc = phase_increment(m.frequency, sample_rate);
    lemma_phase_after(m, sample_rate, white_noise, lfsr_noise, k);
    let prev = run(m, sample_rate, white_noise, lfsr_noise, k);
    lemma_advance_wf(prev, sample_rate, white_noise, lfsr_noise);
    assert(inc >= 0) by (nonlinear_arith)
        requires
            inc == m.frequency * PHASE_ONE / (sample_rate * 1000),
            m.frequency >= 0,
            sample_rate > 0,
    ;
    lemma_wrap_step(m.phase, inc, k);
    assert(run(m, sample_rate, white_noise, lfsr_noise, (k + 1) as nat) == prev.advance(sample_rate, white_noise, lfsr_noise));
}

} // verus!
