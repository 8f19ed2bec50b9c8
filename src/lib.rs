//! One voice of a software sound chip: a wavetable and noise oscillator with 4-bit
//! volume, pan and noise mix, volume and pan changes held back to the start of a
//! waveform period, and a coarse frequency ladder.

pub mod channel;
pub mod laws;
pub mod note;
pub mod tuning;
