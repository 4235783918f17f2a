//! Verified core of a Game Boy emulator: the CPU instruction set over an
//! explicit machine-state model, and the adaptive audio resampler that
//! bridges the emulated sound source and the host audio output.

pub mod cpu;
pub mod resampler;
