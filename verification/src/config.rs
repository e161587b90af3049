//! Configuration values that the engine reads.
use vstd::prelude::*;
use vstd::arithmetic::power2::{pow2, lemma2_to64};

verus! {

/// Window settings.
pub struct WindowConfig {
    pub width: u32,
    pub height: u32,
    pub fullscreen: bool,
    pub vsync: bool,
    pub target_fps: u32,
}

/// Where audio is captured from.
#[derive(Clone, Copy, PartialEq, Eq, Debug, Structural)]
pub enum AudioInput {
    Mic,
    /// system audio loopback.
    Loopback,
}

/// FFT sizes the analyzer accepts; each is a power of two.
#[derive(Clone, Copy, PartialEq, Eq, Debug, Structural)]
pub enum FftSize {
    S512,
    S1024,
    S2048,
    S4096,
}

/// The number of points of an FFT size.
pub open spec fn fft_points(size: FftSize) -> nat {
    match size {
        FftSize::S512 => 512,
        FftSize::S1024 => 1024,
        FftSize::S2048 => 2048,
        FftSize::S4096 => 4096,
    }
}

impl FftSize {
    pub fn as_usize(self) -> (n: usize)
        ensures
            n == fft_points(self),
    {
        match self {
            FftSize::S512 => 512,
            FftSize::S1024 => 1024,
            FftSize::S2048 => 2048,
            FftSize::S4096 => 4096,
        }
    }
}

/// MSAA sample counts that the GPU accepts.
#[derive(Clone, Copy, PartialEq, Eq, Debug, Structural)]
pub enum MsaaSamples {
    S1,
    S2,
    S4,
    S8,
}

/// The sample count of an MSAA setting.
pub open spec fn msaa_count(samples: MsaaSamples) -> nat {
    match samples {
        MsaaSamples::S1 => 1,
        MsaaSamples::S2 => 2,
        MsaaSamples::S4 => 4,
        MsaaSamples::S8 => 8,
    }
}

impl MsaaSamples {
    pub fn as_u32(self) -> (n: u32)
        ensures
            n == msaa_count(self),
    {
        match self {
            MsaaSamples::S1 => 1,
            MsaaSamples::S2 => 2,
            MsaaSamples::S4 => 4,
            MsaaSamples::S8 => 8,
        }
    }
}

/// Every FFT size is a power of two, as the analyzer's FFT needs.
pub proof fn fft_size_is_power_of_two(size: FftSize)
    ensures
        exists|k: nat| k <= 12 && #[trigger] pow2(k) == fft_points(size),
{
    lemma2_to64();
    match size {
        FftSize::S512 => assert(pow2(9) == fft_points(size)),
        FftSize::S1024 => assert(pow2(10) == fft_points(size)),
        FftSize::S2048 => assert(pow2(11) == fft_points(size)),
        FftSize::S4096 => assert(pow2(12) == fft_points(size)),
    }
}

/// Every MSAA setting is a power of two no larger than 8.
pub proof fn msaa_is_power_of_two(samples: MsaaSamples)
    ensures
        exists|k: nat| k <= 3 && #[trigger] pow2(k) == msaa_count(samples),
{
    lemma2_to64();
    match samples {
        MsaaSamples::S1 => assert(pow2(0) == msaa_count(samples)),
        MsaaSamples::S2 => assert(pow2(1) == msaa_count(samples)),
        MsaaSamples::S4 => assert(pow2(2) == msaa_count(samples)),
        MsaaSamples::S8 => assert(pow2(3) == msaa_count(samples)),
    }
}

/// Scripting settings.
pub struct ScriptConfig {
    pub lua_enabled: bool,
    pub wasm_enabled: bool,
    pub script_dir: String,
}

/// MIDI, OSC and gamepad settings.
pub struct IoConfig {
    pub midi_enabled: bool,
    pub osc_enabled: bool,
    pub osc_port: u16,
    pub gamepad_enabled: bool,
}

} // verus!
